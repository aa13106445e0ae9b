//! Vehicles: spawn placement at the four approaches, the per-tick movement
//! step, the exit test, zone-membership tests, and the collision rule that
//! decides whether a forward step is legal.

use vstd::prelude::*;

use rand::Rng;

use crate::geometry::{rects_overlap, shifted_overlap, Rect};
use crate::lights::GreenLight;
use crate::view::Intersection;

verus! {

/// Side length of every vehicle's bounding box.
pub const VEHICLE_SIZE: i32 = 25;

/// A vehicle may not step forward into another vehicle's box grown by this
/// margin on all four sides.
pub const SAFETY_MARGIN: i32 = 13;

/// The edge a vehicle currently treats as its reference axis of travel:
/// a vehicle with approach Top travels towards +y, Right towards -x,
/// Bottom towards -y, and Left towards +x. A turn changes the approach
/// mid-flight.
#[derive(Clone, Copy, PartialEq, Eq, Structural, Debug)]
pub enum Position {
    Top,
    Right,
    Bottom,
    Left,
}

/// A vehicle's turn intent, fixed at creation.
#[derive(Clone, Copy, PartialEq, Eq, Structural, Debug)]
pub enum Direction {
    Straight,
    Right,
    Left,
}

/// Cosmetic classification, derived from the turn intent alone; carries no
/// behavioral weight.
#[derive(Clone, Copy, PartialEq, Eq, Structural, Debug)]
pub enum VehicleColor {
    Orange,
    Cyan,
    Magenta,
}

/// A vehicle: bounding box, current approach, fixed turn intent, and whether
/// its turn decision has already been resolved.
#[derive(Clone, Copy, PartialEq, Eq, Structural, Debug)]
pub struct Vehicle {
    pub x: i32,
    pub y: i32,
    pub width: i32,
    pub height: i32,
    pub color: VehicleColor,
    pub start: Position,
    pub decision_made: bool,
    pub direction: Direction,
}

/// Per-approach spawn cooldown counters, each counting down to zero.
#[derive(Clone, Copy, PartialEq, Eq, Structural, Debug)]
pub struct CoolDown {
    pub top: u32,
    pub right: u32,
    pub bottom: u32,
    pub left: u32,
}

/// Horizontal displacement of one forward step along approach `p`.
pub open spec fn spec_dx(p: Position) -> int {
    match p {
        Position::Top => 0,
        Position::Right => -1,
        Position::Bottom => 0,
        Position::Left => 1,
    }
}

/// Vertical displacement of one forward step along approach `p`.
pub open spec fn spec_dy(p: Position) -> int {
    match p {
        Position::Top => 1,
        Position::Right => 0,
        Position::Bottom => -1,
        Position::Left => 0,
    }
}

/// The color a vehicle is classified with, from its turn intent alone.
pub open spec fn spec_color(d: Direction) -> VehicleColor {
    match d {
        Direction::Straight => VehicleColor::Orange,
        Direction::Right => VehicleColor::Cyan,
        Direction::Left => VehicleColor::Magenta,
    }
}

/// Entry x coordinate for a vehicle spawned at approach `start`: vertical
/// approaches enter centered on their half-lane, Right enters flush against
/// the right screen edge, Left flush against the left edge.
pub open spec fn spawn_x(w: Intersection, start: Position) -> int {
    match start {
        Position::Top => w.center.x - w.road_size / 2 - VEHICLE_SIZE / 2,
        Position::Right => w.width - VEHICLE_SIZE,
        Position::Bottom => w.center.x + w.road_size / 2 - VEHICLE_SIZE / 2,
        Position::Left => 0,
    }
}

/// Entry y coordinate for a vehicle spawned at approach `start`.
pub open spec fn spawn_y(w: Intersection, start: Position) -> int {
    match start {
        Position::Top => 0,
        Position::Right => w.center.y - w.road_size / 2 - VEHICLE_SIZE / 2,
        Position::Bottom => w.height - VEHICLE_SIZE,
        Position::Left => w.center.y + w.road_size / 2 - VEHICLE_SIZE / 2,
    }
}

/// `nv` is exactly the vehicle that spawning at `start` with intent `d`
/// creates in world `w`.
pub open spec fn is_spawn(nv: Vehicle, w: Intersection, start: Position, d: Direction) -> bool {
    &&& nv.x == spawn_x(w, start)
    &&& nv.y == spawn_y(w, start)
    &&& nv.width == VEHICLE_SIZE
    &&& nv.height == VEHICLE_SIZE
    &&& nv.start == start
    &&& nv.direction == d
    &&& nv.decision_made == false
    &&& nv.color == spec_color(d)
}

impl Vehicle {
    /// The vehicle's bounding box.
    pub open spec fn rect(self) -> Rect {
        Rect { x: self.x, y: self.y, width: self.width, height: self.height }
    }

    /// The vehicle's box has fully passed the canvas edge it travels towards:
    /// its trailing edge is beyond the boundary on the far side of its
    /// current approach.
    pub open spec fn spec_exited(self, width: int, height: int) -> bool {
        match self.start {
            Position::Top => self.y > height,
            Position::Bottom => self.y + self.height < 0,
            Position::Left => self.x > width,
            Position::Right => self.x + self.width < 0,
        }
    }

    /// A vehicle that has not yet resolved a turn still travels in the lane
    /// it entered by, so its cross-axis coordinate equals the spawn
    /// coordinate of its approach.
    pub open spec fn lane_aligned(self, w: Intersection) -> bool {
        match self.start {
            Position::Top => self.x == spawn_x(w, Position::Top),
            Position::Bottom => self.x == spawn_x(w, Position::Bottom),
            Position::Left => self.y == spawn_y(w, Position::Left),
            Position::Right => self.y == spawn_y(w, Position::Right),
        }
    }

    /// Well-formedness of a live vehicle of world `w`: the standard box size,
    /// coordinates inside the canvas extended by the one step a vehicle takes
    /// past an edge before it is pruned, and lane alignment until a turn is
    /// resolved.
    pub open spec fn wf_in(self, w: Intersection) -> bool {
        &&& self.width == VEHICLE_SIZE
        &&& self.height == VEHICLE_SIZE
        &&& -26 <= self.x <= w.width + 1
        &&& -26 <= self.y <= w.height + 1
        &&& (!self.decision_made ==> self.lane_aligned(w))
    }

    /// The vehicle's box has fully passed the far edge of its current
    /// approach, so the engine removes it.
    pub fn has_exited(&self, width: i32, height: i32) -> (r: bool)
        requires
            self.rect().in_range(),
        ensures
            r == self.spec_exited(width as int, height as int),
    {
        match self.start {
            Position::Top => self.y > height,
            Position::Bottom => self.y + self.height < 0,
            Position::Left => self.x > width,
            Position::Right => self.x + self.width < 0,
        }
    }

    /// Zone membership used by the turn resolver: a small central sample of
    /// the vehicle's box overlaps a small central sample of the area.
    pub fn is_in_area(&self, area: &Rect) -> (r: bool)
        requires
            self.rect().well_inside(),
            area.well_inside(),
        ensures
            r == spec_in_area(*self, *area),
    {
        let car_center_x = self.x + self.width / 2;
        let car_center_y = self.y + self.height / 2;
        let area_center_x = area.x + area.width / 2;
        let area_center_y = area.y + area.height / 2;

        let small_car = Rect { x: car_center_x, y: car_center_y, width: 3, height: 3 };
        let small_area = Rect { x: area_center_x, y: area_center_y, width: 3, height: 3 };

        small_area.has_intersection(&small_car)
    }

    /// Zone occupancy used by the light controller's gate: the vehicle's full
    /// box overlaps the area.
    pub fn is_in_area2(&self, area: &Rect) -> (r: bool)
        requires
            self.rect().in_range(),
            area.in_range(),
        ensures
            r == rects_overlap(*area, self.rect()),
    {
        let car = Rect { x: self.x, y: self.y, width: self.width, height: self.height };
        area.has_intersection(&car)
    }
}

/// Zone membership of the turn resolver: the centers of the vehicle's box
/// and of the area lie within 3 units of each other on both axes.
pub open spec fn spec_in_area(v: Vehicle, area: Rect) -> bool {
    let car_cx = v.x + v.width / 2;
    let car_cy = v.y + v.height / 2;
    let area_cx = area.x + area.width / 2;
    let area_cy = area.y + area.height / 2;
    &&& area_cx < car_cx + 3
    &&& car_cx < area_cx + 3
    &&& area_cy < car_cy + 3
    &&& car_cy < area_cy + 3
}

/// The vehicle one forward step later along its current approach.
pub open spec fn spec_step(v: Vehicle) -> Vehicle {
    Vehicle { x: (v.x + spec_dx(v.start)) as i32, y: (v.y + spec_dy(v.start)) as i32, ..v }
}

/// One forward step along approach `p`, as exec displacements.
pub(crate) fn step_dx(p: Position) -> (dx: i32)
    ensures
        dx as int == spec_dx(p),
{
    match p {
        Position::Top => 0,
        Position::Right => -1,
        Position::Bottom => 0,
        Position::Left => 1,
    }
}

/// One forward step along approach `p`, as exec displacements.
pub(crate) fn step_dy(p: Position) -> (dy: i32)
    ensures
        dy as int == spec_dy(p),
{
    match p {
        Position::Top => 1,
        Position::Right => 0,
        Position::Bottom => -1,
        Position::Left => 0,
    }
}

/// Some stop line bound to a phase other than the active one intersects the
/// vehicle's hypothetical next box.
pub open spec fn stop_line_blocked(
    v: Vehicle,
    green: GreenLight,
    stop_lines: [(GreenLight, Rect); 4],
) -> bool {
    exists|k: int|
        0 <= k < 4 && stop_lines[k].0 != green && shifted_overlap(
            v.rect(),
            spec_dx(v.start),
            spec_dy(v.start),
            stop_lines[k].1,
            0,
        )
}

/// Some other live vehicle's current box, grown by the safety margin,
/// intersects the vehicle's hypothetical next box.
pub open spec fn neighbor_blocked(v: Vehicle, vehicles: Seq<Vehicle>, self_index: int) -> bool {
    exists|j: int|
        0 <= j < vehicles.len() && j != self_index && shifted_overlap(
            v.rect(),
            spec_dx(v.start),
            spec_dy(v.start),
            vehicles[j].rect(),
            SAFETY_MARGIN as int,
        )
}

/// The vehicle's forward step is legal: no inactive stop line and no
/// neighbor, judged against the previous tick's snapshot, denies it.
pub open spec fn spec_can_move(
    v: Vehicle,
    vehicles: Seq<Vehicle>,
    self_index: int,
    green: GreenLight,
    stop_lines: [(GreenLight, Rect); 4],
) -> bool {
    !stop_line_blocked(v, green, stop_lines) && !neighbor_blocked(v, vehicles, self_index)
}

impl Vehicle {
    /// Whether this vehicle may take its forward step, judged against the
    /// snapshot `w`: the hypothetical next box must avoid every stop line
    /// whose bound phase is not the active one, and every other vehicle's
    /// current box grown by the safety margin. The vehicle itself is skipped
    /// by its index in the snapshot, never by coincident position.
    #[verifier::loop_isolation(false)]
    pub fn can_move(&self, w: &Intersection, self_index: usize) -> (r: bool)
        requires
            w.wf(),
            self.rect().in_range(),
        ensures
            r == spec_can_move(
                *self,
                w.vehicles@,
                self_index as int,
                w.green_light,
                w.stop_lines,
            ),
    {
        let dx = step_dx(self.start);
        let dy = step_dy(self.start);

        let mut k: usize = 0;
        while k < 4
            invariant
                k <= 4,
                forall|j: int|
                    0 <= j < k ==> !(w.stop_lines[j].0 != w.green_light && shifted_overlap(
                        self.rect(),
                        spec_dx(self.start),
                        spec_dy(self.start),
                        w.stop_lines[j].1,
                        0,
                    )),
            decreases 4 - k,
        {
            let (light, line) = w.stop_lines[k];
            if light != w.green_light {
                if self.x + dx < line.x + line.width && line.x < self.x + dx + self.width && self.y
                    + dy < line.y + line.height && line.y < self.y + dy + self.height {
                    proof {
                        assert(stop_line_blocked(*self, w.green_light, w.stop_lines));
                    }
                    return false;
                }
            }
            k = k + 1;
        }

        let mut i: usize = 0;
        while i < w.vehicles.len()
            invariant
                i <= w.vehicles@.len(),
                forall|j: int|
                    0 <= j < i && j != self_index as int ==> !shifted_overlap(
                        self.rect(),
                        spec_dx(self.start),
                        spec_dy(self.start),
                        w.vehicles@[j].rect(),
                        SAFETY_MARGIN as int,
                    ),
            decreases w.vehicles@.len() - i,
        {
            if i != self_index {
                let other = &w.vehicles[i];
                if self.x + dx < other.x + other.width + SAFETY_MARGIN && other.x - SAFETY_MARGIN
                    < self.x + dx + self.width && self.y + dy < other.y + other.height
                    + SAFETY_MARGIN && other.y - SAFETY_MARGIN < self.y + dy + self.height {
                    proof {
                        assert(neighbor_blocked(*self, w.vehicles@, self_index as int));
                    }
                    return false;
                }
            }
            i = i + 1;
        }

        true
    }
}

/// Relies on rand::thread_rng and rand::Rng::gen_range: sampling from the
/// non-empty range 0..=2 returns a value inside that range.
#[verifier::external_body]
fn random_turn_index() -> (r: u8)
    ensures
        r <= 2,
{
    rand::thread_rng().gen_range(0..=2)
}

impl Vehicle {
    /// Spawns a vehicle at the entry position of `start`, with a turn intent
    /// drawn uniformly at random from the three options and the cosmetic
    /// color derived from that intent.
    pub fn new(w: &Intersection, start: Position) -> (nv: Vehicle)
        requires
            w.wf(),
        ensures
            is_spawn(nv, *w, start, nv.direction),
            nv.wf_in(*w),
    {
        let direction = match random_turn_index() {
            0 => Direction::Left,
            1 => Direction::Straight,
            _ => Direction::Right,
        };
        Vehicle::new_with_direction(w, start, direction)
    }

    /// Spawns a vehicle at the entry position of `start` with the given turn
    /// intent.
    pub fn new_with_direction(w: &Intersection, start: Position, direction: Direction) -> (nv:
        Vehicle)
        requires
            w.wf(),
        ensures
            is_spawn(nv, *w, start, direction),
            nv.wf_in(*w),
    {
        let (x, y): (i32, i32) = match start {
            Position::Top => (w.center.x - w.road_size / 2 - VEHICLE_SIZE / 2, 0),
            Position::Right => (
                w.width - VEHICLE_SIZE,
                w.center.y - w.road_size / 2 - VEHICLE_SIZE / 2,
            ),
            Position::Bottom => (
                w.center.x + w.road_size / 2 - VEHICLE_SIZE / 2,
                w.height - VEHICLE_SIZE,
            ),
            Position::Left => (0, w.center.y + w.road_size / 2 - VEHICLE_SIZE / 2),
        };

        let color = match direction {
            Direction::Straight => VehicleColor::Orange,
            Direction::Right => VehicleColor::Cyan,
            Direction::Left => VehicleColor::Magenta,
        };

        Vehicle {
            x,
            y,
            width: VEHICLE_SIZE,
            height: VEHICLE_SIZE,
            decision_made: false,
            color,
            start,
            direction,
        }
    }
}

} // verus!
