//! The intersection world: the sole mutable aggregate owning the live
//! vehicles, the light controller's state, the spawn cooldowns, and the
//! immutable decision-zone and stop-line tables, together with the per-tick
//! engine operations.

use vstd::prelude::*;

use crate::geometry::{rects_overlap, shifted_overlap, Point, Rect};
use crate::lights::{light_step, next_light, GreenLight, LightState, MINIMUM_LIGHT_TIME};
use crate::vehicle::{
    is_spawn, spec_can_move, spec_dx, spec_dy, spec_in_area, spec_step, step_dx, step_dy,
    stop_line_blocked, CoolDown, Direction, Position, Vehicle, SAFETY_MARGIN,
};

verus! {

/// Ticks an approach's cooldown is reset to when a spawn is honored.
pub const SPAWN_COOLDOWN: u32 = 90;

/// The phase that is green when the world is built.
pub const INITIAL_LIGHT: GreenLight = GreenLight::BottomLeft;

/// The four quadrant decision zones, one per corner of the intersection.
#[derive(Clone, Copy, PartialEq, Eq, Structural, Debug)]
pub enum DecisionAreas {
    TopLeft,
    TopRight,
    BottomRight,
    BottomLeft,
}

/// The whole simulation state.
#[derive(Debug)]
pub struct Intersection {
    pub vehicles: Vec<Vehicle>,
    pub green_light: GreenLight,
    pub width: i32,
    pub height: i32,
    pub center: Point,
    pub road_size: i32,
    pub cool_downs: CoolDown,
    pub light_timer: usize,
    pub minimum_light_time_passed: bool,
    pub decision_areas: [(DecisionAreas, Rect); 4],
    pub stop_lines: [(GreenLight, Rect); 4],
}

/// The phase whose green signal lets traffic across zone `area` pass: the
/// phase one step ahead of the zone in rotation order. A zone's stop line is
/// bound to this phase, so it governs the conflicting cross-traffic's entry,
/// not the zone's own occupants.
pub open spec fn spec_area_light(area: DecisionAreas) -> GreenLight {
    match area {
        DecisionAreas::TopLeft => GreenLight::TopRight,
        DecisionAreas::TopRight => GreenLight::BottomRight,
        DecisionAreas::BottomRight => GreenLight::BottomLeft,
        DecisionAreas::BottomLeft => GreenLight::TopLeft,
    }
}

/// `rc` is the decision zone of quadrant `kind` for intersection center
/// `(cx, cy)` and road half-width `r`: the four zones tile the `2r` by `2r`
/// square around the center.
pub open spec fn is_zone_rect(rc: Rect, cx: int, cy: int, r: int, kind: DecisionAreas) -> bool {
    match kind {
        DecisionAreas::TopLeft => rc.x == cx - r && rc.y == cy - r && rc.width == r && rc.height
            == r,
        DecisionAreas::TopRight => rc.x == cx && rc.y == cy - r && rc.width == r && rc.height == r,
        DecisionAreas::BottomLeft => rc.x == cx - r && rc.y == cy && rc.width == r && rc.height
            == r,
        DecisionAreas::BottomRight => rc.x == cx && rc.y == cy && rc.width == r && rc.height == r,
    }
}

/// `rc` is the stop line associated with the zone of quadrant `kind`: a thin
/// rectangle, 20 units across the direction of travel, positioned just
/// outside the zone on the side vehicles cross before entering it.
pub open spec fn is_stop_rect(rc: Rect, cx: int, cy: int, r: int, kind: DecisionAreas) -> bool {
    match kind {
        DecisionAreas::TopLeft => rc.x == cx + r - 5 && rc.y == cy - r && rc.width == 20
            && rc.height == r,
        DecisionAreas::TopRight => rc.x == cx && rc.y == cy + r - 5 && rc.width == r && rc.height
            == 20,
        DecisionAreas::BottomLeft => rc.x == cx - r && rc.y == cy - r - 15 && rc.width == r
            && rc.height == 20,
        DecisionAreas::BottomRight => rc.x == cx - r - 15 && rc.y == cy && rc.width == 20
            && rc.height == r,
    }
}

impl Intersection {
    /// The light controller's state, as carried by this world.
    pub open spec fn light_of(self) -> LightState {
        LightState {
            phase: self.green_light,
            timer: self.light_timer,
            passed: self.minimum_light_time_passed,
        }
    }

    /// The decision-zone table holds the four quadrant zones, in the fixed
    /// order TopLeft, TopRight, BottomLeft, BottomRight.
    pub open spec fn zones_wf(self) -> bool {
        let cx = self.center.x as int;
        let cy = self.center.y as int;
        let r = self.road_size as int;
        &&& self.decision_areas[0].0 == DecisionAreas::TopLeft
        &&& is_zone_rect(self.decision_areas[0].1, cx, cy, r, DecisionAreas::TopLeft)
        &&& self.decision_areas[1].0 == DecisionAreas::TopRight
        &&& is_zone_rect(self.decision_areas[1].1, cx, cy, r, DecisionAreas::TopRight)
        &&& self.decision_areas[2].0 == DecisionAreas::BottomLeft
        &&& is_zone_rect(self.decision_areas[2].1, cx, cy, r, DecisionAreas::BottomLeft)
        &&& self.decision_areas[3].0 == DecisionAreas::BottomRight
        &&& is_zone_rect(self.decision_areas[3].1, cx, cy, r, DecisionAreas::BottomRight)
    }

    /// The stop-line table holds one line per zone, each bound to the phase
    /// that governs the crossing traffic of that zone.
    pub open spec fn stop_lines_wf(self) -> bool {
        let cx = self.center.x as int;
        let cy = self.center.y as int;
        let r = self.road_size as int;
        &&& self.stop_lines[0].0 == spec_area_light(DecisionAreas::TopLeft)
        &&& is_stop_rect(self.stop_lines[0].1, cx, cy, r, DecisionAreas::TopLeft)
        &&& self.stop_lines[1].0 == spec_area_light(DecisionAreas::TopRight)
        &&& is_stop_rect(self.stop_lines[1].1, cx, cy, r, DecisionAreas::TopRight)
        &&& self.stop_lines[2].0 == spec_area_light(DecisionAreas::BottomLeft)
        &&& is_stop_rect(self.stop_lines[2].1, cx, cy, r, DecisionAreas::BottomLeft)
        &&& self.stop_lines[3].0 == spec_area_light(DecisionAreas::BottomRight)
        &&& is_stop_rect(self.stop_lines[3].1, cx, cy, r, DecisionAreas::BottomRight)
    }

    /// Well-formedness of the whole world: a sane canvas, the center and the
    /// geometry tables derived from it, and every live vehicle well-formed.
    pub open spec fn wf(self) -> bool {
        &&& 200 <= self.width <= 10_000
        &&& 200 <= self.height <= 10_000
        &&& self.center.x == self.width / 2
        &&& self.center.y == self.height / 2
        &&& 10 <= self.road_size <= 100
        &&& self.zones_wf()
        &&& self.stop_lines_wf()
        &&& forall|i: int|
            0 <= i < self.vehicles@.len() ==> (#[trigger] self.vehicles@[i]).wf_in(self)
    }

    /// Builds the world for a canvas of the given size: empty road, the
    /// light green at BottomLeft, all cooldowns expired, and the zone and
    /// stop-line tables computed once from the center and road half-width.
    pub fn new(width: i32, height: i32) -> (w: Intersection)
        requires
            200 <= width <= 10_000,
            200 <= height <= 10_000,
        ensures
            w.wf(),
            w.vehicles@.len() == 0,
            w.green_light == INITIAL_LIGHT,
            w.light_timer == 0,
            !w.minimum_light_time_passed,
            w.cool_downs == (CoolDown { top: 0, right: 0, bottom: 0, left: 0 }),
            w.width == width,
            w.height == height,
            w.center.x == width / 2,
            w.center.y == height / 2,
            w.road_size == 40,
    {
        let center = Point { x: width / 2, y: height / 2 };
        let road_size: i32 = 40;
        let decision_areas = Self::get_decision_areas(center, road_size);
        let stop_lines = Self::get_stop_lines(&decision_areas);

        Intersection {
            vehicles: Vec::new(),
            green_light: INITIAL_LIGHT,
            cool_downs: CoolDown { top: 0, right: 0, bottom: 0, left: 0 },
            light_timer: 0,
            minimum_light_time_passed: false,
            width,
            height,
            center,
            road_size,
            decision_areas,
            stop_lines,
        }
    }

    /// The four quadrant decision zones, each of size `road_size` by
    /// `road_size`, tiling the square around the center.
    fn get_decision_areas(center: Point, road_size: i32) -> (areas: [(DecisionAreas, Rect); 4])
        requires
            -10_000 <= center.x <= 10_000,
            -10_000 <= center.y <= 10_000,
            0 < road_size <= 100,
        ensures
            areas[0].0 == DecisionAreas::TopLeft,
            is_zone_rect(areas[0].1, center.x as int, center.y as int, road_size as int,
                DecisionAreas::TopLeft),
            areas[1].0 == DecisionAreas::TopRight,
            is_zone_rect(areas[1].1, center.x as int, center.y as int, road_size as int,
                DecisionAreas::TopRight),
            areas[2].0 == DecisionAreas::BottomLeft,
            is_zone_rect(areas[2].1, center.x as int, center.y as int, road_size as int,
                DecisionAreas::BottomLeft),
            areas[3].0 == DecisionAreas::BottomRight,
            is_zone_rect(areas[3].1, center.x as int, center.y as int, road_size as int,
                DecisionAreas::BottomRight),
    {
        [
            (
                DecisionAreas::TopLeft,
                Rect {
                    x: center.x - road_size,
                    y: center.y - road_size,
                    width: road_size,
                    height: road_size,
                },
            ),
            (
                DecisionAreas::TopRight,
                Rect { x: center.x, y: center.y - road_size, width: road_size, height: road_size },
            ),
            (
                DecisionAreas::BottomLeft,
                Rect { x: center.x - road_size, y: center.y, width: road_size, height: road_size },
            ),
            (
                DecisionAreas::BottomRight,
                Rect { x: center.x, y: center.y, width: road_size, height: road_size },
            ),
        ]
    }

    /// One stop line per decision zone, each a thin rectangle placed just
    /// outside its zone on the side vehicles cross before entering it, bound
    /// to the light that governs the zone's crossing traffic.
    fn get_stop_lines(decision_areas: &[(DecisionAreas, Rect); 4]) -> (lines: [(GreenLight,
        Rect); 4])
        requires
            forall|k: int| 0 <= k < 4 ==> (#[trigger] decision_areas[k].1).in_range(),
            decision_areas[0].0 == DecisionAreas::TopLeft,
            decision_areas[1].0 == DecisionAreas::TopRight,
            decision_areas[2].0 == DecisionAreas::BottomLeft,
            decision_areas[3].0 == DecisionAreas::BottomRight,
        ensures
            forall|k: int|
                0 <= k < 4 ==> (#[trigger] lines[k]).0 == spec_area_light(decision_areas[k].0),
            lines[0].1.x == decision_areas[0].1.x + decision_areas[0].1.width * 2 + 5 - 10,
            lines[0].1.y == decision_areas[0].1.y,
            lines[0].1.width == 20,
            lines[0].1.height == decision_areas[0].1.height,
            lines[1].1.x == decision_areas[1].1.x,
            lines[1].1.y == decision_areas[1].1.y + decision_areas[1].1.width * 2 + 5 - 10,
            lines[1].1.width == decision_areas[1].1.width,
            lines[1].1.height == 20,
            lines[2].1.x == decision_areas[2].1.x,
            lines[2].1.y == decision_areas[2].1.y - decision_areas[2].1.width - 5 - 10,
            lines[2].1.width == decision_areas[2].1.width,
            lines[2].1.height == 20,
            lines[3].1.x == decision_areas[3].1.x - decision_areas[3].1.width - 5 - 10,
            lines[3].1.y == decision_areas[3].1.y,
            lines[3].1.width == 20,
            lines[3].1.height == decision_areas[3].1.height,
    {
        let (_, tl) = decision_areas[0];
        let (_, tr) = decision_areas[1];
        let (_, bl) = decision_areas[2];
        let (_, br) = decision_areas[3];

        [
            (
                decision_area_to_light(&DecisionAreas::TopLeft),
                Rect { x: tl.x + tl.width * 2 + 5 - 10, y: tl.y, width: 20, height: tl.height },
            ),
            (
                decision_area_to_light(&DecisionAreas::TopRight),
                Rect { x: tr.x, y: tr.y + tr.width * 2 + 5 - 10, width: tr.width, height: 20 },
            ),
            (
                decision_area_to_light(&DecisionAreas::BottomLeft),
                Rect { x: bl.x, y: bl.y - bl.width - 5 - 10, width: bl.width, height: 20 },
            ),
            (
                decision_area_to_light(&DecisionAreas::BottomRight),
                Rect { x: br.x - br.width - 5 - 10, y: br.y, width: 20, height: br.height },
            ),
        ]
    }
}

/// The vehicles of `s` that have not yet exited, in their original order.
pub open spec fn live_vehicles(s: Seq<Vehicle>, width: int, height: int) -> Seq<Vehicle>
    decreases s.len(),
{
    if s.len() == 0 {
        Seq::empty()
    } else {
        let rest = live_vehicles(s.drop_last(), width, height);
        if s.last().spec_exited(width, height) {
            rest
        } else {
            rest.push(s.last())
        }
    }
}

impl Intersection {
    /// Vehicle `i`'s full box overlaps some decision zone.
    pub open spec fn vehicle_in_some_zone(self, i: int) -> bool {
        exists|k: int|
            0 <= k < 4 && rects_overlap(self.decision_areas[k].1, self.vehicles@[i].rect())
    }

    /// Some live vehicle's full box overlaps some decision zone.
    pub open spec fn spec_in_any_zone(self) -> bool {
        exists|i: int| 0 <= i < self.vehicles@.len() && self.vehicle_in_some_zone(i)
    }

    /// Whether any live vehicle currently occupies a decision zone; this is
    /// the answer the light controller's rotation gate consults.
    #[verifier::loop_isolation(false)]
    pub fn any_vehicle_in_decision_area(&self) -> (r: bool)
        requires
            self.wf(),
        ensures
            r == self.spec_in_any_zone(),
    {
        let mut i: usize = 0;
        while i < self.vehicles.len()
            invariant
                forall|ii: int| 0 <= ii < i ==> !self.vehicle_in_some_zone(ii),
            decreases self.vehicles@.len() - i,
        {
            let v = self.vehicles[i];
            let mut k: usize = 0;
            while k < 4
                invariant
                    forall|kk: int|
                        0 <= kk < k ==> !rects_overlap(
                            self.decision_areas[kk].1,
                            self.vehicles@[i as int].rect(),
                        ),
                decreases 4 - k,
            {
                let (_, area) = self.decision_areas[k];
                if v.is_in_area2(&area) {
                    proof {
                        assert(self.vehicle_in_some_zone(i as int));
                    }
                    return true;
                }
                k = k + 1;
            }
            proof {
                assert(!self.vehicle_in_some_zone(i as int));
            }
            i = i + 1;
        }
        false
    }

    /// Removes every vehicle whose box has fully passed the far edge of its
    /// approach, keeping the rest in order.
    #[verifier::loop_isolation(false)]
    pub fn prune_exited(&mut self)
        requires
            old(self).wf(),
        ensures
            final(self).wf(),
            final(self).vehicles@ == live_vehicles(
                old(self).vehicles@,
                old(self).width as int,
                old(self).height as int,
            ),
            forall|i: int|
                0 <= i < final(self).vehicles@.len() ==> !(#[trigger] final(
                    self
                ).vehicles@[i]).spec_exited(old(self).width as int, old(self).height as int),
            final(self).green_light == old(self).green_light,
            final(self).light_timer == old(self).light_timer,
            final(self).minimum_light_time_passed == old(self).minimum_light_time_passed,
            final(self).cool_downs == old(self).cool_downs,
            final(self).width == old(self).width,
            final(self).height == old(self).height,
            final(self).center == old(self).center,
            final(self).road_size == old(self).road_size,
            final(self).decision_areas == old(self).decision_areas,
            final(self).stop_lines == old(self).stop_lines,
    {
        let mut kept: Vec<Vehicle> = Vec::new();
        let mut i: usize = 0;
        while i < self.vehicles.len()
            invariant
                i <= self.vehicles@.len(),
                kept@ == live_vehicles(
                    self.vehicles@.subrange(0, i as int),
                    self.width as int,
                    self.height as int,
                ),
                forall|j: int| 0 <= j < kept@.len() ==> (#[trigger] kept@[j]).wf_in(*self),
                forall|j: int|
                    0 <= j < kept@.len() ==> !(#[trigger] kept@[j]).spec_exited(
                        self.width as int,
                        self.height as int,
                    ),
            decreases self.vehicles@.len() - i,
        {
            let v = self.vehicles[i];
            proof {
                assert(self.vehicles@.subrange(0, (i + 1) as int).drop_last()
                    =~= self.vehicles@.subrange(0, i as int));
                assert(self.vehicles@.subrange(0, (i + 1) as int).last() == self.vehicles@[
                    i as int]);
            }
            if !v.has_exited(self.width, self.height) {
                kept.push(v);
            }
            i = i + 1;
        }
        proof {
            assert(self.vehicles@.subrange(0, self.vehicles@.len() as int) =~= self.vehicles@);
        }
        self.vehicles = kept;
    }
}

/// One tick of a cooldown counter: down by one, with a floor at zero.
pub open spec fn dec(c: u32) -> u32 {
    if c > 0 {
        (c - 1) as u32
    } else {
        0
    }
}

/// `n` ticks of a cooldown counter.
pub open spec fn dec_n(c: u32, n: nat) -> u32
    decreases n,
{
    if n == 0 {
        c
    } else {
        dec(dec_n(c, (n - 1) as nat))
    }
}

/// All four cooldown counters, one tick later.
pub open spec fn spec_dec_cooldowns(c: CoolDown) -> CoolDown {
    CoolDown { top: dec(c.top), right: dec(c.right), bottom: dec(c.bottom), left: dec(c.left) }
}

/// The cooldown counter that gates approach `start`.
pub open spec fn cooldown_of(c: CoolDown, start: Position) -> u32 {
    match start {
        Position::Top => c.top,
        Position::Right => c.right,
        Position::Bottom => c.bottom,
        Position::Left => c.left,
    }
}

/// Spawn cooldown: a counter that was just reset stays positive throughout
/// the whole cooldown window, so every further spawn intent for the same
/// approach inside that window is dropped and two intents within the window
/// yield exactly one vehicle.
pub proof fn lemma_spawn_cooldown(k: nat)
    requires
        k < SPAWN_COOLDOWN,
    ensures
        dec_n(SPAWN_COOLDOWN, k) == SPAWN_COOLDOWN - k,
        dec_n(SPAWN_COOLDOWN, k) > 0,
    decreases k,
{
    if k > 0 {
        lemma_spawn_cooldown((k - 1) as nat);
    }
}

impl Intersection {
    /// One tick of the light controller: advances the dwell timer, latches
    /// the minimum-dwell flag once the timer reaches the threshold, and
    /// rotates the phase when the flag holds and no vehicle occupies a
    /// decision zone.
    pub fn update_light_timing(&mut self, vehicle_in_decision_area: bool)
        ensures
            final(self).light_of() == light_step(old(self).light_of(), vehicle_in_decision_area),
            final(self).vehicles == old(self).vehicles,
            final(self).width == old(self).width,
            final(self).height == old(self).height,
            final(self).center == old(self).center,
            final(self).road_size == old(self).road_size,
            final(self).cool_downs == old(self).cool_downs,
            final(self).decision_areas == old(self).decision_areas,
            final(self).stop_lines == old(self).stop_lines,
            old(self).wf() ==> final(self).wf(),
    {
        if self.light_timer < usize::MAX {
            self.light_timer = self.light_timer + 1;
        }
        if self.light_timer >= MINIMUM_LIGHT_TIME {
            self.minimum_light_time_passed = true;
        }
        if self.minimum_light_time_passed && !vehicle_in_decision_area {
            self.change_light();
        }
    }

    /// Rotates the phase one step in the fixed cyclic order and resets the
    /// dwell timer and the minimum-dwell flag for the next cycle.
    fn change_light(&mut self)
        ensures
            final(self).green_light == next_light(old(self).green_light),
            final(self).light_timer == 0,
            final(self).minimum_light_time_passed == false,
            final(self).vehicles == old(self).vehicles,
            final(self).width == old(self).width,
            final(self).height == old(self).height,
            final(self).center == old(self).center,
            final(self).road_size == old(self).road_size,
            final(self).cool_downs == old(self).cool_downs,
            final(self).decision_areas == old(self).decision_areas,
            final(self).stop_lines == old(self).stop_lines,
    {
        self.green_light = match self.green_light {
            GreenLight::TopLeft => GreenLight::TopRight,
            GreenLight::TopRight => GreenLight::BottomRight,
            GreenLight::BottomRight => GreenLight::BottomLeft,
            GreenLight::BottomLeft => GreenLight::TopLeft,
        };

        self.light_timer = 0;
        self.minimum_light_time_passed = false;
    }

    /// One tick of the spawn gate's counters: every approach's cooldown
    /// counts down by one, stopping at zero.
    pub fn tick_cooldowns(&mut self)
        ensures
            final(self).cool_downs == spec_dec_cooldowns(old(self).cool_downs),
            final(self).vehicles == old(self).vehicles,
            final(self).green_light == old(self).green_light,
            final(self).light_timer == old(self).light_timer,
            final(self).minimum_light_time_passed == old(self).minimum_light_time_passed,
            final(self).width == old(self).width,
            final(self).height == old(self).height,
            final(self).center == old(self).center,
            final(self).road_size == old(self).road_size,
            final(self).decision_areas == old(self).decision_areas,
            final(self).stop_lines == old(self).stop_lines,
            old(self).wf() ==> final(self).wf(),
    {
        if self.cool_downs.top > 0 {
            self.cool_downs.top = self.cool_downs.top - 1;
        }
        if self.cool_downs.right > 0 {
            self.cool_downs.right = self.cool_downs.right - 1;
        }
        if self.cool_downs.bottom > 0 {
            self.cool_downs.bottom = self.cool_downs.bottom - 1;
        }
        if self.cool_downs.left > 0 {
            self.cool_downs.left = self.cool_downs.left - 1;
        }
    }

    /// The spawn gate: a spawn intent for `start` is honored exactly when
    /// that approach's cooldown has expired; an honored intent appends one
    /// freshly spawned vehicle and resets the cooldown, a dropped intent
    /// leaves the world untouched.
    pub fn try_spawn(&mut self, start: Position) -> (spawned: bool)
        requires
            old(self).wf(),
        ensures
            final(self).wf(),
            spawned == (cooldown_of(old(self).cool_downs, start) == 0),
            !spawned ==> *final(self) == *old(self),
            spawned ==> final(self).vehicles@.len() == old(self).vehicles@.len() + 1,
            spawned ==> forall|i: int|
                0 <= i < old(self).vehicles@.len() ==> final(self).vehicles@[i] == old(
                    self,
                ).vehicles@[i],
            spawned ==> is_spawn(
                final(self).vehicles@[old(self).vehicles@.len() as int],
                *old(self),
                start,
                final(self).vehicles@[old(self).vehicles@.len() as int].direction,
            ),
            spawned ==> cooldown_of(final(self).cool_downs, start) == SPAWN_COOLDOWN,
            spawned ==> forall|p: Position|
                p != start ==> #[trigger] cooldown_of(final(self).cool_downs, p) == cooldown_of(
                    old(self).cool_downs,
                    p,
                ),
            final(self).green_light == old(self).green_light,
            final(self).light_timer == old(self).light_timer,
            final(self).minimum_light_time_passed == old(self).minimum_light_time_passed,
            final(self).width == old(self).width,
            final(self).height == old(self).height,
            final(self).center == old(self).center,
            final(self).road_size == old(self).road_size,
            final(self).decision_areas == old(self).decision_areas,
            final(self).stop_lines == old(self).stop_lines,
    {
        let cd = match start {
            Position::Top => self.cool_downs.top,
            Position::Right => self.cool_downs.right,
            Position::Bottom => self.cool_downs.bottom,
            Position::Left => self.cool_downs.left,
        };
        if cd != 0 {
            return false;
        }
        let nv = Vehicle::new(&*self, start);
        self.vehicles.push(nv);
        match start {
            Position::Top => self.cool_downs.top = SPAWN_COOLDOWN,
            Position::Right => self.cool_downs.right = SPAWN_COOLDOWN,
            Position::Bottom => self.cool_downs.bottom = SPAWN_COOLDOWN,
            Position::Left => self.cool_downs.left = SPAWN_COOLDOWN,
        }
        true
    }
}

/// The turn table: the new approach a vehicle takes when its turn resolves,
/// defined for exactly the eight combinations of a current approach, a
/// non-straight intent, and the quadrant zone where that turn commits; every
/// other combination is an explicit no-op.
pub open spec fn spec_turn(start: Position, dir: Direction, zone: DecisionAreas) -> Option<
    Position,
> {
    match (start, dir, zone) {
        (Position::Top, Direction::Left, DecisionAreas::BottomLeft) => Option::Some(
            Position::Left,
        ),
        (Position::Right, Direction::Left, DecisionAreas::TopLeft) => Option::Some(Position::Top),
        (Position::Bottom, Direction::Left, DecisionAreas::TopRight) => Option::Some(
            Position::Right,
        ),
        (Position::Left, Direction::Left, DecisionAreas::BottomRight) => Option::Some(
            Position::Bottom,
        ),
        (Position::Right, Direction::Right, DecisionAreas::TopRight) => Option::Some(
            Position::Bottom,
        ),
        (Position::Top, Direction::Right, DecisionAreas::TopLeft) => Option::Some(Position::Right),
        (Position::Bottom, Direction::Right, DecisionAreas::BottomRight) => Option::Some(
            Position::Left,
        ),
        (Position::Left, Direction::Right, DecisionAreas::BottomLeft) => Option::Some(
            Position::Top,
        ),
        _ => Option::None,
    }
}

/// The turn resolver against a single zone: a vehicle that still owes a turn
/// decision and whose central sample lies in the zone takes the turn-table
/// approach for that zone, if any, and marks its decision made; in every
/// other case it is left untouched.
pub open spec fn spec_decide_one(v: Vehicle, kind: DecisionAreas, area: Rect) -> Vehicle {
    if v.decision_made || v.direction == Direction::Straight {
        v
    } else if spec_in_area(v, area) {
        match spec_turn(v.start, v.direction, kind) {
            Option::Some(ns) => Vehicle { start: ns, decision_made: true, ..v },
            Option::None => v,
        }
    } else {
        v
    }
}

/// The turn resolver against the whole zone table, visiting the four zones
/// in table order; once a turn resolves, the later zones leave the vehicle
/// untouched.
pub open spec fn spec_decide(v: Vehicle, areas: [(DecisionAreas, Rect); 4]) -> Vehicle {
    spec_decide_one(
        spec_decide_one(
            spec_decide_one(
                spec_decide_one(v, areas[0].0, areas[0].1),
                areas[1].0,
                areas[1].1,
            ),
            areas[2].0,
            areas[2].1,
        ),
        areas[3].0,
        areas[3].1,
    )
}

/// The turn resolver against a single zone; see `spec_decide_one`.
fn decide_one(vehicle: &mut Vehicle, kind: DecisionAreas, area: Rect)
    requires
        old(vehicle).rect().well_inside(),
        area.well_inside(),
    ensures
        *final(vehicle) == spec_decide_one(*old(vehicle), kind, area),
{
    if vehicle.decision_made || matches!(vehicle.direction, Direction::Straight) {
        return ;
    }
    if vehicle.is_in_area(&area) {
        match (vehicle.start, vehicle.direction, kind) {
            (Position::Top, Direction::Left, DecisionAreas::BottomLeft) => {
                vehicle.start = Position::Left;
                vehicle.decision_made = true;
            },
            (Position::Right, Direction::Left, DecisionAreas::TopLeft) => {
                vehicle.start = Position::Top;
                vehicle.decision_made = true;
            },
            (Position::Bottom, Direction::Left, DecisionAreas::TopRight) => {
                vehicle.start = Position::Right;
                vehicle.decision_made = true;
            },
            (Position::Left, Direction::Left, DecisionAreas::BottomRight) => {
                vehicle.start = Position::Bottom;
                vehicle.decision_made = true;
            },
            (Position::Right, Direction::Right, DecisionAreas::TopRight) => {
                vehicle.start = Position::Bottom;
                vehicle.decision_made = true;
            },
            (Position::Top, Direction::Right, DecisionAreas::TopLeft) => {
                vehicle.start = Position::Right;
                vehicle.decision_made = true;
            },
            (Position::Bottom, Direction::Right, DecisionAreas::BottomRight) => {
                vehicle.start = Position::Left;
                vehicle.decision_made = true;
            },
            (Position::Left, Direction::Right, DecisionAreas::BottomLeft) => {
                vehicle.start = Position::Top;
                vehicle.decision_made = true;
            },
            _ => {},
        }
    }
}

/// Resolves a pending turn for `vehicle` against the zone table: on the
/// first zone whose turn-table entry matches, the vehicle's approach is
/// remapped and its decision marked made, so the resolver never fires again
/// for this vehicle.
pub fn decide_direction(vehicle: &mut Vehicle, decision_areas: &[(DecisionAreas, Rect); 4])
    requires
        old(vehicle).rect().well_inside(),
        decision_areas[0].1.well_inside(),
        decision_areas[1].1.well_inside(),
        decision_areas[2].1.well_inside(),
        decision_areas[3].1.well_inside(),
    ensures
        *final(vehicle) == spec_decide(*old(vehicle), *decision_areas),
        old(vehicle).decision_made ==> *final(vehicle) == *old(vehicle),
{
    if vehicle.decision_made || matches!(vehicle.direction, Direction::Straight) {
        return ;
    }
    let (k0, a0) = decision_areas[0];
    decide_one(vehicle, k0, a0);
    let (k1, a1) = decision_areas[1];
    decide_one(vehicle, k1, a1);
    let (k2, a2) = decision_areas[2];
    decide_one(vehicle, k2, a2);
    let (k3, a3) = decision_areas[3];
    decide_one(vehicle, k3, a3);
}

/// The outcome of the advance pass for the vehicle at index `i` of the
/// snapshot `vs`: its pending turn is resolved first, then it steps forward
/// along its (possibly just remapped) approach exactly when the collision
/// rules permit, judged against the snapshot.
pub open spec fn spec_move_result(
    vs: Seq<Vehicle>,
    i: int,
    green: GreenLight,
    areas: [(DecisionAreas, Rect); 4],
    stops: [(GreenLight, Rect); 4],
) -> Vehicle {
    let v1 = spec_decide(vs[i], areas);
    if spec_can_move(v1, vs, i, green, stops) {
        spec_step(v1)
    } else {
        v1
    }
}

/// What the turn resolver can do to a vehicle: it never touches position,
/// size, intent or color; a vehicle whose decision is already made is left
/// untouched; and when it does fire, it sets the decision flag and swaps the
/// travel axis between vertical and horizontal.
pub proof fn lemma_decide_shape(v: Vehicle, areas: [(DecisionAreas, Rect); 4])
    ensures
        ({
            let r = spec_decide(v, areas);
            &&& r.x == v.x
            &&& r.y == v.y
            &&& r.width == v.width
            &&& r.height == v.height
            &&& r.direction == v.direction
            &&& r.color == v.color
            &&& (v.decision_made ==> r == v)
            &&& (r != v ==> !v.decision_made && r.decision_made)
            &&& (r != v ==> ((v.start is Top || v.start is Bottom) <==> (r.start is Left
                || r.start is Right)))
        }),
{
}

impl Intersection {
    /// The advance pass: every vehicle first resolves a pending turn, then
    /// steps one unit forward along its current approach when the stop-line
    /// and neighbor rules permit; every rule is judged against the snapshot
    /// of all vehicles taken before the pass, never against positions
    /// already updated this tick.
    #[verifier::loop_isolation(false)]
    pub fn advance_vehicles(&mut self)
        requires
            old(self).wf(),
            forall|i: int|
                0 <= i < old(self).vehicles@.len() ==> !(#[trigger] old(
                    self
                ).vehicles@[i]).spec_exited(old(self).width as int, old(self).height as int),
        ensures
            final(self).wf(),
            final(self).vehicles@.len() == old(self).vehicles@.len(),
            forall|i: int|
                0 <= i < old(self).vehicles@.len() ==> final(self).vehicles@[i]
                    == spec_move_result(
                    old(self).vehicles@,
                    i,
                    old(self).green_light,
                    old(self).decision_areas,
                    old(self).stop_lines,
                ),
            final(self).green_light == old(self).green_light,
            final(self).light_timer == old(self).light_timer,
            final(self).minimum_light_time_passed == old(self).minimum_light_time_passed,
            final(self).cool_downs == old(self).cool_downs,
            final(self).width == old(self).width,
            final(self).height == old(self).height,
            final(self).center == old(self).center,
            final(self).road_size == old(self).road_size,
            final(self).decision_areas == old(self).decision_areas,
            final(self).stop_lines == old(self).stop_lines,
    {
        let n = self.vehicles.len();
        let mut moved: Vec<Vehicle> = Vec::new();
        let mut i: usize = 0;
        while i < n
            invariant
                i <= n,
                moved@.len() == i,
                forall|j: int|
                    0 <= j < i ==> moved@[j] == spec_move_result(
                        self.vehicles@,
                        j,
                        self.green_light,
                        self.decision_areas,
                        self.stop_lines,
                    ),
                forall|j: int| 0 <= j < i ==> (#[trigger] moved@[j]).wf_in(*self),
            decreases n - i,
        {
            let mut v = self.vehicles[i];
            proof {
                lemma_decide_shape(self.vehicles@[i as int], self.decision_areas);
            }
            decide_direction(&mut v, &self.decision_areas);
            if v.can_move(&*self, i) {
                let dx = step_dx(v.start);
                let dy = step_dy(v.start);
                v.x = v.x + dx;
                v.y = v.y + dy;
            }
            proof {
                assert(v.wf_in(*self));
            }
            moved.push(v);
            i = i + 1;
        }
        self.vehicles = moved;
    }

    /// One full simulation tick, as one atomic logical step: the light
    /// controller advances (consulting zone occupancy), every cooldown
    /// counts down, exited vehicles are pruned, and the surviving vehicles
    /// resolve turns and step forward under the collision rules, judged
    /// against the post-prune snapshot. Spawn intents are handed to
    /// `try_spawn` by the caller before the tick.
    pub fn tick(&mut self)
        requires
            old(self).wf(),
        ensures
            final(self).wf(),
            final(self).light_of() == light_step(
                old(self).light_of(),
                old(self).spec_in_any_zone(),
            ),
            final(self).cool_downs == spec_dec_cooldowns(old(self).cool_downs),
            final(self).vehicles@.len() == live_vehicles(
                old(self).vehicles@,
                old(self).width as int,
                old(self).height as int,
            ).len(),
            forall|i: int|
                0 <= i < final(self).vehicles@.len() ==> final(self).vehicles@[i]
                    == spec_move_result(
                    live_vehicles(
                        old(self).vehicles@,
                        old(self).width as int,
                        old(self).height as int,
                    ),
                    i,
                    light_step(old(self).light_of(), old(self).spec_in_any_zone()).phase,
                    old(self).decision_areas,
                    old(self).stop_lines,
                ),
            final(self).width == old(self).width,
            final(self).height == old(self).height,
            final(self).center == old(self).center,
            final(self).road_size == old(self).road_size,
            final(self).decision_areas == old(self).decision_areas,
            final(self).stop_lines == old(self).stop_lines,
    {
        let in_zone = self.any_vehicle_in_decision_area();
        self.update_light_timing(in_zone);
        self.tick_cooldowns();
        self.prune_exited();
        self.advance_vehicles();
    }
}

/// Membership in the pruned list: a vehicle value appears among the
/// survivors exactly when it appears in the original list and has not
/// exited.
pub proof fn lemma_live_membership(s: Seq<Vehicle>, width: int, height: int)
    ensures
        forall|v: Vehicle| #[trigger]
            live_vehicles(s, width, height).contains(v) <==> (s.contains(v) && !v.spec_exited(
                width,
                height,
            )),
    decreases s.len(),
{
    let live = live_vehicles(s, width, height);
    if s.len() == 0 {
        assert forall|v: Vehicle| !(#[trigger] live.contains(v)) && !s.contains(v) by {}
    } else {
        lemma_live_membership(s.drop_last(), width, height);
        let rest = live_vehicles(s.drop_last(), width, height);
        let last = s.last();
        assert forall|v: Vehicle| #[trigger]
            live.contains(v) <==> (s.contains(v) && !v.spec_exited(width, height)) by {
            if rest.contains(v) {
                let k = choose|k: int| 0 <= k < rest.len() && rest[k] == v;
                if !last.spec_exited(width, height) {
                    assert(live[k] == v);
                } else {
                    assert(live[k] == v);
                }
            }
            if s.drop_last().contains(v) {
                let k = choose|k: int|
                    0 <= k < s.drop_last().len() && s.drop_last()[k] == v;
                assert(s[k] == v);
            }
            if live.contains(v) {
                let k = choose|k: int| 0 <= k < live.len() && live[k] == v;
                if !last.spec_exited(width, height) && k == live.len() - 1 {
                    assert(v == last);
                    assert(s[s.len() - 1] == v);
                } else {
                    assert(rest[k] == v);
                    assert(s.drop_last().contains(v));
                }
            }
            if s.contains(v) && !v.spec_exited(width, height) {
                let k = choose|k: int| 0 <= k < s.len() && s[k] == v;
                if k == s.len() - 1 {
                    assert(v == last);
                    assert(live[live.len() - 1] == v);
                } else {
                    assert(s.drop_last()[k] == v);
                    assert(rest.contains(v));
                    let m = choose|m: int| 0 <= m < rest.len() && rest[m] == v;
                    assert(live[m] == v);
                }
            }
        }
    }
}

/// Exit symmetry: the pruning pass removes a vehicle exactly when its box
/// has fully passed the far edge of its current approach. In particular a
/// vehicle travelling from Top is kept exactly while its top edge is still
/// at most the canvas height, and one travelling from Right exactly while
/// `x + width` has not dropped below zero.
pub proof fn lemma_exit_symmetry(s: Seq<Vehicle>, width: int, height: int)
    ensures
        forall|v: Vehicle| #[trigger]
            live_vehicles(s, width, height).contains(v) <==> (s.contains(v) && !v.spec_exited(
                width,
                height,
            )),
        forall|v: Vehicle|
            s.contains(v) && v.start is Top ==> (#[trigger] live_vehicles(
                s,
                width,
                height,
            ).contains(v) <==> v.y <= height),
        forall|v: Vehicle|
            s.contains(v) && v.start is Right ==> (#[trigger] live_vehicles(
                s,
                width,
                height,
            ).contains(v) <==> v.x + v.width >= 0),
{
    lemma_live_membership(s, width, height);
}

/// Turn idempotence: once a vehicle's turn decision is made, no later tick
/// changes its approach again, even if it re-enters a matching zone: the
/// resolver leaves the vehicle untouched, and the advance pass preserves
/// both its approach and its decision flag.
pub proof fn lemma_turn_idempotent(
    vs: Seq<Vehicle>,
    i: int,
    green: GreenLight,
    areas: [(DecisionAreas, Rect); 4],
    stops: [(GreenLight, Rect); 4],
)
    requires
        0 <= i < vs.len(),
        vs[i].decision_made,
    ensures
        spec_decide(vs[i], areas) == vs[i],
        spec_move_result(vs, i, green, areas, stops).start == vs[i].start,
        spec_move_result(vs, i, green, areas, stops).decision_made,
{
}

/// Stop-line enforcement: a vehicle whose hypothetical next box intersects
/// a stop line bound to a phase other than the active one does not advance
/// that tick: the pass leaves its position unchanged.
pub proof fn lemma_stop_line_enforced(
    vs: Seq<Vehicle>,
    i: int,
    k: int,
    green: GreenLight,
    areas: [(DecisionAreas, Rect); 4],
    stops: [(GreenLight, Rect); 4],
)
    requires
        0 <= i < vs.len(),
        0 <= k < 4,
        stops[k].0 != green,
        ({
            let v1 = spec_decide(vs[i], areas);
            shifted_overlap(v1.rect(), spec_dx(v1.start), spec_dy(v1.start), stops[k].1, 0)
        }),
    ensures
        spec_move_result(vs, i, green, areas, stops).x == vs[i].x,
        spec_move_result(vs, i, green, areas, stops).y == vs[i].y,
{
    let v1 = spec_decide(vs[i], areas);
    assert(stop_line_blocked(v1, green, stops));
    lemma_decide_shape(vs[i], areas);
}

/// Collision non-overlap: two vehicles whose margin-grown boxes do not
/// overlap before the advance step still do not overlap after it, provided
/// they do not both step with different displacement vectors in that tick.
/// The collision rule is judged against the previous tick's snapshot, so two
/// vehicles approaching head-on or crossing may each legally step in the
/// same tick and graze by one unit at the exact margin boundary; with at
/// most one mover, or two movers sharing a direction, no new overlap can
/// arise.
pub proof fn lemma_collision_non_overlap(
    vs: Seq<Vehicle>,
    i: int,
    j: int,
    green: GreenLight,
    areas: [(DecisionAreas, Rect); 4],
    stops: [(GreenLight, Rect); 4],
)
    requires
        0 <= i < vs.len(),
        0 <= j < vs.len(),
        i != j,
        vs[i].rect().well_inside(),
        vs[j].rect().well_inside(),
        !shifted_overlap(vs[i].rect(), 0, 0, vs[j].rect(), SAFETY_MARGIN as int),
        ({
            let vi = spec_decide(vs[i], areas);
            let vj = spec_decide(vs[j], areas);
            (spec_can_move(vi, vs, i, green, stops) && spec_can_move(vj, vs, j, green, stops))
                ==> (spec_dx(vi.start) == spec_dx(vj.start) && spec_dy(vi.start) == spec_dy(
                vj.start,
            ))
        }),
    ensures
        !shifted_overlap(
            spec_move_result(vs, i, green, areas, stops).rect(),
            0,
            0,
            spec_move_result(vs, j, green, areas, stops).rect(),
            SAFETY_MARGIN as int,
        ),
{
    lemma_decide_shape(vs[i], areas);
    lemma_decide_shape(vs[j], areas);
    let vi = spec_decide(vs[i], areas);
    let vj = spec_decide(vs[j], areas);
    if spec_can_move(vi, vs, i, green, stops) {
        assert(!shifted_overlap(
            vi.rect(),
            spec_dx(vi.start),
            spec_dy(vi.start),
            vs[j].rect(),
            SAFETY_MARGIN as int,
        ));
    }
    if spec_can_move(vj, vs, j, green, stops) {
        assert(!shifted_overlap(
            vj.rect(),
            spec_dx(vj.start),
            spec_dy(vj.start),
            vs[i].rect(),
            SAFETY_MARGIN as int,
        ));
    }
}

/// The light phase that a zone's stop line is bound to: the next phase in
/// rotation order relative to the zone's own quadrant.
pub fn decision_area_to_light(area: &DecisionAreas) -> (l: GreenLight)
    ensures
        l == spec_area_light(*area),
{
    match area {
        DecisionAreas::TopLeft => GreenLight::TopRight,
        DecisionAreas::TopRight => GreenLight::BottomRight,
        DecisionAreas::BottomRight => GreenLight::BottomLeft,
        DecisionAreas::BottomLeft => GreenLight::TopLeft,
    }
}

} // verus!

