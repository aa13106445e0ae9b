use road_intersection::geometry::Rect;
use road_intersection::lights::GreenLight;
use road_intersection::vehicle::{Direction, Position, Vehicle, VehicleColor};
use road_intersection::view::{decide_direction, decision_area_to_light, DecisionAreas, Intersection};

/// Entry positions for all four approaches on a 900 by 700 canvas with
/// center (450, 350) and road half-width 40, and the color classification
/// derived from the turn intent.
#[test]
fn spawn_positions_and_colors() {
    let w = Intersection::new(900, 700);

    let top = Vehicle::new_with_direction(&w, Position::Top, Direction::Straight);
    assert_eq!((top.x, top.y), (418, 0));
    assert_eq!((top.width, top.height), (25, 25));
    assert!(!top.decision_made);
    assert_eq!(top.color, VehicleColor::Orange);

    let right = Vehicle::new_with_direction(&w, Position::Right, Direction::Right);
    assert_eq!((right.x, right.y), (875, 318));
    assert_eq!(right.color, VehicleColor::Cyan);

    let bottom = Vehicle::new_with_direction(&w, Position::Bottom, Direction::Left);
    assert_eq!((bottom.x, bottom.y), (458, 675));
    assert_eq!(bottom.color, VehicleColor::Magenta);

    let left = Vehicle::new_with_direction(&w, Position::Left, Direction::Straight);
    assert_eq!((left.x, left.y), (0, 358));
}

/// A randomly drawn intent is one of the three options and its color always
/// matches it.
#[test]
fn random_spawn_is_consistent() {
    let w = Intersection::new(900, 700);
    for _ in 0..32 {
        let v = Vehicle::new(&w, Position::Top);
        assert_eq!((v.x, v.y), (418, 0));
        let expected = match v.direction {
            Direction::Straight => VehicleColor::Orange,
            Direction::Right => VehicleColor::Cyan,
            Direction::Left => VehicleColor::Magenta,
        };
        assert_eq!(v.color, expected);
    }
}

/// The zone and stop-line tables of the 900 by 700 canvas.
#[test]
fn geometry_tables() {
    let w = Intersection::new(900, 700);

    assert_eq!(w.decision_areas[0].1, Rect { x: 410, y: 310, width: 40, height: 40 });
    assert_eq!(w.decision_areas[1].1, Rect { x: 450, y: 310, width: 40, height: 40 });
    assert_eq!(w.decision_areas[2].1, Rect { x: 410, y: 350, width: 40, height: 40 });
    assert_eq!(w.decision_areas[3].1, Rect { x: 450, y: 350, width: 40, height: 40 });

    assert_eq!(w.stop_lines[0].0, GreenLight::TopRight);
    assert_eq!(w.stop_lines[0].1, Rect { x: 485, y: 310, width: 20, height: 40 });
    assert_eq!(w.stop_lines[1].0, GreenLight::BottomRight);
    assert_eq!(w.stop_lines[1].1, Rect { x: 450, y: 385, width: 40, height: 20 });
    assert_eq!(w.stop_lines[2].0, GreenLight::TopLeft);
    assert_eq!(w.stop_lines[2].1, Rect { x: 410, y: 295, width: 40, height: 20 });
    assert_eq!(w.stop_lines[3].0, GreenLight::BottomLeft);
    assert_eq!(w.stop_lines[3].1, Rect { x: 395, y: 350, width: 20, height: 40 });

    assert_eq!(decision_area_to_light(&DecisionAreas::TopLeft), GreenLight::TopRight);
    assert_eq!(decision_area_to_light(&DecisionAreas::TopRight), GreenLight::BottomRight);
    assert_eq!(decision_area_to_light(&DecisionAreas::BottomRight), GreenLight::BottomLeft);
    assert_eq!(decision_area_to_light(&DecisionAreas::BottomLeft), GreenLight::TopLeft);
}

/// Exit boundaries for all four approaches on a 900 by 700 canvas: a box
/// counts as exited only once it has fully passed the far edge.
#[test]
fn exit_boundaries() {
    let w = Intersection::new(900, 700);

    let mut v = Vehicle::new_with_direction(&w, Position::Top, Direction::Straight);
    v.y = 700;
    assert!(!v.has_exited(900, 700));
    v.y = 701;
    assert!(v.has_exited(900, 700));

    let mut v = Vehicle::new_with_direction(&w, Position::Right, Direction::Straight);
    v.x = -25;
    assert!(!v.has_exited(900, 700));
    v.x = -26;
    assert!(v.has_exited(900, 700));

    let mut v = Vehicle::new_with_direction(&w, Position::Bottom, Direction::Straight);
    v.y = -25;
    assert!(!v.has_exited(900, 700));
    v.y = -26;
    assert!(v.has_exited(900, 700));

    let mut v = Vehicle::new_with_direction(&w, Position::Left, Direction::Straight);
    v.x = 900;
    assert!(!v.has_exited(900, 700));
    v.x = 901;
    assert!(v.has_exited(900, 700));
}

/// Membership boundaries of the central-sample zone test used by the turn
/// resolver: the TopLeft zone of the 900 by 700 canvas triggers for a
/// Top-lane vehicle exactly while its center is within 3 units of the zone
/// center.
#[test]
fn zone_sample_boundaries() {
    let w = Intersection::new(900, 700);
    let zone = w.decision_areas[0].1;

    let mut v = Vehicle::new_with_direction(&w, Position::Top, Direction::Straight);
    v.y = 315;
    assert!(!v.is_in_area(&zone));
    v.y = 316;
    assert!(v.is_in_area(&zone));
    v.y = 320;
    assert!(v.is_in_area(&zone));
    v.y = 321;
    assert!(!v.is_in_area(&zone));
}

/// Membership boundaries of the full-box zone test used by the light gate.
#[test]
fn zone_box_boundaries() {
    let w = Intersection::new(900, 700);
    let zone = w.decision_areas[0].1;

    let mut v = Vehicle::new_with_direction(&w, Position::Top, Direction::Straight);
    v.y = 285;
    assert!(!v.is_in_area2(&zone));
    v.y = 286;
    assert!(v.is_in_area2(&zone));
}

/// The turn table fires only in the zone that matches the approach and the
/// intent: a Top vehicle turning right resolves in TopLeft and becomes
/// Right; one turning left keeps waiting in TopLeft and resolves only in
/// BottomLeft, becoming Left.
#[test]
fn turn_table_matching_and_no_op() {
    let w = Intersection::new(900, 700);

    let mut v = Vehicle::new_with_direction(&w, Position::Top, Direction::Right);
    v.y = 316;
    decide_direction(&mut v, &w.decision_areas);
    assert_eq!(v.start, Position::Right);
    assert!(v.decision_made);

    let mut v = Vehicle::new_with_direction(&w, Position::Top, Direction::Left);
    v.y = 316;
    decide_direction(&mut v, &w.decision_areas);
    assert_eq!(v.start, Position::Top);
    assert!(!v.decision_made);

    v.y = 356;
    decide_direction(&mut v, &w.decision_areas);
    assert_eq!(v.start, Position::Left);
    assert!(v.decision_made);
}

/// A vehicle going straight never resolves a turn, whatever zone it is in.
#[test]
fn straight_never_resolves() {
    let w = Intersection::new(900, 700);
    let mut v = Vehicle::new_with_direction(&w, Position::Top, Direction::Straight);
    v.y = 316;
    decide_direction(&mut v, &w.decision_areas);
    assert_eq!(v.start, Position::Top);
    assert!(!v.decision_made);
}
