use road_intersection::lights::GreenLight;
use road_intersection::vehicle::{Direction, Position, Vehicle};
use road_intersection::view::Intersection;

/// Light rotation through whole engine ticks: with an empty road the phase
/// advances exactly one step per 100 ticks, in the fixed cyclic order.
#[test]
fn rotation_through_ticks() {
    let mut w = Intersection::new(900, 700);
    for _ in 0..99 {
        w.tick();
    }
    assert_eq!(w.green_light, GreenLight::BottomLeft);
    w.tick();
    assert_eq!(w.green_light, GreenLight::TopLeft);
    for _ in 0..100 {
        w.tick();
    }
    assert_eq!(w.green_light, GreenLight::TopRight);
}

/// Rotation gate through whole engine ticks: a vehicle parked inside a
/// decision zone holds the phase indefinitely.
#[test]
fn zone_occupant_holds_phase() {
    let mut w = Intersection::new(900, 700);
    // two vehicles head to head in one column: each one's next box enters
    // the other's margin-grown box, so neither ever moves again
    let mut a = Vehicle::new_with_direction(&w, Position::Top, Direction::Straight);
    a.y = 340;
    let mut b = Vehicle::new_with_direction(&w, Position::Bottom, Direction::Straight);
    b.x = 418;
    b.y = 375;
    b.decision_made = true;
    w.vehicles.push(a);
    w.vehicles.push(b);

    for _ in 0..250 {
        w.tick();
    }
    // the deadlocked pair sits inside the BottomLeft zone, so the phase
    // never rotated even though the minimum dwell has long elapsed
    assert_eq!(w.vehicles[0].y, 340);
    assert_eq!(w.vehicles[1].y, 375);
    assert_eq!(w.green_light, GreenLight::BottomLeft);
    assert!(w.minimum_light_time_passed);
}

/// Spawn cooldown: two spawn intents for the same approach within the
/// 90-tick cooldown window yield exactly one vehicle; the first intent after
/// the window is honored again.
#[test]
fn spawn_cooldown_window() {
    let mut w = Intersection::new(900, 700);

    assert!(w.try_spawn(Position::Top));
    assert_eq!(w.vehicles.len(), 1);
    assert_eq!(w.cool_downs.top, 90);

    assert!(!w.try_spawn(Position::Top));
    assert_eq!(w.vehicles.len(), 1);

    for _ in 0..89 {
        w.tick_cooldowns();
        assert!(!w.try_spawn(Position::Top));
    }
    assert_eq!(w.vehicles.len(), 1);

    w.tick_cooldowns();
    assert_eq!(w.cool_downs.top, 0);
    assert!(w.try_spawn(Position::Top));
    assert_eq!(w.vehicles.len(), 2);
}

/// The cooldowns gate each approach independently.
#[test]
fn spawn_cooldowns_independent() {
    let mut w = Intersection::new(900, 700);
    assert!(w.try_spawn(Position::Top));
    assert!(w.try_spawn(Position::Left));
    assert!(w.try_spawn(Position::Right));
    assert!(w.try_spawn(Position::Bottom));
    assert_eq!(w.vehicles.len(), 4);
    assert!(!w.try_spawn(Position::Left));
    assert_eq!(w.vehicles.len(), 4);
}

/// Stop-line enforcement: a Top-lane vehicle whose next box would cross the
/// stop line bound to TopLeft cannot advance while another phase is green,
/// and stays put across whole ticks; once TopLeft turns green the same
/// vehicle moves.
#[test]
fn stop_line_blocks_until_green() {
    let mut w = Intersection::new(900, 700);
    let mut v = Vehicle::new_with_direction(&w, Position::Top, Direction::Straight);
    v.y = 270;
    w.vehicles.push(v);

    assert_eq!(w.green_light, GreenLight::BottomLeft);
    let v0 = w.vehicles[0];
    assert!(!v0.can_move(&w, 0));

    w.tick();
    assert_eq!(w.vehicles[0].y, 270);

    w.green_light = GreenLight::TopLeft;
    let v0 = w.vehicles[0];
    assert!(v0.can_move(&w, 0));
    w.tick();
    assert_eq!(w.vehicles[0].y, 271);
}

/// Neighbor rule: a follower whose next box would enter the leader's box
/// grown by the 13-unit margin is denied; the leader is free, so the queue
/// stretches instead of compressing, and the margin separation is preserved
/// across the tick.
#[test]
fn neighbor_margin_keeps_separation() {
    let mut w = Intersection::new(900, 700);
    let mut leader = Vehicle::new_with_direction(&w, Position::Top, Direction::Straight);
    leader.y = 100;
    let mut follower = Vehicle::new_with_direction(&w, Position::Top, Direction::Straight);
    follower.y = 63;
    w.vehicles.push(leader);
    w.vehicles.push(follower);

    let f = w.vehicles[1];
    assert!(!f.can_move(&w, 1));
    let l = w.vehicles[0];
    assert!(l.can_move(&w, 0));

    w.tick();
    assert_eq!(w.vehicles[0].y, 101);
    assert_eq!(w.vehicles[1].y, 63);
    // boxes 25 tall: the gap is back above the margin
    assert!(w.vehicles[0].y - (w.vehicles[1].y + 25) >= 13);
}

/// Collision non-overlap for separated same-direction movers: from a state
/// where the margin-grown boxes do not overlap, both vehicles step and the
/// separation still holds after the tick.
#[test]
fn margin_separation_preserved() {
    let mut w = Intersection::new(900, 700);
    let mut leader = Vehicle::new_with_direction(&w, Position::Top, Direction::Straight);
    leader.y = 100;
    let mut follower = Vehicle::new_with_direction(&w, Position::Top, Direction::Straight);
    follower.y = 55;
    w.vehicles.push(leader);
    w.vehicles.push(follower);

    assert!(leader.y - (follower.y + 25) >= 13 + 1);
    w.tick();
    assert_eq!(w.vehicles[0].y, 101);
    assert_eq!(w.vehicles[1].y, 56);
    assert!(w.vehicles[0].y - (w.vehicles[1].y + 25) >= 13 + 1);
}

/// The collision rule is judged against the previous tick's snapshot, a
/// design inherited from the reactive model: two head-on vehicles exactly
/// one unit outside each other's margin may both legally step in the same
/// tick and end up one unit inside the margin. This test documents that
/// one-tick graze rather than hiding it.
#[test]
fn reactive_snapshot_one_tick_graze() {
    let mut w = Intersection::new(900, 700);
    let mut a = Vehicle::new_with_direction(&w, Position::Left, Direction::Straight);
    a.x = 100;
    let mut b = Vehicle::new_with_direction(&w, Position::Right, Direction::Straight);
    b.x = 139;
    b.y = a.y;
    b.decision_made = true;
    w.vehicles.push(a);
    w.vehicles.push(b);

    // gap of 14 = margin + 1: both pass the snapshot check
    let a0 = w.vehicles[0];
    let b0 = w.vehicles[1];
    assert!(a0.can_move(&w, 0));
    assert!(b0.can_move(&w, 1));

    w.tick();
    assert_eq!(w.vehicles[0].x, 101);
    assert_eq!(w.vehicles[1].x, 138);
    // after the simultaneous step the gap is 12, one unit inside the margin
    assert_eq!(w.vehicles[1].x - (w.vehicles[0].x + 25), 12);
}

/// Exit symmetry through the engine: a Top spawn that never turns is pruned
/// exactly when its top edge passes the canvas height, and a Right spawn
/// exactly when x + width drops below zero.
#[test]
fn exit_pruning_boundaries() {
    let mut w = Intersection::new(900, 700);
    let mut v = Vehicle::new_with_direction(&w, Position::Top, Direction::Straight);
    v.y = 700;
    w.vehicles.push(v);
    w.tick();
    // kept at y == 700, advanced to 701
    assert_eq!(w.vehicles.len(), 1);
    assert_eq!(w.vehicles[0].y, 701);
    w.tick();
    assert_eq!(w.vehicles.len(), 0);

    let mut v = Vehicle::new_with_direction(&w, Position::Right, Direction::Straight);
    v.x = -25;
    v.decision_made = true;
    w.vehicles.push(v);
    w.tick();
    assert_eq!(w.vehicles.len(), 1);
    assert_eq!(w.vehicles[0].x, -26);
    w.tick();
    assert_eq!(w.vehicles.len(), 0);
}

/// Turn idempotence through the engine: once `decision_made` is set, no
/// further tick changes the approach again, even while the vehicle sits in a
/// matching zone.
#[test]
fn turn_fires_at_most_once() {
    let mut w = Intersection::new(900, 700);
    let mut v = Vehicle::new_with_direction(&w, Position::Top, Direction::Right);
    v.y = 316;
    v.decision_made = true;
    w.vehicles.push(v);

    w.green_light = GreenLight::TopLeft;
    w.tick();
    assert_eq!(w.vehicles[0].start, Position::Top);
    assert!(w.vehicles[0].decision_made);
}

/// The concrete end-to-end scenario: canvas 900 by 700, center (450, 350),
/// road half-width 40; one vehicle spawns at Top with intent Right, waits
/// out the light cycle, resolves its turn in the TopLeft zone, becomes
/// approach Right, travels along -x, and is eventually pruned past the left
/// edge.
#[test]
fn top_right_turn_scenario() {
    let mut w = Intersection::new(900, 700);
    let v = Vehicle::new_with_direction(&w, Position::Top, Direction::Right);
    assert_eq!((v.x, v.y), (418, 0));
    w.vehicles.push(v);

    for _ in 0..800 {
        w.tick();
    }
    assert_eq!(w.vehicles.len(), 1);
    let turned = w.vehicles[0];
    assert_eq!(turned.start, Position::Right);
    assert!(turned.decision_made);
    assert_eq!(turned.y, 316);
    assert!(turned.x < 418);

    for _ in 0..450 {
        w.tick();
    }
    assert_eq!(w.vehicles.len(), 0);
}
