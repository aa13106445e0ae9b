//! The four-phase rotating traffic light. Exactly one quadrant's light is
//! green at any time; the phase advances in a fixed cyclic order once a
//! minimum dwell has elapsed and no vehicle occupies a decision zone.

use vstd::prelude::*;

verus! {

/// Ticks a phase must have held before it becomes eligible to rotate.
pub const MINIMUM_LIGHT_TIME: usize = 100;

/// The quadrant whose light is currently green.
#[derive(Clone, Copy, PartialEq, Eq, Structural, Debug)]
pub enum GreenLight {
    TopLeft,
    TopRight,
    BottomRight,
    BottomLeft,
}

/// The phase that follows `light` in the fixed rotation order
/// TopLeft -> TopRight -> BottomRight -> BottomLeft -> TopLeft.
pub open spec fn next_light(light: GreenLight) -> GreenLight {
    match light {
        GreenLight::TopLeft => GreenLight::TopRight,
        GreenLight::TopRight => GreenLight::BottomRight,
        GreenLight::BottomRight => GreenLight::BottomLeft,
        GreenLight::BottomLeft => GreenLight::TopLeft,
    }
}

/// The light controller's state: the green phase, the ticks the phase has
/// held so far, and whether the minimum dwell has elapsed for this phase.
#[derive(Clone, Copy, PartialEq, Eq, Structural, Debug)]
pub struct LightState {
    pub phase: GreenLight,
    pub timer: usize,
    pub passed: bool,
}

/// One tick of the light controller: the dwell timer advances (it stops
/// counting at `usize::MAX`), the minimum-dwell flag latches once the timer
/// reaches the threshold, and if the flag holds while no vehicle occupies a
/// decision zone the phase rotates one step and timer and flag reset.
pub open spec fn light_step(s: LightState, vehicle_in_zone: bool) -> LightState {
    let timer: usize = if s.timer < usize::MAX {
        (s.timer + 1) as usize
    } else {
        s.timer
    };
    let passed = s.passed || timer >= MINIMUM_LIGHT_TIME;
    if passed && !vehicle_in_zone {
        LightState { phase: next_light(s.phase), timer: 0, passed: false }
    } else {
        LightState { phase: s.phase, timer, passed }
    }
}

/// `n` ticks of the light controller, every one of them observing the same
/// zone-occupancy answer `vehicle_in_zone`.
pub open spec fn light_iter(s: LightState, vehicle_in_zone: bool, n: nat) -> LightState
    decreases n,
{
    if n == 0 {
        s
    } else {
        light_step(light_iter(s, vehicle_in_zone, (n - 1) as nat), vehicle_in_zone)
    }
}

/// Light rotation order: starting from a freshly rotated state with any
/// phase, ticking while no vehicle occupies a decision zone leaves the phase
/// untouched for the first `MINIMUM_LIGHT_TIME - 1` ticks and then, on the
/// tick that completes the minimum dwell, advances it exactly one step in the
/// fixed cyclic order, landing in a freshly rotated state again. The phase is
/// never skipped ahead or moved backwards.
pub proof fn lemma_light_rotation_order(phase: GreenLight, k: nat)
    requires
        k <= MINIMUM_LIGHT_TIME,
    ensures
        k < MINIMUM_LIGHT_TIME ==> light_iter(
            LightState { phase, timer: 0, passed: false },
            false,
            k,
        ) == (LightState { phase, timer: k as usize, passed: false }),
        k == MINIMUM_LIGHT_TIME ==> light_iter(
            LightState { phase, timer: 0, passed: false },
            false,
            k,
        ) == (LightState { phase: next_light(phase), timer: 0, passed: false }),
    decreases k,
{
    if k > 0 {
        lemma_light_rotation_order(phase, (k - 1) as nat);
    }
}

/// Rotation liveness gate: while a vehicle occupies some decision zone at
/// every tick, the phase never changes, no matter how many ticks elapse or
/// how long the dwell timer has already run.
pub proof fn lemma_rotation_gate(s: LightState, n: nat)
    ensures
        light_iter(s, true, n).phase == s.phase,
    decreases n,
{
    if n > 0 {
        lemma_rotation_gate(s, (n - 1) as nat);
    }
}

} // verus!
