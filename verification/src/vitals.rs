//! The vitals engine: how hunger, energy, focus, affection and stress drift
//! over time and respond to the user.
use vstd::prelude::*;
use crate::types::{CpuLoad, PetState, VitalsVector, VITAL_MAX, VITAL_UNIT};

verus! {

/// The longest tick that counts, in milliseconds; longer ticks count as this.
pub const MAX_TICK_MS: i64 = 60_000;

/// Hunger gained per millisecond (0.05 points a second).
pub const HUNGER_GAIN_PER_MS: i64 = 50;

/// Affection lost per millisecond (0.02 points a second).
pub const AFFECTION_LOSS_PER_MS: i64 = 20;

/// Energy regained per millisecond of sleep (0.5 points a second).
pub const SLEEP_ENERGY_GAIN_PER_MS: i64 = 500;

/// Energy spent per millisecond awake (0.05 points a second).
pub const AWAKE_ENERGY_LOSS_PER_MS: i64 = 50;

/// Focus gained per millisecond of work (0.1 points a second).
pub const WORK_FOCUS_GAIN_PER_MS: i64 = 100;

/// Focus lost per millisecond not working (0.05 points a second).
pub const IDLE_FOCUS_LOSS_PER_MS: i64 = 50;

/// Stress gained per millisecond under pressure (0.2 points a second).
pub const STRESS_GAIN_PER_MS: i64 = 200;

/// Stress relieved per millisecond without pressure (0.1 points a second).
pub const STRESS_RELIEF_PER_MS: i64 = 100;

/// Hunger above which the pet is under pressure (80 points).
pub const HUNGRY: i64 = 80_000_000;

/// `v` limited to `0 ..= VITAL_MAX`.
pub open spec fn clamp_vital(v: int) -> int {
    if v < 0 {
        0
    } else if v > VITAL_MAX {
        VITAL_MAX as int
    } else {
        v
    }
}

/// Every vital of `v` limited to `0 ..= VITAL_MAX`.
pub open spec fn clamped(v: VitalsVector) -> VitalsVector {
    VitalsVector {
        energy: clamp_vital(v.energy as int) as i64,
        hunger: clamp_vital(v.hunger as int) as i64,
        focus: clamp_vital(v.focus as int) as i64,
        affection: clamp_vital(v.affection as int) as i64,
        stress: clamp_vital(v.stress as int) as i64,
    }
}

/// The part of a tick of `dt_ms` milliseconds that counts:
/// negative ticks count as none, and at most `MAX_TICK_MS` counts.
pub open spec fn effective_tick(dt_ms: int) -> int {
    if dt_ms < 0 {
        0
    } else if dt_ms > MAX_TICK_MS {
        MAX_TICK_MS as int
    } else {
        dt_ms
    }
}

/// The vitals after a tick of `dt_ms` milliseconds spent in `state` while
/// the CPU runs at `cpu_usage`.
pub open spec fn after_tick(v: VitalsVector, dt_ms: int, state: PetState, cpu_usage: CpuLoad) -> VitalsVector {
    let dt = effective_tick(dt_ms);
    let hunger = v.hunger + HUNGER_GAIN_PER_MS * dt;
    let affection = v.affection - AFFECTION_LOSS_PER_MS * dt;
    let energy = if state == PetState::Sleeping {
        v.energy + SLEEP_ENERGY_GAIN_PER_MS * dt
    } else {
        v.energy - AWAKE_ENERGY_LOSS_PER_MS * dt
    };
    let focus = if state == PetState::Working {
        v.focus + WORK_FOCUS_GAIN_PER_MS * dt
    } else {
        v.focus - IDLE_FOCUS_LOSS_PER_MS * dt
    };
    let stress = if cpu_usage.above_high() || hunger > HUNGRY {
        v.stress + STRESS_GAIN_PER_MS * dt
    } else {
        v.stress - STRESS_RELIEF_PER_MS * dt
    };
    VitalsVector {
        energy: clamp_vital(energy) as i64,
        hunger: clamp_vital(hunger) as i64,
        focus: clamp_vital(focus) as i64,
        affection: clamp_vital(affection) as i64,
        stress: clamp_vital(stress) as i64,
    }
}

/// The vitals after the user clicks the pet: five points of affection and
/// two of energy gained, five points of stress relieved.
pub open spec fn after_click(v: VitalsVector) -> VitalsVector {
    VitalsVector {
        energy: clamp_vital(v.energy + 2 * VITAL_UNIT) as i64,
        hunger: clamp_vital(v.hunger as int) as i64,
        focus: clamp_vital(v.focus as int) as i64,
        affection: clamp_vital(v.affection + 5 * VITAL_UNIT) as i64,
        stress: clamp_vital(v.stress - 5 * VITAL_UNIT) as i64,
    }
}

/// `v` limited to `0 ..= VITAL_MAX`.
fn clamp_wide(v: i128) -> (r: i64)
    ensures
        r == clamp_vital(v as int),
{
    if v < 0 {
        0
    } else if v > VITAL_MAX as i128 {
        VITAL_MAX
    } else {
        v as i64
    }
}

/// The vitals of the pet, kept within range by every operation.
#[derive(Debug, Clone, PartialEq, Eq, Structural)]
pub struct VitalsEngine {
    vitals: VitalsVector,
}

impl View for VitalsEngine {
    type V = VitalsVector;

    closed spec fn view(&self) -> VitalsVector {
        self.vitals
    }
}

impl Default for VitalsEngine {
    fn default() -> (e: Self)
        ensures
            e@ == VitalsVector::initial(),
    {
        Self::new()
    }
}

impl VitalsEngine {
    /// An engine holding the vitals of a freshly hatched pet.
    pub fn new() -> (e: Self)
        ensures
            e@ == VitalsVector::initial(),
    {
        VitalsEngine { vitals: VitalsVector::default() }
    }

    /// An engine holding `vitals`, each limited to `0 ..= VITAL_MAX`.
    pub fn from_vector(vitals: VitalsVector) -> (e: Self)
        ensures
            e@ == clamped(vitals),
    {
        let mut engine = VitalsEngine { vitals };
        engine.clamp();
        engine
    }

    /// The current vitals.
    pub fn vector(&self) -> (v: &VitalsVector)
        ensures
            *v == self@,
    {
        &self.vitals
    }

    /// The current vitals, for the caller to change in place.
    pub fn vector_mut(&mut self) -> (v: &mut VitalsVector)
        ensures
            *v == old(self)@,
            final(self)@ == *final(v),
    {
        &mut self.vitals
    }

    /// Advances the vitals by a tick of `dt_ms` milliseconds spent in
    /// `state` while the CPU runs at `cpu_usage`.
    pub fn apply_tick(&mut self, dt_ms: i64, state: PetState, cpu_usage: CpuLoad)
        ensures
            final(self)@ == after_tick(old(self)@, dt_ms as int, state, cpu_usage),
            final(self)@.in_range(),
    {
        let dt: i128 = if dt_ms < 0 {
            0
        } else if dt_ms > MAX_TICK_MS {
            MAX_TICK_MS as i128
        } else {
            dt_ms as i128
        };
        let v = self.vitals;
        let hunger = v.hunger as i128 + HUNGER_GAIN_PER_MS as i128 * dt;
        let affection = v.affection as i128 - AFFECTION_LOSS_PER_MS as i128 * dt;
        let energy = if state == PetState::Sleeping {
            v.energy as i128 + SLEEP_ENERGY_GAIN_PER_MS as i128 * dt
        } else {
            v.energy as i128 - AWAKE_ENERGY_LOSS_PER_MS as i128 * dt
        };
        let focus = if state == PetState::Working {
            v.focus as i128 + WORK_FOCUS_GAIN_PER_MS as i128 * dt
        } else {
            v.focus as i128 - IDLE_FOCUS_LOSS_PER_MS as i128 * dt
        };
        let stress = if cpu_usage.is_high() || hunger > HUNGRY as i128 {
            v.stress as i128 + STRESS_GAIN_PER_MS as i128 * dt
        } else {
            v.stress as i128 - STRESS_RELIEF_PER_MS as i128 * dt
        };
        self.vitals = VitalsVector {
            energy: clamp_wide(energy),
            hunger: clamp_wide(hunger),
            focus: clamp_wide(focus),
            affection: clamp_wide(affection),
            stress: clamp_wide(stress),
        };
    }

    /// The user clicked the pet.
    pub fn apply_user_click(&mut self)
        ensures
            final(self)@ == after_click(old(self)@),
            final(self)@.in_range(),
    {
        let v = self.vitals;
        self.vitals = VitalsVector {
            energy: clamp_wide(v.energy as i128 + 2 * VITAL_UNIT as i128),
            hunger: clamp_wide(v.hunger as i128),
            focus: clamp_wide(v.focus as i128),
            affection: clamp_wide(v.affection as i128 + 5 * VITAL_UNIT as i128),
            stress: clamp_wide(v.stress as i128 - 5 * VITAL_UNIT as i128),
        };
    }

    fn clamp(&mut self)
        ensures
            final(self)@ == clamped(old(self)@),
    {
        let v = self.vitals;
        self.vitals = VitalsVector {
            energy: clamp_wide(v.energy as i128),
            hunger: clamp_wide(v.hunger as i128),
            focus: clamp_wide(v.focus as i128),
            affection: clamp_wide(v.affection as i128),
            stress: clamp_wide(v.stress as i128),
        };
    }
}

/// Every vital stays within 0 ..= 100 points, whatever the vitals were
/// before: after a tick, after a click, and once clamped.
pub proof fn law_vitals_stay_in_range(v: VitalsVector, dt_ms: int, state: PetState, cpu_usage: CpuLoad)
    ensures
        after_tick(v, dt_ms, state, cpu_usage).in_range(),
        after_click(v).in_range(),
        clamped(v).in_range(),
{
}

/// Only the first minute of a tick counts, and a tick of no time, or of
/// negative time, only brings the vitals into range.
pub proof fn law_tick_length_is_capped(v: VitalsVector, dt_ms: int, state: PetState, cpu_usage: CpuLoad)
    ensures
        dt_ms >= MAX_TICK_MS ==> after_tick(v, dt_ms, state, cpu_usage) == after_tick(
            v,
            MAX_TICK_MS as int,
            state,
            cpu_usage,
        ),
        dt_ms <= 0 ==> after_tick(v, dt_ms, state, cpu_usage) == clamped(v),
{
}

/// Vitals in range drift the way the pet lives: hunger never falls and
/// affection never rises with time, sleep never costs energy and work never
/// costs focus.
pub proof fn law_tick_directions(v: VitalsVector, dt_ms: int, state: PetState, cpu_usage: CpuLoad)
    requires
        v.in_range(),
    ensures
        after_tick(v, dt_ms, state, cpu_usage).hunger >= v.hunger,
        after_tick(v, dt_ms, state, cpu_usage).affection <= v.affection,
        state == PetState::Sleeping ==> after_tick(v, dt_ms, state, cpu_usage).energy >= v.energy,
        state != PetState::Sleeping ==> after_tick(v, dt_ms, state, cpu_usage).energy <= v.energy,
        state == PetState::Working ==> after_tick(v, dt_ms, state, cpu_usage).focus >= v.focus,
        state != PetState::Working ==> after_tick(v, dt_ms, state, cpu_usage).focus <= v.focus,
{
}

/// A click on a pet whose vitals are in range gains five points of affection
/// and two of energy and relieves five of stress, as far as the range
/// allows, and leaves hunger and focus alone.
pub proof fn law_click_comforts(v: VitalsVector)
    requires
        v.in_range(),
    ensures
        after_click(v).affection == clamp_vital(v.affection + 5 * VITAL_UNIT),
        after_click(v).energy == clamp_vital(v.energy + 2 * VITAL_UNIT),
        after_click(v).stress == clamp_vital(v.stress - 5 * VITAL_UNIT),
        after_click(v).hunger == v.hunger,
        after_click(v).focus == v.focus,
        after_click(v).affection >= v.affection,
        after_click(v).stress <= v.stress,
{
}

/// Over a tick of `dt_ms` milliseconds within the first minute, in any
/// state and at any CPU usage, hunger grows by 0.05 points a second and
/// affection falls by 0.02; energy grows by 0.5 a second asleep and falls
/// by 0.05 otherwise; focus grows by 0.1 a second at work and falls by
/// 0.05 otherwise; stress grows by 0.2 a second while the CPU is above
/// 85 % or the grown hunger is above 80 points, and falls by 0.1 otherwise;
/// each then limited to 0 ..= 100 points.
pub proof fn law_tick_rates(v: VitalsVector, dt_ms: int, state: PetState, cpu_usage: CpuLoad)
    requires
        0 <= dt_ms <= 60_000,
    ensures
        after_tick(v, dt_ms, state, cpu_usage).hunger == clamp_vital(v.hunger + 50 * dt_ms),
        after_tick(v, dt_ms, state, cpu_usage).affection == clamp_vital(v.affection - 20 * dt_ms),
        after_tick(v, dt_ms, state, cpu_usage).energy == clamp_vital(
            if state == PetState::Sleeping {
                v.energy + 500 * dt_ms
            } else {
                v.energy - 50 * dt_ms
            },
        ),
        after_tick(v, dt_ms, state, cpu_usage).focus == clamp_vital(
            if state == PetState::Working {
                v.focus + 100 * dt_ms
            } else {
                v.focus - 50 * dt_ms
            },
        ),
        after_tick(v, dt_ms, state, cpu_usage).stress == clamp_vital(
            if cpu_usage.above_high() || v.hunger + 50 * dt_ms > 80_000_000 {
                v.stress + 200 * dt_ms
            } else {
                v.stress - 100 * dt_ms
            },
        ),
{
}

/// Hunger and affection drift the same way in every state and at every CPU
/// usage.
pub proof fn law_hunger_and_affection_ignore_state(
    v: VitalsVector,
    dt_ms: int,
    s1: PetState,
    c1: CpuLoad,
    s2: PetState,
    c2: CpuLoad,
)
    ensures
        after_tick(v, dt_ms, s1, c1).hunger == after_tick(v, dt_ms, s2, c2).hunger,
        after_tick(v, dt_ms, s1, c1).affection == after_tick(v, dt_ms, s2, c2).affection,
{
}

} // verus!
