//! The hysteresis policy: from a capacity reading and the behaviour in force
//! to the behaviour that should be in force.

use vstd::prelude::*;

use crate::behaviour::ChargeBehaviour;

verus! {

/// Below this capacity the battery is always left to charge.
pub const LOW_THRESHOLD: i8 = 70;

/// Above this capacity the battery is always drained.
pub const HIGH_THRESHOLD: i8 = 80;

/// The behaviour that the policy asks for at capacity `cap` when `current` is
/// in force.
///
/// Outside the band the reading alone decides. Inside it the battery keeps
/// charging only if it was charging and has not reached the upper threshold;
/// in every other case charging is paused.
pub open spec fn next_behaviour(cap: i8, current: ChargeBehaviour) -> ChargeBehaviour {
    if cap > HIGH_THRESHOLD {
        ChargeBehaviour::ForceDischarge
    } else if cap < LOW_THRESHOLD {
        ChargeBehaviour::Auto
    } else if current == ChargeBehaviour::Auto && cap < HIGH_THRESHOLD {
        ChargeBehaviour::Auto
    } else {
        ChargeBehaviour::InhibitCharge
    }
}

/// Decides the behaviour for one reading. Every reading is accepted, also one
/// that is no percentage.
pub fn calc_behaviour(cap: i8, cb: &ChargeBehaviour) -> (next: ChargeBehaviour)
    ensures
        next == next_behaviour(cap, *cb),
        cap > HIGH_THRESHOLD ==> next == ChargeBehaviour::ForceDischarge,
        cap < LOW_THRESHOLD ==> next == ChargeBehaviour::Auto,
        LOW_THRESHOLD <= cap < HIGH_THRESHOLD && *cb == ChargeBehaviour::Auto ==> next
            == ChargeBehaviour::Auto,
        cap == HIGH_THRESHOLD && *cb == ChargeBehaviour::Auto ==> next
            == ChargeBehaviour::InhibitCharge,
        LOW_THRESHOLD <= cap <= HIGH_THRESHOLD && *cb != ChargeBehaviour::Auto ==> next
            == ChargeBehaviour::InhibitCharge,
{
    match (cap, cb) {
        (c, _) if c > HIGH_THRESHOLD => ChargeBehaviour::ForceDischarge,
        (c, _) if c < LOW_THRESHOLD => ChargeBehaviour::Auto,
        (c, ChargeBehaviour::Auto) if c < HIGH_THRESHOLD => ChargeBehaviour::Auto,
        (_, _) => ChargeBehaviour::InhibitCharge,
    }
}

} // verus!
