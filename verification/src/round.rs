//! One round of the control loop: from the capacity read and the behaviour
//! in force to what is written and how the round is reported.

use vstd::prelude::*;

use crate::behaviour::ChargeBehaviour;
use crate::journal::Severity;
use crate::policy::{calc_behaviour, next_behaviour, HIGH_THRESHOLD, LOW_THRESHOLD};

verus! {

/// What a round comes to.
#[derive(Debug, Clone, Copy, PartialEq, Eq, Structural)]
pub enum Tick {
    /// The behaviour in force is the one wanted: nothing is written.
    Unchanged { capacity: i8, behaviour: ChargeBehaviour },
    /// Another behaviour is wanted: `to` is written in place of `from`.
    Changed { capacity: i8, from: ChargeBehaviour, to: ChargeBehaviour },
}

/// The round for the reading `capacity` with `current` in force.
pub open spec fn tick_of(capacity: i8, current: ChargeBehaviour) -> Tick {
    let next = next_behaviour(capacity, current);
    if next == current {
        Tick::Unchanged { capacity, behaviour: current }
    } else {
        Tick::Changed { capacity, from: current, to: next }
    }
}

impl Tick {
    /// The behaviour to write to the device, if any.
    pub open spec fn written(self) -> Option<ChargeBehaviour> {
        match self {
            Tick::Unchanged { .. } => None,
            Tick::Changed { to, .. } => Some(to),
        }
    }

    /// The behaviour in force when the round is over.
    pub open spec fn in_force(self) -> ChargeBehaviour {
        match self {
            Tick::Unchanged { behaviour, .. } => behaviour,
            Tick::Changed { to, .. } => to,
        }
    }

    /// The behaviour that the caller is to write, `None` where the device
    /// is left alone.
    pub fn to_write(&self) -> (w: Option<ChargeBehaviour>)
        ensures
            w == self.written(),
    {
        match self {
            Tick::Unchanged { .. } => None,
            Tick::Changed { to, .. } => Some(*to),
        }
    }

    /// How the round is reported: a change as information, an unchanged
    /// observation for debugging only.
    pub fn severity(&self) -> (s: Severity)
        ensures
            s == (if self is Changed {
                Severity::Info
            } else {
                Severity::Debug
            }),
    {
        match self {
            Tick::Unchanged { .. } => Severity::Debug,
            Tick::Changed { .. } => Severity::Info,
        }
    }
}

/// Decides one round: the device is written to exactly when the policy asks
/// for another behaviour than the one in force.
pub fn tick(capacity: i8, current: ChargeBehaviour) -> (t: Tick)
    ensures
        t == tick_of(capacity, current),
        t.in_force() == next_behaviour(capacity, current),
        t.written() is Some <==> next_behaviour(capacity, current) != current,
{
    let next = calc_behaviour(capacity, &current);
    if next == current {
        Tick::Unchanged { capacity, behaviour: current }
    } else {
        Tick::Changed { capacity, from: current, to: next }
    }
}

/// The behaviour in force after one round for each reading of `readings`,
/// in turn, with `start` in force before the first.
pub open spec fn behaviour_after(start: ChargeBehaviour, readings: Seq<i8>) -> ChargeBehaviour
    decreases readings.len(),
{
    if readings.len() == 0 {
        start
    } else {
        tick_of(readings.last(), behaviour_after(start, readings.drop_last())).in_force()
    }
}

/// A round that follows a round on the same reading changes nothing.
pub proof fn law_second_round_is_quiet(capacity: i8, current: ChargeBehaviour)
    ensures
        tick_of(capacity, tick_of(capacity, current).in_force()) is Unchanged,
{
}

/// After a reading above the upper threshold the battery is drained, and it
/// is drained after no other reading.
pub proof fn law_drained_above_high(start: ChargeBehaviour, readings: Seq<i8>)
    requires
        readings.len() > 0,
    ensures
        behaviour_after(start, readings) == ChargeBehaviour::ForceDischarge <==> readings.last()
            > HIGH_THRESHOLD,
{
}

/// After a reading below the lower threshold the battery charges freely.
pub proof fn law_charges_below_low(start: ChargeBehaviour, readings: Seq<i8>)
    requires
        readings.len() > 0,
        readings.last() < LOW_THRESHOLD,
    ensures
        behaviour_after(start, readings) == ChargeBehaviour::Auto,
{
}

/// Once the battery does not charge freely, it does not do so again before
/// a reading below the lower threshold.
pub proof fn law_no_recharge_before_low(start: ChargeBehaviour, readings: Seq<i8>)
    requires
        start != ChargeBehaviour::Auto,
        forall|i: int| 0 <= i < readings.len() ==> #[trigger] readings[i] >= LOW_THRESHOLD,
    ensures
        behaviour_after(start, readings) != ChargeBehaviour::Auto,
    decreases readings.len(),
{
    if readings.len() > 0 {
        let front = readings.drop_last();
        assert forall|i: int| 0 <= i < front.len() implies #[trigger] front[i] >= LOW_THRESHOLD by {
            assert(front[i] == readings[i]);
        }
        law_no_recharge_before_low(start, front);
        assert(readings.last() == readings[readings.len() - 1]);
    }
}

/// A battery that charges freely goes on doing so while the readings stay
/// below the upper threshold.
pub proof fn law_charges_up_to_high(readings: Seq<i8>)
    requires
        forall|i: int| 0 <= i < readings.len() ==> #[trigger] readings[i] < HIGH_THRESHOLD,
    ensures
        behaviour_after(ChargeBehaviour::Auto, readings) == ChargeBehaviour::Auto,
    decreases readings.len(),
{
    if readings.len() > 0 {
        let front = readings.drop_last();
        assert forall|i: int| 0 <= i < front.len() implies #[trigger] front[i] < HIGH_THRESHOLD by {
            assert(front[i] == readings[i]);
        }
        law_charges_up_to_high(front);
        assert(readings.last() == readings[readings.len() - 1]);
    }
}

/// While the readings stay between the thresholds, a battery that was
/// drained or paused stays paused: charging does not resume at once.
pub proof fn law_paused_in_band(start: ChargeBehaviour, readings: Seq<i8>)
    requires
        start != ChargeBehaviour::Auto,
        readings.len() > 0,
        forall|i: int|
            0 <= i < readings.len() ==> LOW_THRESHOLD <= #[trigger] readings[i] <= HIGH_THRESHOLD,
    ensures
        behaviour_after(start, readings) == ChargeBehaviour::InhibitCharge,
{
    let front = readings.drop_last();
    assert forall|i: int| 0 <= i < front.len() implies #[trigger] front[i] >= LOW_THRESHOLD by {
        assert(front[i] == readings[i]);
    }
    law_no_recharge_before_low(start, front);
    assert(readings.last() == readings[readings.len() - 1]);
}

} // verus!
