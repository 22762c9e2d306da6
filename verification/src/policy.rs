//! Delivery policy: the priority lanes, the retry schedule, and what follows
//! a failed attempt.

use crate::types::SignalUrgency;
use vstd::prelude::*;

verus! {

/// The lane of urgent deliveries.
pub const QUEUE_HIGH: &'static str = "delivery-high";

/// The lane of all other deliveries.
pub const QUEUE_NORMAL: &'static str = "delivery-normal";

/// The attempt after which a failed delivery is not retried: attempts are
/// numbered from 0, so a delivery is tried six times.
pub const LAST_ATTEMPT: i32 = 5;

/// The two priority lanes.
#[derive(Clone, Copy, Debug, PartialEq, Eq, Structural)]
pub enum Lane {
    High,
    Normal,
}

impl Lane {
    /// The lane of a signal: high for `High` and `Critical`, normal for
    /// `Low` and `Normal`.
    pub open spec fn of(urgency: SignalUrgency) -> Lane {
        match urgency {
            SignalUrgency::High | SignalUrgency::Critical => Lane::High,
            SignalUrgency::Low | SignalUrgency::Normal => Lane::Normal,
        }
    }

    /// The name of the queue behind the lane.
    pub open spec fn queue(self) -> Seq<char> {
        match self {
            Lane::High => QUEUE_HIGH@,
            Lane::Normal => QUEUE_NORMAL@,
        }
    }

    /// The lane of a signal of the given urgency.
    pub fn for_urgency(urgency: SignalUrgency) -> (lane: Lane)
        ensures
            lane == Lane::of(urgency),
    {
        match urgency {
            SignalUrgency::High | SignalUrgency::Critical => Lane::High,
            SignalUrgency::Low | SignalUrgency::Normal => Lane::Normal,
        }
    }

    /// The name of the queue behind the lane.
    pub fn queue_name(&self) -> (name: &'static str)
        ensures
            name@ == self.queue(),
    {
        match self {
            Lane::High => QUEUE_HIGH,
            Lane::Normal => QUEUE_NORMAL,
        }
    }
}

/// The queue that takes the deliveries of a signal of the given urgency.
pub fn queue_for_urgency(urgency: &SignalUrgency) -> (name: &'static str)
    ensures
        name@ == Lane::of(*urgency).queue(),
{
    Lane::for_urgency(*urgency).queue_name()
}

/// The delay before attempt number `attempt` runs, in seconds: nothing for
/// the first, then one minute, five minutes, half an hour, two hours and two
/// hours again; six hours for any attempt beyond.
pub open spec fn retry_delay(attempt: nat) -> nat {
    if attempt == 0 {
        0
    } else if attempt == 1 {
        60
    } else if attempt == 2 {
        300
    } else if attempt == 3 {
        1800
    } else if attempt == 4 {
        7200
    } else if attempt == 5 {
        7200
    } else {
        21600
    }
}

/// The delay before attempt number `attempt` runs, in seconds.
pub fn retry_policy(attempt: u32) -> (secs: u64)
    ensures
        secs == retry_delay(attempt as nat),
{
    match attempt {
        0 => 0,
        1 => 60,
        2 => 300,
        3 => 1800,
        4 => 7200,
        5 => 7200,
        _ => 21600,
    }
}

/// The retry schedule begins `0, 60, 300, 1800, 7200, 7200` and is `21600`
/// from then on; it never shortens from one attempt to the next.
pub proof fn law_retry_schedule(attempt: nat)
    ensures
        Seq::new(6, |i: int| retry_delay(i as nat)) == seq![0nat, 60, 300, 1800, 7200, 7200],
        attempt >= 6 ==> retry_delay(attempt) == 21600,
        retry_delay(attempt) <= retry_delay(attempt + 1),
{
    assert(Seq::new(6, |i: int| retry_delay(i as nat)) =~= seq![0nat, 60, 300, 1800, 7200, 7200]);
}

/// What follows a failed attempt that may be retried.
pub enum Followup {
    /// A fresh job for the next attempt, on `lane`, after `delay_secs`.
    Requeue { attempt: i32, lane: Lane, delay_secs: u64 },
    /// The delivery is given up and goes to the dead-letter queue.
    DeadLetter,
}

/// The delay before the job of attempt `next` runs. A negative number is no
/// attempt of the schedule and gets the longest delay.
pub open spec fn requeue_delay(next: int) -> nat {
    if next < 0 {
        21600
    } else {
        retry_delay(next as nat)
    }
}

/// What follows the failure of attempt `attempt` of a signal of the given
/// urgency: from attempt 5 on the dead-letter queue, before that a job for
/// the next attempt, on the lane of the urgency, delayed by the schedule.
pub open spec fn followup_of(attempt: i32, urgency: SignalUrgency) -> Followup {
    if attempt >= LAST_ATTEMPT {
        Followup::DeadLetter
    } else {
        Followup::Requeue {
            attempt: (attempt + 1) as i32,
            lane: Lane::of(urgency),
            delay_secs: requeue_delay(attempt + 1) as u64,
        }
    }
}

/// Decides what follows the failure of attempt `attempt`.
pub fn after_failure(attempt: i32, urgency: SignalUrgency) -> (next: Followup)
    ensures
        next == followup_of(attempt, urgency),
{
    if attempt >= LAST_ATTEMPT {
        Followup::DeadLetter
    } else {
        let following: i32 = attempt + 1;
        let delay_secs: u64 = if following < 0 {
            21600
        } else {
            retry_policy(following as u32)
        };
        Followup::Requeue { attempt: following, lane: Lane::for_urgency(urgency), delay_secs }
    }
}

/// Every attempt of one signal runs on the same lane: a retry is queued on
/// the lane of the signal's urgency, whatever the attempt.
pub proof fn law_lane_is_stable(urgency: SignalUrgency, attempt: i32)
    ensures
        (urgency == SignalUrgency::Low || urgency == SignalUrgency::Normal) ==> Lane::of(urgency)
            == Lane::Normal,
        (urgency == SignalUrgency::High || urgency == SignalUrgency::Critical) ==> Lane::of(urgency)
            == Lane::High,
        followup_of(attempt, urgency) matches Followup::Requeue { lane, .. } ==> lane == Lane::of(
            urgency,
        ),
{
}

/// The attempts that are made, in order, when every attempt from `first` on
/// fails: each failure but the last queues the next attempt.
pub open spec fn failing_run(first: i32, urgency: SignalUrgency) -> Seq<i32>
    decreases LAST_ATTEMPT - first,
{
    match followup_of(first, urgency) {
        Followup::Requeue { attempt, .. } => seq![first] + failing_run(attempt, urgency),
        Followup::DeadLetter => seq![first],
    }
}

/// How many of the attempts in `run` end in the dead-letter queue.
pub open spec fn dead_letters(run: Seq<i32>, urgency: SignalUrgency) -> nat
    decreases run.len(),
{
    if run.len() == 0 {
        0
    } else {
        dead_letters(run.drop_last(), urgency) + if followup_of(run.last(), urgency)
            is DeadLetter {
            1nat
        } else {
            0nat
        }
    }
}

/// A delivery that fails every time is tried six times, attempts 0 to 5; the
/// sixth failure puts it in the dead-letter queue, the five before it do not,
/// and no seventh attempt is queued.
pub proof fn law_dead_letter_is_terminal(urgency: SignalUrgency)
    ensures
        failing_run(0, urgency) == seq![0i32, 1, 2, 3, 4, 5],
        dead_letters(failing_run(0, urgency), urgency) == 1,
        followup_of(5, urgency) is DeadLetter,
        forall|attempt: i32| 0 <= attempt < 5 ==> #[trigger] followup_of(attempt, urgency)
            == (Followup::Requeue {
            attempt: (attempt + 1) as i32,
            lane: Lane::of(urgency),
            delay_secs: retry_delay((attempt + 1) as nat) as u64,
        }),
{
    let run = seq![0i32, 1, 2, 3, 4, 5];
    assert(failing_run(5, urgency) == seq![5i32]);
    assert(failing_run(4, urgency) =~= seq![4i32, 5]);
    assert(failing_run(3, urgency) =~= seq![3i32, 4, 5]);
    assert(failing_run(2, urgency) =~= seq![2i32, 3, 4, 5]);
    assert(failing_run(1, urgency) =~= seq![1i32, 2, 3, 4, 5]);
    assert(failing_run(0, urgency) =~= run);
    let r5 = run.drop_last();
    let r4 = r5.drop_last();
    let r3 = r4.drop_last();
    let r2 = r3.drop_last();
    let r1 = r2.drop_last();
    let r0 = r1.drop_last();
    assert(r0.len() == 0);
    assert(dead_letters(r0, urgency) == 0);
    assert(r1.last() == 0 && dead_letters(r1, urgency) == 0);
    assert(r2.last() == 1 && dead_letters(r2, urgency) == 0);
    assert(r3.last() == 2 && dead_letters(r3, urgency) == 0);
    assert(r4.last() == 3 && dead_letters(r4, urgency) == 0);
    assert(r5.last() == 4 && dead_letters(r5, urgency) == 0);
    assert(run.last() == 5 && dead_letters(run, urgency) == 1);
}

} // verus!
