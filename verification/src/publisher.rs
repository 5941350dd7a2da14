//! One status round: every sensor was read, each read either produced a
//! payload to publish or a failure to log. The round publishes exactly the
//! successful subset and logs exactly the failed subset; no failure keeps a
//! sibling from being published. The reads themselves, and the sending,
//! happen at the runtime's edge.

use vstd::prelude::*;

verus! {

/// A successful sensor read: the topic and the serialised payload to send.
pub struct SensorRead {
    pub topic: String,
    pub payload: String,
}

/// A failed sensor read: the unit's identity and what went wrong.
pub struct SensorFailure {
    pub sensor: String,
    pub message: String,
}

/// What one sensor's read came to.
pub enum ReadOutcome {
    Success(SensorRead),
    Failure(SensorFailure),
}

/// The successful reads among the first `i` outcomes, in order.
pub open spec fn successes_of(o: Seq<ReadOutcome>, i: int) -> Seq<SensorRead>
    decreases i,
{
    if i <= 0 {
        Seq::empty()
    } else {
        let r = successes_of(o, i - 1);
        match o[i - 1] {
            ReadOutcome::Success(s) => r.push(s),
            ReadOutcome::Failure(_) => r,
        }
    }
}

/// The failed reads among the first `i` outcomes, in order.
pub open spec fn failures_of(o: Seq<ReadOutcome>, i: int) -> Seq<SensorFailure>
    decreases i,
{
    if i <= 0 {
        Seq::empty()
    } else {
        let r = failures_of(o, i - 1);
        match o[i - 1] {
            ReadOutcome::Success(_) => r,
            ReadOutcome::Failure(f) => r.push(f),
        }
    }
}

/// What one round does with its outcomes: publish these, log those.
pub struct RoundPlan {
    pub publishes: Vec<SensorRead>,
    pub failures: Vec<SensorFailure>,
}

/// Splits a round's outcomes: the publishes are exactly the successful
/// reads and the logged failures exactly the failed ones, each in round
/// order.
pub fn plan_round(outcomes: Vec<ReadOutcome>) -> (r: RoundPlan)
    ensures
        r.publishes@ == successes_of(outcomes@, outcomes@.len() as int),
        r.failures@ == failures_of(outcomes@, outcomes@.len() as int),
{
    let ghost orig = outcomes@;
    let mut outcomes = outcomes;
    let total = outcomes.len();
    let mut publishes: Vec<SensorRead> = Vec::new();
    let mut failures: Vec<SensorFailure> = Vec::new();
    let mut i: usize = 0;
    while i < total
        invariant
            total == orig.len(),
            0 <= i <= total,
            outcomes@ == orig.skip(i as int),
            publishes@ == successes_of(orig, i as int),
            failures@ == failures_of(orig, i as int),
        decreases total - i,
    {
        proof {
            assert(orig.skip(i as int)[0] == orig[i as int]);
        }
        let outcome = outcomes.remove(0);
        match outcome {
            ReadOutcome::Success(s) => publishes.push(s),
            ReadOutcome::Failure(f) => failures.push(f),
        }
        proof {
            assert(outcomes@ =~= orig.skip(i + 1));
        }
        i = i + 1;
    }
    RoundPlan { publishes, failures }
}

/// Every outcome of a round lands in exactly one of the two lists: none is
/// lost, and a failure never displaces a sibling's publish.
pub proof fn lemma_round_partition(o: Seq<ReadOutcome>, i: int)
    requires
        0 <= i <= o.len(),
    ensures
        successes_of(o, i).len() + failures_of(o, i).len() == i,
    decreases i,
{
    if i > 0 {
        lemma_round_partition(o, i - 1);
    }
}

} // verus!
