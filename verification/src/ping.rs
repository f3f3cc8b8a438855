//! Reading one probe's answer and reducing a cycle's answers to a verdict.

use vstd::prelude::*;
use crate::config::MonitorConfig;
use crate::runtime::{MetricEvent, Metrics};
use crate::text::{contains_bytes, occurs};

verus! {

/// The probe could not be run at all.
#[derive(Debug)]
pub struct ProbeError {
    pub message: String,
}

/// The verdict of one poll cycle over all targets.
#[derive(Debug, Clone, Copy, PartialEq, Eq, Structural)]
pub struct PollVerdict {
    pub overall: bool,
    pub succeed_count: u64,
    pub fail_count: u64,
}

/// The bytes `TTL`: a reply's time-to-live field as most probes print it.
pub open spec fn marker_upper() -> Seq<u8> {
    seq![0x54u8, 0x54u8, 0x4Cu8]
}

/// The bytes `ttl`.
pub open spec fn marker_lower() -> Seq<u8> {
    seq![0x74u8, 0x74u8, 0x6Cu8]
}

/// A probe's output shows a live target where it holds a time-to-live field.
pub open spec fn shows_reply(output: Seq<u8>) -> bool {
    occurs(output, marker_upper()) || occurs(output, marker_lower())
}

/// What a probe's response says of its target: a probe that could not be run
/// counts as a target that did not answer.
pub open spec fn reachable(response: Result<Vec<u8>, ProbeError>) -> bool {
    match response {
        Ok(output) => shows_reply(output@),
        Err(_) => false,
    }
}

/// Whether the target of one probe answered.
pub fn get_status(response: &Result<Vec<u8>, ProbeError>) -> (up: bool)
    ensures
        up == reachable(*response),
{
    match response {
        Ok(output) => {
            let upper: [u8; 3] = [0x54, 0x54, 0x4C];
            let lower: [u8; 3] = [0x74, 0x74, 0x6C];
            assert(upper@ =~= marker_upper());
            assert(lower@ =~= marker_lower());
            contains_bytes(output.as_slice(), upper.as_slice()) || contains_bytes(
                output.as_slice(),
                lower.as_slice(),
            )
        },
        Err(_) => false,
    }
}

/// How many targets answered.
pub open spec fn count_up(outcomes: Seq<bool>) -> nat
    decreases outcomes.len(),
{
    if outcomes.len() == 0 {
        0
    } else {
        count_up(outcomes.drop_last()) + if outcomes.last() {
            1nat
        } else {
            0nat
        }
    }
}

/// How many targets did not answer.
pub open spec fn count_down(outcomes: Seq<bool>) -> nat {
    (outcomes.len() - count_up(outcomes)) as nat
}

/// The aggregation policy: strict asks that no target failed, otherwise one
/// success is enough.
pub open spec fn passes(strict: bool, succeeds: nat, failures: nat) -> bool {
    if strict {
        failures == 0
    } else {
        succeeds > 0
    }
}

/// No more targets answered than were probed.
pub proof fn lemma_count_up_bounded(outcomes: Seq<bool>)
    ensures
        count_up(outcomes) <= outcomes.len(),
    decreases outcomes.len(),
{
    if outcomes.len() > 0 {
        lemma_count_up_bounded(outcomes.drop_last());
    }
}

/// Some target answered exactly where the count of answers is not zero, and
/// every target answered exactly where the count of failures is zero.
pub proof fn lemma_counts_by_target(outcomes: Seq<bool>)
    ensures
        count_up(outcomes) > 0 <==> exists|i: int| 0 <= i < outcomes.len() && outcomes[i],
        count_down(outcomes) == 0 <==> forall|i: int| 0 <= i < outcomes.len() ==> outcomes[i],
    decreases outcomes.len(),
{
    if outcomes.len() > 0 {
        let init = outcomes.drop_last();
        let last = outcomes.len() - 1;
        lemma_counts_by_target(init);
        lemma_count_up_bounded(init);
        assert(forall|i: int| 0 <= i < init.len() ==> init[i] == outcomes[i]);
        if count_up(init) > 0 {
            let i = choose|i: int| 0 <= i < init.len() && init[i];
            assert(outcomes[i]);
        }
        if outcomes[last] {
            assert(0 <= last < outcomes.len() && outcomes[last]);
        }
        if count_down(init) != 0 {
            let i = choose|i: int| 0 <= i < init.len() && !init[i];
            assert(!outcomes[i]);
        }
    }
}

/// Without strictness a cycle passes exactly where some target answered;
/// with it, exactly where every target answered. With one target the two
/// policies agree.
pub proof fn lemma_policy_by_target(strict: bool, outcomes: Seq<bool>)
    ensures
        !strict ==> (passes(strict, count_up(outcomes), count_down(outcomes)) <==> exists|i: int|
            0 <= i < outcomes.len() && outcomes[i]),
        strict ==> (passes(strict, count_up(outcomes), count_down(outcomes)) <==> forall|i: int|
            0 <= i < outcomes.len() ==> outcomes[i]),
        outcomes.len() == 1 ==> passes(true, count_up(outcomes), count_down(outcomes)) == passes(
            false,
            count_up(outcomes),
            count_down(outcomes),
        ),
{
    lemma_counts_by_target(outcomes);
    if outcomes.len() == 1 {
        assert(outcomes.drop_last().len() == 0);
    }
}

/// Reduces the outcomes of one cycle, one per target, to a verdict.
pub fn evaluate(outcomes: &Vec<bool>, strict: bool) -> (verdict: PollVerdict)
    ensures
        verdict.succeed_count == count_up(outcomes@),
        verdict.fail_count == count_down(outcomes@),
        verdict.succeed_count + verdict.fail_count == outcomes@.len(),
        verdict.overall == passes(strict, count_up(outcomes@), count_down(outcomes@)),
        !strict ==> (verdict.overall <==> verdict.succeed_count > 0),
        strict ==> (verdict.overall <==> verdict.fail_count == 0),
{
    let mut succeeds: u64 = 0;
    let mut failures: u64 = 0;
    let mut i: usize = 0;
    while i < outcomes.len()
        invariant
            i <= outcomes@.len(),
            succeeds == count_up(outcomes@.take(i as int)),
            succeeds + failures == i,
        decreases outcomes@.len() - i,
    {
        assert(outcomes@.take(i + 1).drop_last() =~= outcomes@.take(i as int));
        if outcomes[i] {
            succeeds += 1;
        } else {
            failures += 1;
        }
        i += 1;
    }
    assert(outcomes@.take(i as int) =~= outcomes@);
    let overall = if strict {
        failures == 0
    } else {
        succeeds > 0
    };
    PollVerdict { overall, succeed_count: succeeds, fail_count: failures }
}

/// The event that one target's outcome counts as.
pub open spec fn outcome_event(up: bool) -> MetricEvent {
    if up {
        MetricEvent::Succeeds
    } else {
        MetricEvent::Failures
    }
}

/// Recording a cycle target by target, one event for each outcome, comes to
/// the same counters as recording its two tallies at once.
pub proof fn lemma_poll_is_one_event_per_target(metrics: Metrics, outcomes: Seq<bool>)
    ensures
        metrics.after_all(outcomes.map_values(|up: bool| outcome_event(up))) == metrics.after_poll(
            count_up(outcomes),
            count_down(outcomes),
        ),
    decreases outcomes.len(),
{
    let events = outcomes.map_values(|up: bool| outcome_event(up));
    if outcomes.len() > 0 {
        let init = outcomes.drop_last();
        lemma_poll_is_one_event_per_target(metrics, init);
        lemma_count_up_bounded(init);
        assert(events.drop_last() =~= init.map_values(|up: bool| outcome_event(up)));
        assert(events.last() == outcome_event(outcomes.last()));
    }
}

/// Evaluates one poll cycle. `outcomes` holds what the probe of each target
/// of `cfg` gave, in the order of the targets. Every outcome is counted, also
/// after the verdict is settled, and each advances one counter of `metrics`.
pub fn check_status(cfg: &MonitorConfig, outcomes: &Vec<bool>, metrics: &mut Metrics) -> (result: (
    bool,
    u64,
    u64,
))
    requires
        outcomes@.len() == cfg.targets@.len(),
    ensures
        result.1 == count_up(outcomes@),
        result.2 == count_down(outcomes@),
        result.1 + result.2 == cfg.targets@.len(),
        result.0 == passes(cfg.strict, count_up(outcomes@), count_down(outcomes@)),
        !cfg.strict ==> (result.0 <==> result.1 > 0),
        cfg.strict ==> (result.0 <==> result.2 == 0),
        *final(metrics) == old(metrics).after_poll(count_up(outcomes@), count_down(outcomes@)),
        old(metrics).le(*final(metrics)),
{
    let verdict = evaluate(outcomes, cfg.strict);
    metrics.record_poll(verdict.succeed_count, verdict.fail_count);
    (verdict.overall, verdict.succeed_count, verdict.fail_count)
}

} // verus!
