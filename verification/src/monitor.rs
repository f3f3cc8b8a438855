//! The monitoring state machine: what the watchdog does after each poll.
//!
//! The loop itself is the caller's. It polls the targets, hands the verdict
//! to `step` and carries out the action that comes back: a sleep, an
//! immediate new poll, or the shutdown of the host.

use vstd::prelude::*;
use crate::config::MonitorConfig;
use crate::runtime::{add_one, MetricEvent, Metrics};

verus! {

/// Where the loop stands between two polls.
#[derive(Debug, Clone, Copy, PartialEq, Eq, Structural)]
pub enum LoopState {
    /// Connectivity was there at the last look.
    Normal,
    /// Connectivity is lost; `retries_left` more failed polls are tolerated.
    Emergency { retries_left: u32 },
    /// The shutdown was ordered. Polling never resumes.
    Halted,
}

/// What the caller has to do before it polls again.
#[derive(Debug, Clone, Copy, PartialEq, Eq, Structural)]
pub enum LoopAction {
    /// Wait for `secs` seconds, then poll.
    Sleep { secs: u64 },
    /// Poll at once.
    PollNow,
    /// Power the host off. If the process survives that, it ends with a
    /// failure.
    Shutdown,
    /// Do not poll: the shutdown was ordered before.
    Stop,
}

/// One transition of the loop.
#[derive(Debug, Clone, Copy, PartialEq, Eq, Structural)]
pub struct Step {
    pub state: LoopState,
    pub action: LoopAction,
}

/// How the normal loop answers a poll. A passing poll is followed by the
/// normal interval. A failing poll opens an emergency with the full retry
/// budget and is followed by a poll at once.
pub open spec fn normal_step(cfg: MonitorConfig, overall: bool) -> Step {
    if overall {
        Step { state: LoopState::Normal, action: LoopAction::Sleep { secs: cfg.normal_interval } }
    } else {
        Step {
            state: LoopState::Emergency { retries_left: cfg.emergency_retries },
            action: LoopAction::PollNow,
        }
    }
}

/// How the emergency loop answers a poll. A passing poll ends the emergency
/// and is followed by a poll at once. A failing poll with the budget used up
/// orders the shutdown. Any other failing poll takes one retry from the
/// budget and is followed by the emergency interval.
pub open spec fn emergency_step(cfg: MonitorConfig, retries_left: u32, overall: bool) -> Step {
    if overall {
        Step { state: LoopState::Normal, action: LoopAction::PollNow }
    } else if retries_left == 0 {
        Step { state: LoopState::Halted, action: LoopAction::Shutdown }
    } else {
        Step {
            state: LoopState::Emergency { retries_left: (retries_left - 1) as u32 },
            action: LoopAction::Sleep { secs: cfg.emergency_interval },
        }
    }
}

/// The transition from any state on a verdict.
pub open spec fn next_step(cfg: MonitorConfig, state: LoopState, overall: bool) -> Step {
    match state {
        LoopState::Normal => normal_step(cfg, overall),
        LoopState::Emergency { retries_left } => emergency_step(cfg, retries_left, overall),
        LoopState::Halted => Step { state: LoopState::Halted, action: LoopAction::Stop },
    }
}

/// The counter that a verdict advances: a pass in the normal loop and a
/// failure in the emergency loop count as one iteration of their loop.
pub open spec fn counted(state: LoopState, overall: bool) -> Option<MetricEvent> {
    match state {
        LoopState::Normal => if overall {
            Some(MetricEvent::NormalLoopTimes)
        } else {
            None
        },
        LoopState::Emergency { .. } => if overall {
            None
        } else {
            Some(MetricEvent::EmergencyLoopTimes)
        },
        LoopState::Halted => None,
    }
}

/// The counters after a verdict was handled in `state`.
pub open spec fn counters_after(metrics: Metrics, state: LoopState, overall: bool) -> Metrics {
    match counted(state, overall) {
        Some(event) => metrics.after(event),
        None => metrics,
    }
}

/// Handles the verdict of a poll made in the normal state.
pub fn normal_loop(cfg: &MonitorConfig, overall: bool, metrics: &mut Metrics) -> (step: Step)
    ensures
        step == normal_step(*cfg, overall),
        *final(metrics) == counters_after(*old(metrics), LoopState::Normal, overall),
        old(metrics).le(*final(metrics)),
{
    if !overall {
        return Step {
            state: LoopState::Emergency { retries_left: cfg.emergency_retries },
            action: LoopAction::PollNow,
        };
    }
    add_one(metrics, MetricEvent::NormalLoopTimes);
    Step { state: LoopState::Normal, action: LoopAction::Sleep { secs: cfg.normal_interval } }
}

/// Handles the verdict of a poll made in an emergency with `retries_left`
/// retries still in the budget.
pub fn emergency_loop(
    cfg: &MonitorConfig,
    retries_left: u32,
    overall: bool,
    metrics: &mut Metrics,
) -> (step: Step)
    ensures
        step == emergency_step(*cfg, retries_left, overall),
        *final(metrics) == counters_after(
            *old(metrics),
            LoopState::Emergency { retries_left },
            overall,
        ),
        old(metrics).le(*final(metrics)),
{
    if overall {
        return Step { state: LoopState::Normal, action: LoopAction::PollNow };
    }
    add_one(metrics, MetricEvent::EmergencyLoopTimes);
    if retries_left == 0 {
        return Step { state: LoopState::Halted, action: LoopAction::Shutdown };
    }
    Step {
        state: LoopState::Emergency { retries_left: retries_left - 1 },
        action: LoopAction::Sleep { secs: cfg.emergency_interval },
    }
}

/// Handles the verdict of a poll made in `state`.
pub fn step(
    cfg: &MonitorConfig,
    state: LoopState,
    overall: bool,
    metrics: &mut Metrics,
) -> (step: Step)
    ensures
        step == next_step(*cfg, state, overall),
        *final(metrics) == counters_after(*old(metrics), state, overall),
        old(metrics).le(*final(metrics)),
{
    match state {
        LoopState::Normal => normal_loop(cfg, overall, metrics),
        LoopState::Emergency { retries_left } => emergency_loop(cfg, retries_left, overall, metrics),
        LoopState::Halted => Step { state: LoopState::Halted, action: LoopAction::Stop },
    }
}

/// The state after a run of verdicts, first to last.
pub open spec fn state_after(cfg: MonitorConfig, start: LoopState, verdicts: Seq<bool>) -> LoopState
    decreases verdicts.len(),
{
    if verdicts.len() == 0 {
        start
    } else {
        next_step(cfg, state_after(cfg, start, verdicts.drop_last()), verdicts.last()).state
    }
}

/// The action that follows the verdict at index `at` of a run.
pub open spec fn action_at(cfg: MonitorConfig, start: LoopState, verdicts: Seq<bool>, at: int) -> LoopAction
    recommends
        0 <= at < verdicts.len(),
{
    next_step(cfg, state_after(cfg, start, verdicts.take(at)), verdicts[at]).action
}

/// A run of `n` failed polls.
pub open spec fn failures(n: nat) -> Seq<bool> {
    Seq::new(n, |i: int| false)
}

/// The state in which an emergency opens: the whole budget is there.
pub open spec fn fresh_emergency(cfg: MonitorConfig) -> LoopState {
    LoopState::Emergency { retries_left: cfg.emergency_retries }
}

/// While the budget lasts, failed polls in an emergency only use it up: after
/// `n` of them, `n` no larger than the budget, the emergency goes on with `n`
/// retries fewer, and each of them was followed by the emergency interval.
pub proof fn lemma_budget_lasts(cfg: MonitorConfig, n: nat)
    requires
        n <= cfg.emergency_retries,
    ensures
        state_after(cfg, fresh_emergency(cfg), failures(n)) == (LoopState::Emergency {
            retries_left: (cfg.emergency_retries - n) as u32,
        }),
        forall|i: int|
            0 <= i < n ==> #[trigger] action_at(cfg, fresh_emergency(cfg), failures(n), i) == (
            LoopAction::Sleep { secs: cfg.emergency_interval }),
    decreases n,
{
    if n > 0 {
        let shorter = (n - 1) as nat;
        lemma_budget_lasts(cfg, shorter);
        assert(failures(n).drop_last() =~= failures(shorter));
        assert forall|i: int| 0 <= i < n implies #[trigger] action_at(
            cfg,
            fresh_emergency(cfg),
            failures(n),
            i,
        ) == (LoopAction::Sleep { secs: cfg.emergency_interval }) by {
            assert(failures(n).take(i) =~= failures(i as nat));
            lemma_budget_lasts(cfg, i as nat);
        }
    }
}

/// With a budget of `N` retries the shutdown is ordered on failed poll number
/// `N + 1` of an emergency and on none before it.
pub proof fn lemma_shutdown_on_exhausted_budget(cfg: MonitorConfig)
    ensures
        forall|i: int|
            0 <= i < cfg.emergency_retries ==> #[trigger] action_at(
                cfg,
                fresh_emergency(cfg),
                failures((cfg.emergency_retries + 1) as nat),
                i,
            ) != LoopAction::Shutdown,
        action_at(
            cfg,
            fresh_emergency(cfg),
            failures((cfg.emergency_retries + 1) as nat),
            cfg.emergency_retries as int,
        ) == LoopAction::Shutdown,
        state_after(cfg, fresh_emergency(cfg), failures((cfg.emergency_retries + 1) as nat))
            == LoopState::Halted,
{
    let budget = cfg.emergency_retries as nat;
    let run = failures(budget + 1);
    lemma_budget_lasts(cfg, budget);
    assert(run.drop_last() =~= failures(budget));
    assert(run.take(budget as int) =~= failures(budget));
    assert forall|i: int| 0 <= i < budget implies #[trigger] action_at(
        cfg,
        fresh_emergency(cfg),
        run,
        i,
    ) != LoopAction::Shutdown by {
        assert(run.take(i) =~= failures(i as nat));
        lemma_budget_lasts(cfg, i as nat);
    }
}

/// A recovery gives the budget back: whatever was left of it, one passing
/// poll in an emergency followed by one failing poll opens a new emergency
/// with all `emergency_retries` retries.
pub proof fn lemma_recovery_resets_budget(cfg: MonitorConfig, retries_left: u32)
    ensures
        state_after(cfg, LoopState::Emergency { retries_left }, seq![true, false])
            == fresh_emergency(cfg),
        action_at(cfg, LoopState::Emergency { retries_left }, seq![true, false], 0)
            == LoopAction::PollNow,
        action_at(cfg, LoopState::Emergency { retries_left }, seq![true, false], 1)
            == LoopAction::PollNow,
{
    let start = LoopState::Emergency { retries_left };
    let run = seq![true, false];
    assert(run.drop_last() =~= seq![true]);
    assert(seq![true].drop_last() =~= Seq::<bool>::empty());
    assert(run.take(0) =~= Seq::<bool>::empty());
    assert(run.take(1) =~= seq![true]);
    assert(state_after(cfg, start, Seq::<bool>::empty()) == start);
    assert(state_after(cfg, start, seq![true]) == LoopState::Normal);
}

/// In a run that starts in the normal state the budget never exceeds the
/// configured one.
pub proof fn lemma_budget_bounded(cfg: MonitorConfig, verdicts: Seq<bool>)
    ensures
        state_after(cfg, LoopState::Normal, verdicts) matches LoopState::Emergency { retries_left }
            ==> retries_left <= cfg.emergency_retries,
    decreases verdicts.len(),
{
    if verdicts.len() > 0 {
        lemma_budget_bounded(cfg, verdicts.drop_last());
    }
}

/// Once the shutdown was ordered the loop never polls again: every later
/// verdict leaves it halted and is answered by `Stop`.
pub proof fn lemma_halted_is_final(cfg: MonitorConfig, verdicts: Seq<bool>)
    ensures
        state_after(cfg, LoopState::Halted, verdicts) == LoopState::Halted,
        forall|i: int|
            0 <= i < verdicts.len() ==> #[trigger] action_at(cfg, LoopState::Halted, verdicts, i)
                == LoopAction::Stop,
    decreases verdicts.len(),
{
    if verdicts.len() > 0 {
        lemma_halted_is_final(cfg, verdicts.drop_last());
        assert forall|i: int| 0 <= i < verdicts.len() implies #[trigger] action_at(
            cfg,
            LoopState::Halted,
            verdicts,
            i,
        ) == LoopAction::Stop by {
            lemma_halted_is_final(cfg, verdicts.take(i));
        }
    }
}

/// While every poll passes the loop stays normal, sleeps the normal interval
/// after each poll and never orders the shutdown.
pub proof fn lemma_all_passing_stays_normal(cfg: MonitorConfig, verdicts: Seq<bool>)
    requires
        forall|i: int| 0 <= i < verdicts.len() ==> verdicts[i],
    ensures
        state_after(cfg, LoopState::Normal, verdicts) == LoopState::Normal,
        forall|i: int|
            0 <= i < verdicts.len() ==> #[trigger] action_at(cfg, LoopState::Normal, verdicts, i)
                == (LoopAction::Sleep { secs: cfg.normal_interval }),
    decreases verdicts.len(),
{
    if verdicts.len() > 0 {
        lemma_all_passing_stays_normal(cfg, verdicts.drop_last());
        assert forall|i: int| 0 <= i < verdicts.len() implies #[trigger] action_at(
            cfg,
            LoopState::Normal,
            verdicts,
            i,
        ) == (LoopAction::Sleep { secs: cfg.normal_interval }) by {
            lemma_all_passing_stays_normal(cfg, verdicts.take(i));
        }
    }
}

/// Milliseconds between two frames of the progress indicator.
pub const PROGRESS_TICK_MILLIS: u64 = 200;

/// Frames of the progress indicator in one second of waiting.
pub const PROGRESS_TICKS_PER_SEC: u64 = 5;

/// One frame of the progress indicator shown during a wait.
#[derive(Debug, Clone, Copy, PartialEq, Eq, Structural)]
pub struct ProgressFrame {
    /// Which of the four spinner shapes is shown: `-`, `\`, `|`, `/`.
    pub spinner: u64,
    /// Seconds of the wait that are left.
    pub remaining_secs: u64,
}

/// The frame shown at tick `tick` of a wait of `secs` seconds. A second of
/// the wait has passed after every fifth tick; the wait is over, and no frame
/// is shown, once all its seconds have passed.
pub open spec fn progress_at(secs: u64, tick: u64) -> Option<ProgressFrame> {
    if tick / PROGRESS_TICKS_PER_SEC < secs {
        Some(
            ProgressFrame {
                spinner: tick % 4,
                remaining_secs: (secs - tick / PROGRESS_TICKS_PER_SEC) as u64,
            },
        )
    } else {
        None
    }
}

/// The frame to show at tick `tick` of a wait of `secs` seconds, or `None`
/// where the wait is over. The caller shows the frame, sleeps
/// `PROGRESS_TICK_MILLIS` and asks for the next tick.
pub fn sleep_with_progress(secs: u64, tick: u64) -> (frame: Option<ProgressFrame>)
    ensures
        frame == progress_at(secs, tick),
        frame matches Some(shown) ==> shown.spinner < 4 && 1 <= shown.remaining_secs <= secs,
{
    let elapsed: u64 = tick / PROGRESS_TICKS_PER_SEC;
    if elapsed < secs {
        Some(ProgressFrame { spinner: tick % 4, remaining_secs: secs - elapsed })
    } else {
        None
    }
}

/// A wait of `secs` seconds shows a frame at each of its first `5 * secs`
/// ticks and at none after them.
pub proof fn lemma_progress_ends(secs: u64, tick: u64)
    ensures
        progress_at(secs, tick) is Some <==> tick < PROGRESS_TICKS_PER_SEC * secs,
{
}

} // verus!
