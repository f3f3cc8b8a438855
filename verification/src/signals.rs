//! The watcher that ends the process on a termination request.
//!
//! An interrupt only sets a flag. The watcher looks at the flag on a fixed
//! tick and, the first time it finds it set, has the counters flushed and the
//! process ended.

use vstd::prelude::*;
use crate::runtime::Metrics;

verus! {

/// Milliseconds between two looks at the termination flag.
pub const WATCH_TICK_MILLIS: u64 = 80;

/// Whether the watcher has acted yet.
#[derive(Debug, Clone, Copy, PartialEq, Eq, Structural)]
pub enum WatcherState {
    /// No termination request was seen so far.
    Armed,
    /// The request was seen and the flush was ordered.
    Flushed,
}

/// What the watcher's thread does after a tick.
#[derive(Debug)]
pub enum WatcherAction {
    /// Wait for the next tick.
    Wait,
    /// Write `document` to the runtime file where there is one, then end the
    /// process with exit code zero.
    FlushAndExit { document: Option<String> },
}

/// A `WatcherAction` as plain values.
pub enum WatcherActionView {
    Wait,
    FlushAndExit { document: Option<Seq<char>> },
}

impl View for WatcherAction {
    type V = WatcherActionView;

    open spec fn view(&self) -> WatcherActionView {
        match self {
            WatcherAction::Wait => WatcherActionView::Wait,
            WatcherAction::FlushAndExit { document } => WatcherActionView::FlushAndExit {
                document: document.deep_view(),
            },
        }
    }
}

/// The watcher's state after a tick that found the flag at `flag`.
pub open spec fn watch_state(state: WatcherState, flag: bool) -> WatcherState {
    if flag {
        WatcherState::Flushed
    } else {
        state
    }
}

/// The watcher fires on a tick: it is armed and the flag is set.
pub open spec fn fires(state: WatcherState, flag: bool) -> bool {
    state == WatcherState::Armed && flag
}

/// The action after a tick, given the counters as they stand at that tick.
pub open spec fn watch_action(state: WatcherState, flag: bool, metrics: Metrics) -> WatcherActionView {
    if fires(state, flag) {
        WatcherActionView::FlushAndExit { document: metrics.flushed() }
    } else {
        WatcherActionView::Wait
    }
}

/// One tick of the watcher. `flag` is the termination flag as just read,
/// `metrics` the counters read under their lock.
pub fn watch(state: WatcherState, flag: bool, metrics: &Metrics) -> (result: (
    WatcherState,
    WatcherAction,
))
    ensures
        result.0 == watch_state(state, flag),
        result.1@ == watch_action(state, flag, *metrics),
{
    match state {
        WatcherState::Armed => if flag {
            (WatcherState::Flushed, WatcherAction::FlushAndExit { document: metrics.flush() })
        } else {
            (WatcherState::Armed, WatcherAction::Wait)
        },
        WatcherState::Flushed => (WatcherState::Flushed, WatcherAction::Wait),
    }
}

/// The watcher's state after a run of ticks, given the flag at each.
pub open spec fn watch_state_after(flags: Seq<bool>) -> WatcherState
    decreases flags.len(),
{
    if flags.len() == 0 {
        WatcherState::Armed
    } else {
        watch_state(watch_state_after(flags.drop_last()), flags.last())
    }
}

/// The watcher fires at tick `at` of a run that started armed.
pub open spec fn fires_at(flags: Seq<bool>, at: int) -> bool
    recommends
        0 <= at < flags.len(),
{
    fires(watch_state_after(flags.take(at)), flags[at])
}

/// The watcher is still armed exactly while no tick found the flag set.
pub proof fn lemma_armed_until_flag(flags: Seq<bool>)
    ensures
        watch_state_after(flags) == WatcherState::Armed <==> forall|i: int|
            0 <= i < flags.len() ==> !flags[i],
    decreases flags.len(),
{
    if flags.len() > 0 {
        let init = flags.drop_last();
        lemma_armed_until_flag(init);
        assert(forall|i: int| 0 <= i < init.len() ==> init[i] == flags[i]);
        if watch_state_after(flags) == WatcherState::Armed {
            assert(!flags.last());
        } else if !flags.last() {
            let i = choose|i: int| 0 <= i < init.len() && init[i];
            assert(flags[i]);
        } else {
            assert(flags[flags.len() - 1]);
        }
    }
}

/// The flush happens at most once: the watcher fires at the first tick that
/// finds the flag set and at no other.
pub proof fn lemma_fires_at_most_once(flags: Seq<bool>, i: int, j: int)
    requires
        0 <= i < flags.len(),
        0 <= j < flags.len(),
        fires_at(flags, i),
        fires_at(flags, j),
    ensures
        i == j,
        flags[i],
        forall|k: int| 0 <= k < i ==> !flags[k],
{
    lemma_armed_until_flag(flags.take(i));
    lemma_armed_until_flag(flags.take(j));
    assert(forall|k: int| 0 <= k < i ==> flags.take(i)[k] == flags[k]);
    assert(forall|k: int| 0 <= k < j ==> flags.take(j)[k] == flags[k]);
    if i < j {
        assert(flags.take(j)[i]);
    } else if j < i {
        assert(flags.take(i)[j]);
    }
}

} // verus!
