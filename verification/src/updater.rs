//! The polling task's decision logic: one state machine stepped once per
//! loop iteration. The host performs the blocking work (reading the source,
//! sleeping, checking the cancellation flag) and hands the results back;
//! every decision — exit, debounce-skip, or attempt — is taken here.

use vstd::prelude::*;

use crate::overrides::StakedNodesOverrides;
use crate::source::ReloadError;

verus! {

/// Minimum spacing between reload attempts, in milliseconds.
pub const RELOAD_PERIOD_MILLIS: u64 = 60000;

/// How long the task sleeps between cancellation checks, in milliseconds.
pub const POLL_INTERVAL_MILLIS: u64 = 1;

/// When the last reload attempt was made, in milliseconds on the task's
/// monotonic clock; absent before the first attempt.
#[derive(Clone, Copy, PartialEq, Eq, Structural, Debug)]
pub struct ReloadTimer {
    pub last_attempt: Option<u64>,
}

/// The task's private state: the debounce timer and the auto-reload flag
/// from the most recent successful load (initially on).
#[derive(Clone, Copy, PartialEq, Eq, Structural, Debug)]
pub struct UpdaterState {
    pub timer: ReloadTimer,
    pub auto_reload: bool,
}

/// What one loop iteration does next.
#[derive(Clone, Copy, PartialEq, Eq, Structural, Debug)]
pub enum PollDecision {
    /// Leave the loop: cancellation was observed, or auto-reload is off.
    Exit,
    /// The debounce window is still open: no reload this iteration.
    Skip,
    /// Attempt a reload now.
    Attempt,
}

/// The debounce window after the last attempt is still open at `now`.
pub open spec fn debounced(timer: ReloadTimer, now: u64) -> bool {
    timer.last_attempt matches Some(t) && now < t + RELOAD_PERIOD_MILLIS
}

/// The decision taken at `now`: exit on cancellation or when auto-reload is
/// off; otherwise skip while the debounce window is open, else attempt.
pub open spec fn poll_of(state: UpdaterState, cancelled: bool, now: u64) -> PollDecision {
    if cancelled || !state.auto_reload {
        PollDecision::Exit
    } else if debounced(state.timer, now) {
        PollDecision::Skip
    } else {
        PollDecision::Attempt
    }
}

/// The task state after a reload attempt's outcome is applied: a successful
/// load adopts the document's auto-reload flag; a failure changes nothing.
pub open spec fn state_after_outcome(
    state: UpdaterState,
    outcome: Result<StakedNodesOverrides, ReloadError>,
) -> UpdaterState {
    match outcome {
        Ok(cfg) => UpdaterState { timer: state.timer, auto_reload: cfg.auto_reload },
        Err(_) => state,
    }
}

/// What a reload attempt's outcome publishes: the whole decoded document on
/// success, nothing on failure.
pub open spec fn publication_of(
    outcome: Result<StakedNodesOverrides, ReloadError>,
) -> Option<StakedNodesOverrides> {
    match outcome {
        Ok(cfg) => Some(cfg),
        Err(_) => None,
    }
}

impl UpdaterState {
    /// The state the task starts in: no attempt made yet, auto-reload on.
    pub fn initial() -> (s: Self)
        ensures
            s.timer.last_attempt is None,
            s.auto_reload == true,
    {
        UpdaterState { timer: ReloadTimer { last_attempt: None }, auto_reload: true }
    }
}

/// The start transition: whether the task enters the polling loop at all.
/// With no locator it never does — the task is a no-op, exits at once, and
/// the shared snapshot is never written.
pub fn locator_present(locator: &Option<String>) -> (r: bool)
    ensures
        r == locator.is_some(),
{
    locator.is_some()
}

/// Decides what the iteration at time `now` does.
pub fn poll(state: &UpdaterState, cancelled: bool, now: u64) -> (d: PollDecision)
    ensures
        d == poll_of(*state, cancelled, now),
{
    if cancelled || !state.auto_reload {
        PollDecision::Exit
    } else {
        let in_window = match state.timer.last_attempt {
            Some(t) => now < t || now - t < RELOAD_PERIOD_MILLIS,
            None => false,
        };
        if in_window {
            PollDecision::Skip
        } else {
            PollDecision::Attempt
        }
    }
}

/// Records `now` as the time of the newest reload attempt. This happens on
/// every attempt, before the read: a failed read still uses up the debounce
/// window.
pub fn record_attempt(state: &mut UpdaterState, now: u64)
    ensures
        final(state).timer.last_attempt == Some(now),
        final(state).auto_reload == old(state).auto_reload,
{
    state.timer.last_attempt = Some(now);
}

/// Applies a reload attempt's outcome: on success, adopts the document's
/// auto-reload flag and returns the document for publication; on failure,
/// leaves the state unchanged and publishes nothing.
pub fn apply_outcome(
    state: &mut UpdaterState,
    outcome: Result<StakedNodesOverrides, ReloadError>,
) -> (publish: Option<StakedNodesOverrides>)
    ensures
        *final(state) == state_after_outcome(*old(state), outcome),
        publish == publication_of(outcome),
{
    match outcome {
        Ok(cfg) => {
            state.auto_reload = cfg.auto_reload;
            Some(cfg)
        },
        Err(_) => None,
    }
}

/// Everything one loop iteration observes: the cancellation flag, the
/// clock, and the outcome the read would produce were a reload attempted.
pub struct PollEvent {
    pub cancelled: bool,
    pub now: u64,
    pub outcome: Result<StakedNodesOverrides, ReloadError>,
}

/// One whole loop iteration: poll, and on an attempt record the time and
/// apply the outcome. Yields the next task state and what is published.
pub open spec fn iteration(state: UpdaterState, ev: PollEvent) -> (
    UpdaterState,
    Option<StakedNodesOverrides>,
) {
    match poll_of(state, ev.cancelled, ev.now) {
        PollDecision::Exit => (state, None),
        PollDecision::Skip => (state, None),
        PollDecision::Attempt => {
            let attempted = UpdaterState {
                timer: ReloadTimer { last_attempt: Some(ev.now) },
                auto_reload: state.auto_reload,
            };
            (state_after_outcome(attempted, ev.outcome), publication_of(ev.outcome))
        },
    }
}

/// The times at which a run over the events `evs`, starting in `state`,
/// attempts a reload.
pub open spec fn attempt_times(state: UpdaterState, evs: Seq<PollEvent>) -> Seq<u64>
    decreases evs.len(),
{
    if evs.len() == 0 {
        Seq::empty()
    } else {
        let ev = evs.first();
        let rest = attempt_times(iteration(state, ev).0, evs.drop_first());
        if poll_of(state, ev.cancelled, ev.now) == PollDecision::Attempt {
            seq![ev.now] + rest
        } else {
            rest
        }
    }
}

/// The snapshots a run over the events `evs`, starting in `state`,
/// publishes, in order.
pub open spec fn publications(state: UpdaterState, evs: Seq<PollEvent>) -> Seq<
    StakedNodesOverrides,
>
    decreases evs.len(),
{
    if evs.len() == 0 {
        Seq::empty()
    } else {
        let ev = evs.first();
        let rest = publications(iteration(state, ev).0, evs.drop_first());
        match iteration(state, ev).1 {
            Some(p) => seq![p] + rest,
            None => rest,
        }
    }
}

/// The task state a run ends in.
pub open spec fn run_state(state: UpdaterState, evs: Seq<PollEvent>) -> UpdaterState
    decreases evs.len(),
{
    if evs.len() == 0 {
        state
    } else {
        run_state(iteration(state, evs.first()).0, evs.drop_first())
    }
}

/// Some event of the run successfully decoded exactly the document `snap`.
pub open spec fn event_loaded(evs: Seq<PollEvent>, snap: StakedNodesOverrides) -> bool {
    exists|i: int|
        0 <= i < evs.len() && (#[trigger] evs[i]).outcome == Result::<
            StakedNodesOverrides,
            ReloadError,
        >::Ok(snap)
}

proof fn lemma_event_loaded_extend(evs: Seq<PollEvent>, snap: StakedNodesOverrides)
    requires
        evs.len() > 0,
        event_loaded(evs.drop_first(), snap),
    ensures
        event_loaded(evs, snap),
{
    let i = choose|i: int|
        0 <= i < evs.drop_first().len() && (#[trigger] evs.drop_first()[i]).outcome == Result::<
            StakedNodesOverrides,
            ReloadError,
        >::Ok(snap);
    assert(evs[i + 1] == evs.drop_first()[i]);
}

/// Publication law: a run publishes nothing but documents that one of its
/// events successfully decoded — each snapshot reaches the shared slot
/// whole, exactly as some load produced it, and a run whose reads all fail
/// publishes nothing.
pub proof fn lemma_publications_are_loaded_documents(state: UpdaterState, evs: Seq<PollEvent>)
    ensures
        forall|m: int|
            0 <= m < publications(state, evs).len() ==> #[trigger] event_loaded(
                evs,
                publications(state, evs)[m],
            ),
    decreases evs.len(),
{
    if evs.len() == 0 {
    } else {
        let ev = evs.first();
        let next = iteration(state, ev).0;
        let tail = evs.drop_first();
        let rest = publications(next, tail);
        let all = publications(state, evs);
        lemma_publications_are_loaded_documents(next, tail);
        assert forall|m: int| 0 <= m < all.len() implies #[trigger] event_loaded(
            evs,
            all[m],
        ) by {
            match iteration(state, ev).1 {
                Some(p) => {
                    assert(all == seq![p] + rest);
                    if m == 0 {
                        assert(ev.outcome == Result::<StakedNodesOverrides, ReloadError>::Ok(p));
                        assert(evs[0] == ev);
                    } else {
                        assert(all[m] == rest[m - 1]);
                        lemma_event_loaded_extend(evs, all[m]);
                    }
                },
                None => {
                    assert(all == rest);
                    lemma_event_loaded_extend(evs, all[m]);
                },
            }
        }
    }
}

/// Coherence law: after any run, the task's auto-reload flag is the flag of
/// the last snapshot the run published, or the starting flag when the run
/// published nothing — the task's decisions always follow the newest load.
pub proof fn lemma_flag_follows_last_publication(state: UpdaterState, evs: Seq<PollEvent>)
    ensures
        publications(state, evs).len() == 0 ==> run_state(state, evs).auto_reload
            == state.auto_reload,
        publications(state, evs).len() > 0 ==> run_state(state, evs).auto_reload
            == publications(state, evs).last().auto_reload,
    decreases evs.len(),
{
    if evs.len() == 0 {
    } else {
        let ev = evs.first();
        let next = iteration(state, ev).0;
        let tail = evs.drop_first();
        let rest = publications(next, tail);
        let all = publications(state, evs);
        lemma_flag_follows_last_publication(next, tail);
        match iteration(state, ev).1 {
            Some(p) => {
                assert(next.auto_reload == p.auto_reload);
                assert(all == seq![p] + rest);
                if rest.len() > 0 {
                    assert(all.last() == rest.last());
                } else {
                    assert(all.last() == p);
                }
            },
            None => {
                assert(next.auto_reload == state.auto_reload);
                assert(all == rest);
            },
        }
    }
}

/// Each attempt time is at least the reload period after the one before it.
pub open spec fn spaced_by_period(times: Seq<u64>) -> bool {
    forall|i: int, j: int|
        0 <= i && j == i + 1 && j < times.len() ==> (#[trigger] times[i]) + RELOAD_PERIOD_MILLIS
            <= (#[trigger] times[j])
}

/// Debounce law over whole runs: however the cancellation flag, the clock
/// and the read outcomes behave, two reload attempts are never separated by
/// less than the reload period; and no attempt falls inside the window left
/// open by an attempt recorded before the run.
pub proof fn lemma_attempts_spaced(state: UpdaterState, evs: Seq<PollEvent>)
    ensures
        spaced_by_period(attempt_times(state, evs)),
        state.timer.last_attempt matches Some(t) ==> attempt_times(state, evs).len() > 0 ==> t
            + RELOAD_PERIOD_MILLIS <= attempt_times(state, evs)[0],
    decreases evs.len(),
{
    if evs.len() == 0 {
    } else {
        let ev = evs.first();
        let next = iteration(state, ev).0;
        let rest = attempt_times(next, evs.drop_first());
        let all = attempt_times(state, evs);
        lemma_attempts_spaced(next, evs.drop_first());
        if poll_of(state, ev.cancelled, ev.now) == PollDecision::Attempt {
            assert(all == seq![ev.now] + rest);
            assert(next.timer.last_attempt == Some(ev.now));
            assert forall|i: int, j: int| 0 <= i && j == i + 1 && j < all.len() implies (
            #[trigger] all[i]) + RELOAD_PERIOD_MILLIS <= (#[trigger] all[j]) by {
                if i == 0 {
                    assert(all[0] == ev.now);
                    assert(all[1] == rest[0]);
                } else {
                    assert(all[i] == rest[i - 1]);
                    assert(all[j] == rest[j - 1]);
                }
            }
        } else {
            assert(all == rest);
            assert(next == state);
        }
    }
}

/// Termination law over whole runs: once auto-reload is off, a run makes no
/// reload attempt at all, whatever the events hold.
pub proof fn lemma_no_attempts_after_auto_reload_off(state: UpdaterState, evs: Seq<PollEvent>)
    requires
        !state.auto_reload,
    ensures
        attempt_times(state, evs) == Seq::<u64>::empty(),
    decreases evs.len(),
{
    if evs.len() == 0 {
    } else {
        let ev = evs.first();
        assert(poll_of(state, ev.cancelled, ev.now) == PollDecision::Exit);
        assert(iteration(state, ev).0 == state);
        lemma_no_attempts_after_auto_reload_off(state, evs.drop_first());
    }
}

/// Debounce law: while the window after the attempt recorded at `t` is
/// still open, no poll decides to attempt — so two reload attempts are
/// never separated by less than the reload period.
pub proof fn lemma_debounce_spaces_attempts(
    state: UpdaterState,
    cancelled: bool,
    now: u64,
    t: u64,
)
    requires
        state.timer.last_attempt == Some(t),
        now < t + RELOAD_PERIOD_MILLIS,
    ensures
        poll_of(state, cancelled, now) != PollDecision::Attempt,
{
}

/// Termination law: once a successful load has reported auto-reload off,
/// every later poll decides to exit — no further reload attempt occurs.
pub proof fn lemma_auto_reload_off_exits(state: UpdaterState, cancelled: bool, now: u64)
    requires
        !state.auto_reload,
    ensures
        poll_of(state, cancelled, now) == PollDecision::Exit,
{
}

/// Cancellation law: once the cancellation flag is observed set, the poll
/// decides to exit, whatever the debounce state — in particular no further
/// reload is attempted mid-debounce-wait.
pub proof fn lemma_cancelled_exits(state: UpdaterState, now: u64)
    ensures
        poll_of(state, true, now) == PollDecision::Exit,
{
}

/// Successful-reload law: applying a successful load of document `cfg`
/// publishes exactly `cfg` — table and flag from the same load — and the
/// task adopts `cfg`'s auto-reload flag, touching nothing else.
pub proof fn lemma_success_publishes_exactly(state: UpdaterState, cfg: StakedNodesOverrides)
    ensures
        publication_of(Result::<StakedNodesOverrides, ReloadError>::Ok(cfg)) == Some(cfg),
        state_after_outcome(state, Result::<StakedNodesOverrides, ReloadError>::Ok(cfg))
            == (UpdaterState { timer: state.timer, auto_reload: cfg.auto_reload }),
{
}

/// Failed-reload law: applying a failed attempt publishes nothing and
/// leaves the task state — and so the shared snapshot — exactly as it was.
pub proof fn lemma_failure_publishes_nothing(state: UpdaterState, e: ReloadError)
    ensures
        publication_of(Result::<StakedNodesOverrides, ReloadError>::Err(e)) is None,
        state_after_outcome(state, Result::<StakedNodesOverrides, ReloadError>::Err(e)) == state,
{
}

} // verus!
