//! The driver loop's decisions: what the device is told on each tick, and
//! the full sequence of device calls a run produces up to cancellation.
//!
//! The loop that actually waits out the tick interval and talks to the device
//! lives outside the library; it consumes `TickPlan`s and advances the
//! `TimerState`. `run_script` replays the very same decisions without the
//! waiting, so the emitted call sequence can be examined and tested.

use vstd::prelude::*;
use crate::text::{progress_color, spec_progress_color, spec_status_text, status_text};
use crate::timer::{
    current_duration, progress_percent, should_beep, spec_current_duration, spec_initial_state,
    spec_progress_percent, spec_step, Mode, TimerConfig, TimerState,
};

verus! {

/// One observable call to the display device.
#[derive(Clone, Copy, Debug, PartialEq, Eq, Structural)]
pub enum Event {
    /// A status notification showing a mode and its remaining ticks.
    Status { mode: Mode, remaining: u64 },
    /// The one-time request that the device show this application.
    Switch,
    /// The audible alert at the end of a mode.
    Beep,
    /// The final call clearing the display after cancellation.
    Cleanup,
}

/// Everything the driver loop must send for one tick, in order: the status
/// notification (always), then the display switch (if still pending), then
/// the alert (at the end of a mode, if enabled).
pub struct TickPlan {
    pub text: String,
    pub progress: u8,
    pub color: String,
    pub send_switch: bool,
    pub send_beep: bool,
}

/// The device calls one tick emits, in order: the status notification,
/// then the pending display switch, then the end-of-mode alert.
pub open spec fn spec_tick_events(c: TimerConfig, s: TimerState) -> Seq<Event> {
    let status = seq![
        Event::Status { mode: s.mode, remaining: s.remaining_ticks_in_mode },
    ];
    let with_switch = if s.switch_notification_pending {
        status.push(Event::Switch)
    } else {
        status
    };
    if s.remaining_ticks_in_mode == 0 && c.beep_enabled {
        with_switch.push(Event::Beep)
    } else {
        with_switch
    }
}

/// The device calls emitted by `ticks` completed ticks starting from state
/// `s`: each tick's calls, then the rest of the run from the stepped state.
pub open spec fn spec_trace(c: TimerConfig, s: TimerState, ticks: nat) -> Seq<Event>
    decreases ticks,
{
    if ticks == 0 {
        Seq::empty()
    } else {
        spec_tick_events(c, s) + spec_trace(c, spec_step(c, s), (ticks - 1) as nat)
    }
}

/// A whole run from startup: `ticks` completed ticks — cancellation arriving
/// during the wait of the last one — followed by the single cleanup call.
pub open spec fn spec_run(c: TimerConfig, ticks: nat) -> Seq<Event> {
    spec_trace(c, spec_initial_state(c), ticks).push(Event::Cleanup)
}

/// Builds the notification payload for the tick the state is sitting on.
/// `clock` is the wall-clock text shown during work mode.
pub fn tick_plan(c: &TimerConfig, s: &TimerState, clock: &str) -> (p: TickPlan)
    requires
        c.wf(),
        s.wf(*c),
    ensures
        p.text@ == spec_status_text(s.mode, clock@, s.remaining_ticks_in_mode as int),
        p.progress == spec_progress_percent(
            s.remaining_ticks_in_mode as int,
            spec_current_duration(*c, s.mode) as int,
        ),
        p.progress <= 100,
        p.color@ == spec_progress_color(s.mode),
        p.send_switch == s.switch_notification_pending,
        p.send_beep == (s.remaining_ticks_in_mode == 0 && c.beep_enabled),
{
    let total = current_duration(c, s.mode);
    TickPlan {
        text: status_text(s.mode, clock, s.remaining_ticks_in_mode),
        progress: progress_percent(s.remaining_ticks_in_mode, total),
        color: progress_color(s.mode),
        send_switch: s.switch_notification_pending,
        send_beep: should_beep(c, s.remaining_ticks_in_mode),
    }
}

/// Relies on chrono's `Local::now`, formatted with `"%H:%M"`: a zero-padded
/// hour, a colon and a zero-padded minute — always exactly five characters,
/// whatever the current time is.
#[verifier::external_body]
fn now_hhmm() -> (s: String)
    ensures
        s@.len() == 5,
{
    chrono::Local::now().format("%H:%M").to_string()
}

/// Builds the tick's payload with the wall-clock time read from the system
/// clock. Apart from the work-mode clock text — which shows some five-column
/// `HH:MM` reading — the payload is fixed by the state and configuration
/// exactly as in `tick_plan`.
pub fn tick_plan_now(c: &TimerConfig, s: &TimerState) -> (p: TickPlan)
    requires
        c.wf(),
        s.wf(*c),
    ensures
        exists|clock: Seq<char>|
            clock.len() == 5 && p.text@ == spec_status_text(
                s.mode,
                clock,
                s.remaining_ticks_in_mode as int,
            ),
        p.progress == spec_progress_percent(
            s.remaining_ticks_in_mode as int,
            spec_current_duration(*c, s.mode) as int,
        ),
        p.progress <= 100,
        p.color@ == spec_progress_color(s.mode),
        p.send_switch == s.switch_notification_pending,
        p.send_beep == (s.remaining_ticks_in_mode == 0 && c.beep_enabled),
{
    let clock = now_hhmm();
    let p = tick_plan(c, s, clock.as_str());
    proof {
        let witness = clock@;
        assert(witness.len() == 5 && p.text@ == spec_status_text(
            s.mode,
            witness,
            s.remaining_ticks_in_mode as int,
        ));
    }
    p
}

/// Replays the driver loop's decisions without waits or device I/O: simulates
/// `ticks` completed ticks from startup — cancellation being received during
/// the wait of the last one — and returns every device call the loop makes,
/// ending with the single cleanup call.
pub fn run_script(c: &TimerConfig, ticks: u64) -> (events: Vec<Event>)
    requires
        c.wf(),
        ticks >= 1,
    ensures
        events@ == spec_run(*c, ticks as nat),
{
    let mut events: Vec<Event> = Vec::new();
    let mut s = TimerState::initial(c);
    let mut i: u64 = 0;
    while i < ticks
        invariant
            c.wf(),
            s.wf(*c),
            i <= ticks,
            events@ + spec_trace(*c, s, (ticks - i) as nat) == spec_trace(
                *c,
                spec_initial_state(*c),
                ticks as nat,
            ),
        decreases ticks - i,
    {
        let ghost s_before = s;
        let ghost events_before = events@;
        events.push(Event::Status { mode: s.mode, remaining: s.remaining_ticks_in_mode });
        if s.switch_notification_pending {
            events.push(Event::Switch);
        }
        if should_beep(c, s.remaining_ticks_in_mode) {
            events.push(Event::Beep);
        }
        proof {
            assert(events@ =~= events_before + spec_tick_events(*c, s_before));
        }
        s.advance(c);
        i = i + 1;
        proof {
            assert(spec_trace(*c, s_before, (ticks - i + 1) as nat) == spec_tick_events(
                *c,
                s_before,
            ) + spec_trace(*c, s, (ticks - i) as nat));
            assert(events@ + spec_trace(*c, s, (ticks - i) as nat) =~= (events_before
                + spec_tick_events(*c, s_before)) + spec_trace(*c, s, (ticks - i) as nat));
            assert((events_before + spec_tick_events(*c, s_before)) + spec_trace(
                *c,
                s,
                (ticks - i) as nat,
            ) =~= events_before + spec_trace(*c, s_before, (ticks - i + 1) as nat));
        }
    }
    proof {
        assert(events@ + spec_trace(*c, s, 0) =~= events@);
    }
    events.push(Event::Cleanup);
    events
}

/// How many of the device calls in `events` are status notifications.
pub open spec fn status_count(events: Seq<Event>) -> nat
    decreases events.len(),
{
    if events.len() == 0 {
        0
    } else {
        status_count(events.drop_last()) + if events.last() is Status {
            1nat
        } else {
            0nat
        }
    }
}

proof fn lemma_status_count_add(a: Seq<Event>, b: Seq<Event>)
    ensures
        status_count(a + b) == status_count(a) + status_count(b),
    decreases b.len(),
{
    if b.len() == 0 {
        assert(a + b =~= a);
    } else {
        assert((a + b).drop_last() =~= a + b.drop_last());
        lemma_status_count_add(a, b.drop_last());
    }
}

proof fn lemma_tick_events_one_status(c: TimerConfig, s: TimerState)
    ensures
        status_count(spec_tick_events(c, s)) == 1,
{
    reveal_with_fuel(status_count, 5);
    let base = seq![
        Event::Status { mode: s.mode, remaining: s.remaining_ticks_in_mode },
    ];
    assert(base.drop_last() =~= Seq::<Event>::empty());
    assert(status_count(base) == 1);
    assert(base.push(Event::Switch).drop_last() =~= base);
    assert(base.push(Event::Beep).drop_last() =~= base);
    assert(base.push(Event::Switch).push(Event::Beep).drop_last() =~= base.push(Event::Switch));
}

proof fn lemma_trace_status_count(c: TimerConfig, s: TimerState, ticks: nat)
    ensures
        status_count(spec_trace(c, s, ticks)) == ticks,
    decreases ticks,
{
    if ticks > 0 {
        lemma_tick_events_one_status(c, s);
        lemma_trace_status_count(c, spec_step(c, s), (ticks - 1) as nat);
        lemma_status_count_add(
            spec_tick_events(c, s),
            spec_trace(c, spec_step(c, s), (ticks - 1) as nat),
        );
    }
}

/// A run makes exactly one status notification per completed tick: however
/// early or late cancellation arrives, each of the `ticks` ticks before it
/// notified the device exactly once, and the cleanup call adds no further
/// notification.
pub proof fn lemma_one_status_per_tick(c: TimerConfig, ticks: nat)
    ensures
        status_count(spec_run(c, ticks)) == ticks,
{
    let trace = spec_trace(c, spec_initial_state(c), ticks);
    lemma_trace_status_count(c, spec_initial_state(c), ticks);
    assert(trace.push(Event::Cleanup).drop_last() =~= trace);
}

proof fn lemma_trace_has_no_cleanup(c: TimerConfig, s: TimerState, ticks: nat)
    ensures
        forall|j: int|
            0 <= j < spec_trace(c, s, ticks).len() ==> spec_trace(c, s, ticks)[j]
                != Event::Cleanup,
    decreases ticks,
{
    if ticks > 0 {
        lemma_trace_has_no_cleanup(c, spec_step(c, s), (ticks - 1) as nat);
    }
}

/// Cancellation, whenever it arrives, ends the run with exactly one cleanup
/// call: in every run it is the last device call made, and it occurs nowhere
/// earlier — no notification follows it.
pub proof fn lemma_cleanup_exactly_once(c: TimerConfig, ticks: nat)
    ensures
        spec_run(c, ticks).len() >= 1,
        spec_run(c, ticks).last() == Event::Cleanup,
        forall|j: int|
            0 <= j < spec_run(c, ticks).len() - 1 ==> spec_run(c, ticks)[j] != Event::Cleanup,
{
    lemma_trace_has_no_cleanup(c, spec_initial_state(c), ticks);
}

proof fn lemma_trace_no_switch_when_not_pending(c: TimerConfig, s: TimerState, ticks: nat)
    requires
        !s.switch_notification_pending,
    ensures
        forall|j: int|
            0 <= j < spec_trace(c, s, ticks).len() ==> spec_trace(c, s, ticks)[j] != Event::Switch,
    decreases ticks,
{
    if ticks > 0 {
        lemma_trace_no_switch_when_not_pending(c, spec_step(c, s), (ticks - 1) as nat);
    }
}

/// With automatic switching enabled, the display-switch call is made exactly
/// once per run — immediately after the very first status notification — no
/// matter how many ticks pass or how many mode transitions occur. With it
/// disabled, it is never made.
pub proof fn lemma_display_switch_exactly_once(c: TimerConfig, ticks: nat)
    requires
        ticks >= 1,
    ensures
        c.auto_switch_enabled ==> spec_run(c, ticks)[1] == Event::Switch,
        forall|j: int|
            0 <= j < spec_run(c, ticks).len() && j != 1 ==> spec_run(c, ticks)[j] != Event::Switch,
        !c.auto_switch_enabled ==> forall|j: int|
            0 <= j < spec_run(c, ticks).len() ==> spec_run(c, ticks)[j] != Event::Switch,
{
    let s0 = spec_initial_state(c);
    lemma_trace_no_switch_when_not_pending(c, spec_step(c, s0), (ticks - 1) as nat);
    if !c.auto_switch_enabled {
        lemma_trace_no_switch_when_not_pending(c, s0, ticks);
    }
}

} // verus!
