//! The timer state machine: modes, configuration, and the pure transition
//! rules of the Pomodoro cycle.

use vstd::prelude::*;
use vstd::arithmetic::div_mod::{
    lemma_basic_div, lemma_div_is_ordered, lemma_div_multiples_vanish_fancy,
    lemma_div_pos_is_pos,
};
use vstd::arithmetic::mul::{lemma_mul_inequality, lemma_mul_nonnegative};

verus! {

/// The current phase of the Pomodoro cycle.
#[derive(Clone, Copy, Debug, PartialEq, Eq, Structural)]
pub enum Mode {
    Work,
    ShortBreak,
    LongBreak,
}

/// Why a configuration was rejected at startup.
#[derive(Clone, Copy, Debug, PartialEq, Eq, Structural)]
pub enum ConfigError {
    /// One of the three mode durations is zero.
    ZeroDuration,
    /// The number of cycles before a long break is zero.
    ZeroCycleCount,
}

/// Immutable timer settings, fixed at startup. Durations count ticks; a tick
/// is one second or one minute depending on `tick_is_seconds`.
#[derive(Clone, Copy, Debug, PartialEq, Eq, Structural)]
pub struct TimerConfig {
    pub work_duration: u64,
    pub short_break_duration: u64,
    pub long_break_duration: u64,
    pub cycles_per_long_break: u64,
    pub beep_enabled: bool,
    pub auto_switch_enabled: bool,
    pub tick_is_seconds: bool,
}

impl TimerConfig {
    /// A valid configuration has positive durations and a positive cycle count.
    pub open spec fn wf(self) -> bool {
        &&& self.work_duration >= 1
        &&& self.short_break_duration >= 1
        &&& self.long_break_duration >= 1
        &&& self.cycles_per_long_break >= 1
    }

    /// Validates the settings: every duration and the cycle count must be
    /// positive. Returns exactly which kind of setting was invalid, durations
    /// being checked first.
    pub fn new(
        work_duration: u64,
        short_break_duration: u64,
        long_break_duration: u64,
        cycles_per_long_break: u64,
        beep_enabled: bool,
        auto_switch_enabled: bool,
        tick_is_seconds: bool,
    ) -> (r: Result<TimerConfig, ConfigError>)
        ensures
            (r == Err::<TimerConfig, ConfigError>(ConfigError::ZeroDuration)) <==> (
            work_duration == 0 || short_break_duration == 0 || long_break_duration == 0),
            (r == Err::<TimerConfig, ConfigError>(ConfigError::ZeroCycleCount)) <==> (
            work_duration >= 1 && short_break_duration >= 1 && long_break_duration >= 1
                && cycles_per_long_break == 0),
            r is Ok <==> (work_duration >= 1 && short_break_duration >= 1
                && long_break_duration >= 1 && cycles_per_long_break >= 1),
            r is Ok ==> r->Ok_0 == (TimerConfig {
                work_duration,
                short_break_duration,
                long_break_duration,
                cycles_per_long_break,
                beep_enabled,
                auto_switch_enabled,
                tick_is_seconds,
            }) && r->Ok_0.wf(),
    {
        if work_duration == 0 || short_break_duration == 0 || long_break_duration == 0 {
            Err(ConfigError::ZeroDuration)
        } else if cycles_per_long_break == 0 {
            Err(ConfigError::ZeroCycleCount)
        } else {
            Ok(
                TimerConfig {
                    work_duration,
                    short_break_duration,
                    long_break_duration,
                    cycles_per_long_break,
                    beep_enabled,
                    auto_switch_enabled,
                    tick_is_seconds,
                },
            )
        }
    }
}

/// The duration, in ticks, that a mode runs for under a given configuration.
pub open spec fn spec_current_duration(c: TimerConfig, m: Mode) -> u64 {
    match m {
        Mode::Work => c.work_duration,
        Mode::ShortBreak => c.short_break_duration,
        Mode::LongBreak => c.long_break_duration,
    }
}

/// Returns the configured duration of `m`: the work duration for `Work`, the
/// short-break duration for `ShortBreak`, the long-break duration for
/// `LongBreak`.
pub fn current_duration(c: &TimerConfig, m: Mode) -> (d: u64)
    ensures
        d == spec_current_duration(*c, m),
        c.wf() ==> d >= 1,
{
    match m {
        Mode::Work => c.work_duration,
        Mode::ShortBreak => c.short_break_duration,
        Mode::LongBreak => c.long_break_duration,
    }
}

/// The duration of a mode is a function of the mode and the configuration
/// alone: any two results that `current_duration`'s contract admits for the
/// same arguments are equal, so repeated calls agree.
pub proof fn lemma_current_duration_deterministic(c: TimerConfig, m: Mode, d1: u64, d2: u64)
    requires
        d1 == spec_current_duration(c, m),
        d2 == spec_current_duration(c, m),
    ensures
        d1 == d2,
{
}

/// How far the current mode has advanced, as a whole percentage:
/// `100 - round(remaining / total * 100)`, the quotient rounded to the
/// nearest whole number (halves rounding up) by adding `total / 2` before
/// dividing.
pub open spec fn spec_progress_percent(remaining: int, total: int) -> int {
    100 - (remaining * 100 + total / 2) / total
}

/// The rounded quotient `(remaining * 100 + total / 2) / total` lies in
/// `[0, 100]` and hits the bounds exactly at the ends of the countdown.
proof fn lemma_progress_percent_bounds(remaining: int, total: int)
    requires
        0 <= remaining <= total,
        1 <= total,
    ensures
        0 <= (remaining * 100 + total / 2) / total <= 100,
        remaining == total ==> (remaining * 100 + total / 2) / total == 100,
        remaining == 0 ==> (remaining * 100 + total / 2) / total == 0,
{
    lemma_mul_nonnegative(remaining, 100);
    lemma_div_pos_is_pos(remaining * 100 + total / 2, total);
    lemma_mul_inequality(remaining, total, 100);
    lemma_div_is_ordered(remaining * 100 + total / 2, total * 100 + total / 2, total);
    assert(0 <= total / 2 < total);
    lemma_div_multiples_vanish_fancy(100, total / 2, total);
    lemma_basic_div(total / 2, total);
}

/// Progress through a mode never moves backwards: as `remaining` decreases
/// (with `total` fixed), the percentage is non-decreasing, and it is exactly
/// `0` at `remaining == total` and `100` at `remaining == 0`.
pub proof fn lemma_progress_percent_monotone(r_before: int, r_after: int, total: int)
    requires
        0 <= r_after <= r_before <= total,
        1 <= total,
    ensures
        spec_progress_percent(r_before, total) <= spec_progress_percent(r_after, total),
        0 <= spec_progress_percent(r_after, total) <= 100,
        r_before == total ==> spec_progress_percent(r_before, total) == 0,
        r_after == 0 ==> spec_progress_percent(r_after, total) == 100,
{
    lemma_mul_inequality(r_after, r_before, 100);
    lemma_div_is_ordered(r_after * 100 + total / 2, r_before * 100 + total / 2, total);
    lemma_progress_percent_bounds(r_before, total);
    lemma_progress_percent_bounds(r_after, total);
}

/// Computes `100 - round(remaining / total * 100)` — the quotient rounded to
/// the nearest whole percent — as shown on the progress bar: `0` when a mode
/// starts (`remaining == total`) and `100` when it ends (`remaining == 0`).
pub fn progress_percent(remaining: u64, total: u64) -> (p: u8)
    requires
        1 <= total,
        remaining <= total,
    ensures
        p == spec_progress_percent(remaining as int, total as int),
        p <= 100,
        remaining == total ==> p == 0,
        remaining == 0 ==> p == 100,
{
    proof {
        lemma_progress_percent_bounds(remaining as int, total as int);
        lemma_mul_inequality(remaining as int, u64::MAX as int, 100);
    }
    let scaled: u128 = (remaining as u128) * 100 + (total as u128) / 2;
    let q: u128 = scaled / (total as u128);
    (100 - q) as u8
}

/// The mode that follows a completed mode, with the updated count of work
/// cycles still owed before the next long break. Completing the last owed
/// work period yields a long break and resets the count; completing an
/// earlier one yields a short break and consumes a cycle; either break leads
/// back to work with the count untouched.
pub open spec fn spec_next_mode(m: Mode, remaining_cycles: u64, cycles_per_long_break: u64) -> (
    Mode,
    u64,
) {
    match m {
        Mode::Work => if remaining_cycles <= 1 {
            (Mode::LongBreak, cycles_per_long_break)
        } else {
            (Mode::ShortBreak, (remaining_cycles - 1) as u64)
        },
        Mode::ShortBreak => (Mode::Work, remaining_cycles),
        Mode::LongBreak => (Mode::Work, remaining_cycles),
    }
}

/// Computes the mode transition taken when the current mode's countdown
/// reaches zero. From `Work` with one cycle (or fewer) left it moves to
/// `LongBreak` and resets the cycle count; from `Work` otherwise it moves to
/// `ShortBreak` and decrements the count; from either break it always returns
/// to `Work` with the count unchanged.
pub fn next_mode(m: Mode, remaining_cycles: u64, cycles_per_long_break: u64) -> (r: (Mode, u64))
    requires
        1 <= remaining_cycles <= cycles_per_long_break,
    ensures
        r == spec_next_mode(m, remaining_cycles, cycles_per_long_break),
        m == Mode::ShortBreak || m == Mode::LongBreak ==> r.0 == Mode::Work && r.1
            == remaining_cycles,
        m == Mode::Work && remaining_cycles <= 1 ==> r.0 == Mode::LongBreak && r.1
            == cycles_per_long_break,
        m == Mode::Work && remaining_cycles > 1 ==> r.0 == Mode::ShortBreak && r.1
            == remaining_cycles - 1,
        1 <= r.1 <= cycles_per_long_break,
{
    match m {
        Mode::Work => {
            if remaining_cycles <= 1 {
                (Mode::LongBreak, cycles_per_long_break)
            } else {
                (Mode::ShortBreak, remaining_cycles - 1)
            }
        },
        Mode::ShortBreak => (Mode::Work, remaining_cycles),
        Mode::LongBreak => (Mode::Work, remaining_cycles),
    }
}

/// The cycle count after `i` completed work periods, starting from a full
/// count of `n`: each completion applies the `Work` case of the transition.
pub open spec fn cycles_after_work_completions(n: u64, i: nat) -> u64
    decreases i,
{
    if i == 0 {
        n
    } else {
        spec_next_mode(Mode::Work, cycles_after_work_completions(n, (i - 1) as nat), n).1
    }
}

proof fn lemma_cycles_countdown(n: u64, i: nat)
    requires
        n >= 1,
        i < n,
    ensures
        cycles_after_work_completions(n, i) == n - i,
    decreases i,
{
    if i > 0 {
        lemma_cycles_countdown(n, (i - 1) as nat);
    }
}

/// Starting from a full cycle count `n >= 1`, the first `n - 1` work
/// completions each take a short break and count down one cycle, the `n`-th
/// work completion takes the long break, and the count is then reset to `n`.
pub proof fn lemma_long_break_on_nth_completion(n: u64)
    requires
        n >= 1,
    ensures
        forall|i: nat| i < n ==> cycles_after_work_completions(n, i) == n - i,
        forall|i: nat|
            1 <= i < n ==> #[trigger] spec_next_mode(
                Mode::Work,
                cycles_after_work_completions(n, (i - 1) as nat),
                n,
            ).0 == Mode::ShortBreak,
        spec_next_mode(Mode::Work, cycles_after_work_completions(n, (n - 1) as nat), n).0
            == Mode::LongBreak,
        cycles_after_work_completions(n, n as nat) == n,
{
    assert forall|i: nat| i < n implies cycles_after_work_completions(n, i) == n - i by {
        lemma_cycles_countdown(n, i);
    }
    lemma_cycles_countdown(n, (n - 1) as nat);
}

/// How long one tick lasts, in seconds: a second in demo mode, a minute
/// otherwise.
pub open spec fn spec_tick_interval_seconds(c: TimerConfig) -> u64 {
    if c.tick_is_seconds {
        1
    } else {
        60
    }
}

/// Returns the length of one tick in seconds: `1` when ticks are seconds,
/// `60` when they are minutes.
pub fn tick_interval_seconds(c: &TimerConfig) -> (secs: u64)
    ensures
        secs == spec_tick_interval_seconds(*c),
{
    if c.tick_is_seconds {
        1
    } else {
        60
    }
}

/// Whether the audible alert fires on this tick: only at the very end of a
/// mode's countdown, and only if alerts are enabled.
pub fn should_beep(c: &TimerConfig, remaining: u64) -> (b: bool)
    ensures
        b == (remaining == 0 && c.beep_enabled),
{
    remaining == 0 && c.beep_enabled
}

/// The mutable state owned by the driver loop: the current mode, how many
/// ticks of it remain, how many work cycles remain before the next long
/// break, and whether the one-time display-switch request is still owed.
#[derive(Clone, Copy, Debug, PartialEq, Eq, Structural)]
pub struct TimerState {
    pub mode: Mode,
    pub remaining_ticks_in_mode: u64,
    pub remaining_cycles_until_long_break: u64,
    pub switch_notification_pending: bool,
}

/// The state the timer starts in: a full work period, a full cycle count, and
/// the display switch pending exactly when automatic switching is enabled.
pub open spec fn spec_initial_state(c: TimerConfig) -> TimerState {
    TimerState {
        mode: Mode::Work,
        remaining_ticks_in_mode: c.work_duration,
        remaining_cycles_until_long_break: c.cycles_per_long_break,
        switch_notification_pending: c.auto_switch_enabled,
    }
}

/// The state after one completed tick (its notifications sent and its wait
/// passed without cancellation): mid-countdown the remaining ticks drop by
/// one; at zero the mode transition is taken and the new mode's full duration
/// is loaded. Either way the one-time switch request is no longer pending.
pub open spec fn spec_step(c: TimerConfig, s: TimerState) -> TimerState {
    if s.remaining_ticks_in_mode > 0 {
        TimerState {
            remaining_ticks_in_mode: (s.remaining_ticks_in_mode - 1) as u64,
            switch_notification_pending: false,
            ..s
        }
    } else {
        let (m, cycles) = spec_next_mode(
            s.mode,
            s.remaining_cycles_until_long_break,
            c.cycles_per_long_break,
        );
        TimerState {
            mode: m,
            remaining_ticks_in_mode: spec_current_duration(c, m),
            remaining_cycles_until_long_break: cycles,
            switch_notification_pending: false,
        }
    }
}

impl TimerState {
    /// Well-formed relative to a configuration: the countdown never exceeds
    /// the current mode's duration and the cycle count stays in
    /// `[1, cycles_per_long_break]`.
    pub open spec fn wf(self, c: TimerConfig) -> bool {
        &&& self.remaining_ticks_in_mode <= spec_current_duration(c, self.mode)
        &&& 1 <= self.remaining_cycles_until_long_break <= c.cycles_per_long_break
    }

    /// Builds the startup state: `Work` mode with its full duration, the full
    /// cycle count, and the display switch pending iff automatic switching is
    /// configured.
    pub fn initial(c: &TimerConfig) -> (s: TimerState)
        requires
            c.wf(),
        ensures
            s == spec_initial_state(*c),
            s.wf(*c),
    {
        TimerState {
            mode: Mode::Work,
            remaining_ticks_in_mode: c.work_duration,
            remaining_cycles_until_long_break: c.cycles_per_long_break,
            switch_notification_pending: c.auto_switch_enabled,
        }
    }

    /// Advances the state past a tick whose wait ended without cancellation:
    /// decrements the countdown if it has not reached zero, otherwise takes
    /// the mode transition and reloads the new mode's full duration; in both
    /// cases the one-time switch request is marked sent.
    pub fn advance(&mut self, c: &TimerConfig)
        requires
            old(self).wf(*c),
            c.wf(),
        ensures
            *final(self) == spec_step(*c, *old(self)),
            final(self).wf(*c),
            old(self).remaining_ticks_in_mode > 0 ==> final(self).mode == old(self).mode
                && final(self).remaining_ticks_in_mode == old(self).remaining_ticks_in_mode - 1
                && final(self).remaining_cycles_until_long_break
                == old(self).remaining_cycles_until_long_break,
            old(self).remaining_ticks_in_mode == 0 ==> (
            final(self).mode,
            final(self).remaining_cycles_until_long_break,
            ) == spec_next_mode(
                old(self).mode,
                old(self).remaining_cycles_until_long_break,
                c.cycles_per_long_break,
            ) && final(self).remaining_ticks_in_mode == spec_current_duration(*c, final(self).mode),
            final(self).switch_notification_pending == false,
    {
        if self.remaining_ticks_in_mode > 0 {
            self.remaining_ticks_in_mode = self.remaining_ticks_in_mode - 1;
        } else {
            let (m, cycles) = next_mode(
                self.mode,
                self.remaining_cycles_until_long_break,
                c.cycles_per_long_break,
            );
            self.mode = m;
            self.remaining_ticks_in_mode = current_duration(c, m);
            self.remaining_cycles_until_long_break = cycles;
        }
        self.switch_notification_pending = false;
    }
}

} // verus!
