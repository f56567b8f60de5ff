use pomodoro::driver::{tick_plan, tick_plan_now};
use pomodoro::text::{padded_remaining, progress_color, status_text, u64_to_decimal};
use pomodoro::timer::{Mode, TimerConfig, TimerState};

#[test]
fn decimal_rendering() {
    assert_eq!(u64_to_decimal(0), "0");
    assert_eq!(u64_to_decimal(7), "7");
    assert_eq!(u64_to_decimal(10), "10");
    assert_eq!(u64_to_decimal(25), "25");
    assert_eq!(u64_to_decimal(105), "105");
    assert_eq!(u64_to_decimal(90061), "90061");
}

#[test]
fn countdown_field_is_at_least_two_columns() {
    assert_eq!(padded_remaining(0), " 0");
    assert_eq!(padded_remaining(5), " 5");
    assert_eq!(padded_remaining(9), " 9");
    assert_eq!(padded_remaining(10), "10");
    assert_eq!(padded_remaining(125), "125");
}

#[test]
fn status_text_per_mode() {
    assert_eq!(status_text(Mode::Work, "12:34", 5), "12:34    5");
    assert_eq!(status_text(Mode::Work, "09:00", 25), "09:00   25");
    assert_eq!(status_text(Mode::ShortBreak, "12:34", 1), "SHORT   1");
    assert_eq!(status_text(Mode::ShortBreak, "12:34", 10), "SHORT  10");
    assert_eq!(status_text(Mode::LongBreak, "12:34", 0), "LONG    0");
    assert_eq!(status_text(Mode::LongBreak, "12:34", 20), "LONG   20");
}

#[test]
fn colors_per_mode() {
    assert_eq!(progress_color(Mode::Work), "#00aaff");
    assert_eq!(progress_color(Mode::ShortBreak), "#55aa7f");
    assert_eq!(progress_color(Mode::LongBreak), "#55007f");
}

#[test]
fn tick_plan_fields() {
    let c = TimerConfig::new(2, 1, 3, 2, true, true, true).unwrap();
    let s = TimerState::initial(&c);
    let p = tick_plan(&c, &s, "08:15");
    assert_eq!(p.text, "08:15    2");
    assert_eq!(p.progress, 0);
    assert_eq!(p.color, "#00aaff");
    assert!(p.send_switch);
    assert!(!p.send_beep);

    let mut s = s;
    s.advance(&c); // Work, 1 remaining
    let p = tick_plan(&c, &s, "08:15");
    assert_eq!(p.text, "08:15    1");
    assert_eq!(p.progress, 50);
    assert!(!p.send_switch);
    assert!(!p.send_beep);

    s.advance(&c); // Work, 0 remaining
    let p = tick_plan(&c, &s, "08:15");
    assert_eq!(p.text, "08:15    0");
    assert_eq!(p.progress, 100);
    assert!(p.send_beep);

    s.advance(&c); // ShortBreak, 1 remaining
    let p = tick_plan(&c, &s, "08:15");
    assert_eq!(p.text, "SHORT   1");
    assert_eq!(p.progress, 0);
    assert_eq!(p.color, "#55aa7f");
}

#[test]
fn tick_plan_now_reads_a_five_column_clock() {
    let c = TimerConfig::new(2, 1, 3, 2, true, true, true).unwrap();
    let s = TimerState::initial(&c);
    let p = tick_plan_now(&c, &s);
    // clock (5 columns) + separator (3) + countdown field (2)
    assert_eq!(p.text.chars().count(), 10);
    assert_eq!(p.text.chars().nth(2), Some(':'));
    assert!(p.text.ends_with("    2"));
    assert_eq!(p.progress, 0);
    assert_eq!(p.color, "#00aaff");
}
