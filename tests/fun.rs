use aoko::{
    ends_wait_enter, measure_time, measure_time_with_value, normalize_line, swap, swap_xor,
    time_conversion, time_conversion_with_unit, Duration, TimeUnit,
};
use std::cell::Cell;
use std::time::Instant;

fn spin_for_millis(n: u64) {
    let start = Instant::now();
    while start.elapsed() < std::time::Duration::from_millis(n) {}
}

#[test]
fn line_with_newline_reads_back() {
    assert_eq!(normalize_line("hello\n"), Some(String::from("hello")));
    assert_eq!(normalize_line("a b c\r\n"), Some(String::from("a b c")));
}

#[test]
fn line_keeps_leading_whitespace() {
    assert_eq!(normalize_line("  hi \t\r\n"), Some(String::from("  hi")));
}

#[test]
fn line_without_terminator() {
    assert_eq!(normalize_line("last"), Some(String::from("last")));
}

#[test]
fn line_strips_unicode_whitespace() {
    assert_eq!(normalize_line("x\u{3000}\u{a0}\n"), Some(String::from("x")));
    assert_eq!(normalize_line("caf\u{e9}\n"), Some(String::from("caf\u{e9}")));
}

#[test]
fn blank_lines_read_as_none() {
    assert_eq!(normalize_line("\n"), None);
    assert_eq!(normalize_line(""), None);
    assert_eq!(normalize_line(" \t\x0b\x0c\r\n"), None);
    assert_eq!(normalize_line("\u{2003}\n"), None);
}

#[test]
fn wait_enter_stops_at_third_line() {
    let input = ["a\n", "b\n", "\n", "c\n"];
    let mut consumed: usize = 0;
    for line in input.iter() {
        consumed += 1;
        if ends_wait_enter(line) {
            break;
        }
    }
    assert_eq!(consumed, 3);
}

#[test]
fn wait_enter_stops_at_exhausted_input() {
    assert!(ends_wait_enter(""));
    assert!(!ends_wait_enter("x\n"));
}

#[test]
fn swap_xor_exchanges_values() {
    let a = &mut 1024;
    let b = &mut 2048;
    swap_xor(a, b);
    assert_eq!((2048, 1024), (*a, *b));
}

#[test]
fn swap_xor_edge_values() {
    let mut a: u8 = 0;
    let mut b: u8 = 255;
    swap_xor(&mut a, &mut b);
    assert_eq!((a, b), (255, 0));
    let mut c: i64 = -7;
    let mut d: i64 = i64::MIN;
    swap_xor(&mut c, &mut d);
    assert_eq!((c, d), (i64::MIN, -7));
    let mut e: u128 = u128::MAX;
    let mut f: u128 = 1;
    swap_xor(&mut e, &mut f);
    assert_eq!((e, f), (1, u128::MAX));
    let mut g: usize = 5;
    let mut h: usize = 5;
    swap_xor(&mut g, &mut h);
    assert_eq!((g, h), (5, 5));
}

#[test]
fn measure_time_covers_the_work() {
    let calls = Cell::new(0u32);
    let d = measure_time(|| {
        calls.set(calls.get() + 1);
        spin_for_millis(5);
    });
    assert_eq!(calls.get(), 1);
    assert!(d.as_millis() >= 5);
}

#[test]
fn measure_time_with_value_returns_the_value() {
    let calls = Cell::new(0u32);
    let (v, d) = measure_time_with_value(|| {
        calls.set(calls.get() + 1);
        spin_for_millis(2);
        String::from("done")
    });
    assert_eq!(v, "done");
    assert_eq!(calls.get(), 1);
    assert!(d.as_millis() >= 2);
    assert!(d.subsec_nanos() < 1_000_000_000);
}

#[test]
fn time_conversion_millis_of_two_seconds() {
    assert_eq!(time_conversion("millis")(Duration::from_secs(2)), 2000);
}

#[test]
fn time_conversion_secs_truncates() {
    assert_eq!(time_conversion("secs")(Duration::from_millis(2500)), 2);
}

#[test]
fn time_conversion_nanos_and_micros() {
    assert_eq!(time_conversion("nanos")(Duration::from_millis(3)), 3_000_000);
    assert_eq!(time_conversion("micros")(Duration::from_nanos(1999)), 1);
    assert_eq!(time_conversion("micros")(Duration::new(1, 2_500)), 1_000_002);
    assert_eq!(time_conversion("millis")(Duration::from_micros(1_999)), 1);
}

#[test]
fn time_conversion_of_largest_duration() {
    let d = Duration::new(u64::MAX, 999_999_999);
    assert_eq!(
        time_conversion("nanos")(d),
        u64::MAX as u128 * 1_000_000_000 + 999_999_999
    );
    assert_eq!(time_conversion("secs")(d), u64::MAX as u128);
    assert_eq!(time_conversion("millis")(d), u64::MAX as u128 * 1_000 + 999);
}

#[test]
fn unsupported_unit_is_rejected() {
    assert_eq!(TimeUnit::parse("bogus"), None);
    assert_eq!(TimeUnit::parse("Millis"), None);
    assert_eq!(TimeUnit::parse("sec"), None);
    assert_eq!(TimeUnit::parse(""), None);
    assert_eq!(TimeUnit::parse("millis"), Some(TimeUnit::Millis));
    assert_eq!(TimeUnit::parse("secs"), Some(TimeUnit::Secs));
}

#[test]
fn time_conversion_with_unit_keeps_the_name() {
    let (f, u) = time_conversion_with_unit(String::from("nanos"));
    let d = Duration::new(3, 17);
    assert_eq!(u, "nanos");
    assert_eq!(f(d), time_conversion("nanos")(d));
    assert_eq!(time_conversion("nanos")(d), 3_000_000_017);
}

#[test]
fn duration_carries_nanos_into_seconds() {
    let d = Duration::new(1, 1_500_000_000);
    assert_eq!(d.as_secs(), 2);
    assert_eq!(d.subsec_nanos(), 500_000_000);
    assert_eq!(d.as_nanos(), 2_500_000_000);
    assert_eq!(TimeUnit::Millis.count(d), 2_500);
}

#[test]
fn swap_form_on_two_pairs() {
    let (a, b, c, d) = (1, 2, 3, 4);
    let (a, b) = swap(a, b);
    let (c, d) = swap(c, d);
    assert_eq!((a, b, c, d), (2, 1, 4, 3));
}

#[test]
fn swap_form_mutable_rebinding() {
    let (a, b, c, d) = (1, 2, 3, 4);
    let (mut a, mut b) = swap(a, b);
    let (mut c, mut d) = swap(c, d);
    assert_eq!((a, b, c, d), (2, 1, 4, 3));
    a = 10;
    b = 20;
    c = 30;
    d = 40;
    assert_eq!((a, b, c, d), (10, 20, 30, 40));
}
