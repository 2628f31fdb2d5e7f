use histview::clock::RenderContext;
use histview::highlight::highlighter_invocation;
use histview::history::{History, COMMAND_START, FORMAT_DATE_LENGTH, NONE_TOKEN};
use histview::text::{i64_text, pad_text, u64_text};

const MIDNIGHT: u64 = 1699920000; // 2023-11-14 00:00:00 UTC

fn record(start: u64) -> History {
    History {
        id: 1,
        cmd: String::from("ls -la"),
        start,
        exit_status: Some(0),
        duration: Some(2),
        count: 5,
        session: 1,
        host: String::from("box"),
        dir: String::from("/home"),
        searchrange: [(11, 17)],
    }
}

fn utc_at(now: u64) -> RenderContext {
    RenderContext { now, utc_offset: 0, date_format: String::from("%Y-%m-%d") }
}

#[test]
fn end_to_end_label_and_preview() {
    let h = record(MIDNIGHT + 9 * 3600);
    let ctx = utc_at(MIDNIGHT + 10 * 3600);
    assert_eq!(h.text(&ctx), "09:00      ls -la");
    let p = h.preview(&ctx, None);
    assert!(p.contains("Runtime             \x1b[0m2s\n"));
    assert!(p.contains("Exit Status         \x1b[0m0\n"));
    assert!(p.contains("Host                \x1b[0mbox\n"));
    assert!(p.contains("Executed            \x1b[0m5\n"));
    assert!(p.contains("Directory           \x1b[0m/home\n"));
    assert!(p.contains("Start Time          \x1b[0m09:00\n"));
    assert!(p.starts_with("\x1b[1mDetails for 1\x1b[0m\n\n"));
    assert!(p.ends_with("\x1b[1mCommand\x1b[0m\n\nls -la"));
}

#[test]
fn label_at_midnight_is_today() {
    let h = record(MIDNIGHT);
    let ctx = utc_at(MIDNIGHT + 10 * 3600);
    assert_eq!(h.text(&ctx), "00:00      ls -la");
}

#[test]
fn label_before_today_uses_date_pattern() {
    let h = record(MIDNIGHT - 1);
    let ctx = utc_at(MIDNIGHT + 10 * 3600);
    assert_eq!(h.text(&ctx), "2023-11-13 ls -la");
}

#[test]
fn label_pads_short_dates() {
    let h = record(MIDNIGHT - 3600);
    let ctx = RenderContext { now: MIDNIGHT + 60, utc_offset: 0, date_format: String::from("%d.%m") };
    assert_eq!(h.text(&ctx), "13.11      ls -la");
}

#[test]
fn label_follows_the_zone_offset() {
    // 23:30 UTC on the previous day is 00:30 the next day one hour east.
    let h = record(MIDNIGHT - 1800);
    let ctx = RenderContext { now: MIDNIGHT + 3600, utc_offset: 3600, date_format: String::from("%Y-%m-%d") };
    assert_eq!(h.text(&ctx), "00:30      ls -la");
}

#[test]
fn full_date_has_pattern_and_time() {
    let h = record(MIDNIGHT + 9 * 3600 + 5 * 60);
    let ctx = utc_at(MIDNIGHT + 10 * 3600);
    assert_eq!(h.format_date(true, &ctx), "2023-11-14 09:05");
    assert_eq!(h.format_date(false, &ctx), "09:05");
}

#[test]
fn malformed_date_pattern_gives_marker() {
    let h = record(MIDNIGHT - 86400);
    let ctx = RenderContext { now: MIDNIGHT, utc_offset: 0, date_format: String::from("%Q") };
    assert_eq!(h.format_date(false, &ctx), NONE_TOKEN);
}

#[test]
fn unrepresentable_start_gives_marker() {
    let h = record(u64::MAX);
    let ctx = utc_at(MIDNIGHT);
    assert_eq!(h.format_date(false, &ctx), NONE_TOKEN);
    assert_eq!(h.text(&ctx), format!("{} ls -la", NONE_TOKEN));
}

#[test]
fn optional_int_rendering() {
    assert_eq!(History::format_or_none(None), "\x1b[37;1m<NONE>\x1b[0m");
    assert_eq!(History::format_or_none(None), History::format_or_none(None));
    assert_eq!(History::format_or_none(Some(0)), "0");
    assert_eq!(History::format_or_none(Some(127)), "127");
    assert_eq!(History::format_or_none(Some(-3)), "-3");
    assert_eq!(History::format_or_none(Some(i64::MIN)), "-9223372036854775808");
    assert!(!History::format_or_none(Some(42)).contains(NONE_TOKEN));
}

#[test]
fn duration_rendering() {
    let mut h = record(MIDNIGHT);
    assert_eq!(h.format_duration(), "2s");
    h.duration = Some(125);
    assert_eq!(h.format_duration(), "2m 5s");
    h.duration = Some(0);
    assert_eq!(h.format_duration(), "0s");
    h.duration = None;
    assert_eq!(h.format_duration(), NONE_TOKEN);
}

#[test]
fn matching_ranges_are_the_records_span() {
    let h = record(MIDNIGHT);
    let r = h.get_matching_ranges().unwrap();
    assert_eq!(r, &[(11, 17)]);
}

#[test]
fn failed_highlighting_keeps_the_command() {
    let h = record(MIDNIGHT);
    let ctx = utc_at(MIDNIGHT);
    assert!(h.preview(&ctx, None).ends_with("ls -la"));
    assert_eq!(h.highlight_command(None), "ls -la");
    assert_eq!(h.highlight_command(Some(String::from("\x1b[32mls\x1b[0m -la"))), "\x1b[32mls\x1b[0m -la");
    assert!(h.preview(&ctx, Some(String::from("LS"))).ends_with("\n\nLS"));
}

#[test]
fn highlighter_command_line() {
    assert_eq!(highlighter_invocation(""), None);
    assert_eq!(highlighter_invocation("  \t "), None);
    assert_eq!(
        highlighter_invocation(" bat  --color=always -l bash"),
        Some(vec![
            String::from("bat"),
            String::from("--color=always"),
            String::from("-l"),
            String::from("bash"),
            String::from("--"),
        ])
    );
}

#[test]
fn getters() {
    let h = record(MIDNIGHT);
    assert_eq!(h.command(), "ls -la");
    assert_eq!(h.session(), "1");
    assert_eq!(h.dir(), "/home");
    let label = h.text(&utc_at(MIDNIGHT));
    assert_eq!(&label[COMMAND_START..], "ls -la");
}

#[test]
fn local_context_keeps_its_inputs() {
    let ctx = RenderContext::local(MIDNIGHT, String::from("%F"));
    assert_eq!(ctx.now, MIDNIGHT);
    assert_eq!(ctx.date_format, "%F");
    assert!(ctx.utc_offset > -86400 && ctx.utc_offset < 86400);
    assert_eq!(RenderContext::local(u64::MAX, String::new()).utc_offset, 0);
}

#[test]
fn text_helpers() {
    assert_eq!(u64_text(0), "0");
    assert_eq!(u64_text(u64::MAX), "18446744073709551615");
    assert_eq!(i64_text(-10), "-10");
    assert_eq!(pad_text("ab", 4), "ab  ");
    assert_eq!(pad_text("abcdef", 4), "abcdef");
    assert_eq!(pad_text("", FORMAT_DATE_LENGTH), "          ");
}
