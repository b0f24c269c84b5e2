use promptline::assemble::{exit_fragment, prompt_assignment, skip_signal_line};
use promptline::identity::{first_line, pick_hostname, prompt_symbol};
use promptline::parse::parse_i32;
use promptline::pathres::resolve_path;

const GREEN: &str = "\\[\\033[32m\\]";
const RED: &str = "\\[\\033[31m\\]";

#[test]
fn exit_zero_is_success_color() {
    assert_eq!(exit_fragment(0), GREEN);
}

#[test]
fn exit_nonzero_is_failure_color_with_code() {
    assert_eq!(exit_fragment(2), format!("{}(2)", RED));
    assert_eq!(exit_fragment(127), format!("{}(127)", RED));
    assert_eq!(exit_fragment(-3), format!("{}(-3)", RED));
    assert_eq!(exit_fragment(i32::MIN), format!("{}(-2147483648)", RED));
    assert_eq!(exit_fragment(i32::MAX), format!("{}(2147483647)", RED));
}

#[test]
fn parse_plain_and_signed_codes() {
    assert_eq!(parse_i32("0"), Some(0));
    assert_eq!(parse_i32("42"), Some(42));
    assert_eq!(parse_i32("+7"), Some(7));
    assert_eq!(parse_i32("-13"), Some(-13));
    assert_eq!(parse_i32("007"), Some(7));
}

#[test]
fn parse_rejects_bad_input() {
    assert_eq!(parse_i32(""), None);
    assert_eq!(parse_i32("abc"), None);
    assert_eq!(parse_i32("12x"), None);
    assert_eq!(parse_i32(" 1"), None);
    assert_eq!(parse_i32("+"), None);
    assert_eq!(parse_i32("-"), None);
}

#[test]
fn parse_respects_range_limits() {
    assert_eq!(parse_i32("2147483647"), Some(i32::MAX));
    assert_eq!(parse_i32("2147483648"), None);
    assert_eq!(parse_i32("-2147483648"), Some(i32::MIN));
    assert_eq!(parse_i32("-2147483649"), None);
    assert_eq!(parse_i32("99999999999999999999"), None);
}

#[test]
fn path_under_home_is_shortened() {
    assert_eq!(resolve_path("/home/alice/proj", "/home/alice"), "~/proj");
    assert_eq!(resolve_path("/home/alice", "/home/alice"), "~");
}

#[test]
fn path_outside_home_is_unchanged() {
    assert_eq!(resolve_path("/var/log", "/home/alice"), "/var/log");
    assert_eq!(resolve_path("", "/home/alice"), "");
}

#[test]
fn prompt_symbol_marks_privileged_user() {
    assert_eq!(prompt_symbol("root"), "#");
    assert_eq!(prompt_symbol("alice"), "$");
    assert_eq!(prompt_symbol(""), "$");
}

#[test]
fn hostname_prefers_environment() {
    let r = pick_hostname(Some("box".to_owned()), Some("other\n".to_owned()));
    assert_eq!(r, Some("box".to_owned()));
}

#[test]
fn hostname_falls_back_to_file_first_line() {
    let r = pick_hostname(None, Some("box\nsecond\n".to_owned()));
    assert_eq!(r, Some("box".to_owned()));
    let r = pick_hostname(None, Some("box\r\n".to_owned()));
    assert_eq!(r, Some("box".to_owned()));
    let r = pick_hostname(None, Some("box".to_owned()));
    assert_eq!(r, Some("box".to_owned()));
}

#[test]
fn hostname_unresolvable_when_both_missing() {
    assert_eq!(pick_hostname(None, None), None);
    assert_eq!(pick_hostname(None, Some(String::new())), None);
}

#[test]
fn first_line_stops_at_line_feed() {
    assert_eq!(first_line("abc"), "abc");
    assert_eq!(first_line("abc\ndef"), "abc");
    assert_eq!(first_line("\nrest"), "");
    assert_eq!(first_line(""), "");
    assert_eq!(first_line("a\r"), "a\r");
}

#[test]
fn shell_output_lines_have_fixed_text() {
    assert_eq!(skip_signal_line(), "export SKIP_GIT_STATUS=\"asd\";");
    assert_eq!(prompt_assignment("P"), "export PS1=\"P\"");
}
