use env_check::runner::exit_code_sentinel;
use env_check::runner::relay_lines;
use env_check::runner::tag_line;
use env_check::runner::ExitStatus;
use env_check::runner::StreamOrigin;
use env_check::text::i32_dec;
use env_check::text::u64_dec;

#[test]
fn stdout_lines_are_tagged_with_their_origin() {
    assert_eq!(tag_line(StreamOrigin::Stdout, "unpacking"), "install output: unpacking");
}

#[test]
fn stderr_lines_are_tagged_with_their_origin() {
    assert_eq!(tag_line(StreamOrigin::Stderr, "permission denied"), "install error: permission denied");
}

#[test]
fn relay_preserves_count_and_order() {
    let lines = vec!["one".to_string(), "two".to_string(), "three".to_string()];
    let relayed = relay_lines(StreamOrigin::Stdout, &lines);
    assert_eq!(relayed.len(), 3);
    assert_eq!(relayed[0], "install output: one");
    assert_eq!(relayed[1], "install output: two");
    assert_eq!(relayed[2], "install output: three");

    let errs = vec!["warn a".to_string(), "warn b".to_string()];
    let relayed_errs = relay_lines(StreamOrigin::Stderr, &errs);
    assert_eq!(relayed_errs.len(), 2);
    assert_eq!(relayed_errs[0], "install error: warn a");
    assert_eq!(relayed_errs[1], "install error: warn b");
}

#[test]
fn relay_of_no_lines_is_empty() {
    let relayed = relay_lines(StreamOrigin::Stdout, &Vec::new());
    assert!(relayed.is_empty());
}

#[test]
fn known_exit_code_is_passed_through() {
    assert_eq!(exit_code_sentinel(&ExitStatus { success: false, code: Some(3) }), 3);
    assert_eq!(exit_code_sentinel(&ExitStatus { success: true, code: Some(0) }), 0);
}

#[test]
fn missing_exit_code_becomes_unknown_sentinel() {
    assert_eq!(exit_code_sentinel(&ExitStatus { success: false, code: None }), -1);
}

#[test]
fn decimal_rendering_exact_values() {
    assert_eq!(u64_dec(0), "0");
    assert_eq!(u64_dec(7), "7");
    assert_eq!(u64_dec(907), "907");
    assert_eq!(u64_dec(18446744073709551615), "18446744073709551615");
    assert_eq!(i32_dec(-1), "-1");
    assert_eq!(i32_dec(i32::MIN), "-2147483648");
    assert_eq!(i32_dec(42), "42");
}
