use catr::emitter::{render_lines, LineEmitter, NumberingMode};
use catr::format::{digit_count, format_numbered, push_decimal};
use catr::run::{is_stdin, open_failure_message, render_run, Config, SourceInput};

fn strings(v: &[&str]) -> Vec<String> {
    v.iter().map(|s| s.to_string()).collect()
}

#[test]
fn numbered_line_is_right_aligned_to_six() {
    assert_eq!(format_numbered(1, "hi"), "     1 hi");
    assert_eq!(format_numbered(42, ""), "    42 ");
    assert_eq!(format_numbered(123456, "x"), "123456 x");
}

#[test]
fn wide_numbers_overflow_the_field() {
    assert_eq!(format_numbered(1234567, "x"), "1234567 x");
}

#[test]
fn decimal_digits() {
    assert_eq!(digit_count(0), 1);
    assert_eq!(digit_count(9), 1);
    assert_eq!(digit_count(10), 2);
    assert_eq!(digit_count(usize::MAX), usize::MAX.to_string().len());
    let mut s = String::from("n=");
    push_decimal(&mut s, 907);
    assert_eq!(s, "n=907");
    let mut z = String::new();
    push_decimal(&mut z, 0);
    assert_eq!(z, "0");
}

#[test]
fn all_lines_numbers_every_line() {
    let out = render_lines(NumberingMode::AllLines, &strings(&["a", "", "c"]));
    assert_eq!(out, strings(&["     1 a", "     2 ", "     3 c"]));
}

#[test]
fn all_lines_on_empty_source() {
    let out = render_lines(NumberingMode::AllLines, &Vec::new());
    assert!(out.is_empty());
}

#[test]
fn non_blank_leaves_blank_source_unchanged() {
    let input = strings(&["", "", ""]);
    let out = render_lines(NumberingMode::NonBlankLines, &input);
    assert_eq!(out, input);
}

#[test]
fn non_blank_numbering_skips_blank_lines() {
    let out = render_lines(NumberingMode::NonBlankLines, &strings(&["a", "", "", "b", "", "c"]));
    assert_eq!(out, strings(&["     1 a", "", "", "     2 b", "", "     3 c"]));
}

#[test]
fn whitespace_only_line_is_not_blank() {
    let out = render_lines(NumberingMode::NonBlankLines, &strings(&["  ", "", "\t"]));
    assert_eq!(out, strings(&["     1   ", "", "     2 \t"]));
}

#[test]
fn plain_mode_copies_lines() {
    let input = strings(&["first", "", "  third", "     1 not a number"]);
    let out = render_lines(NumberingMode::Plain, &input);
    assert_eq!(out, input);
}

#[test]
fn counters_restart_for_each_source() {
    let sources = vec![
        SourceInput { name: "a.txt".to_string(), opened: Ok(strings(&["x", "y", "z"])) },
        SourceInput { name: "b.txt".to_string(), opened: Ok(strings(&["p", "q"])) },
    ];
    let r = render_run(NumberingMode::AllLines, &sources);
    assert_eq!(r.out, strings(&["     1 x", "     2 y", "     3 z", "     1 p", "     2 q"]));
    assert!(r.err.is_empty());
}

#[test]
fn failed_source_is_reported_and_skipped() {
    let sources = vec![
        SourceInput {
            name: "missing.txt".to_string(),
            opened: Err("No such file or directory (os error 2)".to_string()),
        },
        SourceInput { name: "good.txt".to_string(), opened: Ok(strings(&["one", "two"])) },
    ];
    let r = render_run(NumberingMode::AllLines, &sources);
    assert_eq!(
        r.err,
        strings(&["Failed to open missing.txt: No such file or directory (os error 2)"])
    );
    assert_eq!(r.out, strings(&["     1 one", "     2 two"]));
}

#[test]
fn run_with_no_sources_writes_nothing() {
    let r = render_run(NumberingMode::NonBlankLines, &Vec::new());
    assert!(r.out.is_empty());
    assert!(r.err.is_empty());
}

#[test]
fn open_failure_message_format() {
    assert_eq!(open_failure_message("f", "denied"), "Failed to open f: denied");
}

#[test]
fn dash_means_standard_input() {
    assert!(is_stdin("-"));
    assert!(!is_stdin("--"));
    assert!(!is_stdin(""));
    assert!(!is_stdin("a"));
    assert!(!is_stdin("./-"));
}

#[test]
fn stdin_hi_numbered() {
    let mut e = LineEmitter::new(NumberingMode::AllLines);
    assert_eq!(e.emit("hi"), "     1 hi");
    assert_eq!(e.count(), 1);
}

#[test]
fn emitter_counts_only_numbered_lines() {
    let mut e = LineEmitter::new(NumberingMode::NonBlankLines);
    assert_eq!(e.emit(""), "");
    assert_eq!(e.count(), 0);
    assert_eq!(e.emit("a"), "     1 a");
    assert_eq!(e.emit(""), "");
    assert_eq!(e.emit("b"), "     2 b");
    e.start_source();
    assert_eq!(e.count(), 0);
    assert_eq!(e.emit("c"), "     1 c");
    assert_eq!(e.mode(), NumberingMode::NonBlankLines);
}

#[test]
fn plain_emitter_copies() {
    let mut e = LineEmitter::new(NumberingMode::Plain);
    assert_eq!(e.emit("  text"), "  text");
    assert_eq!(e.emit(""), "");
}

#[test]
fn config_selects_mode() {
    let c = Config::new(strings(&["-"]), false, false);
    assert_eq!(c.mode(), NumberingMode::Plain);
    assert_eq!(c.files(), &strings(&["-"]));
    assert_eq!(Config::new(vec![], true, false).mode(), NumberingMode::AllLines);
    assert_eq!(Config::new(vec![], false, true).mode(), NumberingMode::NonBlankLines);
    assert_eq!(Config::new(vec![], true, true).mode(), NumberingMode::AllLines);
}
