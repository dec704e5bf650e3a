use cargo_rustc::capture::{capture_command, extract_build_command, trim_build_command};
use cargo_rustc::error::BatchError;

#[test]
fn scenario_single_running_line() {
    let out = "    Running `/usr/bin/rustc --crate-name x src/main.rs`";
    let r = capture_command(out).unwrap();
    assert_eq!(r, "/usr/bin/rustc --crate-name x src/main.rs");
}

#[test]
fn last_running_line_wins() {
    let out = "   Compiling x v0.1.0\n     Running `rustc --crate-name build_script_build build.rs`\n     Running `target/debug/build/x/build-script-build`\n     Running `rustc --crate-name x src/bin/a.rs --emit=link`\n    Finished dev [unoptimized] target(s)\n";
    let r = capture_command(out).unwrap();
    assert_eq!(r, "rustc --crate-name x src/bin/a.rs --emit=link");
}

#[test]
fn crlf_lines_are_read() {
    let out = "  Running `first`\r\n\tRunning `second --flag`\r\nFinished\r\n";
    assert_eq!(capture_command(out).unwrap(), "second --flag");
    assert_eq!(
        extract_build_command(out),
        Some("\tRunning `second --flag`".to_string())
    );
}

#[test]
fn extract_keeps_the_line_as_it_stands() {
    let out = "a\n    Running `cc x`\nb";
    assert_eq!(extract_build_command(out), Some("    Running `cc x`".to_string()));
}

#[test]
fn marker_needs_the_backtick() {
    let out = "    Running tests\n    Running build";
    assert_eq!(extract_build_command(out), None);
}

#[test]
fn marker_not_at_line_start_does_not_count() {
    let out = "note: Running `x`\n";
    assert_eq!(extract_build_command(out), None);
}

#[test]
fn no_running_line_is_reported() {
    let out = "   Compiling x v0.1.0\n    Finished dev\n";
    assert!(matches!(capture_command(out), Err(BatchError::NoBuildCommand)));
}

#[test]
fn empty_output_is_reported() {
    assert!(matches!(capture_command(""), Err(BatchError::NoBuildCommand)));
    assert_eq!(extract_build_command(""), None);
}

#[test]
fn trim_strips_word_spaces_and_one_quote_layer() {
    assert_eq!(trim_build_command("    Running `a b`  "), "a b");
    assert_eq!(trim_build_command("Running ``a``"), "`a`");
    assert_eq!(trim_build_command("  plain text "), "plain text");
    assert_eq!(trim_build_command(""), "");
    assert_eq!(trim_build_command("`"), "");
}

#[test]
fn trim_handles_unicode_white_space() {
    assert_eq!(trim_build_command("\u{3000}Running\u{a0}`x y`\u{2009}"), "x y");
}
