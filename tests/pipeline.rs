use cargo_rustc::error::{BatchError, EntryError};
use cargo_rustc::pipeline::{
    build_outcome, capture_outcome, run_outcome, BatchSession, ProcessOutput,
};
use cargo_rustc::scratch::{allocate_scratch_path, hex_string, scratch_dir, target_bin_for};
use std::io::{Error, ErrorKind};

fn session(release: bool) -> BatchSession {
    BatchSession::new(
        "cargo".to_string(),
        "/usr/bin/rustc".to_string(),
        "/proj".to_string(),
        release,
        "./target/batch/1f".to_string(),
    )
}

fn strings(v: &[&str]) -> Vec<String> {
    v.iter().map(|s| s.to_string()).collect()
}

#[test]
fn build_args_keep_their_order() {
    let s = session(false);
    let flags = strings(&["--edition=2021", "-C", "opt-level=3"]);
    let c = s.build_command_line(&flags, "src/bin/a.rs", true);
    assert_eq!(c.program, "/usr/bin/rustc");
    assert_eq!(c.current_dir, Some("/proj".to_string()));
    assert_eq!(
        c.args,
        strings(&[
            "-o",
            "./target/batch/1f",
            "--edition=2021",
            "-C",
            "opt-level=3",
            "src/bin/a.rs",
            "--emit=link"
        ])
    );
}

#[test]
fn emit_flag_follows_run() {
    let s = session(false);
    let linked = s.build_command_line(&Vec::new(), "a.rs", true);
    let checked = s.build_command_line(&Vec::new(), "a.rs", false);
    assert_eq!(linked.args.last().unwrap(), "--emit=link");
    assert!(!linked.args.iter().any(|a| a == "--emit=dep-info"));
    assert_eq!(checked.args.last().unwrap(), "--emit=dep-info");
    assert!(!checked.args.iter().any(|a| a == "--emit=link"));
    assert_eq!(checked.args, strings(&["-o", "./target/batch/1f", "a.rs", "--emit=dep-info"]));
}

#[test]
fn two_entries_share_the_scratch_path() {
    let s = session(true);
    let a = s.build_command_line(&strings(&["-O"]), "src/bin/a.rs", true);
    let b = s.build_command_line(&Vec::new(), "src/bin/b.rs", true);
    assert_eq!(a.args[1], b.args[1]);
    assert_eq!(a.args[1], s.target_bin());
    assert_eq!(s.run_command_line().program, a.args[1]);
}

#[test]
fn scratch_path_is_stable_in_a_session() {
    let path = allocate_scratch_path("");
    let s = BatchSession::new(
        "cargo".to_string(),
        "rustc".to_string(),
        ".".to_string(),
        false,
        path.clone(),
    );
    assert_eq!(s.target_bin(), path);
    assert_eq!(s.target_bin(), s.target_bin());
    assert!(path.starts_with("./target/batch/"));
    let name = &path["./target/batch/".len()..];
    assert!(!name.is_empty() && name.len() <= 16);
    assert!(name.chars().all(|c| c.is_ascii_hexdigit() && !c.is_ascii_uppercase()));
}

#[test]
fn run_command_has_no_arguments() {
    let c = session(false).run_command_line();
    assert_eq!(c.program, "./target/batch/1f");
    assert_eq!(c.current_dir, None);
    assert!(c.args.is_empty());
}

#[test]
fn capture_command_line_debug_and_release() {
    let debug = session(false).capture_command_line("example");
    assert_eq!(debug.program, "cargo");
    assert_eq!(debug.current_dir, Some("/proj".to_string()));
    assert_eq!(debug.args, strings(&["build", "--bin", "example", "--verbose"]));
    let release = session(true).capture_command_line("example");
    assert_eq!(release.args, strings(&["build", "--release", "--bin", "example", "--verbose"]));
    assert!(session(true).release());
}

#[test]
fn hex_names() {
    assert_eq!(hex_string(0), "0");
    assert_eq!(hex_string(15), "f");
    assert_eq!(hex_string(255), "ff");
    assert_eq!(hex_string(0x1234_abcd), "1234abcd");
    assert_eq!(hex_string(u64::MAX), "ffffffffffffffff");
    assert_eq!(hex_string(u64::MAX), format!("{:x}", u64::MAX));
}

#[test]
fn target_bin_takes_the_extension() {
    assert_eq!(scratch_dir(), "./target/batch");
    assert_eq!(target_bin_for(0xdead, ""), "./target/batch/dead");
    assert_eq!(target_bin_for(0xdead, "exe"), "./target/batch/dead.exe");
}

#[test]
fn capture_spawn_failure_is_classified() {
    let r = capture_outcome(Err(Error::new(ErrorKind::NotFound, "no cargo")));
    match r {
        Err(BatchError::Cargo(e)) => assert_eq!(e.kind(), ErrorKind::NotFound),
        other => panic!("unexpected {:?}", other),
    }
}

#[test]
fn capture_outcome_reads_the_text() {
    let r = capture_outcome(Ok("    Running `rustc a.rs`\n".to_string()));
    assert_eq!(r.unwrap(), "rustc a.rs");
    let r = capture_outcome(Ok("nothing here".to_string()));
    assert!(matches!(r, Err(BatchError::NoBuildCommand)));
}

#[test]
fn build_spawn_failure_is_classified() {
    let r = build_outcome(Err(Error::new(ErrorKind::NotFound, "no rustc")));
    assert!(matches!(r, Err(EntryError::Rustc(_))));
}

#[test]
fn run_without_executable_is_an_entry_error() {
    let s = session(false);
    let checked = s.build_command_line(&Vec::new(), "a.rs", false);
    assert_eq!(checked.args.last().unwrap(), "--emit=dep-info");
    let built = build_outcome(Ok(ProcessOutput { status: Some(0), stdout: vec![], stderr: vec![] }));
    assert_eq!(built.unwrap().status, Some(0));
    let r = run_outcome(Err(Error::new(ErrorKind::NotFound, "no such file")));
    assert!(matches!(r, Err(EntryError::RunFailed(_))));
}

#[test]
fn outputs_pass_through_unchanged() {
    let o = ProcessOutput { status: Some(3), stdout: b"out".to_vec(), stderr: b"err".to_vec() };
    let r = run_outcome(Ok(o)).unwrap();
    assert_eq!(r.status, Some(3));
    assert_eq!(r.stdout, b"out".to_vec());
    assert_eq!(r.stderr, b"err".to_vec());
}
