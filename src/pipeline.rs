//! The session context and the command lines it builds: one to capture the
//! build tool's invocation, one per entry to compile it directly with the
//! compiler driver, and one to run what was built; and the classification of
//! what came back when they were spawned.

use vstd::prelude::*;
use crate::error::{BatchError, EntryError};
use crate::capture::{capture_command, command_text, last_command_line};

verus! {

/// A command to spawn: the program, the working directory (the caller's own
/// where `None`) and the arguments.
pub struct CommandLine {
    pub program: String,
    pub current_dir: Option<String>,
    pub args: Vec<String>,
}

/// The text of a command line.
pub struct CommandView {
    pub program: Seq<char>,
    pub current_dir: Option<Seq<char>>,
    pub args: Seq<Seq<char>>,
}

/// The texts of a list of strings.
pub open spec fn texts(v: Seq<String>) -> Seq<Seq<char>> {
    v.map_values(|s: String| s@)
}

impl View for CommandLine {
    type V = CommandView;

    open spec fn view(&self) -> CommandView {
        CommandView {
            program: self.program@,
            current_dir: match self.current_dir {
                Some(d) => Some(d@),
                None => None,
            },
            args: texts(self.args@),
        }
    }
}

/// What a session knows from the start: the build tool and the compiler driver,
/// the project's manifest directory, whether it builds in release mode, and the
/// one executable path that all entries are built to.
pub struct BatchSession {
    cargo: String,
    rustc: String,
    manifest_dir: String,
    release: bool,
    target_bin: String,
}

/// The text of a session's settings.
pub struct SessionView {
    pub cargo: Seq<char>,
    pub rustc: Seq<char>,
    pub manifest_dir: Seq<char>,
    pub release: bool,
    pub target_bin: Seq<char>,
}

impl View for BatchSession {
    type V = SessionView;

    closed spec fn view(&self) -> SessionView {
        SessionView {
            cargo: self.cargo@,
            rustc: self.rustc@,
            manifest_dir: self.manifest_dir@,
            release: self.release,
            target_bin: self.target_bin@,
        }
    }
}

/// The emit-mode flag: a linked executable where the entry will run, else
/// dependency information only.
pub open spec fn emit_flag(run: bool) -> Seq<char> {
    if run {
        "--emit=link"@
    } else {
        "--emit=dep-info"@
    }
}

/// The build tool's arguments that make it build the binary `bin_name` and
/// print each command it runs.
pub open spec fn capture_args(release: bool, bin_name: Seq<char>) -> Seq<Seq<char>> {
    seq!["build"@] + (if release {
        seq!["--release"@]
    } else {
        seq![]
    }) + seq!["--bin"@, bin_name, "--verbose"@]
}

/// The command that makes the build tool show how it compiles `bin_name`.
pub open spec fn capture_command_spec(s: SessionView, bin_name: Seq<char>) -> CommandView {
    CommandView {
        program: s.cargo,
        current_dir: Some(s.manifest_dir),
        args: capture_args(s.release, bin_name),
    }
}

/// The compiler driver's arguments for one entry: the output path, the
/// builder's flags, the entry's source file, then the emit-mode flag.
pub open spec fn build_args(
    s: SessionView,
    flags: Seq<Seq<char>>,
    source: Seq<char>,
    run: bool,
) -> Seq<Seq<char>> {
    seq!["-o"@, s.target_bin] + flags + seq![source, emit_flag(run)]
}

/// The command that compiles one entry directly with the compiler driver.
pub open spec fn build_command_spec(
    s: SessionView,
    flags: Seq<Seq<char>>,
    source: Seq<char>,
    run: bool,
) -> CommandView {
    CommandView {
        program: s.rustc,
        current_dir: Some(s.manifest_dir),
        args: build_args(s, flags, source, run),
    }
}

/// The command that runs the last entry built: the scratch executable, alone.
pub open spec fn run_command_spec(s: SessionView) -> CommandView {
    CommandView { program: s.target_bin, current_dir: None, args: seq![] }
}

/// The standard output, standard error and exit code (`None` where a signal
/// ended it) of a process that ran.
pub struct ProcessOutput {
    pub status: Option<i32>,
    pub stdout: Vec<u8>,
    pub stderr: Vec<u8>,
}

fn push_text(v: &mut Vec<String>, s: &str)
    ensures
        texts(final(v)@) == texts(old(v)@).push(s@),
{
    v.push(String::from_str(s));
    assert(texts(final(v)@) =~= texts(old(v)@).push(s@));
}

impl BatchSession {
    pub fn new(
        cargo: String,
        rustc: String,
        manifest_dir: String,
        release: bool,
        target_bin: String,
    ) -> (r: BatchSession)
        ensures
            r@.cargo == cargo@,
            r@.rustc == rustc@,
            r@.manifest_dir == manifest_dir@,
            r@.release == release,
            r@.target_bin == target_bin@,
    {
        BatchSession { cargo, rustc, manifest_dir, release, target_bin }
    }

    /// The scratch executable path; the same on every call for the session's life.
    pub fn target_bin(&self) -> (r: &str)
        ensures
            r@ == self@.target_bin,
    {
        self.target_bin.as_str()
    }

    /// Whether the session builds in release mode.
    pub fn release(&self) -> (r: bool)
        ensures
            r == self@.release,
    {
        self.release
    }

    /// The command that makes the build tool build `bin_name` verbosely, so
    /// that its diagnostics show the compiler invocation it uses.
    pub fn capture_command_line(&self, bin_name: &str) -> (r: CommandLine)
        ensures
            r@ == capture_command_spec(self@, bin_name@),
    {
        let mut args: Vec<String> = Vec::new();
        push_text(&mut args, "build");
        if self.release {
            push_text(&mut args, "--release");
        }
        push_text(&mut args, "--bin");
        push_text(&mut args, bin_name);
        push_text(&mut args, "--verbose");
        let r = CommandLine {
            program: self.cargo.clone(),
            current_dir: Some(self.manifest_dir.clone()),
            args,
        };
        assert(r@.args =~= capture_args(self@.release, bin_name@));
        r
    }

    /// The command that compiles the entry `source` with the builder's `flags`
    /// straight to the scratch executable: linked where `run`, else emitting
    /// dependency information only.
    pub fn build_command_line(&self, flags: &Vec<String>, source: &str, run: bool) -> (r:
        CommandLine)
        ensures
            r@ == build_command_spec(self@, texts(flags@), source@, run),
    {
        let mut args: Vec<String> = Vec::new();
        push_text(&mut args, "-o");
        push_text(&mut args, self.target_bin.as_str());
        let ghost head = texts(args@);
        for k in 0..flags.len()
            invariant
                texts(args@) == head + texts(flags@).take(k as int),
        {
            push_text(&mut args, flags[k].as_str());
            assert(texts(flags@).take(k + 1) =~= texts(flags@).take(k as int).push(flags@[k as int]@));
        }
        assert(texts(flags@).take(flags@.len() as int) =~= texts(flags@));
        push_text(&mut args, source);
        if run {
            push_text(&mut args, "--emit=link");
        } else {
            push_text(&mut args, "--emit=dep-info");
        }
        let r = CommandLine {
            program: self.rustc.clone(),
            current_dir: Some(self.manifest_dir.clone()),
            args,
        };
        assert(r@.args =~= build_args(self@, texts(flags@), source@, run));
        r
    }

    /// The command that runs the scratch executable, with no arguments.
    pub fn run_command_line(&self) -> (r: CommandLine)
        ensures
            r@ == run_command_spec(self@),
    {
        let r = CommandLine { program: self.target_bin.clone(), current_dir: None, args: Vec::new() };
        assert(r@.args =~= seq![]);
        r
    }
}

/// The capture phase's result from what spawning the build tool gave: its
/// error output as text, or the spawn failure, which is classified and never fatal.
pub fn capture_outcome(spawned: Result<String, std::io::Error>) -> (r: Result<String, BatchError>)
    ensures
        match spawned {
            Err(e) => r == Err::<String, BatchError>(BatchError::Cargo(e)),
            Ok(stderr) => match last_command_line(stderr@) {
                Some(l) => r is Ok && r->Ok_0@ == command_text(l),
                None => r is Err && r->Err_0 is NoBuildCommand,
            },
        },
{
    match spawned {
        Err(e) => Err(BatchError::Cargo(e)),
        Ok(stderr) => capture_command(stderr.as_str()),
    }
}

/// An entry's build result: the compiler's output as it came, or the spawn
/// failure, classified as an entry-level error.
pub fn build_outcome(spawned: Result<ProcessOutput, std::io::Error>) -> (r: Result<
    ProcessOutput,
    EntryError,
>)
    ensures
        match spawned {
            Ok(o) => r == Ok::<ProcessOutput, EntryError>(o),
            Err(e) => r == Err::<ProcessOutput, EntryError>(EntryError::Rustc(e)),
        },
{
    match spawned {
        Ok(o) => Ok(o),
        Err(e) => Err(EntryError::Rustc(e)),
    }
}

/// An entry's run result: the executable's output as it came, or the spawn
/// failure (no executable was built, for one), classified as an entry-level error.
pub fn run_outcome(spawned: Result<ProcessOutput, std::io::Error>) -> (r: Result<
    ProcessOutput,
    EntryError,
>)
    ensures
        match spawned {
            Ok(o) => r == Ok::<ProcessOutput, EntryError>(o),
            Err(e) => r == Err::<ProcessOutput, EntryError>(EntryError::RunFailed(e)),
        },
{
    match spawned {
        Ok(o) => Ok(o),
        Err(e) => Err(EntryError::RunFailed(e)),
    }
}

/// The two emit modes exclude each other: a build that will run never asks for
/// dependency information only, and one that will not never asks for a link.
pub proof fn lemma_emit_modes_exclusive(run: bool)
    ensures
        emit_flag(run) != emit_flag(!run),
{
    reveal_strlit("--emit=link");
    reveal_strlit("--emit=dep-info");
    assert(emit_flag(true).len() != emit_flag(false).len());
}

/// Every entry of a session, whatever its flags, source and emit mode, is built
/// to the same scratch path, and that path is what the run command starts.
pub proof fn lemma_entries_share_target(
    s: SessionView,
    flags1: Seq<Seq<char>>,
    source1: Seq<char>,
    run1: bool,
    flags2: Seq<Seq<char>>,
    source2: Seq<char>,
    run2: bool,
)
    ensures
        build_command_spec(s, flags1, source1, run1).args[1] == build_command_spec(
            s,
            flags2,
            source2,
            run2,
        ).args[1],
        build_command_spec(s, flags1, source1, run1).args[1] == run_command_spec(s).program,
{
}

/// The order of an entry's compiler arguments is fixed: the output flag and
/// path first, then the builder's flags, then the source file, and the emit-mode
/// flag last, once.
pub proof fn lemma_build_args_order(
    s: SessionView,
    flags: Seq<Seq<char>>,
    source: Seq<char>,
    run: bool,
)
    ensures
        ({
            let a = build_args(s, flags, source, run);
            &&& a.len() == flags.len() + 4
            &&& a[0] == "-o"@
            &&& a[1] == s.target_bin
            &&& a.subrange(2, 2 + flags.len() as int) == flags
            &&& a[2 + flags.len() as int] == source
            &&& a[3 + flags.len() as int] == emit_flag(run)
            &&& a.last() == emit_flag(run)
        }),
{
    let a = build_args(s, flags, source, run);
    assert(a.subrange(2, 2 + flags.len() as int) =~= flags);
}

} // verus!
