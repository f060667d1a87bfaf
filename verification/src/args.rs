//! Parsing of the `runner` command line.
//!
//! Arguments are scanned in order.  A `--help`, `-h` or `--version` seen
//! before the executable path turns the whole command into a help or version
//! request; `--quiet` and `--release` set their flags; the first argument
//! that is none of these is the kernel executable path, and everything after
//! it is passed through untouched as runner arguments.

use vstd::prelude::*;
use vstd::string::StringExecFns;

verus! {

/// The flags that may precede the executable path without ending the scan.
pub open spec fn is_mode_flag(a: Seq<char>) -> bool {
    a == "--quiet"@ || a == "--release"@
}

/// The flags that turn the command into a help request.
pub open spec fn is_help_flag(a: Seq<char>) -> bool {
    a == "--help"@ || a == "-h"@
}

/// The flag that turns the command into a version request.
pub open spec fn is_version_flag(a: Seq<char>) -> bool {
    a == "--version"@
}

/// The index of the first argument that is not a mode flag; the length when
/// every argument is one.
pub open spec fn first_non_mode(args: Seq<Seq<char>>) -> int
    decreases args.len(),
{
    if args.len() == 0 {
        0
    } else if is_mode_flag(args[0]) {
        1 + first_non_mode(args.drop_first())
    } else {
        0
    }
}

/// `first_non_mode` is the one index bounding a prefix of mode flags and, if
/// within the arguments, standing on something else.
pub proof fn lemma_first_non_mode(args: Seq<Seq<char>>, k: int)
    requires
        0 <= k <= args.len(),
        forall|i: int| 0 <= i < k ==> is_mode_flag(args[i]),
        k < args.len() ==> !is_mode_flag(args[k]),
    ensures
        first_non_mode(args) == k,
    decreases args.len(),
{
    if args.len() > 0 && is_mode_flag(args[0]) {
        assert(k != 0);
        assert(forall|i: int|
            0 <= i < k - 1 ==> is_mode_flag(#[trigger] args.drop_first()[i]));
        lemma_first_non_mode(args.drop_first(), k - 1);
    } else if args.len() > 0 {
        assert(k == 0) by {
            if k > 0 {
                assert(is_mode_flag(args[0]));
            }
        }
    }
}

/// The distinct command-line flags have distinct character sequences.
proof fn lemma_flags_distinct()
    ensures
        !is_mode_flag("--help"@),
        !is_mode_flag("-h"@),
        !is_mode_flag("--version"@),
        !is_help_flag("--version"@),
        !is_version_flag("--help"@),
        !is_version_flag("-h"@),
        "--quiet"@ != "--release"@,
{
    reveal_strlit("--help");
    reveal_strlit("-h");
    reveal_strlit("--version");
    reveal_strlit("--quiet");
    reveal_strlit("--release");
    assert("--help"@.len() == 6);
    assert("-h"@.len() == 2);
    assert("--version"@.len() == 9);
    assert("--quiet"@.len() == 7);
    assert("--release"@.len() == 9);
    assert("--version"@[2] == 'v');
    assert("--release"@[2] == 'r');
}

/// A failed parse of the runner command line.
#[derive(Debug)]
pub enum ArgsError {
    /// No kernel executable path was given.
    MissingExecutable,
}

impl ArgsError {
    /// A human-readable description of the error.
    pub fn message(&self) -> (r: String)
        ensures
            r@ == "expected path to kernel executable as first argument"@,
    {
        match self {
            ArgsError::MissingExecutable => String::from_str(
                "expected path to kernel executable as first argument",
            ),
        }
    }
}

/// Arguments for the `runner` command.
#[derive(Debug, Clone)]
pub struct RunnerArgs {
    /// Path to the executable binary.
    pub executable: String,
    /// Suppress any output to stdout.
    pub quiet: bool,
    /// Build release version.
    pub release: bool,
    /// Additional arguments passed to the runner.
    pub runner_args: Option<Vec<String>>,
}

/// Internal representation of the `runner` command.
pub enum RunnerCommand {
    /// A normal invocation (no `--help` or `--version`).
    Runner(RunnerArgs),
    /// A command containing `--version`.
    Version,
    /// A command containing `--help`.
    Help,
}

/// What parsing returns on an argument list with the given views: with no
/// argument beyond the mode-flag prefix, the parse fails; with a help or
/// version flag there, the matching request; otherwise a runner command
/// whose executable is that argument, whose flags say which mode flags the
/// prefix held, and whose runner arguments are exactly the remaining
/// arguments, or absent when there are none.
pub open spec fn parse_result_ok(av: Seq<Seq<char>>, r: Result<RunnerCommand, ArgsError>) -> bool {
    let k = first_non_mode(av);
    &&& (k == av.len() ==> r matches Err(ArgsError::MissingExecutable))
    &&& (k < av.len() && is_help_flag(av[k]) ==> r matches Ok(RunnerCommand::Help))
    &&& (k < av.len() && is_version_flag(av[k]) ==> r matches Ok(RunnerCommand::Version))
    &&& (k < av.len() && !is_help_flag(av[k]) && !is_version_flag(av[k]) ==> (r matches Ok(
        RunnerCommand::Runner(ra),
    ) && {
        &&& ra.executable@ == av[k]
        &&& ra.quiet == (exists|i: int| 0 <= i < k && av[i] == "--quiet"@)
        &&& ra.release == (exists|i: int| 0 <= i < k && av[i] == "--release"@)
        &&& (k + 1 < av.len() ==> (ra.runner_args matches Some(rest) && rest.deep_view()
            == av.subrange(k + 1, av.len() as int)))
        &&& (k + 1 >= av.len() ==> ra.runner_args is None)
    }))
}

/// Whether `a` holds exactly the characters of `pat`.
fn arg_is(a: &String, pat: &str) -> (r: bool)
    ensures
        r == (a@ == pat@),
{
    *a == String::from_str(pat)
}

impl RunnerCommand {
    /// Parses the given argument list into the internal representation.
    pub fn parse_args(args: Vec<String>) -> (r: Result<RunnerCommand, ArgsError>)
        ensures
            parse_result_ok(args.deep_view(), r),
    {
        let ghost av = args.deep_view();
        let mut quiet = false;
        let mut release = false;
        let mut idx: usize = 0;
        while idx < args.len()
            invariant
                idx <= args.len(),
                av == args.deep_view(),
                forall|i: int| 0 <= i < idx ==> is_mode_flag(av[i]),
                quiet == (exists|i: int| 0 <= i < idx && av[i] == "--quiet"@),
                release == (exists|i: int| 0 <= i < idx && av[i] == "--release"@),
            decreases args.len() - idx,
        {
            let a = &args[idx];
            assert(a@ == av[idx as int]);
            if arg_is(a, "--help") || arg_is(a, "-h") {
                proof {
                    lemma_flags_distinct();
                    lemma_first_non_mode(av, idx as int);
                }
                return Ok(RunnerCommand::Help);
            } else if arg_is(a, "--version") {
                proof {
                    lemma_flags_distinct();
                    lemma_first_non_mode(av, idx as int);
                }
                return Ok(RunnerCommand::Version);
            } else if arg_is(a, "--quiet") {
                quiet = true;
                proof {
                    lemma_flags_distinct();
                }
            } else if arg_is(a, "--release") {
                release = true;
                proof {
                    lemma_flags_distinct();
                }
            } else {
                proof {
                    lemma_flags_distinct();
                    lemma_first_non_mode(av, idx as int);
                }
                let executable = a.clone();
                let mut rest: Vec<String> = Vec::new();
                let mut j: usize = idx + 1;
                while j < args.len()
                    invariant
                        idx < args.len(),
                        idx + 1 <= j <= args.len(),
                        av == args.deep_view(),
                        rest.deep_view() == av.subrange(idx + 1, j as int),
                    decreases args.len() - j,
                {
                    let ghost prev = rest.deep_view();
                    let next = args[j].clone();
                    assert(next@ == av[j as int]);
                    rest.push(next);
                    proof {
                        assert forall|i: int| 0 <= i < rest@.len() implies #[trigger] rest.deep_view()[i]
                            == av.subrange(idx + 1, j + 1) [i] by {
                            if i < prev.len() {
                                assert(rest.deep_view()[i] == prev[i]);
                            }
                        }
                        assert(rest@.len() == prev.len() + 1);
                        assert(rest.deep_view().len() == rest@.len());
                        assert(av.subrange(idx + 1, j + 1).len() == j - idx);
                        assert(rest.deep_view() =~= av.subrange(idx + 1, j + 1));
                    }
                    j += 1;
                }
                let runner_args = if rest.len() > 0 {
                    Some(rest)
                } else {
                    proof {
                        assert(av.subrange(idx + 1, av.len() as int).len() == 0);
                    }
                    None
                };
                return Ok(
                    RunnerCommand::Runner(RunnerArgs { executable, quiet, release, runner_args }),
                );
            }
            idx = idx + 1;
        }
        proof {
            lemma_first_non_mode(av, av.len() as int);
        }
        Err(ArgsError::MissingExecutable)
    }
}

} // verus!
