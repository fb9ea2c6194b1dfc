//! The external programs the pipeline drives, the structured errors a run
//! can end with, and the rendering of both into the diagnostic strings shown
//! to the caller.
use vstd::prelude::*;

use crate::numfmt::{spec_signed_dec, i64_to_dec_string};

verus! {

/// An external program the pipeline may invoke.
#[derive(Clone, Copy, PartialEq, Eq, Structural, Debug)]
pub enum Program {
    /// The encoder, also used for the loudness pre-pass.
    Ffmpeg,
    /// The playback program, used when previewing.
    Ffplay,
    /// The denoiser.
    Sox,
}

/// The name under which a program is looked up on the execution path.
pub open spec fn spec_program_name(p: Program) -> Seq<char> {
    match p {
        Program::Ffmpeg => "ffmpeg"@,
        Program::Ffplay => "ffplay"@,
        Program::Sox => "sox"@,
    }
}

impl Program {
    pub fn command_name(&self) -> (r: &'static str)
        ensures
            r@ == spec_program_name(*self),
    {
        match self {
            Program::Ffmpeg => "ffmpeg",
            Program::Ffplay => "ffplay",
            Program::Sox => "sox",
        }
    }
}

/// Why a run stopped: a caller mistake caught before spawning anything, a
/// program that could not start, ran and failed, or was killed, a scratch
/// directory or file that could not be made or removed, or diagnostic output
/// that was not valid text.
#[derive(Debug)]
pub enum PipelineError {
    Validation { message: String },
    Spawn { program: Program, args: Vec<String>, cause: String },
    NonZeroExit { program: Program, args: Vec<String>, code: i32, stderr: String },
    SignalTerminated { program: Program, args: Vec<String> },
    Filesystem { message: String },
    Decode { program: Program, args: Vec<String> },
}

/// How one spawned process ended, as the caller observed it: an exit code
/// with the captured diagnostic stream, a failure to start, termination by a
/// signal, or diagnostic output that could not be decoded as text.
#[derive(Debug)]
pub enum ProcStatus {
    Exited { code: i32, stderr: String },
    SpawnFailed { cause: String },
    Signaled,
    DecodeFailed,
}

/// Whether a process ended well: it exited with status zero.
pub open spec fn spec_status_ok(status: ProcStatus) -> bool {
    match status {
        ProcStatus::Exited { code, stderr } => code == 0,
        _ => false,
    }
}

/// Whether `e` is the error that reports `status` for an invocation of
/// `program` with the arguments viewed as `args_view`.
pub open spec fn spec_err_for(
    e: PipelineError,
    program: Program,
    args_view: Seq<Seq<char>>,
    status: ProcStatus,
) -> bool {
    match status {
        ProcStatus::Exited { code, stderr } => code != 0 && (e matches PipelineError::NonZeroExit {
            program: p2,
            args: a2,
            code: c2,
            stderr: s2,
        } && p2 == program && a2.deep_view() == args_view && c2 == code && s2@ == stderr@),
        ProcStatus::SpawnFailed { cause } => (e matches PipelineError::Spawn {
            program: p2,
            args: a2,
            cause: c2,
        } && p2 == program && a2.deep_view() == args_view && c2@ == cause@),
        ProcStatus::Signaled => (e matches PipelineError::SignalTerminated { program: p2, args: a2 }
            && p2 == program && a2.deep_view() == args_view),
        ProcStatus::DecodeFailed => (e matches PipelineError::Decode { program: p2, args: a2 } && p2
            == program && a2.deep_view() == args_view),
    }
}

/// One argument double-quoted.
pub open spec fn spec_quoted(a: Seq<char>) -> Seq<char> {
    seq!['"'] + a + seq!['"']
}

/// An argument list rendered for diagnostics: each argument double-quoted,
/// the arguments joined with single spaces.
pub open spec fn spec_args_string(args: Seq<Seq<char>>) -> Seq<char>
    decreases args.len(),
{
    if args.len() == 0 {
        Seq::empty()
    } else if args.len() == 1 {
        spec_quoted(args[0])
    } else {
        spec_args_string(args.drop_last()) + seq![' '] + spec_quoted(args.last())
    }
}

/// Renders an argument list for diagnostics: `["-l", "-h", "a/path"]` becomes
/// `"-l" "-h" "a/path"`.
pub fn build_args_string(args: &Vec<String>) -> (r: String)
    ensures
        r@ == spec_args_string(args.deep_view()),
{
    proof {
        reveal_strlit("\"");
        reveal_strlit(" ");
    }
    let mut s = String::new();
    let mut i: usize = 0;
    while i < args.len()
        invariant
            i <= args.len(),
            s@ == spec_args_string(args.deep_view().take(i as int)),
        decreases args.len() - i,
    {
        if i > 0 {
            s.append(" ");
        }
        s.append("\"");
        s.append(args[i].as_str());
        s.append("\"");
        proof {
            reveal_strlit("\"");
            reveal_strlit(" ");
            let all = args.deep_view();
            assert(all[i as int] == args@[i as int]@);
            assert(all.take(i + 1 as int).drop_last() =~= all.take(i as int));
            assert(all.take(i + 1 as int).last() == all[i as int]);
            assert(s@ =~= spec_args_string(all.take(i + 1 as int)));
        }
        i = i + 1;
    }
    proof {
        assert(args.deep_view().take(args.len() as int) =~= args.deep_view());
    }
    s
}

/// The message shown when a program could not be started: the cause, then
/// the attempted command line.
pub open spec fn spec_command_map_error(
    cause: Seq<char>,
    command_name: Seq<char>,
    args: Seq<Seq<char>>,
) -> Seq<char> {
    "Failed to start: "@ + cause + "\nCommand was: "@ + command_name + " "@ + spec_args_string(
        args,
    )
}

/// Renders the message for a program that could not be started.
pub fn command_map_error(cause: &str, command_name: &str, args: &Vec<String>) -> (r: String)
    ensures
        r@ == spec_command_map_error(cause@, command_name@, args.deep_view()),
{
    let mut s = String::from_str("Failed to start: ");
    s.append(cause);
    s.append("\nCommand was: ");
    s.append(command_name);
    s.append(" ");
    let rendered = build_args_string(args);
    s.append(rendered.as_str());
    proof {
        assert(s@ =~= spec_command_map_error(cause@, command_name@, args.deep_view()));
    }
    s
}

/// What `output_map_error` returns: the captured diagnostic stream on a zero
/// exit status, else the matching structured error.
pub open spec fn spec_output_map(
    program: Program,
    args: Vec<String>,
    status: ProcStatus,
) -> Result<String, PipelineError> {
    match status {
        ProcStatus::Exited { code, stderr } => {
            if code == 0 {
                Ok(stderr)
            } else {
                Err(PipelineError::NonZeroExit { program, args, code, stderr })
            }
        },
        ProcStatus::SpawnFailed { cause } => Err(PipelineError::Spawn { program, args, cause }),
        ProcStatus::Signaled => Err(PipelineError::SignalTerminated { program, args }),
        ProcStatus::DecodeFailed => Err(PipelineError::Decode { program, args }),
    }
}

/// Turns how a process ended into the run's result: a zero exit status hands
/// the captured diagnostic stream back, anything else is the matching error,
/// carrying the command line that was attempted.
pub fn output_map_error(program: Program, args: Vec<String>, status: ProcStatus) -> (r: Result<
    String,
    PipelineError,
>)
    ensures
        r == spec_output_map(program, args, status),
{
    match status {
        ProcStatus::Exited { code, stderr } => {
            if code == 0 {
                Ok(stderr)
            } else {
                Err(PipelineError::NonZeroExit { program, args, code, stderr })
            }
        },
        ProcStatus::SpawnFailed { cause } => Err(PipelineError::Spawn { program, args, cause }),
        ProcStatus::Signaled => Err(PipelineError::SignalTerminated { program, args }),
        ProcStatus::DecodeFailed => Err(PipelineError::Decode { program, args }),
    }
}

/// The diagnostic string each error renders to. A validation or filesystem
/// error already carries its full message; the process errors are laid out
/// as the caller expects them, command line included.
pub open spec fn spec_error_message(e: PipelineError) -> Seq<char> {
    match e {
        PipelineError::Validation { message } => message@,
        PipelineError::Spawn { program, args, cause } => spec_command_map_error(
            cause@,
            spec_program_name(program),
            args.deep_view(),
        ),
        PipelineError::NonZeroExit { program, args, code, stderr } => "\u{26a0} "@
            + spec_program_name(program) + " exited with non-zero status code: "@ + spec_signed_dec(
            code as int,
        ) + "\n\nArguments were: "@ + spec_args_string(args.deep_view()) + "\n\nError output: "@
            + stderr@,
        PipelineError::SignalTerminated { program, args } => "\u{26a0} "@ + spec_program_name(
            program,
        ) + " terminated by signal"@,
        PipelineError::Filesystem { message } => message@,
        PipelineError::Decode { program, args } => "Error: could not decode the diagnostic output of "@
            + spec_program_name(program) + "."@,
    }
}

/// Renders an error into the diagnostic string the caller displays.
pub fn error_message(e: &PipelineError) -> (r: String)
    ensures
        r@ == spec_error_message(*e),
{
    match e {
        PipelineError::Validation { message } => message.clone(),
        PipelineError::Spawn { program, args, cause } => {
            command_map_error(cause.as_str(), program.command_name(), args)
        },
        PipelineError::NonZeroExit { program, args, code, stderr } => {
            let mut s = String::from_str("\u{26a0} ");
            s.append(program.command_name());
            s.append(" exited with non-zero status code: ");
            let code_str = i64_to_dec_string(*code as i64);
            s.append(code_str.as_str());
            s.append("\n\nArguments were: ");
            let rendered = build_args_string(args);
            s.append(rendered.as_str());
            s.append("\n\nError output: ");
            s.append(stderr.as_str());
            proof {
                assert(s@ =~= spec_error_message(*e));
            }
            s
        },
        PipelineError::SignalTerminated { program, args } => {
            let mut s = String::from_str("\u{26a0} ");
            s.append(program.command_name());
            s.append(" terminated by signal");
            proof {
                assert(s@ =~= spec_error_message(*e));
            }
            s
        },
        PipelineError::Filesystem { message } => message.clone(),
        PipelineError::Decode { program, args } => {
            let mut s = String::from_str("Error: could not decode the diagnostic output of ");
            s.append(program.command_name());
            s.append(".");
            proof {
                assert(s@ =~= spec_error_message(*e));
            }
            s
        },
    }
}

} // verus!
