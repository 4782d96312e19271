use vstd::prelude::*;
use vstd::string::StringExecFns;

use crate::error::InternalError;

verus! {

/// One external program invocation: the program and its arguments.
pub struct Cmd {
    pub program: String,
    pub args: Vec<String>,
}

/// What running an external program produced: the program exited with a
/// status and captured standard-output lines; an operating-system error
/// stopped it before it finished; or one of its output streams could not be
/// captured.
pub enum CmdOutcome {
    Exited { success: bool, status: String, lines: Vec<String> },
    IoFailed { message: String },
    CaptureFailed { stdout: bool },
}

/// The views of a sequence of strings.
pub open spec fn texts_of(v: Seq<String>) -> Seq<Seq<char>> {
    v.map_values(|a: String| a@)
}

/// The views of a command's arguments.
pub open spec fn args_view(c: Cmd) -> Seq<Seq<char>> {
    texts_of(c.args@)
}

/// The command is the given program with exactly the given arguments.
pub open spec fn cmd_is(c: Cmd, program: Seq<char>, args: Seq<Seq<char>>) -> bool {
    c.program@ == program && args_view(c) == args
}

/// The message reported when a program exits with a non-zero status.
pub open spec fn status_msg(program: Seq<char>, status: Seq<char>) -> Seq<char> {
    "The program \""@ + program + "\" finished with a status "@ + status + "."@
}

/// The message reported when an output stream cannot be captured.
pub open spec fn capture_msg(stdout: bool) -> Seq<char> {
    if stdout {
        "Failed to capture stdout."@
    } else {
        "Failed to capture stderr."@
    }
}

/// The outcome of a command that ran to completion successfully.
pub open spec fn outcome_ok(outcome: CmdOutcome) -> bool {
    outcome matches CmdOutcome::Exited { success: true, .. }
}

/// The error a failed command outcome produces: an `IOError` when the
/// operating system stopped the program, a plain message otherwise.
pub open spec fn is_outcome_err(e: InternalError, program: Seq<char>, outcome: CmdOutcome) -> bool {
    match outcome {
        CmdOutcome::Exited { success, status, lines } => {
            &&& !success
            &&& e matches InternalError::Common(m)
            &&& m@ == status_msg(program, status@)
        },
        CmdOutcome::IoFailed { message } => {
            e matches InternalError::IOError(m) && m@ == message@
        },
        CmdOutcome::CaptureFailed { stdout } => {
            e matches InternalError::Common(m) && m@ == capture_msg(stdout)
        },
    }
}

/// Turns what an external program produced into the step executor's result:
/// the captured standard-output lines exactly when the program exited
/// successfully, the outcome's error otherwise.
pub fn command_result(program: &str, outcome: CmdOutcome) -> (r: Result<Vec<String>, InternalError>)
    ensures
        r is Ok <==> outcome_ok(outcome),
        r matches Ok(lines) ==> outcome matches CmdOutcome::Exited { lines: l, .. } && lines == l,
        r matches Err(e) ==> is_outcome_err(e, program@, outcome),
{
    match outcome {
        CmdOutcome::Exited { success, status, lines } => {
            if success {
                Ok(lines)
            } else {
                let msg = String::from_str("The program \"").concat(program).concat(
                    "\" finished with a status ",
                ).concat(status.as_str()).concat(".");
                Err(InternalError::Common(msg))
            }
        },
        CmdOutcome::IoFailed { message } => Err(InternalError::IOError(message)),
        CmdOutcome::CaptureFailed { stdout } => {
            if stdout {
                Err(InternalError::Common(String::from_str("Failed to capture stdout.")))
            } else {
                Err(InternalError::Common(String::from_str("Failed to capture stderr.")))
            }
        },
    }
}

/// Wraps an underlying failure with a higher-level context message, producing
/// the two-layer error reported to the user.
pub fn with_context(context: String, err: InternalError) -> (r: InternalError)
    ensures
        r matches InternalError::Multiple(c, u) && *c matches InternalError::Common(m) && m
            == context && *u == err,
{
    InternalError::Multiple(Box::new(InternalError::Common(context)), Box::new(err))
}

/// A two-layer error whose context is the given message and whose underlying
/// error is the one the given command outcome produces.
pub open spec fn is_wrapped_err(
    e: InternalError,
    context: Seq<char>,
    program: Seq<char>,
    outcome: CmdOutcome,
) -> bool {
    e matches InternalError::Multiple(c, u) && *c matches InternalError::Common(m) && m@ == context
        && is_outcome_err(*u, program, outcome)
}

} // verus!
