//! Size-bounded reply formatting.
//!
//! The transport the host replies through rejects messages of 2000 characters
//! or more, and cutting a report mid-token could truncate a diagnostic or the
//! captured output silently. A reply that would not fit is therefore replaced
//! whole by a short fixed placeholder, never truncated.

use crate::diagnostics::any_fatal;
use crate::diagnostics::has_fatal_diagnostic;
use crate::diagnostics::render_all_diagnostics;
use crate::diagnostics::rendered_all;
use crate::diagnostics::Diagnostic;
use vstd::prelude::*;

verus! {

/// A reply must stay strictly below this many characters.
pub const MAX_REPLY_LEN: usize = 2000;

/// What a reply looks like after the size policy is applied: the message
/// itself when it fits, the fixed placeholder otherwise.
pub open spec fn bounded_reply(message: Seq<char>) -> Seq<char> {
    if message.len() >= MAX_REPLY_LEN {
        "Output too large"@
    } else {
        message
    }
}

/// Applies the size policy to a rendered report.
pub fn bound_reply(message: String) -> (r: String)
    ensures
        r@ == bounded_reply(message@),
{
    let n = message.as_str().unicode_len();
    if n >= MAX_REPLY_LEN {
        String::from_str("Output too large")
    } else {
        message
    }
}

/// A report's body wrapped in the fenced log block the transport renders.
pub open spec fn log_block(body: Seq<char>) -> Seq<char> {
    "```log\n"@ + body + "```"@
}

/// Wraps a report body in a fenced log block.
pub fn render_log_block(body: &str) -> (r: String)
    ensures
        r@ == log_block(body@),
{
    let mut out = String::from_str("```log\n");
    out.append(body);
    out.append("```");
    out
}

/// How one execution of the entry point ended: a normal return with a
/// rendered value, a normal return with no value, or a runtime fault with its
/// description. A fault is an expected, recoverable outcome of running
/// untrusted code, not a host failure.
#[derive(Clone, Debug)]
pub enum ExecOutcome {
    Returned(String),
    Finished,
    Faulted(String),
}

/// The log lines an execution contributes to its report: the captured
/// output, then the rendered value on its own line for a normal return with
/// a value, or a closing line describing a runtime fault.
pub open spec fn execution_log(captured: Seq<char>, outcome: ExecOutcome) -> Seq<char> {
    match outcome {
        ExecOutcome::Returned(v) => captured + "\n"@ + v@,
        ExecOutcome::Finished => captured,
        ExecOutcome::Faulted(e) => captured + "Runtime error: "@ + e@ + "\n"@,
    }
}

/// The full report of one execution: its log lines in a fenced block.
pub open spec fn execution_report_text(captured: Seq<char>, outcome: ExecOutcome) -> Seq<char> {
    log_block(execution_log(captured, outcome))
}

/// Merges the captured output and the execution outcome into the report for
/// one execution.
pub fn execution_report(captured: &str, outcome: &ExecOutcome) -> (r: String)
    ensures
        r@ == execution_report_text(captured@, *outcome),
{
    let mut body = String::from_str(captured);
    match outcome {
        ExecOutcome::Returned(v) => {
            body.append("\n");
            body.append(v.as_str());
        },
        ExecOutcome::Finished => {},
        ExecOutcome::Faulted(e) => {
            body.append("Runtime error: ");
            body.append(e.as_str());
            body.append("\n");
        },
    }
    render_log_block(body.as_str())
}

/// Classifies a batch of diagnostics: when any is fatal, the rendered batch
/// in a fenced block, which must be the whole reply; when none is, nothing,
/// and execution may proceed.
pub fn compile_report(ds: &Vec<Diagnostic>) -> (r: Option<String>)
    ensures
        r is Some <==> any_fatal(ds@),
        r matches Some(m) ==> m@ == log_block(rendered_all(ds@)),
{
    if has_fatal_diagnostic(ds) {
        let rendered = render_all_diagnostics(ds);
        Some(render_log_block(rendered.as_str()))
    } else {
        None
    }
}

/// The fixed acknowledgment for a compile-only request with no fatal
/// diagnostics.
pub fn compile_success_reply() -> (r: String)
    ensures
        r@ == "Code compiles successfully"@,
{
    String::from_str("Code compiles successfully")
}

/// The reply for a request that failed before execution could be observed:
/// an isolation failure or an internal compile/execute mismatch.
pub fn could_not_execute_reply(err: &str) -> (r: String)
    ensures
        r@ == "Could not execute the code: "@ + err@,
{
    let mut out = String::from_str("Could not execute the code: ");
    out.append(err);
    out
}

/// The reply for a compile-only request that failed outright.
pub fn could_not_compile_reply(err: &str) -> (r: String)
    ensures
        r@ == "Could not compile the code: "@ + err@,
{
    let mut out = String::from_str("Could not compile the code: ");
    out.append(err);
    out
}

/// The size policy never truncates: the reply is always either the whole
/// report or the fixed placeholder, and in either case fits the transport.
pub proof fn lemma_output_bound(message: Seq<char>)
    ensures
        message.len() >= MAX_REPLY_LEN ==> bounded_reply(message) == "Output too large"@,
        bounded_reply(message) == message || bounded_reply(message) == "Output too large"@,
        bounded_reply(message).len() < MAX_REPLY_LEN,
{
    reveal_strlit("Output too large");
}

/// The description of the internal contract violation in which compilation
/// nominally succeeded yet the expected entry point is absent.
pub fn entry_point_missing() -> (r: String)
    ensures
        r@ == "parameterless Main function not found"@,
{
    String::from_str("parameterless Main function not found")
}

} // verus!
