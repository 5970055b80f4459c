//! The per-request decision step.
//!
//! One request flows: snapshot the baseline, compile the prepared source
//! against the private copy, classify the diagnostics, and either stop with
//! a compile report or execute the entry point and merge the captured output
//! with the outcome. The host performs the outside work (the snapshot, the
//! compiler call, the VM run) and hands back plain values; every decision in
//! between is made here and is a function of the request's own data alone,
//! so no request can observe or disturb another.

use crate::diagnostics::any_fatal;
use crate::diagnostics::rendered_all;
use crate::diagnostics::Diagnostic;
use crate::report::bound_reply;
use crate::report::bounded_reply;
use crate::report::compile_report;
use crate::report::compile_success_reply;
use crate::report::execution_report;
use crate::report::execution_report_text;
use crate::report::log_block;
use crate::report::ExecOutcome;
use crate::source::RequestMode;
use vstd::prelude::*;

verus! {

/// What the pipeline does next once compilation has finished: answer the
/// caller, or go on to execute the entry point.
#[derive(Clone, Debug)]
pub enum Step {
    Reply(String),
    Execute,
}

/// The reply of a compile-only request: the rendered diagnostics when any is
/// fatal, the fixed acknowledgment otherwise.
pub open spec fn compile_only_reply(ds: Seq<Diagnostic>) -> Seq<char> {
    if any_fatal(ds) {
        log_block(rendered_all(ds))
    } else {
        "Code compiles successfully"@
    }
}

/// The reply of a request that may execute: the bounded compile report when
/// a fatal diagnostic blocks execution, otherwise the bounded report of the
/// one execution.
pub open spec fn run_reply(
    ds: Seq<Diagnostic>,
    captured: Seq<char>,
    outcome: ExecOutcome,
) -> Seq<char> {
    if any_fatal(ds) {
        bounded_reply(log_block(rendered_all(ds)))
    } else {
        bounded_reply(execution_report_text(captured, outcome))
    }
}

/// Decides what follows compilation. A compile-only request is always
/// answered here; a request that may execute is answered here exactly when a
/// fatal diagnostic is present, and ordered to execute otherwise.
pub fn after_compile(mode: &RequestMode, ds: &Vec<Diagnostic>) -> (step: Step)
    ensures
        *mode is CompileOnly ==> (step matches Step::Reply(m) && m@ == compile_only_reply(ds@)),
        !(*mode is CompileOnly) && any_fatal(ds@) ==> (step matches Step::Reply(m) && m@
            == bounded_reply(log_block(rendered_all(ds@)))),
        !(*mode is CompileOnly) && !any_fatal(ds@) ==> step is Execute,
{
    let report = compile_report(ds);
    match mode {
        RequestMode::CompileOnly => match report {
            Some(m) => Step::Reply(m),
            None => Step::Reply(compile_success_reply()),
        },
        _ => match report {
            Some(m) => Step::Reply(bound_reply(m)),
            None => Step::Execute,
        },
    }
}

/// Builds the final bounded reply once the entry point has been executed.
pub fn after_execution(captured: &str, outcome: &ExecOutcome) -> (r: String)
    ensures
        r@ == bounded_reply(execution_report_text(captured@, *outcome)),
{
    bound_reply(execution_report(captured, outcome))
}

/// Isolation: the reply of a request is a function of that request's own
/// diagnostics, captured output and execution outcome alone. Two requests
/// handed the same data receive the same reply, whatever other requests ran
/// before, after or in between.
pub proof fn lemma_request_isolation(
    ds1: Seq<Diagnostic>,
    captured1: Seq<char>,
    outcome1: ExecOutcome,
    ds2: Seq<Diagnostic>,
    captured2: Seq<char>,
    outcome2: ExecOutcome,
)
    requires
        ds1 == ds2,
        captured1 == captured2,
        outcome1 == outcome2,
    ensures
        run_reply(ds1, captured1, outcome1) == run_reply(ds2, captured2, outcome2),
        compile_only_reply(ds1) == compile_only_reply(ds2),
{
}

/// A fatal diagnostic blocks execution: the reply then holds only the
/// rendered diagnostics, whatever captured output or outcome any execution
/// could have produced.
pub proof fn lemma_fatal_blocks_execution(
    ds: Seq<Diagnostic>,
    captured: Seq<char>,
    outcome: ExecOutcome,
)
    requires
        any_fatal(ds),
    ensures
        run_reply(ds, captured, outcome) == bounded_reply(log_block(rendered_all(ds))),
{
}

/// Compile-only is idempotent: an unchanged baseline and an identical
/// snippet yield identical diagnostics, and identical diagnostics yield the
/// identical reply, on the first call and on every later one.
pub proof fn lemma_compile_only_idempotent(ds1: Seq<Diagnostic>, ds2: Seq<Diagnostic>)
    requires
        ds1 == ds2,
    ensures
        compile_only_reply(ds1) == compile_only_reply(ds2),
{
}

} // verus!
