use reds_playground::diagnostics::{has_fatal_diagnostic, render_all_diagnostics, Diagnostic, Severity};
use reds_playground::extract::extract_message_code;
use reds_playground::pipeline::{after_compile, after_execution, Step};
use reds_playground::report::{
    bound_reply, compile_report, compile_success_reply, could_not_compile_reply,
    could_not_execute_reply, entry_point_missing, execution_report, render_log_block, ExecOutcome,
    MAX_REPLY_LEN,
};
use reds_playground::source::{entry_point_name, prepare_source, RequestMode, SourceUnit};

fn fatal(rendered: &str) -> Diagnostic {
    Diagnostic { severity: Severity::Fatal, rendered: rendered.to_string() }
}

fn advisory(rendered: &str) -> Diagnostic {
    Diagnostic { severity: Severity::Advisory, rendered: rendered.to_string() }
}

fn reply_of(step: Step) -> String {
    match step {
        Step::Reply(m) => m,
        Step::Execute => panic!("expected a reply, got an order to execute"),
    }
}

#[test]
fn scenario_eval_one_plus_one() {
    let body = extract_message_code("~eval ``1 + 1``", "eval");
    let unit: SourceUnit = prepare_source(&RequestMode::Eval, body);
    assert_eq!(unit.name, "code.reds");
    assert_eq!(unit.text, "func Main() -> Variant {\n    return 1 + 1;\n}\n");

    let diags: Vec<Diagnostic> = Vec::new();
    let step = after_compile(&RequestMode::Eval, &diags);
    assert!(matches!(step, Step::Execute));

    let reply = after_execution("", &ExecOutcome::Returned("2".to_string()));
    assert_eq!(reply, "```log\n\n2```");
    assert!(reply.contains('2'));
}

#[test]
fn scenario_run_logs_hello() {
    let body = extract_message_code("~run ``func Main() { FTLog(\"Hello\"); }``", "run");
    let unit = prepare_source(&RequestMode::Run, body);
    assert_eq!(unit.text, "func Main() { FTLog(\"Hello\"); }");

    let diags: Vec<Diagnostic> = Vec::new();
    let step = after_compile(&RequestMode::Run, &diags);
    assert!(matches!(step, Step::Execute));

    let reply = after_execution("Hello\n", &ExecOutcome::Finished);
    assert_eq!(reply, "```log\nHello\n```");
    assert!(reply.lines().any(|line| line == "Hello"));
}

#[test]
fn scenario_run_with_type_error() {
    let diags = vec![fatal("[ERROR] code.reds:1:22: type mismatch\n")];
    let step = after_compile(&RequestMode::Run, &diags);
    let reply = reply_of(step);
    assert_eq!(reply, "```log\n[ERROR] code.reds:1:22: type mismatch\n```");
}

#[test]
fn scenario_runtime_fault_and_next_request_unaffected() {
    let diags: Vec<Diagnostic> = Vec::new();
    assert!(matches!(after_compile(&RequestMode::Run, &diags), Step::Execute));
    let reply = after_execution("", &ExecOutcome::Faulted("division by zero".to_string()));
    assert_eq!(reply, "```log\nRuntime error: division by zero\n```");
    assert!(reply.lines().any(|line| line == "Runtime error: division by zero"));

    let next = after_execution("", &ExecOutcome::Returned("2".to_string()));
    assert_eq!(next, "```log\n\n2```");
}

#[test]
fn isolation_same_request_data_same_reply() {
    let make_diags = || vec![advisory("w1\n")];
    let first = reply_of(after_compile(&RequestMode::CompileOnly, &make_diags()));

    let other = reply_of(after_compile(&RequestMode::Run, &vec![fatal("boom\n")]));
    assert_ne!(other, first);

    let again = reply_of(after_compile(&RequestMode::CompileOnly, &make_diags()));
    assert_eq!(first, again);
}

#[test]
fn fatal_diagnostic_never_orders_execution() {
    let diags = vec![advisory("style\n"), fatal("unresolved reference\n")];
    for mode in [RequestMode::Eval, RequestMode::Run, RequestMode::CompileOnly] {
        let step = after_compile(&mode, &diags);
        assert!(matches!(step, Step::Reply(_)));
    }
    let reply = reply_of(after_compile(&RequestMode::Run, &diags));
    assert_eq!(reply, "```log\nstyle\nunresolved reference\n```");
}

#[test]
fn compile_only_is_idempotent() {
    let diags = vec![fatal("syntax error at 1:1\n")];
    let first = reply_of(after_compile(&RequestMode::CompileOnly, &diags));
    let second = reply_of(after_compile(&RequestMode::CompileOnly, &diags));
    assert_eq!(first, second);
    assert_eq!(first, "```log\nsyntax error at 1:1\n```");
}

#[test]
fn compile_only_success_acknowledgment() {
    let diags = vec![advisory("unused variable\n")];
    let reply = reply_of(after_compile(&RequestMode::CompileOnly, &diags));
    assert_eq!(reply, "Code compiles successfully");
    assert_eq!(compile_success_reply(), "Code compiles successfully");
}

#[test]
fn oversized_report_becomes_placeholder() {
    let long = "x".repeat(MAX_REPLY_LEN + 500);
    assert_eq!(bound_reply(long), "Output too large");
}

#[test]
fn report_at_exact_limit_becomes_placeholder() {
    let edge = "y".repeat(MAX_REPLY_LEN);
    assert_eq!(bound_reply(edge), "Output too large");
}

#[test]
fn report_below_limit_passes_whole() {
    let fits = "z".repeat(MAX_REPLY_LEN - 1);
    assert_eq!(bound_reply(fits.clone()), fits);
}

#[test]
fn oversized_execution_reply_is_never_a_fragment() {
    let captured = "line\n".repeat(600);
    let reply = after_execution(&captured, &ExecOutcome::Finished);
    assert_eq!(reply, "Output too large");
}

#[test]
fn compile_report_classification() {
    let none: Vec<Diagnostic> = Vec::new();
    assert!(compile_report(&none).is_none());

    let advisories = vec![advisory("w1\n"), advisory("w2\n")];
    assert!(compile_report(&advisories).is_none());
    assert!(!has_fatal_diagnostic(&advisories));

    let mixed = vec![advisory("w1\n"), fatal("e1\n"), advisory("w2\n")];
    assert!(has_fatal_diagnostic(&mixed));
    assert_eq!(compile_report(&mixed).unwrap(), "```log\nw1\ne1\nw2\n```");
    assert_eq!(render_all_diagnostics(&mixed), "w1\ne1\nw2\n");
}

#[test]
fn execution_report_forms() {
    assert_eq!(
        execution_report("out\n", &ExecOutcome::Returned("42".to_string())),
        "```log\nout\n\n42```"
    );
    assert_eq!(execution_report("out\n", &ExecOutcome::Finished), "```log\nout\n```");
    assert_eq!(
        execution_report("out\n", &ExecOutcome::Faulted("oops".to_string())),
        "```log\nout\nRuntime error: oops\n```"
    );
    assert_eq!(render_log_block("body"), "```log\nbody```");
}

#[test]
fn fixed_replies_and_names() {
    assert_eq!(entry_point_name(), "Main;");
    assert_eq!(entry_point_missing(), "parameterless Main function not found");
    assert_eq!(
        could_not_execute_reply("parameterless Main function not found"),
        "Could not execute the code: parameterless Main function not found"
    );
    assert_eq!(
        could_not_compile_reply("io failure"),
        "Could not compile the code: io failure"
    );
}
