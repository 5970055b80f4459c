//! Source units: the submitted snippet prepared for compilation.
//!
//! A request arrives in one of three modes. In evaluation mode the snippet
//! is a bare expression, spliced as the return expression of a synthetic
//! zero-argument entry-point function; in the other modes the snippet is
//! compiled verbatim and must itself define the entry point. Either way the
//! text is registered under a fixed virtual file name, which diagnostics
//! render against.

use vstd::prelude::*;

verus! {

/// The three kinds of request the service answers.
#[derive(Clone, Copy, PartialEq, Eq, Structural, Debug)]
pub enum RequestMode {
    /// Evaluate a bare expression and display its value.
    Eval,
    /// Compile the program and run its entry point.
    Run,
    /// Compile the program only; never execute.
    CompileOnly,
}

/// A snippet prepared for compilation: the text to compile and the virtual
/// file name its diagnostics render against.
#[derive(Clone, Debug)]
pub struct SourceUnit {
    pub name: String,
    pub text: String,
}

/// A bare expression spliced as the return expression of a synthetic
/// zero-argument entry-point function.
pub open spec fn eval_wrapper(body: Seq<char>) -> Seq<char> {
    "func Main() -> Variant {\n    return "@ + body + ";\n}\n"@
}

/// The source text a mode compiles: the synthetic wrapper around a bare
/// expression in evaluation mode, the snippet verbatim otherwise.
pub open spec fn source_text(mode: RequestMode, body: Seq<char>) -> Seq<char> {
    if mode is Eval {
        eval_wrapper(body)
    } else {
        body
    }
}

/// Prepares the submitted snippet for compilation under the fixed virtual
/// file name.
pub fn prepare_source(mode: &RequestMode, body: &str) -> (s: SourceUnit)
    ensures
        s.name@ == "code.reds"@,
        s.text@ == source_text(*mode, body@),
{
    let text = match mode {
        RequestMode::Eval => {
            let mut t = String::from_str("func Main() -> Variant {\n    return ");
            t.append(body);
            t.append(";\n}\n");
            t
        },
        _ => String::from_str(body),
    };
    SourceUnit { name: String::from_str("code.reds"), text }
}

/// The fixed name under which the entry point is looked up after
/// compilation: a parameterless function named `Main`.
pub fn entry_point_name() -> (r: String)
    ensures
        r@ == "Main;"@,
{
    String::from_str("Main;")
}

} // verus!
