//! Compiler diagnostics as the pipeline sees them.
//!
//! The compiler front end reports each issue with a classification and a
//! rendering against the submitted source text. The pipeline reads exactly
//! two things from a diagnostic: whether it is fatal (and so must block
//! execution) and its rendered text; this module models a diagnostic as just
//! that pair.

use vstd::prelude::*;

verus! {

/// Whether a reported issue makes the compiled result unsafe or incomplete to
/// execute (a type error, an unresolved reference, a syntax error), or is
/// only advisory (a style warning).
#[derive(Clone, Copy, PartialEq, Eq, Structural, Debug)]
pub enum Severity {
    Fatal,
    Advisory,
}

/// One compiler-reported issue: its classification and its human-readable
/// rendering, location included.
#[derive(Clone, Debug)]
pub struct Diagnostic {
    pub severity: Severity,
    pub rendered: String,
}

impl Diagnostic {
    /// A fatal diagnostic must block execution.
    pub open spec fn is_fatal(&self) -> bool {
        self.severity is Fatal
    }
}

/// Whether any diagnostic in the batch is fatal.
pub open spec fn any_fatal(ds: Seq<Diagnostic>) -> bool {
    exists|i: int| 0 <= i < ds.len() && ds[i].is_fatal()
}

/// The renderings of a batch of diagnostics, concatenated in order.
pub open spec fn rendered_all(ds: Seq<Diagnostic>) -> Seq<char>
    decreases ds.len(),
{
    if ds.len() == 0 {
        Seq::empty()
    } else {
        rendered_all(ds.drop_last()) + ds.last().rendered@
    }
}

/// Reports whether the batch holds at least one fatal diagnostic.
pub fn has_fatal_diagnostic(ds: &Vec<Diagnostic>) -> (r: bool)
    ensures
        r == any_fatal(ds@),
{
    let mut i: usize = 0;
    while i < ds.len()
        invariant
            i <= ds@.len(),
            forall|j: int| 0 <= j < i ==> !ds@[j].is_fatal(),
        decreases ds@.len() - i,
    {
        match ds[i].severity {
            Severity::Fatal => {
                return true;
            },
            Severity::Advisory => {},
        }
        i += 1;
    }
    false
}

/// Concatenates the renderings of all diagnostics in order.
pub fn render_all_diagnostics(ds: &Vec<Diagnostic>) -> (r: String)
    ensures
        r@ == rendered_all(ds@),
{
    let mut out = String::new();
    let mut i: usize = 0;
    while i < ds.len()
        invariant
            i <= ds@.len(),
            out@ == rendered_all(ds@.take(i as int)),
        decreases ds@.len() - i,
    {
        out.append(ds[i].rendered.as_str());
        proof {
            let pre = ds@.take(i as int);
            let post = ds@.take(i + 1 as int);
            assert(post.drop_last() =~= pre);
            assert(post.last() == ds@[i as int]);
        }
        i += 1;
    }
    proof {
        assert(ds@.take(ds@.len() as int) =~= ds@);
    }
    out
}

} // verus!
