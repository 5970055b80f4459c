//! Core of a "compile and run untrusted script" service.
//!
//! A caller submits a short source snippet; the service compiles it against a
//! shared baseline symbol table, executes the resulting entry point inside an
//! isolated virtual machine, captures emitted output, and returns a bounded,
//! human-readable report. This crate holds the verified per-request pipeline:
//! command-text extraction, source-unit preparation, diagnostic
//! classification, the compile/execute decision, and deterministic,
//! size-bounded report formatting. The concrete compiler front end and the
//! bytecode interpreter are capabilities the host invokes; they hand this
//! library plain values (rendered diagnostics, captured output, an execution
//! outcome) and take plain values back.

use vstd::prelude::*;

pub mod diagnostics;
pub mod extract;
pub mod pipeline;
pub mod report;
pub mod source;

verus! {

} // verus!
