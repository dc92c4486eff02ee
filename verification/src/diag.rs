//! Diagnostics and the uniform shape of one compilation stage's outcome.

use vstd::prelude::*;

verus! {

/// One unit of the compilation pipeline, in the order the driver runs them.
#[derive(Clone, Copy, PartialEq, Eq, Structural, Debug)]
pub enum Stage {
    Preprocess,
    Parse,
    Check,
    Generate,
}

/// How grave a diagnostic is. Errors poison a run; warnings are reported
/// alongside them in the same list.
#[derive(Clone, Copy, PartialEq, Eq, Structural, Debug)]
pub enum Severity {
    Error,
    Warning,
}

/// A structured message one stage emitted: the stage it came from, its
/// severity, its text, and an optional byte offset into the source.
#[derive(Clone, Debug)]
pub struct Diagnostic {
    pub stage: Stage,
    pub severity: Severity,
    pub message: String,
    pub offset: Option<u64>,
}

/// The shape of one stage's outcome. The stage's own output (tokens, a tree,
/// module bytes) stays with whoever ran the stage: the driver decides on the
/// shape alone, identically for every stage.
///
/// `Success` carries no diagnostics; `Recoverable` means the stage produced
/// best-effort output that later stages may still consume; `Fatal` means no
/// output exists and the run cannot go on.
#[derive(Debug)]
pub enum StageReport {
    Success,
    Recoverable(Vec<Diagnostic>),
    Fatal(Vec<Diagnostic>),
}

/// The diagnostics one report carries, in the order the stage emitted them.
pub open spec fn report_diags(r: StageReport) -> Seq<Diagnostic> {
    match r {
        StageReport::Success => Seq::empty(),
        StageReport::Recoverable(d) => d@,
        StageReport::Fatal(d) => d@,
    }
}

/// Whether a report ends the run at once: the stage left nothing behind that
/// a later stage could consume.
pub open spec fn report_fatal(r: StageReport) -> bool {
    r is Fatal
}

} // verus!
