//! The early-termination policy of the streamer. A broken pipe means the
//! downstream consumer closed its read end: a normal early stop, not an
//! error. Any other write failure halts emission with a diagnostic.

use vstd::prelude::*;

verus! {

/// How one attempted row write ended, as the caller observed it.
#[derive(Debug, Clone, Copy, PartialEq, Eq, Structural)]
pub enum WriteOutcome {
    /// The row reached the sink.
    Written,
    /// The consumer closed its read end of the sink.
    BrokenPipe,
    /// The sink failed for any other reason.
    OtherFailure,
}

/// What the streamer does after one write.
#[derive(Debug, Clone, Copy, PartialEq, Eq, Structural)]
pub enum EmitAction {
    /// Emit the next row.
    Continue,
    /// Stop emitting, report nothing: the early stop is not an error.
    Stop,
    /// Stop emitting and surface a diagnostic on the error stream.
    StopWithDiagnostic,
}

/// Decides how emission goes on after a write: only a successful write
/// continues, a broken pipe stops quietly, anything else stops with a
/// diagnostic.
pub fn emit_action(outcome: WriteOutcome) -> (r: EmitAction)
    ensures
        r == EmitAction::Continue <==> outcome == WriteOutcome::Written,
        r == EmitAction::Stop <==> outcome == WriteOutcome::BrokenPipe,
        r == EmitAction::StopWithDiagnostic <==> outcome == WriteOutcome::OtherFailure,
{
    match outcome {
        WriteOutcome::Written => EmitAction::Continue,
        WriteOutcome::BrokenPipe => EmitAction::Stop,
        WriteOutcome::OtherFailure => EmitAction::StopWithDiagnostic,
    }
}

} // verus!
