//! Error taxonomy of the render core.
//!
//! Session construction failure is fatal to the whole process; every other
//! failure is local to the render call that observed it.

use vstd::prelude::*;

verus! {

/// A failure of a render call or of the shared environment session.
#[derive(Clone, Debug)]
pub enum RenderError {
    /// The shared execution environment never became ready. Fatal to the
    /// process: no shared-environment backend can succeed afterwards.
    SessionConstruction(String),
    /// The external command exited non-zero or could not be started; the
    /// message carries the captured diagnostic output. Local to the call.
    Execution(String),
    /// The backend produced no matching output files, or a produced page is
    /// not PNG-encoded. Local to the call.
    OutputContract(String),
    /// An in-process adapter rejected the document or computed a zero-size
    /// page. Local to the call.
    NativeAdapter(String),
}

/// The diagnostic text carried by an error value.
pub open spec fn spec_message(e: RenderError) -> Seq<char> {
    match e {
        RenderError::SessionConstruction(m) => m@,
        RenderError::Execution(m) => m@,
        RenderError::OutputContract(m) => m@,
        RenderError::NativeAdapter(m) => m@,
    }
}

impl RenderError {
    /// The diagnostic text carried by this error.
    pub fn message(&self) -> (r: String)
        ensures
            r@ == spec_message(*self),
    {
        match self {
            RenderError::SessionConstruction(m) => m.clone(),
            RenderError::Execution(m) => m.clone(),
            RenderError::OutputContract(m) => m.clone(),
            RenderError::NativeAdapter(m) => m.clone(),
        }
    }

    /// Whether this failure is fatal to the whole process rather than local
    /// to one render call.
    pub fn is_fatal(&self) -> (r: bool)
        ensures
            r == matches!(*self, RenderError::SessionConstruction(_)),
    {
        matches!(self, RenderError::SessionConstruction(_))
    }
}

} // verus!
