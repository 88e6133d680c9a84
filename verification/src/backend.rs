//! Registry of the supported rendering backends.
//!
//! Each backend carries a stable lowercase name (also used as the command
//! selector inside the shared execution environment), an identifying color
//! for visual diffing, and an execution mode that says whether it renders
//! in-process or through the shared environment.

use vstd::prelude::*;

verus! {

/// How a backend executes: entirely inside the calling process, or through
/// the single long-lived shared execution environment.
#[derive(Clone, Copy, PartialEq, Eq, Structural, Debug)]
pub enum ExecutionMode {
    /// Renders in-process, with no external environment involved.
    Native,
    /// Renders by running a command inside the shared environment.
    SharedEnvironment,
}

/// A PDF rendering backend.
///
/// The set of backends is fixed at build time; adding one means extending
/// this enumeration and the three mappings below.
#[derive(Clone, Copy, PartialEq, Eq, Structural, Debug)]
#[non_exhaustive]
pub enum Backend {
    /// The pdfium backend.
    Pdfium,
    /// The mupdf backend.
    Mupdf,
    /// The poppler backend.
    Poppler,
    /// The quartz backend (platform graphics framework, runs natively).
    Quartz,
    /// The pdf.js backend.
    Pdfjs,
    /// The pdfbox backend.
    Pdfbox,
    /// The ghostscript backend.
    Ghostscript,
    /// The hayro backend (runs natively).
    Hayro,
    /// The serenity backend.
    Serenity,
}

/// The stable identifier of each backend.
pub open spec fn spec_name(b: Backend) -> Seq<char> {
    match b {
        Backend::Pdfium => "pdfium"@,
        Backend::Mupdf => "mupdf"@,
        Backend::Poppler => "poppler"@,
        Backend::Quartz => "quartz"@,
        Backend::Pdfjs => "pdfjs"@,
        Backend::Pdfbox => "pdfbox"@,
        Backend::Ghostscript => "ghostscript"@,
        Backend::Hayro => "hayro"@,
        Backend::Serenity => "serenity"@,
    }
}

/// The identifying color of each backend, as (red, green, blue).
pub open spec fn spec_color(b: Backend) -> (u8, u8, u8) {
    match b {
        Backend::Pdfium => (79u8, 184u8, 35u8),
        Backend::Mupdf => (34u8, 186u8, 184u8),
        Backend::Poppler => (227u8, 137u8, 20u8),
        Backend::Quartz => (234u8, 250u8, 60u8),
        Backend::Pdfjs => (48u8, 17u8, 207u8),
        Backend::Pdfbox => (237u8, 38u8, 98u8),
        Backend::Ghostscript => (235u8, 38u8, 218u8),
        Backend::Hayro => (57u8, 212u8, 116u8),
        Backend::Serenity => (148u8, 87u8, 235u8),
    }
}

/// The execution mode of each backend: quartz and hayro render in-process,
/// every other backend runs inside the shared environment.
pub open spec fn spec_execution_mode(b: Backend) -> ExecutionMode {
    match b {
        Backend::Quartz => ExecutionMode::Native,
        Backend::Hayro => ExecutionMode::Native,
        _ => ExecutionMode::SharedEnvironment,
    }
}

impl Backend {
    /// Get the name of the backend.
    pub fn name(&self) -> (r: String)
        ensures
            r@ == spec_name(*self),
    {
        match self {
            Backend::Pdfium => "pdfium".to_owned(),
            Backend::Mupdf => "mupdf".to_owned(),
            Backend::Poppler => "poppler".to_owned(),
            Backend::Quartz => "quartz".to_owned(),
            Backend::Pdfjs => "pdfjs".to_owned(),
            Backend::Pdfbox => "pdfbox".to_owned(),
            Backend::Ghostscript => "ghostscript".to_owned(),
            Backend::Hayro => "hayro".to_owned(),
            Backend::Serenity => "serenity".to_owned(),
        }
    }

    /// Get the identifying color of the backend, used when composing
    /// side-by-side comparison images.
    pub fn color(&self) -> (r: (u8, u8, u8))
        ensures
            r == spec_color(*self),
    {
        match self {
            Backend::Pdfium => (79, 184, 35),
            Backend::Mupdf => (34, 186, 184),
            Backend::Poppler => (227, 137, 20),
            Backend::Quartz => (234, 250, 60),
            Backend::Pdfjs => (48, 17, 207),
            Backend::Pdfbox => (237, 38, 98),
            Backend::Ghostscript => (235, 38, 218),
            Backend::Hayro => (57, 212, 116),
            Backend::Serenity => (148, 87, 235),
        }
    }

    /// Get the execution mode of the backend: the render dispatcher routes a
    /// request either to an in-process adapter or to the shared environment.
    pub fn execution_mode(&self) -> (r: ExecutionMode)
        ensures
            r == spec_execution_mode(*self),
    {
        match self {
            Backend::Quartz => ExecutionMode::Native,
            Backend::Hayro => ExecutionMode::Native,
            _ => ExecutionMode::SharedEnvironment,
        }
    }
}

} // verus!
