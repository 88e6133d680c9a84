//! Core of a cross-engine PDF rendering comparison harness.
//!
//! The same PDF document is rendered through several independent engines
//! ("backends") so that their PNG output can be compared page by page. This
//! crate holds the verified core: the backend registry, the output collector
//! that orders and validates each backend's page files, the decision logic of
//! the shared execution environment, and the page-geometry arithmetic of the
//! native adapters. The surrounding process and file plumbing lives outside
//! the library and hands plain values in and out.

pub mod backend;
pub mod collector;
pub mod decimal;
pub mod error;
pub mod geometry;
pub mod legacy;
pub mod options;
pub mod page_range;
pub mod pattern;
pub mod png;
pub mod session;

pub use backend::Backend;
pub use backend::ExecutionMode;
pub use error::RenderError;
pub use options::RenderOptions;
pub use pattern::NamePattern;
pub use page_range::PageRangeError;
pub use page_range::parse_page_range;
pub use collector::collect_plan;
pub use png::page_is_png;
pub use png::validate_document;
pub use png::finalize_document;
pub use geometry::rotated_extent;
pub use geometry::scaled_pixels;
pub use geometry::page_pixel_size;
pub use session::ReadinessProbe;
pub use session::ProbeVerdict;
pub use session::trim_ascii_whitespace;
pub use session::default_environment_image;
pub use session::resolve_environment_image;
pub use session::mount_arg;
pub use session::bootstrap_args;
pub use session::input_file_name;
pub use session::fresh_workspace_name;
pub use session::container_workspace_path;
pub use session::exec_args;
pub use session::exec_outcome;
pub use legacy::pdfium_cli_args;
pub use legacy::mupdf_cli_args;
pub use legacy::xpdf_cli_args;
pub use legacy::quartz_cli_args;
pub use legacy::pdfjs_cli_args;
pub use legacy::pdfbox_cli_args;
