//! Drives the draw.io Desktop application to export diagram files.
//!
//! The library turns one export job's configuration into the exact ordered
//! command-line token sequence the desktop application expects, validates the
//! application handle, and classifies a finished subprocess run as success or
//! failure from its exit status and captured output. Launching the subprocess
//! itself is left to the surrounding program.

pub mod arguments;
pub mod desktop;
pub mod outcome;

pub use arguments::ExportArguments;
pub use arguments::ExportArgumentsView;
pub use desktop::DrawioDesktop;
pub use desktop::os_default_application;
pub use outcome::ExportError;
