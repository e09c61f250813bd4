//! Diagram export formats and errors.
use vstd::prelude::*;

verus! {

/// Supported export formats.
#[derive(Debug, Clone, Copy, PartialEq, Eq, Structural)]
pub enum ExportFormat {
    /// Scalable Vector Graphics.
    Svg,
    /// Portable Network Graphics, with its resolution in DPI.
    Png(u32),
    /// Portable Document Format.
    Pdf,
}

/// Error during export.
#[derive(Debug)]
pub enum ExportError {
    /// I/O error writing the output file.
    Io(std::io::Error),
    /// Unsupported format requested.
    UnsupportedFormat,
}

} // verus!
