//! XMI output.
use vstd::prelude::*;

verus! {

/// Writes UML model data to an XMI file.
#[derive(Debug)]
pub struct XmiWriter;

impl XmiWriter {
    /// Create a new XMI writer.
    pub fn new() -> (w: Self) {
        XmiWriter
    }
}

impl Default for XmiWriter {
    /// The same as `new`.
    fn default() -> (w: Self) {
        XmiWriter::new()
    }
}

} // verus!
