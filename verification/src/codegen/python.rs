//! The Python code generator of the framework.
use vstd::prelude::*;

verus! {

/// Python code generator.
#[derive(Debug)]
pub struct PythonGenerator;

impl PythonGenerator {
    /// Create a new Python code generator.
    pub fn new() -> (g: Self) {
        PythonGenerator
    }
}

impl Default for PythonGenerator {
    /// The same as `new`.
    fn default() -> (g: Self) {
        PythonGenerator::new()
    }
}

} // verus!
