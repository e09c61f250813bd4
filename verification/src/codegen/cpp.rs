//! The C++ code generator of the framework.
use vstd::prelude::*;

verus! {

/// C++ code generator.
#[derive(Debug)]
pub struct CppGenerator;

impl CppGenerator {
    /// Create a new C++ code generator.
    pub fn new() -> (g: Self) {
        CppGenerator
    }
}

impl Default for CppGenerator {
    /// The same as `new`.
    fn default() -> (g: Self) {
        CppGenerator::new()
    }
}

} // verus!
