//! The Java code generator of the framework.
use vstd::prelude::*;

verus! {

/// Java code generator.
#[derive(Debug)]
pub struct JavaGenerator;

impl JavaGenerator {
    /// Create a new Java code generator.
    pub fn new() -> (g: Self) {
        JavaGenerator
    }
}

impl Default for JavaGenerator {
    /// The same as `new`.
    fn default() -> (g: Self) {
        JavaGenerator::new()
    }
}

} // verus!
