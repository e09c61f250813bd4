//! The Rust code generator of the framework.
use vstd::prelude::*;

verus! {

/// Rust code generator.
#[derive(Debug)]
pub struct RustGenerator;

impl RustGenerator {
    /// Create a new Rust code generator.
    pub fn new() -> (g: Self) {
        RustGenerator
    }
}

impl Default for RustGenerator {
    /// The same as `new`.
    fn default() -> (g: Self) {
        RustGenerator::new()
    }
}

} // verus!
