//! Source-code importers.
use vstd::prelude::*;

verus! {

/// C++ code importer.
#[derive(Debug)]
pub struct CppImporter;

impl CppImporter {
    /// Create a new C++ importer.
    pub fn new() -> (i: Self) {
        CppImporter
    }
}

impl Default for CppImporter {
    /// The same as `new`.
    fn default() -> (i: Self) {
        CppImporter::new()
    }
}

/// Java code importer.
#[derive(Debug)]
pub struct JavaImporter;

impl JavaImporter {
    /// Create a new Java importer.
    pub fn new() -> (i: Self) {
        JavaImporter
    }
}

impl Default for JavaImporter {
    /// The same as `new`.
    fn default() -> (i: Self) {
        JavaImporter::new()
    }
}

/// Python code importer.
#[derive(Debug)]
pub struct PythonImporter;

impl PythonImporter {
    /// Create a new Python importer.
    pub fn new() -> (i: Self) {
        PythonImporter
    }
}

impl Default for PythonImporter {
    /// The same as `new`.
    fn default() -> (i: Self) {
        PythonImporter::new()
    }
}

} // verus!
