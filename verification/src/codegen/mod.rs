//! Code generation framework: the supported languages, the registry of
//! generators, the indentation-aware writer and the built-in generators.
pub mod cpp;
pub mod java;
pub mod python;
pub mod registry;
pub mod rust;
pub mod writer;

use vstd::prelude::*;

verus! {

/// Programming languages supported for code generation.
#[derive(Debug, Clone, Copy, PartialEq, Eq, Structural, Hash)]
pub enum ProgrammingLanguage {
    /// Ada.
    Ada,
    /// ActionScript.
    ActionScript,
    /// C++.
    Cpp,
    /// C#.
    CSharp,
    /// D.
    D,
    /// CORBA IDL.
    Idl,
    /// Java.
    Java,
    /// JavaScript.
    JavaScript,
    /// Pascal.
    Pascal,
    /// Perl.
    Perl,
    /// PHP 4.
    Php4,
    /// PHP 5.
    Php5,
    /// Python.
    Python,
    /// Ruby.
    Ruby,
    /// Rust.
    Rust,
    /// SQL (generic).
    Sql,
    /// MySQL-specific SQL.
    MySql,
    /// PostgreSQL-specific SQL.
    PostgreSql,
    /// Tcl.
    Tcl,
    /// Vala.
    Vala,
    /// XML Schema.
    XmlSchema,
}

} // verus!
