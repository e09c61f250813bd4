//! The registry of code generators.
use crate::codegen::ProgrammingLanguage;
use std::collections::HashMap;
use vstd::prelude::*;

verus! {

/// Registry mapping programming languages to their code generators.
///
/// Generators are registered at startup and looked up by language when code
/// generation is requested; no generator is registered yet.
#[derive(Debug)]
pub struct GeneratorRegistry {
    generators: HashMap<ProgrammingLanguage, ()>,
}

impl GeneratorRegistry {
    /// The languages that have a registered generator.
    pub closed spec fn languages(self) -> Set<ProgrammingLanguage> {
        self.generators@.dom()
    }

    /// Create a new, empty registry.
    pub fn new() -> (r: Self)
        ensures
            r.languages() == Set::<ProgrammingLanguage>::empty(),
    {
        GeneratorRegistry { generators: HashMap::new() }
    }
}

impl Default for GeneratorRegistry {
    /// An empty registry.
    fn default() -> (r: Self)
        ensures
            r.languages() == Set::<ProgrammingLanguage>::empty(),
    {
        GeneratorRegistry::new()
    }
}

} // verus!
