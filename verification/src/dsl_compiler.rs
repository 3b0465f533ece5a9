//! Handle for the entity-definition scanner.  The scanning itself — a
//! keyword pass that extracts a name, a type, floating-point trait values
//! and a content hash from definition text — is a host-side collaborator:
//! the core only ever consumes its flat output record as plain values.

use vstd::prelude::*;

verus! {

/// Stateless compiler handle.
pub struct DslCompiler;

impl DslCompiler {
    /// The compiler carries no state; any handle behaves the same.
    pub fn new() -> DslCompiler {
        DslCompiler
    }
}

} // verus!
