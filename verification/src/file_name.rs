//! File identity derivation.

use vstd::prelude::*;

verus! {

/// A module's file identity: either anonymous, or the real path the module
/// was loaded from.
#[derive(Debug, Clone, PartialEq, Eq)]
pub enum FileName {
    /// No usable path was supplied for the module.
    Anon,
    /// The module's real path.
    Real(String),
}

/// What [`file_name_of`] returns: the identity is a pure function of the
/// path string — empty becomes [`FileName::Anon`], anything else becomes
/// [`FileName::Real`] of that very string.
pub open spec fn spec_file_name_of(path: String) -> FileName {
    if path@.len() == 0 {
        FileName::Anon
    } else {
        FileName::Real(path)
    }
}

/// Derives a module's file identity from its path string.
pub fn file_name_of(path: &String) -> (r: FileName)
    ensures
        r == spec_file_name_of(*path),
{
    if path.as_str().is_empty() {
        FileName::Anon
    } else {
        FileName::Real(path.clone())
    }
}

/// Law: file identity derivation is deterministic and referentially
/// transparent — two path strings with the same characters yield the same
/// classification, and for real identities the same path characters.
pub proof fn lemma_file_identity_deterministic(path1: String, path2: String)
    requires
        path1@ == path2@,
    ensures
        spec_file_name_of(path1) is Anon <==> spec_file_name_of(path2) is Anon,
        spec_file_name_of(path1) matches FileName::Real(p) ==> spec_file_name_of(
            path2,
        ) matches FileName::Real(q) && p@ == q@,
{
}

} // verus!
