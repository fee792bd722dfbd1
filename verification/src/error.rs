//! Errors surfaced by the rule builder and the transform unit.

use vstd::prelude::*;

verus! {

/// Errors of this crate. Every error propagates to the invoking
/// pipeline; nothing is retried or swallowed locally.
#[derive(Debug, Clone, Copy, PartialEq, Eq, Structural)]
pub enum TransformError {
    /// The configuration's derived boolean could not be read while a rule
    /// was being built; no partial rule is returned.
    ConfigRead,
    /// The optional root-directory reference could not be resolved during a
    /// transform call; the tree slot is left holding the placeholder.
    DirectoryResolution,
}

} // verus!
