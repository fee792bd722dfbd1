//! The root-directory reference collaborator.

use crate::error::TransformError;
use vstd::prelude::*;

verus! {

/// A reference to a directory in the pipeline's filesystem abstraction.
///
/// Resolution of such a reference to a concrete path is fallible: the
/// referenced descriptor may be invalid or unavailable. A `Valid` reference
/// resolves to the path it carries; an `Invalid` one fails to resolve.
#[derive(Debug, Clone, PartialEq, Eq)]
pub enum FileSystemPathRef {
    /// A reference whose resolution yields this concrete path.
    Valid(String),
    /// A reference whose descriptor cannot be resolved.
    Invalid,
}

impl FileSystemPathRef {
    /// Whether resolving this reference succeeds.
    pub open spec fn spec_resolves(&self) -> bool {
        self is Valid
    }

    /// Resolves the reference to a concrete filesystem path. Fails exactly
    /// on invalid references, with a directory-resolution error.
    pub fn resolve(&self) -> (r: Result<String, TransformError>)
        ensures
            self matches FileSystemPathRef::Valid(p) ==> r == Ok::<String, TransformError>(*p),
            self is Invalid ==> r == Err::<String, TransformError>(
                TransformError::DirectoryResolution,
            ),
    {
        match self {
            FileSystemPathRef::Valid(p) => Ok(p.clone()),
            FileSystemPathRef::Invalid => Err(TransformError::DirectoryResolution),
        }
    }
}

} // verus!
