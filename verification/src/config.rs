//! The slice of the pipeline configuration that the rule builder reads.

use crate::error::TransformError;
use vstd::prelude::*;

verus! {

/// Configuration handle exposing the one derived boolean this crate
/// consumes: whether the alternate markup-extension mode is enabled.
///
/// The derived value lives in a fallible cell: `None` models a cell whose
/// value cannot be read, in which case the read surfaces an error to the
/// caller.
#[derive(Debug, Clone, PartialEq, Eq, Structural)]
pub struct NextConfig {
    /// The markup-extension mode flag, or `None` when the cell is
    /// unreadable.
    pub mdx_rs: Option<bool>,
}

impl NextConfig {
    /// Reads the derived markup-extension mode boolean. The read fails
    /// exactly when the cell is unreadable, with no recovery here.
    pub fn mdx_rs(&self) -> (r: Result<bool, TransformError>)
        ensures
            self.mdx_rs is Some ==> r == Ok::<bool, TransformError>(self.mdx_rs->0),
            self.mdx_rs is None ==> r == Err::<bool, TransformError>(TransformError::ConfigRead),
    {
        match self.mdx_rs {
            Some(v) => Ok(v),
            None => Err(TransformError::ConfigRead),
        }
    }
}

} // verus!
