//! The per-invocation transform context supplied by the pipeline.

use vstd::prelude::*;

verus! {

/// A handle to the shared comment table of the module being rewritten.
///
/// The table's contents and its concurrency discipline belong to the
/// surrounding pipeline; this crate only threads the handle through to the
/// visitor factory unchanged.
#[derive(Debug, Clone, Copy, PartialEq, Eq, Structural)]
pub struct Comments {
    /// Identifies the table instance the handle refers to.
    pub id: u64,
}

/// Context for one module-rewrite call. One value per call; the transform
/// unit does not retain it.
#[derive(Debug, Clone, PartialEq, Eq)]
pub struct TransformContext {
    /// The module's path string; possibly empty, in which case the module
    /// is anonymous.
    pub file_path_str: String,
    /// Shared read/write handle to the module's comment table.
    pub comments: Comments,
}

} // verus!
