//! The module tree and the slot that holds it during pipeline processing.

use vstd::prelude::*;

verus! {

/// A module's parsed representation. The rewrite a visitor performs on the
/// items is outside this crate's scope; the crate only moves whole trees
/// around.
#[derive(Debug, Clone, PartialEq, Eq)]
pub struct Program {
    /// The parsed items of the module.
    pub items: Vec<u64>,
}

/// The mutable location holding a module's current tree during pipeline
/// processing.
///
/// A transform call takes the tree out and leaves [`ProgramSlot::Placeholder`]
/// (standing for the cheap dummy module of the swap protocol) so that the
/// slot is never invalid, even transiently; on success it writes the
/// rewritten tree back. The placeholder is not valid rewritten output: a
/// slot still holding it after a call means the rewrite did not complete.
#[derive(Debug, Clone, PartialEq, Eq)]
pub enum ProgramSlot {
    /// The slot holds a module tree.
    Populated(Program),
    /// The slot holds the dummy stand-in left by an in-flight transform
    /// call.
    Placeholder,
}

impl ProgramSlot {
    /// Moves the tree out of the slot, leaving the placeholder behind, so
    /// the slot stays in a defined state for the whole swap protocol.
    pub fn take(&mut self) -> (p: Program)
        requires
            *old(self) is Populated,
        ensures
            ProgramSlot::Populated(p) == *old(self),
            *final(self) is Placeholder,
    {
        let mut taken = ProgramSlot::Placeholder;
        core::mem::swap(self, &mut taken);
        match taken {
            ProgramSlot::Populated(p) => p,
            ProgramSlot::Placeholder => vstd::pervasive::unreached(),
        }
    }
}

} // verus!
