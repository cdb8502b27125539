use vstd::prelude::*;

verus! {

/// The player's single character: always on exactly one field of the
/// board arena.
#[derive(Debug, PartialEq, Eq, Structural, Hash, Clone, Copy)]
pub struct CharacterEntity {
    /// Index of the occupied field in the board arena.
    pub location: usize,
}

} // verus!
