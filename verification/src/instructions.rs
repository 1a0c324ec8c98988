//! The intermediate representation of generated (de)serialization code: one
//! primitive instruction per step, and a block of instructions per
//! (encoding, direction) pair. Blocks are compared structurally, so any
//! semantic difference between the two encodings for a field must show up as
//! a different instruction, never as an incidental formatting difference.

use vstd::prelude::*;
use crate::schema::Direction;

verus! {

/// One primitive emit/consume step for a single field, or a framing step.
/// A field is referred to by its position in the struct's field list; the
/// renderer looks names and types up in the schema.
#[derive(Clone, Copy, PartialEq, Eq, Structural, Debug)]
pub enum Instruction {
    /// Fixed-layout read or write of the field's own type. The same
    /// instruction serves both encodings: when the type's layout differs
    /// between them, the difference is resolved inside the type's own
    /// encoding rules at run time, not here.
    Direct { direction: Direction, field: usize },
    /// Tag-prefixed read or write of a tagged field, under Slice2's
    /// tag-header layout.
    TagFramed { direction: Direction, field: usize, tag: u32 },
    /// Delegate to a nested user-defined type's own decode constructor or
    /// encode method.
    NestedDelegate { direction: Direction, field: usize },
    /// Decode framing: skip any tagged values that remain on the wire.
    SkipTaggedFields,
    /// Encode framing: write the end-of-tags marker.
    TagEndMarker,
}

impl Instruction {
    /// True for the per-field instructions, false for the two framing steps
    /// that only the caller of the merger ever appends.
    pub open spec fn is_field_instruction(self) -> bool {
        match self {
            Instruction::Direct { .. } => true,
            Instruction::TagFramed { .. } => true,
            Instruction::NestedDelegate { .. } => true,
            Instruction::SkipTaggedFields => false,
            Instruction::TagEndMarker => false,
        }
    }
}

/// The number of times `target` occurs in a block's instruction sequence.
pub open spec fn count_occurrences(block: Seq<Instruction>, target: Instruction) -> nat
    decreases block.len(),
{
    if block.len() == 0 {
        0
    } else {
        count_occurrences(block.drop_last(), target) + if block.last() == target {
            1nat
        } else {
            0nat
        }
    }
}

/// An ordered block of emitted instructions for exactly one
/// (encoding, direction) pair. Created and consumed within a single
/// generation call.
#[derive(Clone, Debug, PartialEq, Eq)]
pub struct EncodingBlock {
    pub instructions: Vec<Instruction>,
}

impl View for EncodingBlock {
    type V = Seq<Instruction>;

    open spec fn view(&self) -> Seq<Instruction> {
        self.instructions@
    }
}

impl EncodingBlock {
    pub fn len(&self) -> (r: usize)
        ensures
            r == self@.len(),
    {
        self.instructions.len()
    }

    pub fn is_empty(&self) -> (r: bool)
        ensures
            r == (self@.len() == 0),
    {
        self.instructions.len() == 0
    }

    /// Structural equality of two blocks: the merge decision's notion of
    /// "the two encodings require identical code".
    pub fn same_as(&self, other: &EncodingBlock) -> (r: bool)
        ensures
            r == (self@ == other@),
    {
        if self.instructions.len() != other.instructions.len() {
            return false;
        }
        let n = self.instructions.len();
        let mut i: usize = 0;
        while i < n
            invariant
                0 <= i <= n,
                n == self@.len(),
                n == other@.len(),
                forall|j: int| 0 <= j < i ==> self@[j] == other@[j],
            decreases n - i,
        {
            if self.instructions[i] != other.instructions[i] {
                return false;
            }
            i += 1;
        }
        proof {
            assert(self@ =~= other@);
        }
        true
    }
}

} // verus!
