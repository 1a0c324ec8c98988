//! The encoding merger: given the Slice1 and Slice2 blocks of one struct, it
//! decides whether to emit one shared block, one block guarded by
//! "encoding is not Slice1", or a full two-armed branch on the runtime
//! encoding tag — and rejects the one combination that schema construction
//! makes impossible, a non-empty Slice1 block with an empty Slice2 block.

use vstd::prelude::*;
use vstd::pervasive::unreached;
use crate::schema::{Direction, Encoding, Field, SupportedEncodings};
use crate::instructions::{EncodingBlock, Instruction};
use crate::synthesis::{lemma_no_slice1_without_slice2, spec_synthesize, synthesize};

verus! {

/// The merge decision. The generated code dispatches at run time on the
/// encoding tag carried by the live encoder or decoder; the merger's job is
/// to prove statically that the arms are exhaustive and minimal.
#[derive(Clone, Debug, PartialEq, Eq)]
pub enum MergedBlock {
    /// Both encodings (or the only supported encoding) run this block; no
    /// runtime dispatch is emitted.
    Shared(EncodingBlock),
    /// A single guarded arm, "if the runtime encoding is not Slice1", with no
    /// else: Slice1 requires no action at all for this struct.
    GuardedSlice2(EncodingBlock),
    /// A full branch: "if the runtime encoding is Slice1" runs the first
    /// block, else the second.
    Branched { slice1_block: EncodingBlock, slice2_block: EncodingBlock },
}

/// The mathematical shape of a merge decision, over instruction sequences.
pub enum MergedView {
    Shared(Seq<Instruction>),
    GuardedSlice2(Seq<Instruction>),
    Branched { slice1_block: Seq<Instruction>, slice2_block: Seq<Instruction> },
}

impl View for MergedBlock {
    type V = MergedView;

    open spec fn view(&self) -> MergedView {
        match self {
            MergedBlock::Shared(block) => MergedView::Shared(block@),
            MergedBlock::GuardedSlice2(block) => MergedView::GuardedSlice2(block@),
            MergedBlock::Branched { slice1_block, slice2_block } => MergedView::Branched {
                slice1_block: slice1_block@,
                slice2_block: slice2_block@,
            },
        }
    }
}

/// The merger's one failure: an internal-consistency defect in the upstream
/// computation of supported encodings, never a recoverable input error.
#[derive(Clone, Copy, PartialEq, Eq, Structural, Debug)]
pub enum MergeError {
    /// The Slice1 block was non-empty while the Slice2 block was empty, which
    /// schema construction is supposed to make impossible.
    Slice1WithoutSlice2,
}

/// The merge decision, in full. With a single supported encoding that
/// encoding's block is returned unchanged, before any comparison. With both:
/// identical blocks collapse to one shared block; an empty Slice1 block
/// yields the single guarded arm; two non-empty differing blocks yield the
/// full branch; and a non-empty Slice1 block with an empty Slice2 block is
/// the fatal internal-consistency case.
pub open spec fn spec_merge(
    supported: SupportedEncodings,
    slice1_block: Seq<Instruction>,
    slice2_block: Seq<Instruction>,
) -> Result<MergedView, MergeError> {
    match supported {
        SupportedEncodings::Slice1Only => Ok(MergedView::Shared(slice1_block)),
        SupportedEncodings::Slice2Only => Ok(MergedView::Shared(slice2_block)),
        SupportedEncodings::Both => if slice1_block == slice2_block {
            Ok(MergedView::Shared(slice2_block))
        } else if slice1_block.len() == 0 {
            Ok(MergedView::GuardedSlice2(slice2_block))
        } else if slice2_block.len() > 0 {
            Ok(MergedView::Branched { slice1_block, slice2_block })
        } else {
            Err(MergeError::Slice1WithoutSlice2)
        },
    }
}

/// The view of a merge result, for relating the executable merger to
/// `spec_merge`.
pub open spec fn merged_result_view(r: Result<MergedBlock, MergeError>) -> Result<
    MergedView,
    MergeError,
> {
    match r {
        Ok(merged) => Ok(merged@),
        Err(e) => Err(e),
    }
}

/// Executable merger. Its result is exactly `spec_merge` of the two blocks,
/// so every decision — collapse, guard, branch, or the fatal case — is pinned
/// for every input.
pub fn merge(
    supported: SupportedEncodings,
    slice1_block: EncodingBlock,
    slice2_block: EncodingBlock,
) -> (r: Result<MergedBlock, MergeError>)
    ensures
        merged_result_view(r) == spec_merge(supported, slice1_block@, slice2_block@),
{
    match supported {
        SupportedEncodings::Slice1Only => Ok(MergedBlock::Shared(slice1_block)),
        SupportedEncodings::Slice2Only => Ok(MergedBlock::Shared(slice2_block)),
        SupportedEncodings::Both => if slice1_block.same_as(&slice2_block) {
            Ok(MergedBlock::Shared(slice2_block))
        } else if slice1_block.is_empty() {
            Ok(MergedBlock::GuardedSlice2(slice2_block))
        } else if !slice2_block.is_empty() {
            Ok(MergedBlock::Branched { slice1_block, slice2_block })
        } else {
            Err(MergeError::Slice1WithoutSlice2)
        },
    }
}

/// The merge decision for the blocks synthesized from one field list, with
/// the fatal case already ruled out: such a pair of blocks always merges.
pub open spec fn spec_generate_encoding_blocks(
    fields: Seq<Field>,
    supported: SupportedEncodings,
    direction: Direction,
) -> MergedView {
    let slice1_block = spec_synthesize(fields, Encoding::Slice1, direction);
    let slice2_block = spec_synthesize(fields, Encoding::Slice2, direction);
    match supported {
        SupportedEncodings::Slice1Only => MergedView::Shared(slice1_block),
        SupportedEncodings::Slice2Only => MergedView::Shared(slice2_block),
        SupportedEncodings::Both => if slice1_block == slice2_block {
            MergedView::Shared(slice2_block)
        } else if slice1_block.len() == 0 {
            MergedView::GuardedSlice2(slice2_block)
        } else {
            MergedView::Branched { slice1_block, slice2_block }
        },
    }
}

/// On blocks synthesized from one field list the merger never reaches its
/// fatal case, and its value is the generated merge decision.
pub proof fn lemma_merge_of_synthesized_blocks(fields: Seq<Field>, direction: Direction)
    ensures
        spec_merge(
            SupportedEncodings::Both,
            spec_synthesize(fields, Encoding::Slice1, direction),
            spec_synthesize(fields, Encoding::Slice2, direction),
        ) == Ok::<MergedView, MergeError>(
            spec_generate_encoding_blocks(fields, SupportedEncodings::Both, direction),
        ),
{
    lemma_no_slice1_without_slice2(fields, direction);
}

/// Synthesizes the per-encoding blocks for a field list and merges them.
/// A schema that supports a single encoding gets that encoding's block
/// directly; one that supports both goes through the merger, whose fatal
/// case is proved unreachable here.
pub fn generate_encoding_blocks(
    fields: &Vec<Field>,
    supported_encodings: SupportedEncodings,
    direction: Direction,
) -> (r: MergedBlock)
    ensures
        r@ == spec_generate_encoding_blocks(fields@, supported_encodings, direction),
{
    match supported_encodings {
        SupportedEncodings::Slice1Only => MergedBlock::Shared(
            synthesize(fields, Encoding::Slice1, direction),
        ),
        SupportedEncodings::Slice2Only => MergedBlock::Shared(
            synthesize(fields, Encoding::Slice2, direction),
        ),
        SupportedEncodings::Both => {
            let slice1_block = synthesize(fields, Encoding::Slice1, direction);
            let slice2_block = synthesize(fields, Encoding::Slice2, direction);
            proof {
                lemma_merge_of_synthesized_blocks(fields@, direction);
            }
            match merge(SupportedEncodings::Both, slice1_block, slice2_block) {
                Ok(merged) => merged,
                Err(_) => unreached(),
            }
        },
    }
}

} // verus!
