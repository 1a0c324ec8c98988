//! The guarantees of the merge and assembly steps, proved once and for all
//! inputs: single-encoding invariance, collapse of identical blocks, guard
//! minimality, exhaustiveness of the two-armed branch, detection of the
//! fatal internal-consistency case, and framing placement.

use vstd::prelude::*;
use crate::schema::{Direction, Encoding, Field, SupportedEncodings};
use crate::instructions::{count_occurrences, Instruction};
use crate::synthesis::{lemma_synthesized_block_is_field_instructions, spec_synthesize};
use crate::merge::{spec_generate_encoding_blocks, spec_merge, MergedView, MergeError};
use crate::assembly::{
    branch_free, count_in_stmts, spec_framing_instruction, spec_generate_body, spec_stmts_of,
    stmt_occurrences, StmtView,
};

verus! {

/// A shared block reads as its instructions laid out one per statement, with
/// no dispatch statement anywhere.
proof fn lemma_shared_stmts_plain(block: Seq<Instruction>)
    ensures
        spec_stmts_of(MergedView::Shared(block)).len() == block.len(),
        forall|i: int|
            0 <= i < block.len() ==> #[trigger] spec_stmts_of(MergedView::Shared(block))[i]
                == StmtView::Instr(block[i]),
        branch_free(spec_stmts_of(MergedView::Shared(block))),
{
}

/// A block of field instructions holds no occurrence of a framing step.
proof fn lemma_count_occurrences_zero(block: Seq<Instruction>, target: Instruction)
    requires
        forall|i: int| 0 <= i < block.len() ==> (#[trigger] block[i]).is_field_instruction(),
        !target.is_field_instruction(),
    ensures
        count_occurrences(block, target) == 0,
    decreases block.len(),
{
    if block.len() > 0 {
        assert(forall|i: int|
            0 <= i < block.drop_last().len() ==> #[trigger] block.drop_last()[i] == block[i]);
        lemma_count_occurrences_zero(block.drop_last(), target);
    }
}

/// A statement list whose statements are each free of `target` holds no
/// occurrence of it in total.
proof fn lemma_count_in_stmts_zero(stmts: Seq<StmtView>, target: Instruction)
    requires
        forall|i: int| 0 <= i < stmts.len() ==> stmt_occurrences(#[trigger] stmts[i], target) == 0,
    ensures
        count_in_stmts(stmts, target) == 0,
    decreases stmts.len(),
{
    if stmts.len() > 0 {
        assert(forall|i: int|
            0 <= i < stmts.drop_last().len() ==> #[trigger] stmts.drop_last()[i] == stmts[i]);
        lemma_count_in_stmts_zero(stmts.drop_last(), target);
    }
}

/// Single-encoding invariance: with exactly one supported encoding, the
/// generated result is exactly the block synthesized for that encoding —
/// returned unchanged, laid out one instruction per statement, with zero
/// branching statements added.
pub proof fn lemma_single_encoding_invariance(fields: Seq<Field>, direction: Direction)
    ensures
        spec_generate_encoding_blocks(fields, SupportedEncodings::Slice1Only, direction)
            == MergedView::Shared(spec_synthesize(fields, Encoding::Slice1, direction)),
        spec_generate_encoding_blocks(fields, SupportedEncodings::Slice2Only, direction)
            == MergedView::Shared(spec_synthesize(fields, Encoding::Slice2, direction)),
        branch_free(
            spec_stmts_of(
                spec_generate_encoding_blocks(fields, SupportedEncodings::Slice1Only, direction),
            ),
        ),
        branch_free(
            spec_stmts_of(
                spec_generate_encoding_blocks(fields, SupportedEncodings::Slice2Only, direction),
            ),
        ),
{
    lemma_shared_stmts_plain(spec_synthesize(fields, Encoding::Slice1, direction));
    lemma_shared_stmts_plain(spec_synthesize(fields, Encoding::Slice2, direction));
}

/// Collapse: whenever two field lists synthesize textually identical Slice1
/// and Slice2 blocks, the merger emits one shared block, and the output
/// contains no dispatch statement at all.
pub proof fn lemma_collapse(fields1: Seq<Field>, fields2: Seq<Field>, direction: Direction)
    requires
        spec_synthesize(fields1, Encoding::Slice1, direction) == spec_synthesize(
            fields2,
            Encoding::Slice2,
            direction,
        ),
    ensures
        spec_merge(
            SupportedEncodings::Both,
            spec_synthesize(fields1, Encoding::Slice1, direction),
            spec_synthesize(fields2, Encoding::Slice2, direction),
        ) == Ok::<MergedView, MergeError>(
            MergedView::Shared(spec_synthesize(fields2, Encoding::Slice2, direction)),
        ),
        branch_free(
            spec_stmts_of(
                MergedView::Shared(spec_synthesize(fields2, Encoding::Slice2, direction)),
            ),
        ),
{
    lemma_shared_stmts_plain(spec_synthesize(fields2, Encoding::Slice2, direction));
}

/// Guard minimality: an empty Slice1 block beside a non-empty Slice2 block
/// merges to exactly one conditional statement with a single arm and no else,
/// whose body is exactly the Slice2 block.
pub proof fn lemma_guard_minimality(slice1_block: Seq<Instruction>, slice2_block: Seq<Instruction>)
    requires
        slice1_block.len() == 0,
        slice2_block.len() > 0,
    ensures
        spec_merge(SupportedEncodings::Both, slice1_block, slice2_block) == Ok::<
            MergedView,
            MergeError,
        >(MergedView::GuardedSlice2(slice2_block)),
        spec_stmts_of(MergedView::GuardedSlice2(slice2_block)) == seq![
            StmtView::GuardSlice2(slice2_block),
        ],
{
    assert(slice1_block.len() != slice2_block.len());
}

/// Exhaustive branch: two non-empty, differing blocks merge to exactly one
/// two-armed branch statement whose arm bodies are exactly the two original
/// blocks.
pub proof fn lemma_exhaustive_branch(slice1_block: Seq<Instruction>, slice2_block: Seq<Instruction>)
    requires
        slice1_block.len() > 0,
        slice2_block.len() > 0,
        slice1_block != slice2_block,
    ensures
        spec_merge(SupportedEncodings::Both, slice1_block, slice2_block) == Ok::<
            MergedView,
            MergeError,
        >(MergedView::Branched { slice1_block, slice2_block }),
        spec_stmts_of(MergedView::Branched { slice1_block, slice2_block }) == seq![
            StmtView::Branch { slice1_block, slice2_block },
        ],
{
}

/// Fatal-case detection: a non-empty Slice1 block beside an empty Slice2
/// block is always reported as the internal-consistency failure, never
/// silently turned into code.
pub proof fn lemma_fatal_case_detected(
    slice1_block: Seq<Instruction>,
    slice2_block: Seq<Instruction>,
)
    requires
        slice1_block.len() > 0,
        slice2_block.len() == 0,
    ensures
        spec_merge(SupportedEncodings::Both, slice1_block, slice2_block) == Err::<
            MergedView,
            MergeError,
        >(MergeError::Slice1WithoutSlice2),
{
    assert(slice1_block.len() != slice2_block.len());
}

/// Framing placement: whatever the merge decided, a non-compact struct's body
/// ends with the direction's framing step — tag skipping on decode, the
/// end-of-tags marker on encode — and contains it exactly once, arms
/// included.
pub proof fn lemma_framing_placement(
    fields: Seq<Field>,
    supported: SupportedEncodings,
    direction: Direction,
)
    ensures
        spec_generate_body(fields, supported, false, direction).len() > 0,
        spec_generate_body(fields, supported, false, direction).last() == StmtView::Instr(
            spec_framing_instruction(direction),
        ),
        count_in_stmts(
            spec_generate_body(fields, supported, false, direction),
            spec_framing_instruction(direction),
        ) == 1,
{
    let merged = spec_generate_encoding_blocks(fields, supported, direction);
    let stmts = spec_stmts_of(merged);
    let framing = spec_framing_instruction(direction);
    let body = spec_generate_body(fields, supported, false, direction);
    let slice1_block = spec_synthesize(fields, Encoding::Slice1, direction);
    let slice2_block = spec_synthesize(fields, Encoding::Slice2, direction);
    lemma_synthesized_block_is_field_instructions(fields, Encoding::Slice1, direction);
    lemma_synthesized_block_is_field_instructions(fields, Encoding::Slice2, direction);
    assert(!framing.is_field_instruction());
    assert forall|i: int| 0 <= i < stmts.len() implies stmt_occurrences(
        #[trigger] stmts[i],
        framing,
    ) == 0 by {
        match merged {
            MergedView::Shared(block) => {
                lemma_shared_stmts_plain(block);
                assert(stmts[i] == StmtView::Instr(block[i]));
                assert(block[i].is_field_instruction());
            },
            MergedView::GuardedSlice2(block) => {
                lemma_count_occurrences_zero(block, framing);
            },
            MergedView::Branched { slice1_block: b1, slice2_block: b2 } => {
                lemma_count_occurrences_zero(b1, framing);
                lemma_count_occurrences_zero(b2, framing);
            },
        }
    }
    lemma_count_in_stmts_zero(stmts, framing);
    assert(body == stmts.push(StmtView::Instr(framing)));
    assert(body.drop_last() =~= stmts);
    assert(body.last() == StmtView::Instr(framing));
    assert(count_in_stmts(body, framing) == count_in_stmts(stmts, framing) + stmt_occurrences(
        StmtView::Instr(framing),
        framing,
    ));
}

} // verus!
