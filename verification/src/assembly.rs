//! Decode/encode body assembly: the merged field block rendered as a list of
//! statements, followed by the direction-specific, encoding-agnostic framing
//! step that non-compact structs need. Framing is appended here, outside the
//! merger, which only ever reasons about encoding-specific divergence.

use vstd::prelude::*;
use crate::schema::{Direction, StructSchema, SupportedEncodings, Field};
use crate::instructions::{count_occurrences, EncodingBlock, Instruction};
use crate::merge::{
    generate_encoding_blocks, spec_generate_encoding_blocks, MergedBlock, MergedView,
};

verus! {

/// One statement of a generated (de)serialization body: either a primitive
/// instruction or a runtime dispatch on the encoding tag.
#[derive(Clone, Debug, PartialEq, Eq)]
pub enum Stmt {
    /// A primitive instruction, executed under every supported encoding.
    Instr(Instruction),
    /// "if the runtime encoding is not Slice1 { body }" — one arm, no else.
    GuardSlice2(EncodingBlock),
    /// "if the runtime encoding is Slice1 { first } else { second }".
    Branch { slice1_block: EncodingBlock, slice2_block: EncodingBlock },
}

/// The mathematical shape of one statement.
pub enum StmtView {
    Instr(Instruction),
    GuardSlice2(Seq<Instruction>),
    Branch { slice1_block: Seq<Instruction>, slice2_block: Seq<Instruction> },
}

impl View for Stmt {
    type V = StmtView;

    open spec fn view(&self) -> StmtView {
        match self {
            Stmt::Instr(instruction) => StmtView::Instr(*instruction),
            Stmt::GuardSlice2(block) => StmtView::GuardSlice2(block@),
            Stmt::Branch { slice1_block, slice2_block } => StmtView::Branch {
                slice1_block: slice1_block@,
                slice2_block: slice2_block@,
            },
        }
    }
}

/// The views of a statement list, element by element.
pub open spec fn views_of(stmts: Seq<Stmt>) -> Seq<StmtView> {
    stmts.map_values(|s: Stmt| s@)
}

/// How a merge decision reads as statements: a shared block is its
/// instructions laid out one after another, with no dispatch; the two
/// dispatching decisions are one statement each.
pub open spec fn spec_stmts_of(merged: MergedView) -> Seq<StmtView> {
    match merged {
        MergedView::Shared(block) => block.map_values(|i: Instruction| StmtView::Instr(i)),
        MergedView::GuardedSlice2(block) => seq![StmtView::GuardSlice2(block)],
        MergedView::Branched { slice1_block, slice2_block } => seq![
            StmtView::Branch { slice1_block, slice2_block },
        ],
    }
}

/// Lays a merge decision out as body statements.
#[verifier::loop_isolation(false)]
pub fn merged_to_stmts(merged: MergedBlock) -> (r: Vec<Stmt>)
    ensures
        views_of(r@) == spec_stmts_of(merged@),
{
    let mut stmts: Vec<Stmt> = Vec::new();
    match merged {
        MergedBlock::Shared(block) => {
            let ghost target = spec_stmts_of(MergedView::Shared(block@));
            proof {
                assert(target.len() == block@.len());
            }
            let n = block.instructions.len();
            let mut i: usize = 0;
            while i < n
                invariant
                    0 <= i <= n,
                    n == block@.len(),
                    stmts@.len() == i,
                    forall|j: int| 0 <= j < i ==> views_of(stmts@)[j] == target[j],
                decreases n - i,
            {
                let ghost prev = stmts@;
                stmts.push(Stmt::Instr(block.instructions[i]));
                proof {
                    assert forall|j: int| 0 <= j < i + 1 implies views_of(stmts@)[j] == target[j] by {
                        assert(views_of(stmts@)[j] == stmts@[j]@);
                        if j < i {
                            assert(stmts@[j] == prev[j]);
                            assert(views_of(prev)[j] == prev[j]@);
                        } else {
                            assert(stmts@[j] == Stmt::Instr(block@[i as int]));
                            assert(target[j] == StmtView::Instr(block@[j]));
                        }
                    }
                }
                i += 1;
            }
            proof {
                assert(views_of(stmts@) =~= target);
            }
        },
        MergedBlock::GuardedSlice2(block) => {
            let ghost target = spec_stmts_of(MergedView::GuardedSlice2(block@));
            stmts.push(Stmt::GuardSlice2(block));
            proof {
                assert(views_of(stmts@) =~= target);
            }
        },
        MergedBlock::Branched { slice1_block, slice2_block } => {
            let ghost target = spec_stmts_of(
                MergedView::Branched { slice1_block: slice1_block@, slice2_block: slice2_block@ },
            );
            stmts.push(Stmt::Branch { slice1_block, slice2_block });
            proof {
                assert(views_of(stmts@) =~= target);
            }
        },
    }
    stmts
}

/// The framing step a non-compact struct appends after the merged field
/// block: skip any remaining tagged values on decode, write the end-of-tags
/// marker on encode.
pub open spec fn spec_framing_instruction(direction: Direction) -> Instruction {
    match direction {
        Direction::Decode => Instruction::SkipTaggedFields,
        Direction::Encode => Instruction::TagEndMarker,
    }
}

/// Executable form of the framing table.
#[verifier::when_used_as_spec(spec_framing_instruction)]
pub fn framing_instruction(direction: Direction) -> (r: Instruction)
    ensures
        r == spec_framing_instruction(direction),
{
    match direction {
        Direction::Decode => Instruction::SkipTaggedFields,
        Direction::Encode => Instruction::TagEndMarker,
    }
}

/// A whole decode or encode body: the merged field block's statements,
/// followed by the framing step exactly when the struct is not compact.
pub open spec fn spec_generate_body(
    fields: Seq<Field>,
    supported: SupportedEncodings,
    is_compact: bool,
    direction: Direction,
) -> Seq<StmtView> {
    let stmts = spec_stmts_of(spec_generate_encoding_blocks(fields, supported, direction));
    if is_compact {
        stmts
    } else {
        stmts.push(StmtView::Instr(spec_framing_instruction(direction)))
    }
}

/// Generates the statements of a struct's decode constructor body or encode
/// method body, ready for a text renderer.
pub fn generate_body(schema: &StructSchema, direction: Direction) -> (r: Vec<Stmt>)
    requires
        schema.wf(),
    ensures
        views_of(r@) == spec_generate_body(
            schema.fields@,
            schema.supported_encodings,
            schema.is_compact,
            direction,
        ),
{
    let merged = generate_encoding_blocks(&schema.fields, schema.supported_encodings, direction);
    let mut stmts = merged_to_stmts(merged);
    if !schema.is_compact {
        let ghost before = stmts@;
        stmts.push(Stmt::Instr(framing_instruction(direction)));
        proof {
            assert(views_of(stmts@) =~= views_of(before).push(
                StmtView::Instr(spec_framing_instruction(direction)),
            ));
        }
    }
    stmts
}

/// How many times `target` occurs inside one statement, counting through the
/// bodies of dispatch arms.
pub open spec fn stmt_occurrences(stmt: StmtView, target: Instruction) -> nat {
    match stmt {
        StmtView::Instr(instruction) => if instruction == target {
            1nat
        } else {
            0nat
        },
        StmtView::GuardSlice2(block) => count_occurrences(block, target),
        StmtView::Branch { slice1_block, slice2_block } => count_occurrences(slice1_block, target)
            + count_occurrences(slice2_block, target),
    }
}

/// How many times `target` occurs in a whole body, arms included.
pub open spec fn count_in_stmts(stmts: Seq<StmtView>, target: Instruction) -> nat
    decreases stmts.len(),
{
    if stmts.len() == 0 {
        0
    } else {
        count_in_stmts(stmts.drop_last(), target) + stmt_occurrences(stmts.last(), target)
    }
}

/// A body with no runtime dispatch: every statement is a plain instruction.
pub open spec fn branch_free(stmts: Seq<StmtView>) -> bool {
    forall|i: int| 0 <= i < stmts.len() ==> (#[trigger] stmts[i]) is Instr
}

} // verus!
