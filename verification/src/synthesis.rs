//! The encoding strategy table and the block synthesizer: a total function
//! from (field, encoding, direction) to the field's instruction sequence, and
//! its concatenation over a whole field list in declaration order.

use vstd::prelude::*;
use crate::schema::{Direction, Encoding, Field};
use crate::instructions::{EncodingBlock, Instruction};

verus! {

/// The instruction sequence for one field under one encoding and direction.
///
/// A required field gets a single direct (or nested-delegate) step, the same
/// one under either encoding: a layout difference inside the field's type is
/// the type's own business. A tagged field gets a single tag-framed step
/// under Slice2 and nothing under Slice1, which predates tagged fields.
/// No combination is an error: schema validation already rejected every
/// field/encoding pairing this table cannot represent.
pub open spec fn spec_instructions_for(
    field: Field,
    index: usize,
    encoding: Encoding,
    direction: Direction,
) -> Seq<Instruction> {
    match field.tag {
        Some(tag) => match encoding {
            Encoding::Slice1 => Seq::empty(),
            Encoding::Slice2 => seq![Instruction::TagFramed { direction, field: index, tag }],
        },
        None => if field.ty.is_nested {
            seq![Instruction::NestedDelegate { direction, field: index }]
        } else {
            seq![Instruction::Direct { direction, field: index }]
        },
    }
}

/// Executable form of the strategy table; `index` is the field's position in
/// the struct's field list.
pub fn instructions_for(
    field: &Field,
    index: usize,
    encoding: Encoding,
    direction: Direction,
) -> (r: Vec<Instruction>)
    ensures
        r@ == spec_instructions_for(*field, index, encoding, direction),
{
    let mut r: Vec<Instruction> = Vec::new();
    match field.tag {
        Some(tag) => match encoding {
            Encoding::Slice1 => {},
            Encoding::Slice2 => r.push(Instruction::TagFramed { direction, field: index, tag }),
        },
        None => if field.ty.is_nested {
            r.push(Instruction::NestedDelegate { direction, field: index });
        } else {
            r.push(Instruction::Direct { direction, field: index });
        },
    }
    proof {
        assert(r@ =~= spec_instructions_for(*field, index, encoding, direction));
    }
    r
}

/// The whole block for one (encoding, direction) pair: each field's
/// instructions in declaration order, which is wire order.
pub open spec fn spec_synthesize(fields: Seq<Field>, encoding: Encoding, direction: Direction) -> Seq<
    Instruction,
>
    decreases fields.len(),
{
    if fields.len() == 0 {
        Seq::empty()
    } else {
        spec_synthesize(fields.drop_last(), encoding, direction) + spec_instructions_for(
            fields.last(),
            (fields.len() - 1) as usize,
            encoding,
            direction,
        )
    }
}

/// Executable block synthesizer. The block is pure per-field code with no
/// knowledge of the other encoding; framing is the caller's business.
pub fn synthesize(fields: &Vec<Field>, encoding: Encoding, direction: Direction) -> (r:
    EncodingBlock)
    ensures
        r@ == spec_synthesize(fields@, encoding, direction),
{
    let mut instructions: Vec<Instruction> = Vec::new();
    let mut i: usize = 0;
    while i < fields.len()
        invariant
            0 <= i <= fields@.len(),
            instructions@ == spec_synthesize(fields@.take(i as int), encoding, direction),
        decreases fields@.len() - i,
    {
        let step = instructions_for(&fields[i], i, encoding, direction);
        let mut j: usize = 0;
        while j < step.len()
            invariant
                0 <= j <= step@.len(),
                instructions@ == spec_synthesize(fields@.take(i as int), encoding, direction)
                    + step@.take(j as int),
            decreases step@.len() - j,
        {
            instructions.push(step[j]);
            proof {
                assert(step@.take(j + 1) =~= step@.take(j as int).push(step@[j as int]));
                assert(instructions@ =~= spec_synthesize(fields@.take(i as int), encoding, direction)
                    + step@.take(j + 1));
            }
            j += 1;
        }
        proof {
            let taken = fields@.take(i + 1);
            assert(taken.drop_last() =~= fields@.take(i as int));
            assert(taken.last() == fields@[i as int]);
            assert(taken.len() == i + 1);
            assert(step@.take(j as int) =~= step@);
            assert(instructions@ =~= spec_synthesize(fields@.take(i + 1), encoding, direction));
        }
        i += 1;
    }
    proof {
        assert(fields@.take(fields@.len() as int) =~= fields@);
    }
    EncodingBlock { instructions }
}

/// A Slice1 block is never longer than the Slice2 block for the same fields:
/// each field contributes at most as many instructions under Slice1.
pub proof fn lemma_slice1_block_no_longer(fields: Seq<Field>, direction: Direction)
    ensures
        spec_synthesize(fields, Encoding::Slice1, direction).len() <= spec_synthesize(
            fields,
            Encoding::Slice2,
            direction,
        ).len(),
    decreases fields.len(),
{
    if fields.len() > 0 {
        lemma_slice1_block_no_longer(fields.drop_last(), direction);
    }
}

/// The internal consistency invariant behind the merger's fatal case: a field
/// list whose Slice1 block is non-empty always has a non-empty Slice2 block,
/// because everything representable under Slice1 is also representable,
/// non-trivially, under Slice2.
pub proof fn lemma_no_slice1_without_slice2(fields: Seq<Field>, direction: Direction)
    ensures
        spec_synthesize(fields, Encoding::Slice1, direction).len() > 0 ==> spec_synthesize(
            fields,
            Encoding::Slice2,
            direction,
        ).len() > 0,
{
    lemma_slice1_block_no_longer(fields, direction);
}

/// The two per-encoding blocks of one field list are identical exactly when
/// the list has no tagged field: required fields emit the same instruction
/// under both encodings, while every tagged field lengthens only the Slice2
/// block.
pub proof fn lemma_blocks_equal_iff_no_tagged_field(fields: Seq<Field>, direction: Direction)
    ensures
        spec_synthesize(fields, Encoding::Slice1, direction) == spec_synthesize(
            fields,
            Encoding::Slice2,
            direction,
        ) <==> (forall|i: int| 0 <= i < fields.len() ==> !(#[trigger] fields[i]).spec_is_tagged()),
    decreases fields.len(),
{
    if fields.len() == 0 {
        assert(spec_synthesize(fields, Encoding::Slice1, direction) =~= spec_synthesize(
            fields,
            Encoding::Slice2,
            direction,
        ));
    } else {
        let prefix = fields.drop_last();
        let last = fields.last();
        let idx = (fields.len() - 1) as usize;
        let b1 = spec_synthesize(fields, Encoding::Slice1, direction);
        let b2 = spec_synthesize(fields, Encoding::Slice2, direction);
        let p1 = spec_synthesize(prefix, Encoding::Slice1, direction);
        let p2 = spec_synthesize(prefix, Encoding::Slice2, direction);
        lemma_blocks_equal_iff_no_tagged_field(prefix, direction);
        lemma_slice1_block_no_longer(prefix, direction);
        if last.spec_is_tagged() {
            // Only the Slice2 block grows, so the two blocks have different
            // lengths and cannot be equal.
            assert(b1 =~= p1);
            assert(b1.len() < b2.len());
            assert(fields[fields.len() - 1].spec_is_tagged());
        } else {
            // Both blocks grow by the same single instruction, so equality
            // reduces to equality of the prefix blocks.
            let step = spec_instructions_for(last, idx, Encoding::Slice1, direction);
            assert(spec_instructions_for(last, idx, Encoding::Slice2, direction) == step);
            assert(b1 == p1 + step);
            assert(b2 == p2 + step);
            if p1 == p2 {
                assert(b1 =~= b2);
            }
            if b1 == b2 {
                assert(step.len() == 1);
                assert(b1.len() == p1.len() + 1);
                assert(b2.len() == p2.len() + 1);
                assert(p1.len() == p2.len());
                assert forall|k: int| 0 <= k < p1.len() implies p1[k] == p2[k] by {
                    assert(b1[k] == p1[k]);
                    assert(b2[k] == p2[k]);
                }
                assert(p1 =~= p2);
            }
            assert(forall|i: int| 0 <= i < prefix.len() ==> prefix[i] == #[trigger] fields[i]);
        }
    }
}

/// Synthesized blocks hold only per-field instructions; the two framing
/// steps are appended outside the merge, never produced by the table.
pub proof fn lemma_synthesized_block_is_field_instructions(
    fields: Seq<Field>,
    encoding: Encoding,
    direction: Direction,
)
    ensures
        forall|i: int|
            0 <= i < spec_synthesize(fields, encoding, direction).len() ==> (#[trigger]
            spec_synthesize(fields, encoding, direction)[i]).is_field_instruction(),
    decreases fields.len(),
{
    if fields.len() > 0 {
        lemma_synthesized_block_is_field_instructions(fields.drop_last(), encoding, direction);
        let b = spec_synthesize(fields, encoding, direction);
        let p = spec_synthesize(fields.drop_last(), encoding, direction);
        let step = spec_instructions_for(
            fields.last(),
            (fields.len() - 1) as usize,
            encoding,
            direction,
        );
        assert forall|i: int| 0 <= i < b.len() implies (#[trigger] b[i]).is_field_instruction() by {
            if i < p.len() {
                assert(b[i] == p[i]);
            } else {
                assert(b[i] == step[i - p.len()]);
            }
        }
    }
}

} // verus!
