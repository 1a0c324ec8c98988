use slicegen::assembly::{generate_body, merged_to_stmts, Stmt};
use slicegen::instructions::{EncodingBlock, Instruction};
use slicegen::merge::{generate_encoding_blocks, MergedBlock};
use slicegen::schema::{Direction, Field, StructSchema, SupportedEncodings, TypeRef};

fn plain_field(name: &str) -> Field {
    Field {
        name: name.to_string(),
        ty: TypeRef { name: "int32".to_string(), is_nested: false, can_be_absent: false },
        tag: None,
        has_default: false,
    }
}

fn tagged_field(name: &str, tag: u32) -> Field {
    Field {
        name: name.to_string(),
        ty: TypeRef { name: "string?".to_string(), is_nested: false, can_be_absent: true },
        tag: Some(tag),
        has_default: false,
    }
}

fn schema(fields: Vec<Field>, is_compact: bool, supported: SupportedEncodings) -> StructSchema {
    StructSchema {
        identifier: "S".to_string(),
        fields,
        is_compact,
        supported_encodings: supported,
    }
}

#[test]
fn two_plain_fields_share_one_block() {
    // Both encodings need the same instructions, so the output is the two
    // field instructions concatenated, with no branch.
    let s = schema(
        vec![plain_field("a"), plain_field("b")],
        true,
        SupportedEncodings::Both,
    );
    let body = generate_body(&s, Direction::Decode);
    assert_eq!(
        body,
        vec![
            Stmt::Instr(Instruction::Direct { direction: Direction::Decode, field: 0 }),
            Stmt::Instr(Instruction::Direct { direction: Direction::Decode, field: 1 }),
        ],
    );
}

#[test]
fn lone_tagged_field_gets_guarded_arm() {
    // Slice1 emits nothing for a tag-only struct, so the whole Slice2 block
    // sits under a single guard with no else arm.
    let s = schema(vec![tagged_field("opt", 9)], true, SupportedEncodings::Both);
    let body = generate_body(&s, Direction::Encode);
    assert_eq!(
        body,
        vec![Stmt::GuardSlice2(EncodingBlock {
            instructions: vec![Instruction::TagFramed {
                direction: Direction::Encode,
                field: 0,
                tag: 9,
            }],
        })],
    );
}

#[test]
fn mixed_fields_get_two_armed_branch() {
    // One required and one tagged field: both blocks are non-empty and
    // differ, so the output is a full branch whose arms are exactly the two
    // synthesized blocks.
    let s = schema(
        vec![plain_field("a"), tagged_field("opt", 5)],
        true,
        SupportedEncodings::Both,
    );
    let body = generate_body(&s, Direction::Decode);
    assert_eq!(
        body,
        vec![Stmt::Branch {
            slice1_block: EncodingBlock {
                instructions: vec![Instruction::Direct {
                    direction: Direction::Decode,
                    field: 0,
                }],
            },
            slice2_block: EncodingBlock {
                instructions: vec![
                    Instruction::Direct { direction: Direction::Decode, field: 0 },
                    Instruction::TagFramed { direction: Direction::Decode, field: 1, tag: 5 },
                ],
            },
        }],
    );
}

#[test]
fn single_supported_encoding_never_branches() {
    let s = schema(
        vec![plain_field("a"), tagged_field("opt", 5)],
        true,
        SupportedEncodings::Slice1Only,
    );
    let body = generate_body(&s, Direction::Decode);
    assert_eq!(
        body,
        vec![Stmt::Instr(Instruction::Direct { direction: Direction::Decode, field: 0 })],
    );
    let s = schema(
        vec![plain_field("a"), tagged_field("opt", 5)],
        true,
        SupportedEncodings::Slice2Only,
    );
    let body = generate_body(&s, Direction::Decode);
    assert_eq!(
        body,
        vec![
            Stmt::Instr(Instruction::Direct { direction: Direction::Decode, field: 0 }),
            Stmt::Instr(Instruction::TagFramed { direction: Direction::Decode, field: 1, tag: 5 }),
        ],
    );
}

#[test]
fn empty_struct_has_empty_shared_body() {
    let s = schema(vec![], true, SupportedEncodings::Both);
    let body = generate_body(&s, Direction::Decode);
    assert_eq!(body, vec![]);
}

#[test]
fn non_compact_decode_ends_with_tag_skip() {
    // The framing step follows the merged block whatever the merge decided.
    let shapes = vec![
        vec![plain_field("a"), plain_field("b")],
        vec![tagged_field("opt", 1)],
        vec![plain_field("a"), tagged_field("opt", 1)],
        vec![],
    ];
    for fields in shapes {
        let s = schema(fields, false, SupportedEncodings::Both);
        let body = generate_body(&s, Direction::Decode);
        assert_eq!(body.last(), Some(&Stmt::Instr(Instruction::SkipTaggedFields)));
        let skips = body
            .iter()
            .filter(|stmt| **stmt == Stmt::Instr(Instruction::SkipTaggedFields))
            .count();
        assert_eq!(skips, 1);
    }
}

#[test]
fn non_compact_encode_ends_with_end_marker() {
    let s = schema(vec![plain_field("a")], false, SupportedEncodings::Both);
    let body = generate_body(&s, Direction::Encode);
    assert_eq!(
        body,
        vec![
            Stmt::Instr(Instruction::Direct { direction: Direction::Encode, field: 0 }),
            Stmt::Instr(Instruction::TagEndMarker),
        ],
    );
}

#[test]
fn compact_struct_gets_no_framing() {
    let s = schema(vec![plain_field("a")], true, SupportedEncodings::Both);
    for direction in [Direction::Decode, Direction::Encode] {
        let body = generate_body(&s, direction);
        assert_eq!(body.len(), 1);
        assert_eq!(body[0], Stmt::Instr(Instruction::Direct { direction, field: 0 }));
    }
}

#[test]
fn single_encoding_still_gets_framing() {
    let s = schema(vec![tagged_field("opt", 3)], false, SupportedEncodings::Slice2Only);
    let body = generate_body(&s, Direction::Decode);
    assert_eq!(
        body,
        vec![
            Stmt::Instr(Instruction::TagFramed { direction: Direction::Decode, field: 0, tag: 3 }),
            Stmt::Instr(Instruction::SkipTaggedFields),
        ],
    );
}

#[test]
fn nested_field_delegates_under_both_encodings() {
    let nested = Field {
        name: "point".to_string(),
        ty: TypeRef { name: "Point".to_string(), is_nested: true, can_be_absent: false },
        tag: None,
        has_default: false,
    };
    let s = schema(vec![nested], true, SupportedEncodings::Both);
    let body = generate_body(&s, Direction::Encode);
    assert_eq!(
        body,
        vec![Stmt::Instr(Instruction::NestedDelegate { direction: Direction::Encode, field: 0 })],
    );
}

#[test]
fn merged_to_stmts_lays_out_each_shape() {
    let one = Instruction::Direct { direction: Direction::Decode, field: 0 };
    let two = Instruction::Direct { direction: Direction::Decode, field: 1 };
    let shared = MergedBlock::Shared(EncodingBlock { instructions: vec![one, two] });
    assert_eq!(merged_to_stmts(shared), vec![Stmt::Instr(one), Stmt::Instr(two)]);
    let guarded = MergedBlock::GuardedSlice2(EncodingBlock { instructions: vec![two] });
    assert_eq!(
        merged_to_stmts(guarded),
        vec![Stmt::GuardSlice2(EncodingBlock { instructions: vec![two] })],
    );
    let branched = MergedBlock::Branched {
        slice1_block: EncodingBlock { instructions: vec![one] },
        slice2_block: EncodingBlock { instructions: vec![two] },
    };
    assert_eq!(
        merged_to_stmts(branched),
        vec![Stmt::Branch {
            slice1_block: EncodingBlock { instructions: vec![one] },
            slice2_block: EncodingBlock { instructions: vec![two] },
        }],
    );
}

#[test]
fn generate_encoding_blocks_collapses_plain_struct() {
    let fields = vec![plain_field("a"), plain_field("b")];
    let merged = generate_encoding_blocks(&fields, SupportedEncodings::Both, Direction::Encode);
    assert_eq!(
        merged,
        MergedBlock::Shared(EncodingBlock {
            instructions: vec![
                Instruction::Direct { direction: Direction::Encode, field: 0 },
                Instruction::Direct { direction: Direction::Encode, field: 1 },
            ],
        }),
    );
}
