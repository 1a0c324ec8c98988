use slicegen::instructions::{EncodingBlock, Instruction};
use slicegen::merge::{merge, MergeError, MergedBlock};
use slicegen::schema::{Direction, Encoding, Field, SupportedEncodings, TypeRef};
use slicegen::synthesis::{instructions_for, synthesize};

fn plain_field(name: &str) -> Field {
    Field {
        name: name.to_string(),
        ty: TypeRef { name: "int32".to_string(), is_nested: false, can_be_absent: false },
        tag: None,
        has_default: false,
    }
}

fn tagged_field(name: &str, tag: u32) -> Field {
    Field {
        name: name.to_string(),
        ty: TypeRef { name: "int32?".to_string(), is_nested: false, can_be_absent: true },
        tag: Some(tag),
        has_default: false,
    }
}

fn nested_field(name: &str) -> Field {
    Field {
        name: name.to_string(),
        ty: TypeRef { name: "Point".to_string(), is_nested: true, can_be_absent: false },
        tag: None,
        has_default: false,
    }
}

fn block(instructions: Vec<Instruction>) -> EncodingBlock {
    EncodingBlock { instructions }
}

#[test]
fn strategy_table_plain_field() {
    let f = plain_field("x");
    for encoding in [Encoding::Slice1, Encoding::Slice2] {
        let r = instructions_for(&f, 0, encoding, Direction::Decode);
        assert_eq!(r, vec![Instruction::Direct { direction: Direction::Decode, field: 0 }]);
    }
}

#[test]
fn strategy_table_nested_field() {
    let f = nested_field("p");
    for encoding in [Encoding::Slice1, Encoding::Slice2] {
        let r = instructions_for(&f, 2, encoding, Direction::Encode);
        assert_eq!(r, vec![Instruction::NestedDelegate { direction: Direction::Encode, field: 2 }]);
    }
}

#[test]
fn strategy_table_tagged_field() {
    let f = tagged_field("opt", 7);
    let under_slice1 = instructions_for(&f, 1, Encoding::Slice1, Direction::Decode);
    assert!(under_slice1.is_empty());
    let under_slice2 = instructions_for(&f, 1, Encoding::Slice2, Direction::Decode);
    assert_eq!(
        under_slice2,
        vec![Instruction::TagFramed { direction: Direction::Decode, field: 1, tag: 7 }],
    );
}

#[test]
fn synthesize_keeps_field_order() {
    let fields = vec![plain_field("a"), tagged_field("b", 3), nested_field("c")];
    let b = synthesize(&fields, Encoding::Slice2, Direction::Encode);
    assert_eq!(
        b.instructions,
        vec![
            Instruction::Direct { direction: Direction::Encode, field: 0 },
            Instruction::TagFramed { direction: Direction::Encode, field: 1, tag: 3 },
            Instruction::NestedDelegate { direction: Direction::Encode, field: 2 },
        ],
    );
    let b1 = synthesize(&fields, Encoding::Slice1, Direction::Encode);
    assert_eq!(
        b1.instructions,
        vec![
            Instruction::Direct { direction: Direction::Encode, field: 0 },
            Instruction::NestedDelegate { direction: Direction::Encode, field: 2 },
        ],
    );
}

#[test]
fn block_same_as_is_structural() {
    let a = block(vec![Instruction::Direct { direction: Direction::Decode, field: 0 }]);
    let b = block(vec![Instruction::Direct { direction: Direction::Decode, field: 0 }]);
    let c = block(vec![Instruction::Direct { direction: Direction::Decode, field: 1 }]);
    assert!(a.same_as(&b));
    assert!(!a.same_as(&c));
    assert!(!a.same_as(&block(vec![])));
    assert_eq!(a.len(), 1);
    assert!(!a.is_empty());
    assert!(block(vec![]).is_empty());
}

#[test]
fn single_encoding_returns_block_unchanged() {
    // Even two differing blocks never reach a comparison when only one
    // encoding is supported.
    let b1 = block(vec![Instruction::Direct { direction: Direction::Decode, field: 0 }]);
    let b2 = block(vec![Instruction::TagFramed { direction: Direction::Decode, field: 0, tag: 1 }]);
    let r = merge(SupportedEncodings::Slice1Only, b1.clone(), b2.clone());
    assert_eq!(r, Ok(MergedBlock::Shared(b1.clone())));
    let r = merge(SupportedEncodings::Slice2Only, b1, b2.clone());
    assert_eq!(r, Ok(MergedBlock::Shared(b2)));
}

#[test]
fn identical_blocks_collapse() {
    let b1 = block(vec![Instruction::Direct { direction: Direction::Encode, field: 0 }]);
    let b2 = block(vec![Instruction::Direct { direction: Direction::Encode, field: 0 }]);
    let r = merge(SupportedEncodings::Both, b1, b2.clone());
    assert_eq!(r, Ok(MergedBlock::Shared(b2)));
}

#[test]
fn empty_blocks_collapse() {
    let r = merge(SupportedEncodings::Both, block(vec![]), block(vec![]));
    assert_eq!(r, Ok(MergedBlock::Shared(block(vec![]))));
}

#[test]
fn empty_slice1_block_gets_single_guard() {
    let b2 = block(vec![Instruction::TagFramed { direction: Direction::Decode, field: 0, tag: 4 }]);
    let r = merge(SupportedEncodings::Both, block(vec![]), b2.clone());
    assert_eq!(r, Ok(MergedBlock::GuardedSlice2(b2)));
}

#[test]
fn differing_blocks_get_full_branch() {
    let b1 = block(vec![Instruction::Direct { direction: Direction::Decode, field: 0 }]);
    let b2 = block(vec![
        Instruction::Direct { direction: Direction::Decode, field: 0 },
        Instruction::TagFramed { direction: Direction::Decode, field: 1, tag: 2 },
    ]);
    let r = merge(SupportedEncodings::Both, b1.clone(), b2.clone());
    assert_eq!(r, Ok(MergedBlock::Branched { slice1_block: b1, slice2_block: b2 }));
}

#[test]
fn fatal_case_is_reported() {
    let b1 = block(vec![Instruction::Direct { direction: Direction::Encode, field: 0 }]);
    let r = merge(SupportedEncodings::Both, b1, block(vec![]));
    assert_eq!(r, Err(MergeError::Slice1WithoutSlice2));
}

#[test]
fn is_tagged_follows_tag() {
    assert!(tagged_field("t", 1).is_tagged());
    assert!(!plain_field("p").is_tagged());
}
