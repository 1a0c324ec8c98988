//! The input data model: fields and struct schemas, as produced by an
//! already-validated front end, together with the encodings a struct supports.

use vstd::prelude::*;

verus! {

/// One of the two binary wire encodings a struct may support. Slice2 strictly
/// supersets Slice1's capability for tagged (optional) fields.
#[derive(Clone, Copy, PartialEq, Eq, Structural, Debug)]
pub enum Encoding {
    Slice1,
    Slice2,
}

/// Whether generated instructions read fields from a decoder or write them to
/// an encoder.
#[derive(Clone, Copy, PartialEq, Eq, Structural, Debug)]
pub enum Direction {
    Decode,
    Encode,
}

/// The set of encodings a struct supports: one or two members drawn from
/// {Slice1, Slice2}. By construction the set is never empty and Slice1 always
/// precedes Slice2, so the canonical order is not re-derived anywhere else.
#[derive(Clone, Copy, PartialEq, Eq, Structural, Debug)]
pub enum SupportedEncodings {
    Slice1Only,
    Slice2Only,
    Both,
}

/// A reference to a field's declared type. The type's own wire layout is a
/// black box: a difference between encodings inside the type is handled by
/// the type's own generated code, not by the containing struct's.
#[derive(Clone, Debug)]
pub struct TypeRef {
    /// The type's name, used only when rendering instructions to source text.
    pub name: String,
    /// True for a user-defined type that decodes and encodes itself, so the
    /// containing struct delegates to it instead of reading a primitive.
    pub is_nested: bool,
    /// True when the type can represent "absent on the wire", which every
    /// tagged field's type must be able to do.
    pub can_be_absent: bool,
}

/// A read-only view of one struct member. Wire order is the field's position
/// in the schema's field list, fixed at schema construction time.
#[derive(Clone, Debug)]
pub struct Field {
    pub name: String,
    pub ty: TypeRef,
    /// The field's tag number when the field is tagged (may be absent on the
    /// wire), and `None` for a required field.
    pub tag: Option<u32>,
    /// True when the field declaration carries a default value.
    pub has_default: bool,
}

impl Field {
    /// A tagged field may be absent on the wire, so its type must be able to
    /// represent absence. The front end validates this before a schema is
    /// handed to this library.
    pub open spec fn wf(self) -> bool {
        self.tag is Some ==> self.ty.can_be_absent
    }

    pub open spec fn spec_is_tagged(&self) -> bool {
        self.tag is Some
    }

    /// True when the field is identified by a numeric tag rather than by its
    /// position, and so may be absent on the wire.
    #[verifier::when_used_as_spec(spec_is_tagged)]
    pub fn is_tagged(&self) -> (r: bool)
        ensures
            r == self.spec_is_tagged(),
    {
        self.tag.is_some()
    }
}

/// A validated struct definition: the unit of code generation.
#[derive(Clone, Debug)]
pub struct StructSchema {
    pub identifier: String,
    /// Fields in declaration order, which is wire order.
    pub fields: Vec<Field>,
    /// A compact struct's wire format omits end-of-tags framing; no tagged
    /// field may ever follow it.
    pub is_compact: bool,
    pub supported_encodings: SupportedEncodings,
}

impl StructSchema {
    /// The invariant the front end establishes before handing a schema over.
    pub open spec fn wf(self) -> bool {
        forall|i: int| 0 <= i < self.fields@.len() ==> (#[trigger] self.fields@[i]).wf()
    }
}

} // verus!
