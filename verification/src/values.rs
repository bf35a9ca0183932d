//! Typed value and type marshalling between the external, C-compatible
//! tagged representation and the engine-internal typed representation.
//!
//! Conversions are tag-driven, total over the four numeric kinds, and copy
//! payload bits verbatim: no numeric coercion happens at this boundary.
//! Floating-point payloads are carried as raw bit patterns, which is all the
//! boundary ever moves.

use vstd::prelude::*;

verus! {

/// Engine-internal numeric type, used both for declared signatures and for
/// the tags of individual values. A closed set: the boundary represents
/// exactly these four kinds.
#[derive(Clone, Copy, PartialEq, Eq, Debug, Structural)]
pub enum Type {
    I32,
    I64,
    F32,
    F64,
}

/// Tag of an external (boundary) value or signature slot.
#[allow(non_camel_case_types)]
#[derive(Clone, Copy, PartialEq, Eq, Debug, Structural)]
pub enum wasmer_value_tag {
    WASM_I32,
    WASM_I64,
    WASM_F32,
    WASM_F64,
}

/// Engine-internal typed value. The two floating-point kinds carry their raw
/// bit patterns: marshalling is bit-exact, so the bits are the whole payload
/// at this layer.
#[derive(Clone, Copy, PartialEq, Eq, Debug, Structural)]
pub enum Value {
    I32(i32),
    I64(i64),
    F32(u32),
    F64(u64),
}

/// External tagged value: a tag plus the payload bits, carried in the low
/// bits of one 64-bit word (the C union flattened to its bit representation).
#[allow(non_camel_case_types)]
#[derive(Clone, Copy, PartialEq, Eq, Debug, Structural)]
pub struct wasmer_value_t {
    pub tag: wasmer_value_tag,
    pub value: u64,
}

impl wasmer_value_t {
    /// The tag and the payload agree: a 32-bit tag carries its payload in the
    /// low 32 bits with the high bits clear. Constructing a mismatched pair
    /// is a contract violation on the caller's side.
    pub open spec fn wf(self) -> bool {
        match self.tag {
            wasmer_value_tag::WASM_I32 => self.value < 0x1_0000_0000,
            wasmer_value_tag::WASM_F32 => self.value < 0x1_0000_0000,
            wasmer_value_tag::WASM_I64 => true,
            wasmer_value_tag::WASM_F64 => true,
        }
    }
}

pub open spec fn tag_of_type(t: Type) -> wasmer_value_tag {
    match t {
        Type::I32 => wasmer_value_tag::WASM_I32,
        Type::I64 => wasmer_value_tag::WASM_I64,
        Type::F32 => wasmer_value_tag::WASM_F32,
        Type::F64 => wasmer_value_tag::WASM_F64,
    }
}

pub open spec fn type_of_tag(t: wasmer_value_tag) -> Type {
    match t {
        wasmer_value_tag::WASM_I32 => Type::I32,
        wasmer_value_tag::WASM_I64 => Type::I64,
        wasmer_value_tag::WASM_F32 => Type::F32,
        wasmer_value_tag::WASM_F64 => Type::F64,
    }
}

/// The tag an internal value marshals out under.
pub open spec fn tag_of_value(v: Value) -> wasmer_value_tag {
    match v {
        Value::I32(_) => wasmer_value_tag::WASM_I32,
        Value::I64(_) => wasmer_value_tag::WASM_I64,
        Value::F32(_) => wasmer_value_tag::WASM_F32,
        Value::F64(_) => wasmer_value_tag::WASM_F64,
    }
}

/// Marshalling out: internal value to external tagged word, bits verbatim.
pub open spec fn value_to_external_spec(v: Value) -> wasmer_value_t {
    match v {
        Value::I32(x) => wasmer_value_t {
            tag: wasmer_value_tag::WASM_I32,
            value: (x as u32) as u64,
        },
        Value::I64(x) => wasmer_value_t { tag: wasmer_value_tag::WASM_I64, value: x as u64 },
        Value::F32(b) => wasmer_value_t { tag: wasmer_value_tag::WASM_F32, value: b as u64 },
        Value::F64(b) => wasmer_value_t { tag: wasmer_value_tag::WASM_F64, value: b },
    }
}

/// Marshalling in: external tagged word to internal value, driven by the tag;
/// a 32-bit tag reads the low 32 bits of the payload word.
pub open spec fn value_from_external_spec(v: wasmer_value_t) -> Value {
    match v.tag {
        wasmer_value_tag::WASM_I32 => Value::I32((v.value as u32) as i32),
        wasmer_value_tag::WASM_I64 => Value::I64(v.value as i64),
        wasmer_value_tag::WASM_F32 => Value::F32(v.value as u32),
        wasmer_value_tag::WASM_F64 => Value::F64(v.value),
    }
}

impl Type {
    pub fn to_tag(self) -> (r: wasmer_value_tag)
        ensures
            r == tag_of_type(self),
    {
        match self {
            Type::I32 => wasmer_value_tag::WASM_I32,
            Type::I64 => wasmer_value_tag::WASM_I64,
            Type::F32 => wasmer_value_tag::WASM_F32,
            Type::F64 => wasmer_value_tag::WASM_F64,
        }
    }
}

impl wasmer_value_tag {
    pub fn to_type(self) -> (r: Type)
        ensures
            r == type_of_tag(self),
    {
        match self {
            wasmer_value_tag::WASM_I32 => Type::I32,
            wasmer_value_tag::WASM_I64 => Type::I64,
            wasmer_value_tag::WASM_F32 => Type::F32,
            wasmer_value_tag::WASM_F64 => Type::F64,
        }
    }
}

impl Value {
    /// Marshal this internal value into the external representation.
    pub fn to_external(self) -> (r: wasmer_value_t)
        ensures
            r == value_to_external_spec(self),
            r.wf(),
    {
        proof {
            lemma_to_external_wf(self);
        }
        match self {
            Value::I32(x) => wasmer_value_t {
                tag: wasmer_value_tag::WASM_I32,
                value: (x as u32) as u64,
            },
            Value::I64(x) => wasmer_value_t { tag: wasmer_value_tag::WASM_I64, value: x as u64 },
            Value::F32(b) => wasmer_value_t { tag: wasmer_value_tag::WASM_F32, value: b as u64 },
            Value::F64(b) => wasmer_value_t { tag: wasmer_value_tag::WASM_F64, value: b },
        }
    }

    /// Marshal an external tagged value into the internal representation.
    pub fn from_external(v: wasmer_value_t) -> (r: Value)
        ensures
            r == value_from_external_spec(v),
    {
        match v.tag {
            wasmer_value_tag::WASM_I32 => Value::I32((v.value as u32) as i32),
            wasmer_value_tag::WASM_I64 => Value::I64(v.value as i64),
            wasmer_value_tag::WASM_F32 => Value::F32(v.value as u32),
            wasmer_value_tag::WASM_F64 => Value::F64(v.value),
        }
    }
}

/// Marshalling out always produces a well-formed external value.
pub proof fn lemma_to_external_wf(v: Value)
    ensures
        value_to_external_spec(v).wf(),
{
    match v {
        Value::I32(x) => {
            assert(((x as u32) as u64) < 0x1_0000_0000) by (bit_vector);
        },
        Value::F32(b) => {
            assert(((b as u32) as u64) < 0x1_0000_0000) by (bit_vector);
        },
        _ => {},
    }
}

/// Round trip: for every internal value, of any of the four kinds, marshalling
/// out and back in reproduces the original tag and bit-exact payload.
pub proof fn lemma_value_marshal_round_trip(v: Value)
    ensures
        value_from_external_spec(value_to_external_spec(v)) == v,
{
    match v {
        Value::I32(x) => {
            assert(((((x as u32) as u64) as u32) as i32) == x) by (bit_vector);
        },
        Value::I64(x) => {
            assert(((x as u64) as i64) == x) by (bit_vector);
        },
        Value::F32(b) => {
            assert((((b as u64) as u32)) == b) by (bit_vector);
        },
        Value::F64(_) => {},
    }
}

/// Round trip the other way: for every well-formed external value,
/// marshalling in and back out reproduces the original tag and payload word.
pub proof fn lemma_external_marshal_round_trip(e: wasmer_value_t)
    requires
        e.wf(),
    ensures
        value_to_external_spec(value_from_external_spec(e)) == e,
{
    let w = e.value;
    match e.tag {
        wasmer_value_tag::WASM_I32 => {
            assert(w < 0x1_0000_0000 ==> ((((w as u32) as i32) as u32) as u64) == w)
                by (bit_vector);
        },
        wasmer_value_tag::WASM_I64 => {
            assert(((w as i64) as u64) == w) by (bit_vector);
        },
        wasmer_value_tag::WASM_F32 => {
            assert(w < 0x1_0000_0000 ==> ((w as u32) as u64) == w) by (bit_vector);
        },
        wasmer_value_tag::WASM_F64 => {},
    }
}

/// The type-to-tag and tag-to-type conversions invert each other.
pub proof fn lemma_type_tag_round_trip(t: Type, g: wasmer_value_tag)
    ensures
        type_of_tag(tag_of_type(t)) == t,
        tag_of_type(type_of_tag(g)) == g,
{
}

} // verus!
