//! Value and type marshalling across the boundary.

use wasm_boundary::values::{wasmer_value_t, wasmer_value_tag, Type, Value};

#[test]
fn round_trip_i32() {
    let v = Value::I32(-7);
    let e = v.to_external();
    assert_eq!(e.tag, wasmer_value_tag::WASM_I32);
    assert_eq!(e.value, (-7i32 as u32) as u64);
    assert_eq!(Value::from_external(e), v);
}

#[test]
fn round_trip_i64() {
    let v = Value::I64(-6_000_000_003);
    let e = v.to_external();
    assert_eq!(e.tag, wasmer_value_tag::WASM_I64);
    assert_eq!(Value::from_external(e), v);
}

#[test]
fn round_trip_f32_bits() {
    let bits = 1.5f32.to_bits();
    let v = Value::F32(bits);
    let e = v.to_external();
    assert_eq!(e.tag, wasmer_value_tag::WASM_F32);
    assert_eq!(e.value, bits as u64);
    assert_eq!(Value::from_external(e), v);
    assert_eq!(f32::from_bits(bits), 1.5f32);
}

#[test]
fn round_trip_f64_bits() {
    let bits = (-2.25f64).to_bits();
    let v = Value::F64(bits);
    let e = v.to_external();
    assert_eq!(e.tag, wasmer_value_tag::WASM_F64);
    assert_eq!(e.value, bits);
    assert_eq!(Value::from_external(e), v);
    assert_eq!(f64::from_bits(bits), -2.25f64);
}

#[test]
fn external_round_trip_is_bit_exact() {
    let e = wasmer_value_t { tag: wasmer_value_tag::WASM_I32, value: 0xFFFF_FFFF };
    let back = Value::from_external(e).to_external();
    assert_eq!(back.tag, wasmer_value_tag::WASM_I32);
    assert_eq!(back.value, 0xFFFF_FFFF);
}

#[test]
fn type_tag_conversions_invert() {
    for t in [Type::I32, Type::I64, Type::F32, Type::F64] {
        assert_eq!(t.to_tag().to_type(), t);
    }
    for g in [
        wasmer_value_tag::WASM_I32,
        wasmer_value_tag::WASM_I64,
        wasmer_value_tag::WASM_F32,
        wasmer_value_tag::WASM_F64,
    ] {
        assert_eq!(g.to_type().to_tag(), g);
    }
}
