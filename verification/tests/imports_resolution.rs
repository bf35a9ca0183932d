//! Import resolution: UTF-8 decoding, namespace grouping, overwrite on
//! collision.

use wasm_boundary::error::CApiError;
use wasm_boundary::exports::Export;
use wasm_boundary::imports::{
    resolve_imports, wasmer_import_export_value, wasmer_import_t,
};
use wasm_boundary::utf8::validate_utf8;

fn import(module: &[u8], name: &[u8], value: wasmer_import_export_value) -> wasmer_import_t {
    wasmer_import_t { module_name: module.to_vec(), import_name: name.to_vec(), value }
}

#[test]
fn groups_by_module_name() {
    let imports = vec![
        import(b"env", b"mem", wasmer_import_export_value::Memory(3)),
        import(b"host", b"tbl", wasmer_import_export_value::Table(4)),
        import(b"env", b"g", wasmer_import_export_value::Global(5)),
    ];
    let io = resolve_imports(&imports).unwrap();
    assert!(matches!(
        io.lookup(&b"env".to_vec(), &b"mem".to_vec()),
        Some(Export::Memory(3))
    ));
    assert!(matches!(
        io.lookup(&b"host".to_vec(), &b"tbl".to_vec()),
        Some(Export::Table(4))
    ));
    assert!(matches!(
        io.lookup(&b"env".to_vec(), &b"g".to_vec()),
        Some(Export::Global(5))
    ));
    assert!(io.lookup(&b"env".to_vec(), &b"tbl".to_vec()).is_none());
    assert!(io.lookup(&b"missing".to_vec(), &b"mem".to_vec()).is_none());
}

#[test]
fn later_import_overwrites_earlier() {
    // Two imports with the same module name and import name: only the later
    // one is visible in the resolved namespace.
    let imports = vec![
        import(b"env", b"mem", wasmer_import_export_value::Memory(1)),
        import(b"env", b"other", wasmer_import_export_value::Global(9)),
        import(b"env", b"mem", wasmer_import_export_value::Memory(2)),
    ];
    let io = resolve_imports(&imports).unwrap();
    assert!(matches!(
        io.lookup(&b"env".to_vec(), &b"mem".to_vec()),
        Some(Export::Memory(2))
    ));
    assert!(matches!(
        io.lookup(&b"env".to_vec(), &b"other".to_vec()),
        Some(Export::Global(9))
    ));
}

#[test]
fn invalid_module_name_aborts() {
    let imports = vec![
        import(b"env", b"ok", wasmer_import_export_value::Global(1)),
        import(b"\xFFbad", b"x", wasmer_import_export_value::Global(2)),
    ];
    assert!(matches!(resolve_imports(&imports), Err(CApiError::Utf8DecodeError)));
}

#[test]
fn invalid_import_name_aborts() {
    let imports = vec![import(b"env", b"\xC0\x80", wasmer_import_export_value::Table(1))];
    assert!(matches!(resolve_imports(&imports), Err(CApiError::Utf8DecodeError)));
}

#[test]
fn empty_import_list_resolves() {
    let io = resolve_imports(&vec![]).unwrap();
    assert!(io.lookup(&b"env".to_vec(), &b"x".to_vec()).is_none());
}

#[test]
fn utf8_validation_matches_std() {
    let samples: [&[u8]; 12] = [
        b"",
        b"plain ascii",
        "héllo wörld".as_bytes(),
        "日本語".as_bytes(),
        "🦀".as_bytes(),
        b"\xC0\xAF",             // overlong
        b"\xED\xA0\x80",         // surrogate
        b"\xF4\x90\x80\x80",     // above U+10FFFF
        b"\x80",                 // stray continuation
        b"\xC2",                 // truncated two-byte
        b"\xF0\x9F\xA6",         // truncated four-byte
        b"\xE0\xA0\x80",         // smallest three-byte
    ];
    for s in samples {
        assert_eq!(
            validate_utf8(&s.to_vec()),
            std::str::from_utf8(s).is_ok(),
            "mismatch on {:?}",
            s
        );
    }
}
