//! Descriptor enumeration: export order and kind-major import order.

use wasm_boundary::module_info::{
    wasmer_export_descriptors, wasmer_import_descriptors, ExportEntry, ExportIndex, ImportName,
    ModuleInfo,
};
use wasm_boundary::wasmer_import_export_kind;

fn demo_module() -> ModuleInfo {
    // Declared imports, in module declaration order the engine records them:
    // functions, tables, globals and memories each keep their own order.
    ModuleInfo {
        exports: vec![
            ExportEntry { name: b"main".to_vec(), index: ExportIndex::Func(0) },
            ExportEntry { name: b"mem".to_vec(), index: ExportIndex::Memory(0) },
            ExportEntry { name: b"tbl".to_vec(), index: ExportIndex::Table(0) },
            ExportEntry { name: b"g".to_vec(), index: ExportIndex::Global(0) },
        ],
        imported_functions: vec![
            ImportName { namespace_index: 0, name_index: 0 },
            ImportName { namespace_index: 1, name_index: 1 },
        ],
        imported_tables: vec![ImportName { namespace_index: 0, name_index: 2 }],
        imported_globals: vec![ImportName { namespace_index: 1, name_index: 3 }],
        imported_memories: vec![ImportName { namespace_index: 0, name_index: 4 }],
        namespace_table: vec![b"env".to_vec(), b"host".to_vec()],
        name_table: vec![
            b"log".to_vec(),
            b"abort".to_vec(),
            b"table".to_vec(),
            b"counter".to_vec(),
            b"memory".to_vec(),
        ],
    }
}

#[test]
fn export_descriptors_keep_declaration_order() {
    let info = demo_module();
    let descs = wasmer_export_descriptors(&info);
    assert_eq!(descs.len(), 4);
    let expect = [
        (b"main".to_vec(), wasmer_import_export_kind::WASM_FUNCTION),
        (b"mem".to_vec(), wasmer_import_export_kind::WASM_MEMORY),
        (b"tbl".to_vec(), wasmer_import_export_kind::WASM_TABLE),
        (b"g".to_vec(), wasmer_import_export_kind::WASM_GLOBAL),
    ];
    for (i, (name, kind)) in expect.iter().enumerate() {
        let d = descs.get(i).unwrap();
        assert_eq!(d.name(), name);
        assert_eq!(d.kind(), *kind);
    }
    assert!(descs.get(4).is_none());
}

#[test]
fn import_descriptors_are_kind_major() {
    let info = demo_module();
    let descs = wasmer_import_descriptors(&info);
    assert_eq!(descs.len(), 5);
    // Functions first, then tables, then globals, then memories; within each
    // kind, declaration order — not one declaration-order pass.
    let expect = [
        (b"env".to_vec(), b"log".to_vec(), wasmer_import_export_kind::WASM_FUNCTION),
        (b"host".to_vec(), b"abort".to_vec(), wasmer_import_export_kind::WASM_FUNCTION),
        (b"env".to_vec(), b"table".to_vec(), wasmer_import_export_kind::WASM_TABLE),
        (b"host".to_vec(), b"counter".to_vec(), wasmer_import_export_kind::WASM_GLOBAL),
        (b"env".to_vec(), b"memory".to_vec(), wasmer_import_export_kind::WASM_MEMORY),
    ];
    for (i, (module, name, kind)) in expect.iter().enumerate() {
        let d = descs.get(i).unwrap();
        assert_eq!(d.module_name(), module);
        assert_eq!(d.name(), name);
        assert_eq!(d.kind(), *kind);
    }
    assert!(descs.get(5).is_none());
}

#[test]
fn empty_module_has_no_descriptors() {
    let info = ModuleInfo {
        exports: vec![],
        imported_functions: vec![],
        imported_tables: vec![],
        imported_globals: vec![],
        imported_memories: vec![],
        namespace_table: vec![],
        name_table: vec![],
    };
    assert_eq!(wasmer_export_descriptors(&info).len(), 0);
    assert_eq!(wasmer_import_descriptors(&info).len(), 0);
}
