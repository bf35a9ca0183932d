//! Module metadata and descriptor enumeration.
//!
//! A [`ModuleInfo`] is the declared interface of a compiled module: its
//! exports in declaration order, its imports per kind in declaration order,
//! and the string tables the import records index into. Descriptor
//! enumeration turns that metadata into owned, order-stable listings for
//! introspection, without instantiating anything.

use vstd::prelude::*;

use crate::wasmer_import_export_kind;

verus! {

/// What a declared export points at inside the module, by kind and index
/// into the module's corresponding index space.
#[derive(Clone, Copy, PartialEq, Eq, Debug, Structural)]
pub enum ExportIndex {
    Func(u32),
    Global(u32),
    Memory(u32),
    Table(u32),
}

/// A declared export: a name and the export index it resolves to.
pub struct ExportEntry {
    pub name: Vec<u8>,
    pub index: ExportIndex,
}

/// A declared import's name, as indices into the module's namespace and name
/// tables.
#[derive(Clone, Copy, PartialEq, Eq, Debug, Structural)]
pub struct ImportName {
    pub namespace_index: usize,
    pub name_index: usize,
}

/// Declared interface of a compiled module.
pub struct ModuleInfo {
    pub exports: Vec<ExportEntry>,
    pub imported_functions: Vec<ImportName>,
    pub imported_tables: Vec<ImportName>,
    pub imported_globals: Vec<ImportName>,
    pub imported_memories: Vec<ImportName>,
    pub namespace_table: Vec<Vec<u8>>,
    pub name_table: Vec<Vec<u8>>,
}

impl ModuleInfo {
    /// Every import record indexes inside the two string tables.
    pub open spec fn wf(self) -> bool {
        &&& forall|k: int|
            0 <= k < self.imported_functions@.len() ==> (#[trigger] self.imported_functions@[k]).wf_for(
                self,
            )
        &&& forall|k: int|
            0 <= k < self.imported_tables@.len() ==> (#[trigger] self.imported_tables@[k]).wf_for(
                self,
            )
        &&& forall|k: int|
            0 <= k < self.imported_globals@.len() ==> (#[trigger] self.imported_globals@[k]).wf_for(
                self,
            )
        &&& forall|k: int|
            0 <= k < self.imported_memories@.len() ==> (#[trigger] self.imported_memories@[k]).wf_for(
                self,
            )
    }
}

impl ImportName {
    /// The record's indices lie inside `info`'s string tables.
    pub open spec fn wf_for(self, info: ModuleInfo) -> bool {
        self.namespace_index < info.namespace_table@.len() && self.name_index
            < info.name_table@.len()
    }
}

/// The kind a declared export reports, derived from its export index.
pub open spec fn kind_of_export_index(i: ExportIndex) -> wasmer_import_export_kind {
    match i {
        ExportIndex::Func(_) => wasmer_import_export_kind::WASM_FUNCTION,
        ExportIndex::Global(_) => wasmer_import_export_kind::WASM_GLOBAL,
        ExportIndex::Memory(_) => wasmer_import_export_kind::WASM_MEMORY,
        ExportIndex::Table(_) => wasmer_import_export_kind::WASM_TABLE,
    }
}

/// An export descriptor: name and kind of one declared export.
pub struct NamedExportDescriptor {
    pub name: Vec<u8>,
    pub kind: wasmer_import_export_kind,
}

/// The owned collection of a module's export descriptors, in declaration
/// order.
pub struct NamedExportDescriptors {
    pub items: Vec<NamedExportDescriptor>,
}

/// An import descriptor: module (namespace) name, import name and kind of
/// one declared import.
pub struct NamedImportDescriptor {
    pub module: Vec<u8>,
    pub name: Vec<u8>,
    pub kind: wasmer_import_export_kind,
}

/// The owned collection of a module's import descriptors, kind-major:
/// functions, then tables, then globals, then memories, each kind in
/// declaration order.
pub struct NamedImportDescriptors {
    pub items: Vec<NamedImportDescriptor>,
}

impl NamedExportDescriptors {
    /// Number of descriptors.
    pub fn len(&self) -> (r: usize)
        ensures
            r == self.items@.len(),
    {
        self.items.len()
    }

    /// The descriptor at `idx`, bounds-checked: nothing for an out-of-range
    /// index.
    pub fn get(&self, idx: usize) -> (r: Option<&NamedExportDescriptor>)
        ensures
            idx < self.items@.len() ==> r == Some(&self.items@[idx as int]),
            idx >= self.items@.len() ==> r is None,
    {
        if idx < self.items.len() {
            Some(&self.items[idx])
        } else {
            None
        }
    }
}

impl NamedImportDescriptors {
    /// Number of descriptors.
    pub fn len(&self) -> (r: usize)
        ensures
            r == self.items@.len(),
    {
        self.items.len()
    }

    /// The descriptor at `idx`, bounds-checked: nothing for an out-of-range
    /// index.
    pub fn get(&self, idx: usize) -> (r: Option<&NamedImportDescriptor>)
        ensures
            idx < self.items@.len() ==> r == Some(&self.items@[idx as int]),
            idx >= self.items@.len() ==> r is None,
    {
        if idx < self.items.len() {
            Some(&self.items[idx])
        } else {
            None
        }
    }
}

impl NamedExportDescriptor {
    /// The export's name bytes.
    pub fn name(&self) -> (r: &Vec<u8>)
        ensures
            r == &self.name,
    {
        &self.name
    }

    /// The export's kind.
    pub fn kind(&self) -> (r: wasmer_import_export_kind)
        ensures
            r == self.kind,
    {
        self.kind
    }
}

impl NamedImportDescriptor {
    /// The import's name bytes.
    pub fn name(&self) -> (r: &Vec<u8>)
        ensures
            r == &self.name,
    {
        &self.name
    }

    /// The import's module (namespace) name bytes.
    pub fn module_name(&self) -> (r: &Vec<u8>)
        ensures
            r == &self.module,
    {
        &self.module
    }

    /// The import's kind.
    pub fn kind(&self) -> (r: wasmer_import_export_kind)
        ensures
            r == self.kind,
    {
        self.kind
    }
}

/// Copy a byte string.
pub fn copy_bytes(v: &Vec<u8>) -> (r: Vec<u8>)
    ensures
        r@ == v@,
{
    let n = v.len();
    let mut r: Vec<u8> = Vec::new();
    let mut i: usize = 0;
    while i < n
        invariant
            n == v@.len(),
            i <= n,
            r@.len() == i,
            forall|k: int| 0 <= k < i ==> r@[k] == v@[k],
        decreases n - i,
    {
        r.push(v[i]);
        i = i + 1;
    }
    proof {
        assert(r@ =~= v@);
    }
    r
}

/// The export descriptor listing of `info`: one descriptor per declared
/// export, in declaration order, named after the export and kinded after its
/// export index.
pub fn wasmer_export_descriptors(info: &ModuleInfo) -> (r: NamedExportDescriptors)
    ensures
        r.items@.len() == info.exports@.len(),
        forall|k: int|
            0 <= k < info.exports@.len() ==> {
                &&& (#[trigger] r.items@[k]).name@ == info.exports@[k].name@
                &&& r.items@[k].kind == kind_of_export_index(info.exports@[k].index)
            },
{
    let n = info.exports.len();
    let mut items: Vec<NamedExportDescriptor> = Vec::new();
    let mut i: usize = 0;
    while i < n
        invariant
            n == info.exports@.len(),
            i <= n,
            items@.len() == i,
            forall|k: int|
                0 <= k < i ==> {
                    &&& (#[trigger] items@[k]).name@ == info.exports@[k].name@
                    &&& items@[k].kind == kind_of_export_index(info.exports@[k].index)
                },
        decreases n - i,
    {
        let entry = &info.exports[i];
        let kind = match entry.index {
            ExportIndex::Func(_) => wasmer_import_export_kind::WASM_FUNCTION,
            ExportIndex::Global(_) => wasmer_import_export_kind::WASM_GLOBAL,
            ExportIndex::Memory(_) => wasmer_import_export_kind::WASM_MEMORY,
            ExportIndex::Table(_) => wasmer_import_export_kind::WASM_TABLE,
        };
        items.push(NamedExportDescriptor { name: copy_bytes(&entry.name), kind });
        i = i + 1;
    }
    NamedExportDescriptors { items }
}

/// The import descriptor a record of `list` at position `k` denotes, for the
/// given kind.
pub open spec fn import_desc_at(
    info: ModuleInfo,
    list: Seq<ImportName>,
    kind: wasmer_import_export_kind,
    k: int,
) -> (Seq<u8>, Seq<u8>, wasmer_import_export_kind) {
    (info.namespace_table@[list[k].namespace_index as int]@, info.name_table@[list[k].name_index as int]@, kind)
}

/// The descriptor triple `r.items@[k]` denotes.
pub open spec fn desc_triple(d: NamedImportDescriptor) -> (Seq<u8>, Seq<u8>, wasmer_import_export_kind) {
    (d.module@, d.name@, d.kind)
}

/// The import descriptor listing of `info`, emitted kind-major: all imported
/// functions, then all imported tables, then all imported globals, then all
/// imported memories, each pass preserving declaration order within its
/// kind.
pub fn wasmer_import_descriptors(info: &ModuleInfo) -> (r: NamedImportDescriptors)
    requires
        info.wf(),
    ensures
        r.items@.len() == info.imported_functions@.len() + info.imported_tables@.len()
            + info.imported_globals@.len() + info.imported_memories@.len(),
        forall|k: int|
            0 <= k < info.imported_functions@.len() ==> desc_triple(#[trigger] r.items@[k])
                == import_desc_at(
                *info,
                info.imported_functions@,
                wasmer_import_export_kind::WASM_FUNCTION,
                k,
            ),
        forall|k: int|
            0 <= k < info.imported_tables@.len() ==> desc_triple(
                #[trigger] r.items@[info.imported_functions@.len() + k],
            ) == import_desc_at(
                *info,
                info.imported_tables@,
                wasmer_import_export_kind::WASM_TABLE,
                k,
            ),
        forall|k: int|
            0 <= k < info.imported_globals@.len() ==> desc_triple(
                #[trigger] r.items@[info.imported_functions@.len() + info.imported_tables@.len()
                    + k],
            ) == import_desc_at(
                *info,
                info.imported_globals@,
                wasmer_import_export_kind::WASM_GLOBAL,
                k,
            ),
        forall|k: int|
            0 <= k < info.imported_memories@.len() ==> desc_triple(
                #[trigger] r.items@[info.imported_functions@.len() + info.imported_tables@.len()
                    + info.imported_globals@.len() + k],
            ) == import_desc_at(
                *info,
                info.imported_memories@,
                wasmer_import_export_kind::WASM_MEMORY,
                k,
            ),
{
    let nf = Ghost(info.imported_functions@.len() as int);
    let nt = Ghost(info.imported_tables@.len() as int);
    let ng = Ghost(info.imported_globals@.len() as int);
    let mut items: Vec<NamedImportDescriptor> = Vec::new();
    push_import_descs(info, &info.imported_functions, wasmer_import_export_kind::WASM_FUNCTION, &mut items);
    let s1 = Ghost(items@);
    push_import_descs(info, &info.imported_tables, wasmer_import_export_kind::WASM_TABLE, &mut items);
    let s2 = Ghost(items@);
    push_import_descs(info, &info.imported_globals, wasmer_import_export_kind::WASM_GLOBAL, &mut items);
    let s3 = Ghost(items@);
    push_import_descs(info, &info.imported_memories, wasmer_import_export_kind::WASM_MEMORY, &mut items);
    proof {
        assert forall|k: int| 0 <= k < nf@ implies desc_triple(#[trigger] items@[k])
            == import_desc_at(*info, info.imported_functions@, wasmer_import_export_kind::WASM_FUNCTION, k) by {
            assert(items@[k] == s3@[k]);
            assert(s3@[k] == s2@[k]);
            assert(s2@[k] == s1@[k]);
            assert(desc_triple(s1@[0 + k]) == import_desc_at(
                *info,
                info.imported_functions@,
                wasmer_import_export_kind::WASM_FUNCTION,
                k,
            ));
        }
        assert forall|k: int| 0 <= k < nt@ implies desc_triple(#[trigger] items@[nf@ + k])
            == import_desc_at(*info, info.imported_tables@, wasmer_import_export_kind::WASM_TABLE, k) by {
            assert(items@[nf@ + k] == s3@[nf@ + k]);
            assert(s3@[nf@ + k] == s2@[nf@ + k]);
        }
        assert forall|k: int| 0 <= k < ng@ implies desc_triple(#[trigger] items@[nf@ + nt@ + k])
            == import_desc_at(*info, info.imported_globals@, wasmer_import_export_kind::WASM_GLOBAL, k) by {
            assert(items@[nf@ + nt@ + k] == s3@[nf@ + nt@ + k]);
        }
    }
    NamedImportDescriptors { items }
}

/// Append one descriptor per record of `list`, in order, all of kind `kind`.
fn push_import_descs(
    info: &ModuleInfo,
    list: &Vec<ImportName>,
    kind: wasmer_import_export_kind,
    items: &mut Vec<NamedImportDescriptor>,
)
    requires
        forall|k: int| 0 <= k < list@.len() ==> (#[trigger] list@[k]).wf_for(*info),
    ensures
        final(items)@.len() == old(items)@.len() + list@.len(),
        forall|k: int| 0 <= k < old(items)@.len() ==> final(items)@[k] == old(items)@[k],
        forall|k: int|
            0 <= k < list@.len() ==> desc_triple(
                #[trigger] final(items)@[old(items)@.len() + k],
            ) == import_desc_at(*info, list@, kind, k),
{
    let n = list.len();
    let mut i: usize = 0;
    while i < n
        invariant
            n == list@.len(),
            i <= n,
            forall|k: int| 0 <= k < list@.len() ==> (#[trigger] list@[k]).wf_for(*info),
            items@.len() == old(items)@.len() + i,
            forall|k: int| 0 <= k < old(items)@.len() ==> items@[k] == old(items)@[k],
            forall|k: int|
                0 <= k < i ==> desc_triple(#[trigger] items@[old(items)@.len() + k])
                    == import_desc_at(*info, list@, kind, k),
        decreases n - i,
    {
        let imp = &list[i];
        let module = copy_bytes(&info.namespace_table[imp.namespace_index]);
        let name = copy_bytes(&info.name_table[imp.name_index]);
        items.push(NamedImportDescriptor { module, name, kind });
        i = i + 1;
    }
}

} // verus!
