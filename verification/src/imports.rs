//! Import resolution: grouping a flat list of host imports into
//! per-namespace tables.
//!
//! The host supplies imports as (module-name, import-name, value) records.
//! Resolution decodes both names as UTF-8 — any invalid name aborts the
//! whole operation with no partial table — looks up or creates the
//! namespace keyed by module name, converts the tagged value into the
//! engine's export representation, and inserts it under the import name,
//! where a later import with the same two names overwrites an earlier one.

use vstd::prelude::*;

use crate::error::CApiError;
use crate::exports::{Export, ExportV, FuncSig};
use crate::module_info::copy_bytes;
use crate::utf8::{valid_utf8, validate_utf8};
use crate::values::Type;

verus! {

/// The value of one host import, mirroring the boundary's tagged union: a
/// host function export, or a shared handle to an engine memory, table or
/// global.
#[allow(non_camel_case_types)]
pub enum wasmer_import_export_value {
    Function { func: usize, signature: FuncSig },
    Memory(usize),
    Table(usize),
    Global(usize),
}

impl View for wasmer_import_export_value {
    type V = ExportV;

    /// The capability the tagged value denotes once resolved: a function
    /// import is taken as the already-constructed function export, the other
    /// kinds become the export that shares their handle.
    open spec fn view(&self) -> ExportV {
        match self {
            wasmer_import_export_value::Function { func, signature } => ExportV::Function {
                func: *func,
                signature: signature@,
            },
            wasmer_import_export_value::Memory(h) => ExportV::Memory(*h),
            wasmer_import_export_value::Table(h) => ExportV::Table(*h),
            wasmer_import_export_value::Global(h) => ExportV::Global(*h),
        }
    }
}

impl wasmer_import_export_value {
    /// Convert this import value into the engine's export representation.
    /// Cloning a memory, table or global handle shares the underlying
    /// resource; a function import is reused as the function export the host
    /// built for it.
    pub fn to_export(&self) -> (r: Export)
        ensures
            r@ == self@,
    {
        match self {
            wasmer_import_export_value::Function { func, signature } => Export::Function {
                func: *func,
                signature: FuncSig {
                    params: copy_types(&signature.params),
                    returns: copy_types(&signature.returns),
                },
            },
            wasmer_import_export_value::Memory(h) => Export::Memory(*h),
            wasmer_import_export_value::Table(h) => Export::Table(*h),
            wasmer_import_export_value::Global(h) => Export::Global(*h),
        }
    }
}

/// Copy a type list.
fn copy_types(v: &Vec<Type>) -> (r: Vec<Type>)
    ensures
        r@ == v@,
{
    let n = v.len();
    let mut r: Vec<Type> = Vec::new();
    let mut i: usize = 0;
    while i < n
        invariant
            n == v@.len(),
            i <= n,
            r@.len() == i,
            forall|k: int| 0 <= k < i ==> r@[k] == v@[k],
        decreases n - i,
    {
        r.push(v[i]);
        i = i + 1;
    }
    proof {
        assert(r@ =~= v@);
    }
    r
}

/// One host import record.
#[allow(non_camel_case_types)]
pub struct wasmer_import_t {
    pub module_name: Vec<u8>,
    pub import_name: Vec<u8>,
    pub value: wasmer_import_export_value,
}

/// Abstract value of an import record.
pub struct ImportV {
    pub module_name: Seq<u8>,
    pub import_name: Seq<u8>,
    pub value: ExportV,
}

impl View for wasmer_import_t {
    type V = ImportV;

    open spec fn view(&self) -> ImportV {
        ImportV {
            module_name: self.module_name@,
            import_name: self.import_name@,
            value: self.value@,
        }
    }
}

/// The abstract values of a list of import records, in order.
pub open spec fn imports_view(s: Seq<wasmer_import_t>) -> Seq<ImportV> {
    s.map_values(|i: wasmer_import_t| i@)
}

/// Both names of every record are valid UTF-8.
pub open spec fn all_names_valid(s: Seq<ImportV>) -> bool {
    forall|k: int|
        0 <= k < s.len() ==> valid_utf8((#[trigger] s[k]).module_name) && valid_utf8(
            s[k].import_name,
        )
}

// ------------------------------------------------------------------
// Association vectors viewed as maps
// ------------------------------------------------------------------
/// The map an association sequence denotes; a later pair with the same key
/// shadows an earlier one.
pub open spec fn assoc_map<T>(s: Seq<(Seq<u8>, T)>) -> Map<Seq<u8>, T>
    decreases s.len(),
{
    if s.len() == 0 {
        Map::empty()
    } else {
        assoc_map(s.drop_last()).insert(s.last().0, s.last().1)
    }
}

/// No two pairs share a key.
pub open spec fn unique_keys<T>(s: Seq<(Seq<u8>, T)>) -> bool {
    forall|i: int, j: int| 0 <= i < j < s.len() ==> (#[trigger] s[i]).0 != (#[trigger] s[j]).0
}

/// A key is in the map exactly when some pair carries it.
pub proof fn lemma_assoc_contains<T>(s: Seq<(Seq<u8>, T)>, k: Seq<u8>)
    ensures
        assoc_map(s).contains_key(k) <==> exists|i: int| 0 <= i < s.len() && (#[trigger] s[i]).0 == k,
    decreases s.len(),
{
    if s.len() > 0 {
        lemma_assoc_contains(s.drop_last(), k);
        if s.last().0 == k {
            assert(s[s.len() - 1].0 == k);
        } else {
            if assoc_map(s).contains_key(k) {
                let i = choose|i: int| 0 <= i < s.drop_last().len() && (#[trigger] s.drop_last()[i]).0 == k;
                assert(s[i].0 == k);
            }
            if exists|i: int| 0 <= i < s.len() && (#[trigger] s[i]).0 == k {
                let i = choose|i: int| 0 <= i < s.len() && (#[trigger] s[i]).0 == k;
                assert(i < s.len() - 1);
                assert(s.drop_last()[i].0 == k);
            }
        }
    }
}

/// With unique keys, the pair at `i` gives the map's value at its key.
pub proof fn lemma_assoc_lookup<T>(s: Seq<(Seq<u8>, T)>, i: int)
    requires
        unique_keys(s),
        0 <= i < s.len(),
    ensures
        assoc_map(s).contains_key(s[i].0),
        assoc_map(s)[s[i].0] == s[i].1,
    decreases s.len(),
{
    if i == s.len() - 1 {
    } else {
        assert(s.drop_last()[i] == s[i]);
        lemma_assoc_lookup(s.drop_last(), i);
        assert(s[i].0 != s.last().0);
    }
}

/// Appending a fresh pair inserts its binding.
pub proof fn lemma_assoc_push<T>(s: Seq<(Seq<u8>, T)>, k: Seq<u8>, v: T)
    ensures
        assoc_map(s.push((k, v))) == assoc_map(s).insert(k, v),
{
    assert(s.push((k, v)).drop_last() =~= s);
    assert(s.push((k, v)).last() == (k, v));
}

/// Overwriting the pair that carries `k` (keys unique) updates its binding.
pub proof fn lemma_assoc_update<T>(s: Seq<(Seq<u8>, T)>, i: int, v: T)
    requires
        unique_keys(s),
        0 <= i < s.len(),
    ensures
        assoc_map(s.update(i, (s[i].0, v))) == assoc_map(s).insert(s[i].0, v),
    decreases s.len(),
{
    let k = s[i].0;
    let t = s.update(i, (k, v));
    if i == s.len() - 1 {
        assert(t.drop_last() =~= s.drop_last());
        assert(t.last() == (k, v));
        assert(assoc_map(t) == assoc_map(s.drop_last()).insert(k, v));
        assert(assoc_map(s.drop_last()).insert(k, s[i].1).insert(k, v) =~= assoc_map(
            s.drop_last(),
        ).insert(k, v));
    } else {
        assert(t.drop_last() =~= s.drop_last().update(i, (k, v)));
        assert(t.last() == s.last());
        assert(s.drop_last()[i] == s[i]);
        lemma_assoc_update(s.drop_last(), i, v);
        assert(assoc_map(t) == assoc_map(s.drop_last()).insert(k, v).insert(
            s.last().0,
            s.last().1,
        ));
        assert(s.last().0 != k);
        assert(assoc_map(s.drop_last()).insert(k, v).insert(s.last().0, s.last().1) =~= assoc_map(
            s.drop_last(),
        ).insert(s.last().0, s.last().1).insert(k, v));
    }
}

/// Decide byte-string equality.
pub fn eq_bytes(a: &Vec<u8>, b: &Vec<u8>) -> (r: bool)
    ensures
        r <==> a@ == b@,
{
    let n = a.len();
    if n != b.len() {
        proof {
            assert(a@ != b@);
        }
        return false;
    }
    let mut i: usize = 0;
    while i < n
        invariant
            n == a@.len(),
            n == b@.len(),
            i <= n,
            forall|k: int| 0 <= k < i ==> a@[k] == b@[k],
        decreases n - i,
    {
        if a[i] != b[i] {
            return false;
        }
        i = i + 1;
    }
    proof {
        assert(a@ =~= b@);
    }
    true
}

// ------------------------------------------------------------------
// Namespaces
// ------------------------------------------------------------------
/// The imports grouped under one module name, keyed by import name.
pub struct Namespace {
    pub entries: Vec<(Vec<u8>, Export)>,
}

/// The (key view, value view) pairs of a namespace's entries.
pub open spec fn ns_pairs(s: Seq<(Vec<u8>, Export)>) -> Seq<(Seq<u8>, ExportV)> {
    s.map_values(|p: (Vec<u8>, Export)| (p.0@, p.1@))
}

impl View for Namespace {
    type V = Map<Seq<u8>, ExportV>;

    open spec fn view(&self) -> Map<Seq<u8>, ExportV> {
        assoc_map(ns_pairs(self.entries@))
    }
}

impl Namespace {
    /// Import names are unique within the namespace.
    pub open spec fn wf(self) -> bool {
        unique_keys(ns_pairs(self.entries@))
    }

    /// An empty namespace.
    pub fn new() -> (r: Namespace)
        ensures
            r@ == Map::<Seq<u8>, ExportV>::empty(),
            r.wf(),
    {
        let r = Namespace { entries: Vec::new() };
        proof {
            assert(ns_pairs(r.entries@) =~= Seq::<(Seq<u8>, ExportV)>::empty());
        }
        r
    }

    /// Insert an export under an import name; a name already present is
    /// overwritten.
    pub fn insert(&mut self, name: Vec<u8>, export: Export)
        requires
            old(self).wf(),
        ensures
            final(self).wf(),
            final(self)@ == old(self)@.insert(name@, export@),
    {
        let n = self.entries.len();
        let mut i: usize = 0;
        while i < n
            invariant
                n == self.entries@.len(),
                i <= n,
                forall|k: int| 0 <= k < i ==> (#[trigger] self.entries@[k]).0@ != name@,
                self == old(self),
                self.wf(),
            decreases n - i,
        {
            if eq_bytes(&self.entries[i].0, &name) {
                proof {
                    assert(ns_pairs(self.entries@)[i as int].0 == name@);
                    lemma_assoc_update(ns_pairs(self.entries@), i as int, export@);
                    assert(ns_pairs(self.entries@.update(i as int, (name, export))) =~= ns_pairs(
                        self.entries@,
                    ).update(i as int, (name@, export@)));
                }
                self.entries[i] = (name, export);
                proof {
                    lemma_unique_after_update(ns_pairs(old(self).entries@), i as int, export@);
                }
                return ;
            }
            i = i + 1;
        }
        proof {
            lemma_assoc_push(ns_pairs(self.entries@), name@, export@);
            assert(ns_pairs(self.entries@.push((name, export))) =~= ns_pairs(
                self.entries@,
            ).push((name@, export@)));
            assert forall|k: int|
                0 <= k < ns_pairs(self.entries@).len() implies (#[trigger] ns_pairs(
                self.entries@,
            )[k]).0 != name@ by {
                assert(self.entries@[k].0@ != name@);
            }
        }
        self.entries.push((name, export));
    }

    /// Look up an export by import name.
    pub fn get(&self, name: &Vec<u8>) -> (r: Option<&Export>)
        requires
            self.wf(),
        ensures
            self@.contains_key(name@) ==> (r matches Some(e) && e@ == self@[name@]),
            !self@.contains_key(name@) ==> r is None,
    {
        proof {
            lemma_assoc_contains(ns_pairs(self.entries@), name@);
        }
        let n = self.entries.len();
        let mut i: usize = 0;
        while i < n
            invariant
                self.wf(),
                n == self.entries@.len(),
                i <= n,
                forall|k: int| 0 <= k < i ==> (#[trigger] self.entries@[k]).0@ != name@,
            decreases n - i,
        {
            if eq_bytes(&self.entries[i].0, &name) {
                proof {
                    assert(ns_pairs(self.entries@)[i as int].0 == name@);
                    lemma_assoc_lookup(ns_pairs(self.entries@), i as int);
                }
                return Some(&self.entries[i].1);
            }
            i = i + 1;
        }
        proof {
            assert forall|k: int|
                0 <= k < ns_pairs(self.entries@).len() implies (#[trigger] ns_pairs(
                self.entries@,
            )[k]).0 != name@ by {
                assert(self.entries@[k].0@ != name@);
            }
        }
        None
    }
}

/// Uniqueness survives overwriting the value at one key.
proof fn lemma_unique_after_update<T>(s: Seq<(Seq<u8>, T)>, i: int, v: T)
    requires
        unique_keys(s),
        0 <= i < s.len(),
    ensures
        unique_keys(s.update(i, (s[i].0, v))),
{
    let t = s.update(i, (s[i].0, v));
    assert forall|a: int, b: int| 0 <= a < b < t.len() implies (#[trigger] t[a]).0 != (
    #[trigger] t[b]).0 by {
        assert(t[a].0 == s[a].0);
        assert(t[b].0 == s[b].0);
    }
}


// ------------------------------------------------------------------
// The import object
// ------------------------------------------------------------------
/// The resolved import table: one namespace per module name.
pub struct ImportObject {
    pub namespaces: Vec<(Vec<u8>, Namespace)>,
}

/// The (key view, namespace view) pairs of the table.
pub open spec fn io_pairs(s: Seq<(Vec<u8>, Namespace)>) -> Seq<(Seq<u8>, Map<Seq<u8>, ExportV>)> {
    s.map_values(|p: (Vec<u8>, Namespace)| (p.0@, p.1@))
}

impl View for ImportObject {
    type V = Map<Seq<u8>, Map<Seq<u8>, ExportV>>;

    open spec fn view(&self) -> Map<Seq<u8>, Map<Seq<u8>, ExportV>> {
        assoc_map(io_pairs(self.namespaces@))
    }
}

impl ImportObject {
    /// Module names are unique and every namespace is well formed.
    pub open spec fn wf(self) -> bool {
        &&& unique_keys(io_pairs(self.namespaces@))
        &&& forall|k: int|
            0 <= k < self.namespaces@.len() ==> (#[trigger] self.namespaces@[k]).1.wf()
    }

    /// An empty import table.
    pub fn new() -> (r: ImportObject)
        ensures
            r@ == Map::<Seq<u8>, Map<Seq<u8>, ExportV>>::empty(),
            r.wf(),
    {
        let r = ImportObject { namespaces: Vec::new() };
        proof {
            assert(io_pairs(r.namespaces@) =~= Seq::<(Seq<u8>, Map<Seq<u8>, ExportV>)>::empty());
        }
        r
    }

    /// Insert one resolved import: look up or create the namespace keyed by
    /// `module`, then bind `export` under `name` there, overwriting an
    /// earlier binding of the same two names.
    pub fn insert_import(&mut self, module: Vec<u8>, name: Vec<u8>, export: Export)
        requires
            old(self).wf(),
        ensures
            final(self).wf(),
            final(self)@ == old(self)@.insert(
                module@,
                (if old(self)@.contains_key(module@) {
                    old(self)@[module@]
                } else {
                    Map::empty()
                }).insert(name@, export@),
            ),
    {
        proof {
            lemma_assoc_contains(io_pairs(self.namespaces@), module@);
        }
        let n = self.namespaces.len();
        let mut i: usize = 0;
        while i < n
            invariant
                n == self.namespaces@.len(),
                i <= n,
                forall|k: int| 0 <= k < i ==> (#[trigger] self.namespaces@[k]).0@ != module@,
                self == old(self),
                self.wf(),
            decreases n - i,
        {
            if eq_bytes(&self.namespaces[i].0, &module) {
                proof {
                    assert(io_pairs(self.namespaces@)[i as int].0 == module@);
                    lemma_assoc_lookup(io_pairs(self.namespaces@), i as int);
                }
                let pair = &mut self.namespaces[i];
                pair.1.insert(name, export);
                proof {
                    assert(self.namespaces@ =~= old(self).namespaces@.update(
                        i as int,
                        self.namespaces@[i as int],
                    ));
                    assert(self.namespaces@[i as int].0@ == module@);
                    assert(io_pairs(self.namespaces@) =~= io_pairs(old(self).namespaces@).update(
                        i as int,
                        (module@, self.namespaces@[i as int].1@),
                    ));
                    lemma_assoc_update(
                        io_pairs(old(self).namespaces@),
                        i as int,
                        self.namespaces@[i as int].1@,
                    );
                    lemma_unique_after_update(
                        io_pairs(old(self).namespaces@),
                        i as int,
                        self.namespaces@[i as int].1@,
                    );
                    assert forall|k: int|
                        0 <= k < self.namespaces@.len() implies (
                    #[trigger] self.namespaces@[k]).1.wf() by {
                        if k != i as int {
                            assert(self.namespaces@[k] == old(self).namespaces@[k]);
                        }
                    }
                }
                return ;
            }
            i = i + 1;
        }
        proof {
            assert forall|k: int|
                0 <= k < io_pairs(self.namespaces@).len() implies (#[trigger] io_pairs(
                self.namespaces@,
            )[k]).0 != module@ by {
                assert(self.namespaces@[k].0@ != module@);
            }
            assert(!old(self)@.contains_key(module@));
        }
        let mut ns = Namespace::new();
        ns.insert(name, export);
        proof {
            lemma_assoc_push(io_pairs(self.namespaces@), module@, ns@);
            assert(io_pairs(self.namespaces@.push((module, ns))) =~= io_pairs(
                self.namespaces@,
            ).push((module@, ns@)));
        }
        self.namespaces.push((module, ns));
        proof {
            assert forall|k: int|
                0 <= k < self.namespaces@.len() implies (#[trigger] self.namespaces@[k]).1.wf() by {
                if k < self.namespaces@.len() - 1 {
                    assert(self.namespaces@[k] == old(self).namespaces@[k]);
                }
            }
        }
    }

    /// Look up the resolved export bound under (`module`, `name`).
    pub fn lookup(&self, module: &Vec<u8>, name: &Vec<u8>) -> (r: Option<&Export>)
        requires
            self.wf(),
        ensures
            self@.contains_key(module@) && self@[module@].contains_key(name@) ==> (r matches Some(e)
                && e@ == self@[module@][name@]),
            !(self@.contains_key(module@) && self@[module@].contains_key(name@)) ==> r is None,
    {
        proof {
            lemma_assoc_contains(io_pairs(self.namespaces@), module@);
        }
        let n = self.namespaces.len();
        let mut i: usize = 0;
        while i < n
            invariant
                self.wf(),
                n == self.namespaces@.len(),
                i <= n,
                forall|k: int| 0 <= k < i ==> (#[trigger] self.namespaces@[k]).0@ != module@,
            decreases n - i,
        {
            if eq_bytes(&self.namespaces[i].0, &module) {
                proof {
                    assert(io_pairs(self.namespaces@)[i as int].0 == module@);
                    lemma_assoc_lookup(io_pairs(self.namespaces@), i as int);
                }
                return self.namespaces[i].1.get(name);
            }
            i = i + 1;
        }
        proof {
            assert forall|k: int|
                0 <= k < io_pairs(self.namespaces@).len() implies (#[trigger] io_pairs(
                self.namespaces@,
            )[k]).0 != module@ by {
                assert(self.namespaces@[k].0@ != module@);
            }
        }
        None
    }
}

// ------------------------------------------------------------------
// Resolution
// ------------------------------------------------------------------
/// The import table a list of imports resolves to: records are folded in
/// order, each binding its value under (module name, import name); a later
/// record with the same two names overwrites the earlier binding.
pub open spec fn resolve_spec(s: Seq<ImportV>) -> Map<Seq<u8>, Map<Seq<u8>, ExportV>>
    decreases s.len(),
{
    if s.len() == 0 {
        Map::empty()
    } else {
        let prev = resolve_spec(s.drop_last());
        let imp = s.last();
        let ns = if prev.contains_key(imp.module_name) {
            prev[imp.module_name]
        } else {
            Map::empty()
        };
        prev.insert(imp.module_name, ns.insert(imp.import_name, imp.value))
    }
}

/// Resolve a list of host imports into the per-namespace import table.
/// Succeeds exactly when every module name and import name is valid UTF-8;
/// the first invalid name aborts the whole resolution, leaving no partial
/// table, with `Utf8DecodeError`.
pub fn resolve_imports(imports: &Vec<wasmer_import_t>) -> (r: Result<ImportObject, CApiError>)
    ensures
        r is Ok <==> all_names_valid(imports_view(imports@)),
        r matches Ok(io) ==> io.wf() && io@ == resolve_spec(imports_view(imports@)),
        r is Err ==> r == Err::<ImportObject, CApiError>(CApiError::Utf8DecodeError),
{
    let n = imports.len();
    let mut io = ImportObject::new();
    let mut i: usize = 0;
    while i < n
        invariant
            n == imports@.len(),
            i <= n,
            io.wf(),
            io@ == resolve_spec(imports_view(imports@).take(i as int)),
            forall|k: int|
                0 <= k < i ==> valid_utf8((#[trigger] imports_view(imports@)[k]).module_name)
                    && valid_utf8(imports_view(imports@)[k].import_name),
        decreases n - i,
    {
        let imp = &imports[i];
        proof {
            assert(imports_view(imports@)[i as int] == imports@[i as int]@);
        }
        if !validate_utf8(&imp.module_name) {
            return Err(CApiError::Utf8DecodeError);
        }
        if !validate_utf8(&imp.import_name) {
            return Err(CApiError::Utf8DecodeError);
        }
        let module = copy_bytes(&imp.module_name);
        let name = copy_bytes(&imp.import_name);
        let export = imp.value.to_export();
        io.insert_import(module, name, export);
        proof {
            let vs = imports_view(imports@);
            assert(vs.take(i + 1).drop_last() =~= vs.take(i as int));
            assert(vs.take(i + 1).last() == vs[i as int]);
            assert(vs[i as int] == imports@[i as int]@);
        }
        i = i + 1;
    }
    proof {
        assert(imports_view(imports@).take(n as int) =~= imports_view(imports@));
    }
    Ok(io)
}

/// Import merge: of several imports that share a module name and an import
/// name, only the last is visible in the resolved table. If the record at
/// `i` is the last one with its two names, the resolved table binds exactly
/// its value under them.
pub proof fn lemma_later_import_wins(s: Seq<ImportV>, i: int)
    requires
        0 <= i < s.len(),
        forall|j: int|
            i < j < s.len() ==> !((#[trigger] s[j]).module_name == s[i].module_name
                && s[j].import_name == s[i].import_name),
    ensures
        resolve_spec(s).contains_key(s[i].module_name),
        resolve_spec(s)[s[i].module_name].contains_key(s[i].import_name),
        resolve_spec(s)[s[i].module_name][s[i].import_name] == s[i].value,
    decreases s.len(),
{
    let m = s[i].module_name;
    let nm = s[i].import_name;
    if i == s.len() - 1 {
    } else {
        assert(s.drop_last()[i] == s[i]);
        assert forall|j: int|
            i < j < s.drop_last().len() implies !((#[trigger] s.drop_last()[j]).module_name == m
            && s.drop_last()[j].import_name == nm) by {
            assert(s.drop_last()[j] == s[j]);
        }
        lemma_later_import_wins(s.drop_last(), i);
        let last = s.last();
        assert(last == s[s.len() - 1]);
        let prev = resolve_spec(s.drop_last());
        if last.module_name == m {
            assert(last.import_name != nm);
            assert(prev.contains_key(m));
            assert(resolve_spec(s)[m] == prev[m].insert(last.import_name, last.value));
        } else {
        }
    }
}

} // verus!
