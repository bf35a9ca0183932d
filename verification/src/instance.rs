//! Instances, their exported capabilities, and the call path.
//!
//! A [`wasmer_instance_t`] models a module bound to resolved imports: the
//! table of its named exports and its context. The call path resolves an
//! export by name, validates that it is a function callable with the given
//! parameters, marshals the parameters in, and — once the engine has run —
//! marshals the first result out; an unknown or uncallable export name is a
//! reported `CallFailure`, never a crash.

use vstd::prelude::*;

use crate::error::CApiError;
use crate::exports::{kind_of_export, Export, ExportV};
use crate::imports::Namespace;
use crate::values::{
    type_of_tag, value_from_external_spec, value_to_external_spec, Type, Value, wasmer_value_t,
};
use crate::wasmer_import_export_kind;

verus! {

/// The per-instance context handed to host-imported functions during a
/// call: the host's opaque data word and the handle of the instance's first
/// linear memory.
#[allow(non_camel_case_types)]
pub struct wasmer_instance_context_t {
    pub data: usize,
    pub memory: usize,
}

impl wasmer_instance_context_t {
    /// The host's opaque context-data word.
    pub fn data_get(&self) -> (r: usize)
        ensures
            r == self.data,
    {
        self.data
    }

    /// The handle of the memory at `memory_idx` within the context. The
    /// index is accepted for interface stability but only memory 0 exists,
    /// so it is ignored.
    pub fn memory(&self, _memory_idx: u32) -> (r: usize)
        ensures
            r == self.memory,
    {
        self.memory
    }
}

/// A module bound to a concrete set of resolved imports: its named export
/// table (unique names, declaration order) and its context.
#[allow(non_camel_case_types)]
pub struct wasmer_instance_t {
    pub exports: Namespace,
    pub context: wasmer_instance_context_t,
}

impl wasmer_instance_t {
    /// Export names are unique and every export is well formed.
    pub open spec fn wf(self) -> bool {
        self.exports.wf() && forall|k: int|
            0 <= k < self.exports.entries@.len() ==> (#[trigger] self.exports.entries@[k]).1.wf()
    }

    /// An instance over the given export table and first memory; the
    /// context-data word starts at zero until the host sets it.
    pub fn new(exports: Namespace, memory: usize) -> (r: wasmer_instance_t)
        requires
            exports.wf(),
            forall|k: int|
                0 <= k < exports.entries@.len() ==> (#[trigger] exports.entries@[k]).1.wf(),
        ensures
            r.exports == exports,
            r.context.data == 0,
            r.context.memory == memory,
            r.wf(),
    {
        wasmer_instance_t { exports, context: wasmer_instance_context_t { data: 0, memory } }
    }

    /// The instance's context.
    pub fn context(&self) -> (r: &wasmer_instance_context_t)
        ensures
            r == &self.context,
    {
        &self.context
    }

    /// Set the context-data word. The pointee stays the host's: the instance
    /// keeps only this opaque word and passes it, unchanged, to every
    /// host-imported function invoked during a call. Nothing else of the
    /// instance changes.
    pub fn context_data_set(&mut self, data: usize)
        ensures
            final(self).context.data == data,
            final(self).context.memory == old(self).context.memory,
            final(self).exports == old(self).exports,
    {
        self.context.data = data;
    }

    /// Look up an export by name.
    pub fn find_export(&self, name: &Vec<u8>) -> (r: Option<&Export>)
        requires
            self.wf(),
        ensures
            self.exports@.contains_key(name@) ==> (r matches Some(e) && e@
                == self.exports@[name@]),
            !self.exports@.contains_key(name@) ==> r is None,
    {
        self.exports.get(name)
    }
}

/// A named export of a live instance, carrying the handle of the instance
/// it belongs to, since calling it dispatches through that instance.
pub struct NamedExport {
    pub name: Vec<u8>,
    pub export: Export,
    pub instance: usize,
}

/// The owned collection of an instance's named exports, in the instance's
/// export-table order.
pub struct NamedExports {
    pub items: Vec<NamedExport>,
}

impl NamedExports {
    /// Number of exports.
    pub fn len(&self) -> (r: usize)
        ensures
            r == self.items@.len(),
    {
        self.items.len()
    }

    /// The export at `idx`, bounds-checked: nothing for an out-of-range
    /// index.
    pub fn get(&self, idx: usize) -> (r: Option<&NamedExport>)
        ensures
            idx < self.items@.len() ==> r == Some(&self.items@[idx as int]),
            idx >= self.items@.len() ==> r is None,
    {
        if idx < self.items.len() {
            Some(&self.items[idx])
        } else {
            None
        }
    }
}

impl NamedExport {
    /// The export's name bytes.
    pub fn name(&self) -> (r: &Vec<u8>)
        ensures
            r == &self.name,
    {
        &self.name
    }

    /// The export's kind.
    pub fn kind(&self) -> (r: wasmer_import_export_kind)
        ensures
            r == kind_of_export(self.export@),
    {
        self.export.kind()
    }

    /// The memory handle of a memory export; any other kind is refused as
    /// `WrongExportKind`.
    pub fn to_memory(&self) -> (r: Result<usize, CApiError>)
        ensures
            self.export@ matches ExportV::Memory(h) ==> r == Ok::<usize, CApiError>(h),
            !(self.export@ is Memory) ==> r == Err::<usize, CApiError>(CApiError::WrongExportKind),
    {
        match &self.export {
            Export::Memory(h) => Ok(*h),
            _ => Err(CApiError::WrongExportKind),
        }
    }
}

/// Take a snapshot of an instance's named exports. Each entry keeps the
/// export-table order and carries `instance_handle`, the handle under which
/// the host holds this instance.
pub fn wasmer_instance_exports(inst: &wasmer_instance_t, instance_handle: usize) -> (r:
    NamedExports)
    ensures
        r.items@.len() == inst.exports.entries@.len(),
        forall|k: int|
            0 <= k < inst.exports.entries@.len() ==> {
                &&& (#[trigger] r.items@[k]).name@ == inst.exports.entries@[k].0@
                &&& r.items@[k].export@ == inst.exports.entries@[k].1@
                &&& r.items@[k].instance == instance_handle
            },
{
    let n = inst.exports.entries.len();
    let mut items: Vec<NamedExport> = Vec::new();
    let mut i: usize = 0;
    while i < n
        invariant
            n == inst.exports.entries@.len(),
            i <= n,
            items@.len() == i,
            forall|k: int|
                0 <= k < i ==> {
                    &&& (#[trigger] items@[k]).name@ == inst.exports.entries@[k].0@
                    &&& items@[k].export@ == inst.exports.entries@[k].1@
                    &&& items@[k].instance == instance_handle
                },
        decreases n - i,
    {
        let entry = &inst.exports.entries[i];
        items.push(
            NamedExport {
                name: crate::module_info::copy_bytes(&entry.0),
                export: clone_export(&entry.1),
                instance: instance_handle,
            },
        );
        i = i + 1;
    }
    NamedExports { items }
}

/// Copy an export value; a copied handle shares the underlying resource.
pub fn clone_export(e: &Export) -> (r: Export)
    ensures
        r@ == e@,
{
    match e {
        Export::Function { func, signature } => Export::Function {
            func: *func,
            signature: crate::exports::FuncSig {
                params: copy_type_list(&signature.params),
                returns: copy_type_list(&signature.returns),
            },
        },
        Export::Memory(h) => Export::Memory(*h),
        Export::Table(h) => Export::Table(*h),
        Export::Global(h) => Export::Global(*h),
    }
}

/// Copy a type list.
fn copy_type_list(v: &Vec<Type>) -> (r: Vec<Type>)
    ensures
        r@ == v@,
{
    let n = v.len();
    let mut r: Vec<Type> = Vec::new();
    let mut i: usize = 0;
    while i < n
        invariant
            n == v@.len(),
            i <= n,
            r@.len() == i,
            forall|k: int| 0 <= k < i ==> r@[k] == v@[k],
        decreases n - i,
    {
        r.push(v[i]);
        i = i + 1;
    }
    proof {
        assert(r@ =~= v@);
    }
    r
}

/// The export can be invoked with these external parameters: it is a
/// function whose declared parameter types are exactly the parameters'
/// tags.
pub open spec fn callable_with(e: ExportV, params: Seq<wasmer_value_t>) -> bool {
    match e {
        ExportV::Function { signature, .. } => signature.params == params.map_values(
            |p: wasmer_value_t| type_of_tag(p.tag),
        ),
        _ => false,
    }
}

/// Marshal a parameter list into the engine's values, element for element.
pub fn marshal_params(params: &Vec<wasmer_value_t>) -> (r: Vec<Value>)
    ensures
        r@ == params@.map_values(|p: wasmer_value_t| value_from_external_spec(p)),
{
    let n = params.len();
    let mut r: Vec<Value> = Vec::new();
    let mut i: usize = 0;
    while i < n
        invariant
            n == params@.len(),
            i <= n,
            r@.len() == i,
            forall|k: int| 0 <= k < i ==> r@[k] == value_from_external_spec(params@[k]),
        decreases n - i,
    {
        r.push(Value::from_external(params[i]));
        i = i + 1;
    }
    proof {
        assert(r@ =~= params@.map_values(|p: wasmer_value_t| value_from_external_spec(p)));
    }
    r
}

/// Resolve and validate a call: look the export up by name, check that it
/// is a function and that the parameters match its declared parameter
/// types, and marshal the parameters in. Succeeds exactly on a callable
/// export; an unknown name, a non-function export or a parameter mismatch
/// is a `CallFailure` — the engine is never entered for those.
pub fn prepare_call(inst: &wasmer_instance_t, name: &Vec<u8>, params: &Vec<wasmer_value_t>) -> (r:
    Result<Vec<Value>, CApiError>)
    requires
        inst.wf(),
    ensures
        r is Ok <==> inst.exports@.contains_key(name@) && callable_with(
            inst.exports@[name@],
            params@,
        ),
        r matches Ok(vals) ==> vals@ == params@.map_values(
            |p: wasmer_value_t| value_from_external_spec(p),
        ),
        r matches Err(e) ==> (e matches CApiError::CallFailure(m) && m@ == Seq::<u8>::empty()),
{
    let found = inst.find_export(name);
    match found {
        None => Err(CApiError::CallFailure(Vec::new())),
        Some(e) => match e {
            Export::Function { signature, .. } => {
                if types_match(&signature.params, params) {
                    Ok(marshal_params(params))
                } else {
                    Err(CApiError::CallFailure(Vec::new()))
                }
            },
            _ => Err(CApiError::CallFailure(Vec::new())),
        },
    }
}

/// Decide whether the declared types equal the parameters' tags, element
/// for element.
fn types_match(declared: &Vec<Type>, params: &Vec<wasmer_value_t>) -> (r: bool)
    ensures
        r <==> declared@ == params@.map_values(|p: wasmer_value_t| type_of_tag(p.tag)),
{
    let n = declared.len();
    if n != params.len() {
        proof {
            assert(declared@.len() != params@.map_values(
                |p: wasmer_value_t| type_of_tag(p.tag),
            ).len());
        }
        return false;
    }
    let mut i: usize = 0;
    while i < n
        invariant
            n == declared@.len(),
            n == params@.len(),
            i <= n,
            forall|k: int| 0 <= k < i ==> declared@[k] == type_of_tag(params@[k].tag),
        decreases n - i,
    {
        let want = declared[i];
        let got = params[i].tag.to_type();
        let same = match (want, got) {
            (Type::I32, Type::I32) => true,
            (Type::I64, Type::I64) => true,
            (Type::F32, Type::F32) => true,
            (Type::F64, Type::F64) => true,
            _ => false,
        };
        if !same {
            proof {
                assert(declared@[i as int] != params@.map_values(
                    |p: wasmer_value_t| type_of_tag(p.tag),
                )[i as int]);
            }
            return false;
        }
        i = i + 1;
    }
    proof {
        assert(declared@ =~= params@.map_values(|p: wasmer_value_t| type_of_tag(p.tag)));
    }
    true
}

/// Marshal the engine's outcome out. On success the first returned value,
/// if any, is marshalled into `results[0]` — further returned values are
/// dropped, multi-value returns are not carried across this boundary — and
/// the rest of the buffer is untouched. On engine failure the buffer is
/// untouched and the engine's diagnostic comes back as a `CallFailure`.
pub fn finish_call(outcome: Result<Vec<Value>, Vec<u8>>, results: &mut Vec<wasmer_value_t>) -> (r:
    Result<(), CApiError>)
    requires
        (outcome matches Ok(vals) && vals@.len() > 0) ==> old(results)@.len() >= 1,
    ensures
        outcome matches Ok(vals) ==> {
            &&& r is Ok
            &&& vals@.len() > 0 ==> final(results)@ == old(results)@.update(
                0,
                value_to_external_spec(vals@[0]),
            )
            &&& vals@.len() == 0 ==> final(results)@ == old(results)@
        },
        outcome matches Err(m) ==> r == Err::<(), CApiError>(CApiError::CallFailure(m))
            && final(results)@ == old(results)@,
{
    match outcome {
        Ok(vals) => {
            if vals.len() > 0 {
                results[0] = vals[0].to_external();
            }
            Ok(())
        },
        Err(m) => Err(CApiError::CallFailure(m)),
    }
}

} // verus!
