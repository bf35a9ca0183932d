//! Engine-facing export values and function signatures.
//!
//! An [`Export`] is a capability handed across the boundary: a host function
//! paired with its declared signature, or a shared handle to an engine
//! memory, table or global. Handles refer to slots of the host's
//! [`crate::registry::Registry`]; cloning a handle shares the underlying
//! resource, it never duplicates it.

use vstd::prelude::*;

use crate::error::CApiError;
use crate::wasmer_import_export_kind;
use crate::values::{tag_of_type, type_of_tag, wasmer_value_tag, Type};

verus! {

/// Abstract value of a [`FuncSig`].
pub struct FuncSigV {
    pub params: Seq<Type>,
    pub returns: Seq<Type>,
}

/// The declared parameter and return types of a function export.
pub struct FuncSig {
    pub params: Vec<Type>,
    pub returns: Vec<Type>,
}

impl View for FuncSig {
    type V = FuncSigV;

    open spec fn view(&self) -> FuncSigV {
        FuncSigV { params: self.params@, returns: self.returns@ }
    }
}

impl FuncSig {
    /// Both arities fit the 32-bit counters of the boundary.
    pub open spec fn wf(self) -> bool {
        self@.params.len() <= u32::MAX && self@.returns.len() <= u32::MAX
    }
}

/// Abstract value of an [`Export`].
pub enum ExportV {
    Function { func: usize, signature: FuncSigV },
    Memory(usize),
    Table(usize),
    Global(usize),
}

/// A capability crossing the boundary. `Function` pairs an opaque callable
/// token (the host side maps it to the real callable) with the declared
/// signature; the other three carry a shared handle to the engine object.
pub enum Export {
    Function { func: usize, signature: FuncSig },
    Memory(usize),
    Table(usize),
    Global(usize),
}

impl View for Export {
    type V = ExportV;

    open spec fn view(&self) -> ExportV {
        match self {
            Export::Function { func, signature } => ExportV::Function {
                func: *func,
                signature: signature@,
            },
            Export::Memory(h) => ExportV::Memory(*h),
            Export::Table(h) => ExportV::Table(*h),
            Export::Global(h) => ExportV::Global(*h),
        }
    }
}

/// The kind an export reports through the descriptor and export queries.
pub open spec fn kind_of_export(e: ExportV) -> wasmer_import_export_kind {
    match e {
        ExportV::Function { .. } => wasmer_import_export_kind::WASM_FUNCTION,
        ExportV::Memory(_) => wasmer_import_export_kind::WASM_MEMORY,
        ExportV::Table(_) => wasmer_import_export_kind::WASM_TABLE,
        ExportV::Global(_) => wasmer_import_export_kind::WASM_GLOBAL,
    }
}

impl Export {
    /// A function export's arities fit the boundary's 32-bit counters.
    pub open spec fn wf(self) -> bool {
        match self {
            Export::Function { signature, .. } => signature.wf(),
            _ => true,
        }
    }

    /// The kind of this export.
    pub fn kind(&self) -> (r: wasmer_import_export_kind)
        ensures
            r == kind_of_export(self@),
    {
        match self {
            Export::Function { .. } => wasmer_import_export_kind::WASM_FUNCTION,
            Export::Memory(_) => wasmer_import_export_kind::WASM_MEMORY,
            Export::Table(_) => wasmer_import_export_kind::WASM_TABLE,
            Export::Global(_) => wasmer_import_export_kind::WASM_GLOBAL,
        }
    }

    /// Parameter arity of a function export; any other kind is refused as
    /// `WrongExportKind`.
    pub fn func_params_arity(&self) -> (r: Result<u32, CApiError>)
        requires
            self.wf(),
        ensures
            self@ matches ExportV::Function { signature, .. } ==> r == Ok::<u32, CApiError>(
                signature.params.len() as u32,
            ),
            !(self@ is Function) ==> r == Err::<u32, CApiError>(CApiError::WrongExportKind),
    {
        match self {
            Export::Function { signature, .. } => Ok(signature.params.len() as u32),
            _ => Err(CApiError::WrongExportKind),
        }
    }

    /// Return arity of a function export; any other kind is refused as
    /// `WrongExportKind`.
    pub fn func_returns_arity(&self) -> (r: Result<u32, CApiError>)
        requires
            self.wf(),
        ensures
            self@ matches ExportV::Function { signature, .. } ==> r == Ok::<u32, CApiError>(
                signature.returns.len() as u32,
            ),
            !(self@ is Function) ==> r == Err::<u32, CApiError>(CApiError::WrongExportKind),
    {
        match self {
            Export::Function { signature, .. } => Ok(signature.returns.len() as u32),
            _ => Err(CApiError::WrongExportKind),
        }
    }

    /// Copy the parameter type tags of a function export into the caller's
    /// buffer, which must be sized exactly to the parameter arity (query
    /// [`Export::func_params_arity`] first). Any other kind is refused and
    /// the buffer is left untouched.
    pub fn func_params(&self, buf: &mut Vec<wasmer_value_tag>) -> (r: Result<(), CApiError>)
        requires
            self@ matches ExportV::Function { signature, .. } ==> old(buf)@.len()
                == signature.params.len(),
        ensures
            self@ matches ExportV::Function { signature, .. } ==> r == Ok::<(), CApiError>(())
                && final(buf)@ == signature.params.map_values(|t: Type| tag_of_type(t)),
            !(self@ is Function) ==> r == Err::<(), CApiError>(CApiError::WrongExportKind)
                && final(buf)@ == old(buf)@,
    {
        match self {
            Export::Function { signature, .. } => {
                copy_tags(&signature.params, buf);
                Ok(())
            },
            _ => Err(CApiError::WrongExportKind),
        }
    }

    /// Copy the return type tags of a function export into the caller's
    /// buffer, sized exactly to the return arity. Any other kind is refused
    /// and the buffer is left untouched.
    pub fn func_returns(&self, buf: &mut Vec<wasmer_value_tag>) -> (r: Result<(), CApiError>)
        requires
            self@ matches ExportV::Function { signature, .. } ==> old(buf)@.len()
                == signature.returns.len(),
        ensures
            self@ matches ExportV::Function { signature, .. } ==> r == Ok::<(), CApiError>(())
                && final(buf)@ == signature.returns.map_values(|t: Type| tag_of_type(t)),
            !(self@ is Function) ==> r == Err::<(), CApiError>(CApiError::WrongExportKind)
                && final(buf)@ == old(buf)@,
    {
        match self {
            Export::Function { signature, .. } => {
                copy_tags(&signature.returns, buf);
                Ok(())
            },
            _ => Err(CApiError::WrongExportKind),
        }
    }
}

/// Write the tag of each type of `types` into `buf`, element for element.
fn copy_tags(types: &Vec<Type>, buf: &mut Vec<wasmer_value_tag>)
    requires
        old(buf)@.len() == types@.len(),
    ensures
        final(buf)@ == types@.map_values(|t: Type| tag_of_type(t)),
{
    let n = types.len();
    let mut i: usize = 0;
    while i < n
        invariant
            n == types@.len(),
            buf@.len() == n,
            i <= n,
            forall|k: int| 0 <= k < i ==> buf@[k] == tag_of_type(types@[k]),
        decreases n - i,
    {
        buf[i] = types[i].to_tag();
        i = i + 1;
    }
    proof {
        assert(buf@ =~= types@.map_values(|t: Type| tag_of_type(t)));
    }
}

/// Build a host-function export from an opaque callable token and the
/// explicit parameter and return type tags the host declares for it.
pub fn import_func_new(func: usize, params: &Vec<wasmer_value_tag>, rets: &Vec<
    wasmer_value_tag,
>) -> (r: Export)
    requires
        params@.len() <= u32::MAX,
        rets@.len() <= u32::MAX,
    ensures
        r@ == (ExportV::Function {
            func,
            signature: FuncSigV {
                params: params@.map_values(|t: wasmer_value_tag| type_of_tag(t)),
                returns: rets@.map_values(|t: wasmer_value_tag| type_of_tag(t)),
            },
        }),
        r.wf(),
{
    let p = tags_to_types(params);
    let t = tags_to_types(rets);
    Export::Function { func, signature: FuncSig { params: p, returns: t } }
}

/// Convert a list of tags to the engine's type list, element for element.
fn tags_to_types(tags: &Vec<wasmer_value_tag>) -> (r: Vec<Type>)
    ensures
        r@ == tags@.map_values(|t: wasmer_value_tag| type_of_tag(t)),
{
    let n = tags.len();
    let mut r: Vec<Type> = Vec::new();
    let mut i: usize = 0;
    while i < n
        invariant
            n == tags@.len(),
            i <= n,
            r@.len() == i,
            forall|k: int| 0 <= k < i ==> r@[k] == type_of_tag(tags@[k]),
        decreases n - i,
    {
        r.push(tags[i].to_type());
        i = i + 1;
    }
    proof {
        assert(r@ =~= tags@.map_values(|t: wasmer_value_tag| type_of_tag(t)));
    }
    r
}

} // verus!
