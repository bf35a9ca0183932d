//! The instance call path: lookup, validation, marshalling, result
//! delivery, and the context handed to host imports.

use wasm_boundary::error::CApiError;
use wasm_boundary::exports::{import_func_new, Export, FuncSig};
use wasm_boundary::imports::{resolve_imports, Namespace};
use wasm_boundary::instance::{
    finish_call, prepare_call, wasmer_instance_exports, wasmer_instance_context_t,
    wasmer_instance_t,
};
use wasm_boundary::memory::{Memory, MemoryView};
use wasm_boundary::registry::Registry;
use wasm_boundary::values::{wasmer_value_t, wasmer_value_tag, Type, Value};

fn i32_param(x: i32) -> wasmer_value_t {
    wasmer_value_t { tag: wasmer_value_tag::WASM_I32, value: (x as u32) as u64 }
}

fn add_instance() -> wasmer_instance_t {
    let mut exports = Namespace::new();
    exports.insert(
        b"add".to_vec(),
        Export::Function {
            func: 0,
            signature: FuncSig { params: vec![Type::I32, Type::I32], returns: vec![Type::I32] },
        },
    );
    wasmer_instance_t::new(exports, 0)
}

/// The engine's part of a call to `add`: execute the function on the
/// marshalled values.
fn run_add(vals: &[Value]) -> Result<Vec<Value>, Vec<u8>> {
    match (&vals[0], &vals[1]) {
        (Value::I32(a), Value::I32(b)) => Ok(vec![Value::I32(a + b)]),
        _ => Err(b"type mismatch".to_vec()),
    }
}

#[test]
fn call_add_two_three_gives_five() {
    // Module exporting add(i32, i32) -> i32, instantiated with empty
    // imports; calling add with [2, 3] leaves the single result I32(5).
    let io = resolve_imports(&vec![]).unwrap();
    assert!(io.lookup(&b"env".to_vec(), &b"x".to_vec()).is_none());
    let inst = add_instance();

    let params = vec![i32_param(2), i32_param(3)];
    let vals = prepare_call(&inst, &b"add".to_vec(), &params).unwrap();
    assert_eq!(vals, vec![Value::I32(2), Value::I32(3)]);

    let outcome = run_add(&vals);
    let mut results = vec![i32_param(0)];
    finish_call(outcome, &mut results).unwrap();
    assert_eq!(results[0].tag, wasmer_value_tag::WASM_I32);
    assert_eq!(results[0].value, 5);
    assert_eq!(Value::from_external(results[0]), Value::I32(5));
}

#[test]
fn unknown_export_name_is_call_failure() {
    let inst = add_instance();
    let params = vec![i32_param(1)];
    let r = prepare_call(&inst, &b"no_such_export".to_vec(), &params);
    assert!(matches!(r, Err(CApiError::CallFailure(_))));
}

#[test]
fn non_function_export_is_call_failure() {
    let mut exports = Namespace::new();
    exports.insert(b"mem".to_vec(), Export::Memory(0));
    let inst = wasmer_instance_t::new(exports, 0);
    let r = prepare_call(&inst, &b"mem".to_vec(), &vec![]);
    assert!(matches!(r, Err(CApiError::CallFailure(_))));
}

#[test]
fn parameter_mismatch_is_call_failure() {
    let inst = add_instance();
    let too_few = vec![i32_param(2)];
    assert!(matches!(
        prepare_call(&inst, &b"add".to_vec(), &too_few),
        Err(CApiError::CallFailure(_))
    ));
    let wrong_type = vec![
        i32_param(2),
        wasmer_value_t { tag: wasmer_value_tag::WASM_F64, value: 0 },
    ];
    assert!(matches!(
        prepare_call(&inst, &b"add".to_vec(), &wrong_type),
        Err(CApiError::CallFailure(_))
    ));
}

#[test]
fn engine_failure_reports_its_message() {
    let mut results = vec![i32_param(0)];
    let r = finish_call(Err(b"unreachable executed".to_vec()), &mut results);
    assert_eq!(r, Err(CApiError::CallFailure(b"unreachable executed".to_vec())));
    // The result buffer is untouched on failure.
    assert_eq!(results[0].value, 0);
}

#[test]
fn empty_engine_result_leaves_buffer() {
    let mut results = vec![i32_param(41)];
    finish_call(Ok(vec![]), &mut results).unwrap();
    assert_eq!(Value::from_external(results[0]), Value::I32(41));
}

#[test]
fn extra_engine_results_are_dropped() {
    let mut results = vec![i32_param(0), i32_param(9)];
    finish_call(Ok(vec![Value::I32(1), Value::I32(2)]), &mut results).unwrap();
    assert_eq!(Value::from_external(results[0]), Value::I32(1));
    // Only results[0] is written; the second engine value is dropped.
    assert_eq!(Value::from_external(results[1]), Value::I32(9));
}

/// A host-imported function: it sees only the per-call context.
fn host_import_observes(ctx: &wasmer_instance_context_t) -> usize {
    ctx.data_get()
}

#[test]
fn context_data_is_observable_inside_host_imports() {
    // The context-data word a host sets before a call is observable,
    // unchanged, inside a host-imported function invoked during that call.
    let mut inst = add_instance();
    inst.context_data_set(0xD00D);
    let params = vec![i32_param(2), i32_param(3)];
    let vals = prepare_call(&inst, &b"add".to_vec(), &params).unwrap();
    // During execution the engine hands the instance's context to each
    // imported function it invokes.
    let seen = host_import_observes(inst.context());
    assert_eq!(seen, 0xD00D);
    let outcome = run_add(&vals);
    let mut results = vec![i32_param(0)];
    finish_call(outcome, &mut results).unwrap();
    assert_eq!(inst.context().data_get(), 0xD00D);
}

#[test]
fn exports_snapshot_keeps_order_and_backref() {
    let mut exports = Namespace::new();
    exports.insert(b"one".to_vec(), Export::Global(1));
    exports.insert(b"two".to_vec(), Export::Memory(2));
    let inst = wasmer_instance_t::new(exports, 0);
    let snapshot = wasmer_instance_exports(&inst, 77);
    assert_eq!(snapshot.len(), 2);
    let first = snapshot.get(0).unwrap();
    assert_eq!(first.name(), &b"one".to_vec());
    assert_eq!(first.instance, 77);
    let second = snapshot.get(1).unwrap();
    assert_eq!(second.name(), &b"two".to_vec());
    assert_eq!(second.to_memory(), Ok(2));
    assert_eq!(first.to_memory(), Err(CApiError::WrongExportKind));
    assert!(snapshot.get(2).is_none());
}

#[test]
fn memory_export_reaches_linear_memory() {
    // Scenario: an instance exposes a one-page memory export; the host pulls
    // the handle out of the export, takes a byte view of the whole page and
    // fills it.
    let mut memories: Registry<Memory> = Registry::new();
    let h = memories.insert(Memory::new(1));
    let mut exports = Namespace::new();
    exports.insert(b"memory".to_vec(), Export::Memory(h));
    let inst = wasmer_instance_t::new(exports, h);
    let snapshot = wasmer_instance_exports(&inst, 0);
    let handle = snapshot.get(0).unwrap().to_memory().unwrap();
    let mem = memories.borrow_mut(handle);
    let view = MemoryView::new(mem, 0, 65536);
    let src = vec![9u8; 65536];
    assert!(view.copy_from_checked(mem, &src));
    assert_eq!(view.get(mem, 12345), 9);
    let short = vec![9u8; 100];
    assert!(!view.copy_from_checked(mem, &short));
}

#[test]
fn import_func_new_records_signature() {
    let e = import_func_new(
        5,
        &vec![wasmer_value_tag::WASM_I32, wasmer_value_tag::WASM_F64],
        &vec![wasmer_value_tag::WASM_I64],
    );
    assert_eq!(e.func_params_arity(), Ok(2));
    assert_eq!(e.func_returns_arity(), Ok(1));
    let mut params = vec![wasmer_value_tag::WASM_I32; 2];
    e.func_params(&mut params).unwrap();
    assert_eq!(params, vec![wasmer_value_tag::WASM_I32, wasmer_value_tag::WASM_F64]);
    let mut rets = vec![wasmer_value_tag::WASM_I32; 1];
    e.func_returns(&mut rets).unwrap();
    assert_eq!(rets, vec![wasmer_value_tag::WASM_I64]);
}

#[test]
fn arity_queries_refuse_wrong_kind() {
    let e = Export::Table(3);
    assert_eq!(e.func_params_arity(), Err(CApiError::WrongExportKind));
    assert_eq!(e.func_returns_arity(), Err(CApiError::WrongExportKind));
    let mut buf = vec![];
    assert_eq!(e.func_params(&mut buf), Err(CApiError::WrongExportKind));
    assert_eq!(e.func_returns(&mut buf), Err(CApiError::WrongExportKind));
}
