use wasm2::errors::Wasm2EngineError;
use wasm2::exports::make_dependencies;
use wasm2::externals::HostFunctions;
use wasm2::instance::{Wasm2Instance, Wasm2Operation};
use wasm2::memory::HeapMemory;
use wasm2::storage::MemoryStorage;
use wasm2::traits::{IdentityApi, NoQuerier, Storage};

type Inst = Wasm2Instance<HeapMemory, MemoryStorage, IdentityApi, NoQuerier>;

fn fresh_instance(op: Wasm2Operation) -> Inst {
    Wasm2Instance::new(make_dependencies(), HeapMemory::new(64), op)
}

/// Writes `bytes` into guest memory and hands back the Region pointer as the
/// guest would pass it to a host function.
fn plant(inst: &mut Inst, bytes: &[u8]) -> i32 {
    inst.write_to_memory(bytes).unwrap() as i32
}

#[test]
fn write_storage_during_query_is_unauthorized_and_storage_unchanged() {
    let mut inst = fresh_instance(Wasm2Operation::Query);
    let key = plant(&mut inst, b"k");
    let value = plant(&mut inst, b"v");
    let e = inst.write_db_index(key, value).unwrap_err();
    assert_eq!(e, Wasm2EngineError::UnauthorizedWrite);
    assert_eq!(inst.deps.storage.get(b"k"), None);
}

#[test]
fn remove_storage_during_query_is_unauthorized_and_storage_unchanged() {
    let mut inst = fresh_instance(Wasm2Operation::Query);
    inst.deps.storage.set(b"k", b"v");
    let key = plant(&mut inst, b"k");
    let e = inst.remove_db_index(key).unwrap_err();
    assert_eq!(e, Wasm2EngineError::UnauthorizedWrite);
    assert_eq!(inst.deps.storage.get(b"k"), Some(b"v".to_vec()));
}

#[test]
fn write_storage_during_handle_succeeds() {
    let mut inst = fresh_instance(Wasm2Operation::Handle);
    let key = plant(&mut inst, b"k");
    let value = plant(&mut inst, b"v");
    assert_eq!(inst.write_db_index(key, value).unwrap(), None);
    assert_eq!(inst.deps.storage.get(b"k"), Some(b"v".to_vec()));
}

#[test]
fn remove_storage_during_handle_succeeds() {
    let mut inst = fresh_instance(Wasm2Operation::Handle);
    inst.deps.storage.set(b"k", b"v");
    let key = plant(&mut inst, b"k");
    assert_eq!(inst.remove_db_index(key).unwrap(), None);
    assert_eq!(inst.deps.storage.get(b"k"), None);
}

#[test]
fn read_storage_absent_key_answers_null_pointer() {
    let mut inst = fresh_instance(Wasm2Operation::Query);
    let key = plant(&mut inst, b"missing");
    assert_eq!(inst.read_db_index(key).unwrap(), Some(0));
}

#[test]
fn read_storage_present_key_answers_region_with_the_value() {
    let mut inst = fresh_instance(Wasm2Operation::Query);
    inst.deps.storage.set(b"k", b"stored value");
    let key = plant(&mut inst, b"k");
    let ptr = inst.read_db_index(key).unwrap().unwrap();
    assert_ne!(ptr, 0);
    assert_eq!(inst.extract_vector(ptr as u32).unwrap(), b"stored value");
}

#[test]
fn read_storage_bad_key_region_is_memory_read_error() {
    let mut inst = fresh_instance(Wasm2Operation::Query);
    // Pointer into zeroed memory: the Region's offset word is 0.
    let e = inst.read_db_index(4).unwrap_err();
    assert_eq!(e, Wasm2EngineError::MemoryReadError);
}

#[test]
fn canonicalize_invalid_utf8_answers_error_message_region() {
    let mut inst = fresh_instance(Wasm2Operation::Handle);
    let human = plant(&mut inst, &[0xFF, 0xFE, 0x80]);
    let dest = inst.allocate(32).unwrap() as i32;
    let ptr = inst.canonicalize_address_index(human, dest).unwrap().unwrap();
    assert_ne!(ptr, 0);
    assert_eq!(
        inst.extract_vector(ptr as u32).unwrap(),
        b"input is not valid UTF-8"
    );
}

#[test]
fn canonicalize_valid_input_writes_destination_and_answers_zero() {
    let mut inst = fresh_instance(Wasm2Operation::Handle);
    let human = plant(&mut inst, b"some address");
    let dest = inst.allocate(32).unwrap();
    let r = inst
        .canonicalize_address_index(human, dest as i32)
        .unwrap()
        .unwrap();
    assert_eq!(r, 0);
    // The identity capability canonicalizes to the very same bytes.
    assert_eq!(inst.extract_vector(dest).unwrap(), b"some address");
}

#[test]
fn canonicalize_undersized_destination_is_memory_write_error() {
    let mut inst = fresh_instance(Wasm2Operation::Handle);
    let human = plant(&mut inst, b"some address");
    let dest = inst.allocate(3).unwrap();
    let e = inst
        .canonicalize_address_index(human, dest as i32)
        .unwrap_err();
    assert_eq!(e, Wasm2EngineError::MemoryWriteError);
}

#[test]
fn humanize_writes_destination_and_answers_zero() {
    let mut inst = fresh_instance(Wasm2Operation::Handle);
    let canonical = plant(&mut inst, b"canonical bytes");
    let dest = inst.allocate(32).unwrap();
    let r = inst
        .humanize_address_index(canonical, dest as i32)
        .unwrap()
        .unwrap();
    assert_eq!(r, 0);
    assert_eq!(inst.extract_vector(dest).unwrap(), b"canonical bytes");
}

#[test]
fn query_chain_is_not_supported() {
    let mut inst = fresh_instance(Wasm2Operation::Query);
    let q = plant(&mut inst, b"{\"bank\":{}}");
    assert_eq!(inst.query_chain_index(q).unwrap_err(), Wasm2EngineError::Panic);
}

#[test]
fn debug_print_accepts_utf8_and_rejects_garbage() {
    let mut inst = fresh_instance(Wasm2Operation::Handle);
    let ok_msg = plant(&mut inst, b"hello from guest");
    assert_eq!(inst.debug_print_index(ok_msg).unwrap(), None);
    let bad_msg = plant(&mut inst, &[0xC0, 0x00]);
    assert_eq!(
        inst.debug_print_index(bad_msg).unwrap_err(),
        Wasm2EngineError::Panic
    );
}

#[test]
fn dispatch_unknown_index_fails() {
    let mut inst = fresh_instance(Wasm2Operation::Handle);
    let e = inst.invoke_index(7, &vec![0, 0]).unwrap_err();
    assert_eq!(e, Wasm2EngineError::NonExistentImportFunction);
    let e = inst.invoke_index(255, &vec![0, 0]).unwrap_err();
    assert_eq!(e, Wasm2EngineError::NonExistentImportFunction);
}

#[test]
fn dispatch_short_argument_list_is_host_misbehavior() {
    let mut inst = fresh_instance(Wasm2Operation::Handle);
    let e = inst.invoke_index(1, &vec![5]).unwrap_err();
    assert_eq!(e, Wasm2EngineError::HostMisbehavior);
    let e = inst.invoke_index(0, &vec![]).unwrap_err();
    assert_eq!(e, Wasm2EngineError::HostMisbehavior);
}

#[test]
fn dispatch_routes_by_index() {
    let mut inst = fresh_instance(Wasm2Operation::Handle);
    let key = plant(&mut inst, b"k");
    let value = plant(&mut inst, b"v");
    // write-storage is index 1
    assert_eq!(inst.invoke_index(1, &vec![key, value]).unwrap(), None);
    assert_eq!(inst.deps.storage.get(b"k"), Some(b"v".to_vec()));
    // read-storage is index 0
    let ptr = inst.invoke_index(0, &vec![key]).unwrap().unwrap();
    assert_eq!(inst.extract_vector(ptr as u32).unwrap(), b"v");
    // remove-storage is index 2
    assert_eq!(inst.invoke_index(2, &vec![key]).unwrap(), None);
    assert_eq!(inst.deps.storage.get(b"k"), None);
}

#[test]
fn dispatch_gates_writes_during_query() {
    let mut inst = fresh_instance(Wasm2Operation::Query);
    let key = plant(&mut inst, b"k");
    let value = plant(&mut inst, b"v");
    assert_eq!(
        inst.invoke_index(1, &vec![key, value]).unwrap_err(),
        Wasm2EngineError::UnauthorizedWrite
    );
    assert_eq!(
        inst.invoke_index(2, &vec![key]).unwrap_err(),
        Wasm2EngineError::UnauthorizedWrite
    );
    assert_eq!(inst.deps.storage.get(b"k"), None);
}

#[test]
fn host_function_indices_round_trip() {
    assert_eq!(HostFunctions::from(0usize), HostFunctions::ReadDbIndex);
    assert_eq!(HostFunctions::from(1usize), HostFunctions::WriteDbIndex);
    assert_eq!(HostFunctions::from(2usize), HostFunctions::RemoveDbIndex);
    assert_eq!(
        HostFunctions::from(3usize),
        HostFunctions::CanonicalizeAddressIndex
    );
    assert_eq!(
        HostFunctions::from(4usize),
        HostFunctions::HumanizeAddressIndex
    );
    assert_eq!(HostFunctions::from(6usize), HostFunctions::QueryChainIndex);
    assert_eq!(HostFunctions::from(254usize), HostFunctions::DebugPrintIndex);
    assert_eq!(HostFunctions::from(5usize), HostFunctions::Unknown);
    let idx: usize = HostFunctions::QueryChainIndex.into();
    assert_eq!(idx, 6);
    let idx: usize = HostFunctions::DebugPrintIndex.into();
    assert_eq!(idx, 254);
}

#[test]
fn operation_predicates() {
    assert!(Wasm2Operation::Handle.is_handle());
    assert!(!Wasm2Operation::Handle.is_query());
    assert!(Wasm2Operation::Query.is_query());
    assert!(!Wasm2Operation::Verify.is_query());
    assert!(!Wasm2Operation::Verify.is_handle());
}
