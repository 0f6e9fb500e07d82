use wasm2::errors::{wasm2_error_to_stderr, Wasm2EngineError};
use wasm2::exports::{do_handle, do_query, make_dependencies, Contract, EchoContract};
use wasm2::memory::{extract_vector_from, write_to_memory_from, HeapMemory};
use wasm2::operations::HandleMsg;
use wasm2::storage::MemoryStorage;
use wasm2::traits::{Api, IdentityApi, NoQuerier, Querier, Storage};
use wasm2::StdError;

#[test]
fn do_handle_round_trips_through_the_shim() {
    let mut heap = HeapMemory::new(16);
    let env_ptr = write_to_memory_from(&mut heap, b"env record").unwrap();
    let msg_ptr = write_to_memory_from(&mut heap, b"the message").unwrap();
    let res_ptr = do_handle(&EchoContract, &mut heap, env_ptr, msg_ptr);
    assert_ne!(res_ptr, 0);
    // The echo contract answers the message; the result lives in a fresh
    // Region, not in either input Region.
    assert_ne!(res_ptr, env_ptr);
    assert_ne!(res_ptr, msg_ptr);
    assert_eq!(extract_vector_from(&heap, res_ptr).unwrap(), b"the message");
}

#[test]
fn do_query_round_trips_through_the_shim() {
    let mut heap = HeapMemory::new(16);
    let msg_ptr = write_to_memory_from(&mut heap, b"{\"balance\":{}}").unwrap();
    let res_ptr = do_query(&EchoContract, &mut heap, msg_ptr);
    assert_ne!(res_ptr, 0);
    assert_eq!(
        extract_vector_from(&heap, res_ptr).unwrap(),
        b"{\"balance\":{}}"
    );
}

#[test]
fn do_handle_bad_region_answers_null() {
    let mut heap = HeapMemory::new(64);
    // Pointer at zeroed memory decodes a null Region.
    assert_eq!(do_handle(&EchoContract, &mut heap, 4, 16), 0);
}

#[test]
fn do_query_bad_region_answers_null() {
    let mut heap = HeapMemory::new(64);
    assert_eq!(do_query(&EchoContract, &mut heap, 4), 0);
}

#[test]
fn echo_contract_echoes() {
    let c = EchoContract;
    assert_eq!(c.handle(&b"e".to_vec(), &b"m".to_vec()), b"m");
    assert_eq!(c.query(&b"q".to_vec()), b"q");
}

#[test]
fn dependencies_start_empty() {
    let deps = make_dependencies();
    assert_eq!(deps.storage.get(b"anything"), None);
    assert!(deps.querier.query_raw(b"{}").is_err());
}

#[test]
fn memory_storage_set_get_remove() {
    let mut s = MemoryStorage::new();
    assert_eq!(s.get(b"a"), None);
    s.set(b"a", b"1");
    s.set(b"b", b"2");
    assert_eq!(s.get(b"a"), Some(b"1".to_vec()));
    assert_eq!(s.get(b"b"), Some(b"2".to_vec()));
    s.set(b"a", b"3");
    assert_eq!(s.get(b"a"), Some(b"3".to_vec()));
    s.remove(b"a");
    assert_eq!(s.get(b"a"), None);
    assert_eq!(s.get(b"b"), Some(b"2".to_vec()));
    s.remove(b"never there");
    assert_eq!(s.get(b"b"), Some(b"2".to_vec()));
}

#[test]
fn identity_api_is_the_identity_both_ways() {
    let api = IdentityApi;
    assert_eq!(api.canonical_address(b"addr").unwrap(), b"addr");
    assert_eq!(api.human_address(b"addr").unwrap(), b"addr");
}

#[test]
fn handle_msg_serializes_to_its_json() {
    let msg = HandleMsg::DoNothing {};
    assert_eq!(msg.to_json_bytes(), b"{\"do_nothing\":{}}");
}

#[test]
fn engine_errors_collapse_to_generic_error() {
    let StdError::GenericErr { msg } =
        wasm2_error_to_stderr(Wasm2EngineError::UnauthorizedWrite);
    assert_eq!(msg, "UnauthorizedWrite");
    let StdError::GenericErr { msg } = wasm2_error_to_stderr(Wasm2EngineError::Panic);
    assert_eq!(msg, "Panic");
}
