use std::io::Write;

use cosmwasm_std::testing::mock_env;
use wasm2::engine::{deflate_wasm, parse_wasm, start_engine, start_engine_from_wasm_binary};
use wasm2::exports::make_dependencies;
use wasm2::instance::Wasm2Operation;
use wasm2::operations::handle;
use wasm2::startcheck::scan_for_start;
use wasm2::StdError;

fn gzip(bytes: &[u8]) -> Vec<u8> {
    let mut encoder = libflate::gzip::Encoder::new(Vec::new()).unwrap();
    encoder.write_all(bytes).unwrap();
    encoder.finish().into_result().unwrap()
}

/// A well-behaved guest: a bump allocator over its own heap, and entry points
/// that answer a Region holding a fixed serialized response.
const GUEST: &str = r#"
(module
  (memory (export "memory") 1)
  (global $next (mut i32) (i32.const 1024))
  (func (export "allocate") (param $size i32) (result i32)
    (local $region i32)
    (local $data i32)
    (local.set $region (global.get $next))
    (local.set $data (i32.add (local.get $region) (i32.const 12)))
    (i32.store (local.get $region) (local.get $data))
    (i32.store (i32.add (local.get $region) (i32.const 4)) (local.get $size))
    (i32.store (i32.add (local.get $region) (i32.const 8)) (i32.const 0))
    (global.set $next (i32.add (local.get $data) (local.get $size)))
    (local.get $region))
  (data (i32.const 256) "{\22ok\22:true}")
  (func $answer (result i32)
    (i32.store (i32.const 512) (i32.const 256))
    (i32.store (i32.const 516) (i32.const 11))
    (i32.store (i32.const 520) (i32.const 11))
    (i32.const 512))
  (func (export "handle") (param $env i32) (param $msg i32) (result i32)
    (call $answer))
  (func (export "query") (param $msg i32) (result i32)
    (call $answer)))
"#;

const GUEST_WITH_START: &str = r#"
(module
  (memory (export "memory") 1)
  (func $boot)
  (start $boot))
"#;

#[test]
fn deflate_round_trip() {
    let data = b"arbitrary module bytes".to_vec();
    assert_eq!(deflate_wasm(&gzip(&data)).unwrap(), data);
}

#[test]
fn deflate_rejects_corrupt_stream() {
    let e = deflate_wasm(b"not gzip at all").unwrap_err();
    let StdError::GenericErr { msg } = e;
    assert_eq!(msg, "failed to deflate WASM binary");
}

#[test]
fn parse_rejects_non_wasm() {
    assert!(parse_wasm(b"\x00asm garbage").is_err());
}

#[test]
fn module_with_start_routine_is_rejected() {
    let wasm = wat::parse_str(GUEST_WITH_START).unwrap();
    let e = match start_engine_from_wasm_binary(
        &gzip(&wasm),
        make_dependencies(),
        Wasm2Operation::Handle,
    ) {
        Err(e) => e,
        Ok(_) => panic!("a module with a start routine must be rejected"),
    };
    let StdError::GenericErr { msg } = e;
    assert_eq!(msg, "WASM2 module provided should not have 'start' defined");
}

#[test]
fn module_without_start_routine_instantiates() {
    let wasm = wat::parse_str(GUEST).unwrap();
    assert!(start_engine_from_wasm_binary(
        &gzip(&wasm),
        make_dependencies(),
        Wasm2Operation::Handle
    )
    .is_ok());
}

#[test]
fn start_engine_rejects_start_before_instantiation() {
    let wasm = wat::parse_str(GUEST_WITH_START).unwrap();
    // The parser itself accepts this module; only the start check refuses it.
    assert!(parse_wasm(&wasm).is_ok());
    let e = match start_engine(make_dependencies(), &wasm, Wasm2Operation::Handle) {
        Err(e) => e,
        Ok(_) => panic!("a module with a start routine must be rejected"),
    };
    let StdError::GenericErr { msg } = e;
    assert_eq!(msg, "WASM2 module provided should not have 'start' defined");
}

#[test]
fn module_without_memory_export_is_rejected() {
    let wasm = wat::parse_str("(module)").unwrap();
    let e = match start_engine_from_wasm_binary(
        &gzip(&wasm),
        make_dependencies(),
        Wasm2Operation::Handle,
    ) {
        Err(e) => e,
        Ok(_) => panic!("a module without a memory export must be rejected"),
    };
    let StdError::GenericErr { msg } = e;
    assert_eq!(msg, "module expected to have 'memory' export");
}

#[test]
fn end_to_end_handle_marshals_both_ways() {
    let wasm = wat::parse_str(GUEST).unwrap();
    let mut engine = start_engine_from_wasm_binary(
        &gzip(&wasm),
        make_dependencies(),
        Wasm2Operation::Handle,
    )
    .unwrap();
    let env_bytes = b"{\"height\":42}".to_vec();
    let msg_bytes = b"{\"do_nothing\":{}}".to_vec();
    let env_ptr = engine.write_to_memory(&env_bytes).unwrap();
    let msg_ptr = engine.write_to_memory(&msg_bytes).unwrap();
    // Both writes really allocated guest memory holding the arguments.
    assert_eq!(engine.extract_vector(env_ptr).unwrap(), env_bytes);
    assert_eq!(engine.extract_vector(msg_ptr).unwrap(), msg_bytes);
    let res_ptr = engine.handle(env_ptr, msg_ptr).unwrap();
    let res = engine.extract_vector(res_ptr).unwrap();
    assert_eq!(res, b"{\"ok\":true}");
}

#[test]
fn end_to_end_query_marshals_both_ways() {
    let wasm = wat::parse_str(GUEST).unwrap();
    let mut engine = start_engine_from_wasm_binary(
        &gzip(&wasm),
        make_dependencies(),
        Wasm2Operation::Query,
    )
    .unwrap();
    let msg_ptr = engine.write_to_memory(b"{}").unwrap();
    let res_ptr = engine.query(msg_ptr).unwrap();
    assert_eq!(engine.extract_vector(res_ptr).unwrap(), b"{\"ok\":true}");
}

#[test]
fn top_level_handle_returns_the_result_bytes() {
    let wasm = wat::parse_str(GUEST).unwrap();
    let r = handle(&gzip(&wasm), make_dependencies(), &mock_env()).unwrap();
    assert_eq!(r.data, Some(b"{\"ok\":true}".to_vec()));
}

#[test]
fn top_level_handle_rejects_corrupt_module() {
    assert!(handle(b"junk", make_dependencies(), &mock_env()).is_err());
}

#[test]
fn missing_entry_point_is_a_panic_kind() {
    // A module with memory but no entry points instantiates, but invoking
    // `handle` cannot succeed.
    let wasm = wat::parse_str("(module (memory (export \"memory\") 1))").unwrap();
    let mut engine = start_engine_from_wasm_binary(
        &gzip(&wasm),
        make_dependencies(),
        Wasm2Operation::Handle,
    )
    .unwrap();
    assert_eq!(
        engine.handle(0, 0).unwrap_err(),
        wasm2::Wasm2EngineError::Panic
    );
}

#[test]
fn missing_allocate_export_is_an_allocation_error() {
    let wasm = wat::parse_str("(module (memory (export \"memory\") 1))").unwrap();
    let mut engine = start_engine_from_wasm_binary(
        &gzip(&wasm),
        make_dependencies(),
        Wasm2Operation::Handle,
    )
    .unwrap();
    assert_eq!(
        engine.write_to_memory(b"abc").unwrap_err(),
        wasm2::Wasm2EngineError::MemoryAllocationError
    );
}

#[test]
fn end_to_end_response_parses_under_its_schema() {
    let wasm = wat::parse_str(GUEST).unwrap();
    let mut engine = start_engine_from_wasm_binary(
        &gzip(&wasm),
        make_dependencies(),
        Wasm2Operation::Handle,
    )
    .unwrap();
    let env_ptr = engine.write_to_memory(b"{}").unwrap();
    let msg_ptr = engine.write_to_memory(b"{\"do_nothing\":{}}").unwrap();
    let res_ptr = engine.handle(env_ptr, msg_ptr).unwrap();
    let res = engine.extract_vector(res_ptr).unwrap();
    let parsed: std::collections::BTreeMap<String, bool> =
        serde_json_wasm::from_slice(&res).unwrap();
    assert_eq!(parsed.get("ok"), Some(&true));
}

#[test]
fn scanner_reads_the_container_directly() {
    let magic = [0x00u8, 0x61, 0x73, 0x6d, 0x01, 0x00, 0x00, 0x00];
    // No sections at all: no start routine.
    assert_eq!(scan_for_start(&magic), Ok(false));
    // A bare start section (id 8, empty payload).
    let mut with_start = magic.to_vec();
    with_start.extend_from_slice(&[8, 0]);
    assert_eq!(scan_for_start(&with_start), Ok(true));
    // Another section first, then the start section.
    let mut late_start = magic.to_vec();
    late_start.extend_from_slice(&[0, 2, 0xAA, 0xBB, 8, 0]);
    assert_eq!(scan_for_start(&late_start), Ok(true));
    // A section whose declared size runs past the buffer is malformed.
    let mut truncated = magic.to_vec();
    truncated.extend_from_slice(&[1, 5, 0x01]);
    assert_eq!(scan_for_start(&truncated), Err(()));
    // A wrong preamble is malformed.
    assert_eq!(scan_for_start(b"\x00asm\x02\x00\x00\x00"), Err(()));
    assert_eq!(scan_for_start(b"short"), Err(()));
}
