use wasm2::errors::Wasm2EngineError;
use wasm2::exports::{allocate, deallocate, make_dependencies};
use wasm2::instance::{Wasm2Instance, Wasm2Operation};
use wasm2::memory::{extract_vector_from, write_to_allocated_from, write_to_memory_from};
use wasm2::memory::{GuestMem, HeapMemory};
use wasm2::storage::MemoryStorage;
use wasm2::traits::{IdentityApi, NoQuerier};

type Inst = Wasm2Instance<HeapMemory, MemoryStorage, IdentityApi, NoQuerier>;

fn fresh_instance(op: Wasm2Operation) -> Inst {
    Wasm2Instance::new(make_dependencies(), HeapMemory::new(64), op)
}

fn snapshot(mem: &HeapMemory) -> Vec<u8> {
    let n = mem.mem_size();
    mem.read_bytes(0, n).unwrap()
}

#[test]
fn round_trip_write_then_extract() {
    let mut mem = HeapMemory::new(16);
    let payload = vec![1u8, 2, 3, 4, 5];
    let ptr = write_to_memory_from(&mut mem, payload.as_slice()).unwrap();
    assert_ne!(ptr, 0);
    let back = extract_vector_from(&mem, ptr).unwrap();
    assert_eq!(back, payload);
}

#[test]
fn round_trip_through_instance() {
    let mut inst = fresh_instance(Wasm2Operation::Handle);
    let payload = vec![9u8, 8, 7];
    let ptr = inst.write_to_memory(payload.as_slice()).unwrap();
    let back = inst.extract_vector(ptr).unwrap();
    assert_eq!(back, payload);
}

#[test]
fn round_trip_empty_buffer_is_rejected_only_by_null() {
    // A zero-length buffer still travels exactly: length 0, same pointer back.
    let mut mem = HeapMemory::new(16);
    let ptr = write_to_memory_from(&mut mem, &[]).unwrap();
    let back = extract_vector_from(&mem, ptr).unwrap();
    assert_eq!(back, Vec::<u8>::new());
}

#[test]
fn capacity_overflow_fails_with_memory_write_error_and_memory_unchanged() {
    let mut mem = HeapMemory::new(16);
    // A Region with capacity 4 at a known address.
    let region = allocate(&mut mem, 4);
    assert_ne!(region, 0);
    let before = snapshot(&mem);
    // Five bytes into a four-byte Region must fail closed.
    let r = write_to_allocated_from(&mut mem, &[1, 2, 3, 4, 5], region);
    assert!(r.is_err());
    assert_eq!(snapshot(&mem), before);
    // The instance-level wrapper reports the kind.
    let mut inst = fresh_instance(Wasm2Operation::Handle);
    let region2 = inst.allocate(4).unwrap();
    let e = inst
        .write_to_allocated_memory(&[1, 2, 3, 4, 5], region2)
        .unwrap_err();
    assert_eq!(e, Wasm2EngineError::MemoryWriteError);
}

#[test]
fn write_within_capacity_succeeds_and_updates_length_only() {
    let mut mem = HeapMemory::new(16);
    let region = allocate(&mut mem, 8);
    let r = write_to_allocated_from(&mut mem, &[10, 20, 30], region).unwrap();
    assert_eq!(r, region);
    // offset word unchanged, capacity word unchanged, length word rewritten
    let header = mem.read_bytes(region as u64, 12).unwrap();
    assert_eq!(&header[0..4], (region + 12).to_le_bytes().as_slice());
    assert_eq!(&header[4..8], 8u32.to_le_bytes().as_slice());
    assert_eq!(&header[8..12], 3u32.to_le_bytes().as_slice());
    assert_eq!(extract_vector_from(&mem, region).unwrap(), vec![10, 20, 30]);
}

#[test]
fn null_region_rejected_by_extract() {
    // A fresh zeroed memory: every header decodes with offset == 0.
    let mem = HeapMemory::new(64);
    assert!(extract_vector_from(&mem, 4).is_err());
    let inst = fresh_instance(Wasm2Operation::Handle);
    assert_eq!(
        inst.extract_vector(4).unwrap_err(),
        Wasm2EngineError::MemoryReadError
    );
}

#[test]
fn null_region_rejected_by_write() {
    let mut mem = HeapMemory::new(64);
    let before = snapshot(&mem);
    assert!(write_to_allocated_from(&mut mem, &[1], 4).is_err());
    assert_eq!(snapshot(&mem), before);
    let mut inst = fresh_instance(Wasm2Operation::Handle);
    assert_eq!(
        inst.write_to_allocated_memory(&[1], 4).unwrap_err(),
        Wasm2EngineError::MemoryWriteError
    );
}

#[test]
fn out_of_bounds_header_rejected() {
    let mem = HeapMemory::new(8);
    assert!(extract_vector_from(&mem, 100).is_err());
}

#[test]
fn allocate_links_header_to_fresh_buffer() {
    let mut mem = HeapMemory::new(4);
    let p = allocate(&mut mem, 5);
    assert_ne!(p, 0);
    let header = mem.read_bytes(p as u64, 12).unwrap();
    assert_eq!(&header[0..4], (p + 12).to_le_bytes().as_slice());
    assert_eq!(&header[4..8], 5u32.to_le_bytes().as_slice());
    assert_eq!(&header[8..12], 0u32.to_le_bytes().as_slice());
}

#[test]
fn allocate_on_empty_heap_returns_null() {
    let mut mem = HeapMemory::new(0);
    assert_eq!(allocate(&mut mem, 4), 0);
}

#[test]
fn deallocate_leaves_model_heap_unchanged() {
    let mut mem = HeapMemory::new(8);
    let p = allocate(&mut mem, 2);
    let before = snapshot(&mem);
    deallocate(&mut mem, p);
    assert_eq!(snapshot(&mem), before);
}

#[test]
fn allocation_failure_reports_its_kind() {
    let mut inst: Inst = Wasm2Instance::new(
        make_dependencies(),
        HeapMemory::new(0),
        Wasm2Operation::Handle,
    );
    assert_eq!(
        inst.allocate(4).unwrap_err(),
        Wasm2EngineError::MemoryAllocationError
    );
    assert_eq!(
        inst.write_to_memory(b"abc").unwrap_err(),
        Wasm2EngineError::MemoryAllocationError
    );
}
