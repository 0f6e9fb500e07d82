//! The bridge to the bytecode interpreter. The interpreter is a black-box
//! capability — "execute exported function X with arguments, return a value
//! or trap" — so everything here is a declared type or a thin wrapper whose
//! contract states only what the interpreter's own sources show; the
//! marshaling logic built on top is verified against those contracts.

use vstd::prelude::*;

use crate::errors::Wasm2EngineError;
use crate::memory::GuestMem;
use crate::region::splice;

verus! {

#[verifier::external_type_specification]
#[verifier::external_body]
pub struct ExWasmiModule(wasmi::Module);

#[verifier::external_type_specification]
#[verifier::external_body]
pub struct ExWasmiError(wasmi::Error);

/// One interpreter session: the store owning an instantiated module's state,
/// the instance handle, and its exported linear memory.
#[verifier::external_body]
pub struct WasmiVm {
    store: wasmi::Store<()>,
    instance: wasmi::Instance,
    memory: wasmi::Memory,
}

/// The bytes the session's guest linear memory currently holds.
pub uninterp spec fn wasmi_mem(vm: &WasmiVm) -> Seq<u8>;

/// Relies on wasmi::Memory::data_size: the current size in bytes of the
/// exported linear memory.
#[verifier::external_body]
fn vm_mem_size(vm: &WasmiVm) -> (r: u64)
    ensures
        r == wasmi_mem(vm).len(),
{
    vm.memory.data_size(&vm.store) as u64
}

/// Relies on wasmi::Memory::read: it copies `memory[offset..offset+len]` into
/// the buffer and fails exactly when that range runs out of bounds.
#[verifier::external_body]
fn vm_read(vm: &WasmiVm, offset: u64, len: u64) -> (r: Result<Vec<u8>, ()>)
    ensures
        r is Ok <==> offset + len <= wasmi_mem(vm).len(),
        r is Ok ==> r->Ok_0@ == wasmi_mem(vm).subrange(offset as int, offset + len),
{
    let size = vm.memory.data_size(&vm.store) as u64;
    if offset > size || len > size - offset {
        return Err(());
    }
    let mut buf = vec![0u8; len as usize];
    match vm.memory.read(&vm.store, offset as usize, &mut buf) {
        Ok(()) => Ok(buf),
        Err(_) => Err(()),
    }
}

/// Relies on wasmi::Memory::write: it copies the buffer to
/// `memory[offset..offset+n]`, touching nothing else, and fails exactly when
/// that range runs out of bounds, modifying nothing then.
#[verifier::external_body]
fn vm_write(vm: &mut WasmiVm, offset: u64, data: &[u8]) -> (r: Result<(), ()>)
    ensures
        r is Ok <==> offset + data@.len() <= wasmi_mem(old(vm)).len(),
        r is Ok ==> wasmi_mem(final(vm)) == splice(wasmi_mem(old(vm)), offset as int, data@),
        r is Err ==> wasmi_mem(final(vm)) == wasmi_mem(old(vm)),
{
    let offset = match usize::try_from(offset) {
        Ok(o) => o,
        Err(_) => {
            return Err(());
        },
    };
    match vm.memory.write(&mut vm.store, offset, data) {
        Ok(()) => Ok(()),
        Err(_) => Err(()),
    }
}

/// The shape of what an exported function handed back: the single 32-bit
/// integer the call protocol expects, no value, anything else, or no such
/// export at all.
#[derive(Clone, Copy, Debug, PartialEq, Eq, Structural)]
pub enum InvokeOutcome {
    MissingExport,
    Unit,
    Value(i32),
    Other,
}

/// Relies on wasmi::Instance::get_func and wasmi::Func::call: it runs the
/// named export with the given arguments. Guest code executes freely during
/// the call — it may grow or rewrite its memory — so nothing is promised of
/// the session afterward or of the outcome.
#[verifier::external_body]
pub(crate) fn vm_invoke(vm: &mut WasmiVm, name: &str, args: &Vec<u32>) -> (r: Result<
    InvokeOutcome,
    wasmi::Error,
>) {
    let f = match vm.instance.get_func(&vm.store, name) {
        Some(f) => f,
        None => {
            return Ok(InvokeOutcome::MissingExport);
        },
    };
    let inputs: Vec<wasmi::Val> = args.iter().map(|a| wasmi::Val::I32(*a as i32)).collect();
    let mut outputs = vec![wasmi::Val::I32(0); f.ty(&vm.store).results().len()];
    f.call(&mut vm.store, &inputs, &mut outputs)?;
    match (outputs.len(), outputs.first()) {
        (0, _) => Ok(InvokeOutcome::Unit),
        (1, Some(wasmi::Val::I32(x))) => Ok(InvokeOutcome::Value(*x)),
        _ => Ok(InvokeOutcome::Other),
    }
}

/// Whether the interpreter's parser accepts a module binary. Validation under
/// the default engine configuration is a function of the bytes alone.
pub uninterp spec fn parsable_of(wasm: Seq<u8>) -> bool;

/// Whether a module binary can be taken all the way to a usable session:
/// it parses, its imports bind against an empty import table, and the
/// instance exports a linear memory under the name the protocol fixes. With
/// no imports defined, all of that is a function of the bytes alone.
pub uninterp spec fn instantiable_of(wasm: Seq<u8>) -> bool;

/// Relies on wasmi::Module::new (against a default-configured interpreter
/// engine): it parses and validates a module binary, rejecting any other
/// framing, and it accepts or rejects on the bytes alone. The module handle
/// keeps the engine it was parsed against.
#[verifier::external_body]
pub(crate) fn parse_module(wasm: &[u8]) -> (r: Result<wasmi::Module, wasmi::Error>)
    ensures
        r is Ok <==> parsable_of(wasm@),
{
    wasmi::Module::new(&wasmi::Engine::default(), wasm)
}

/// How building a session failed: the binary was rejected by the parser, the
/// module or its imports were rejected at instantiation, or the instance
/// exports no linear memory under the name the protocol fixes.
#[derive(Clone, Copy, Debug, PartialEq, Eq, Structural)]
pub enum InstantiateFault {
    Unparsable,
    Invalid,
    NoMemoryExport,
}

/// Relies on wasmi::Module::new, wasmi::Store::new, wasmi::Linker::new,
/// wasmi::Linker::instantiate_and_start and wasmi::Instance::get_memory: the
/// whole deterministic path from a module binary to a session, with no host
/// imports defined. The caller rejects any module whose binary declares a
/// start section before calling this, so instantiation runs no guest code.
#[verifier::external_body]
pub(crate) fn instantiate_from_bytes(wasm: &[u8]) -> (r: Result<
    (wasmi::Module, WasmiVm),
    InstantiateFault,
>)
    ensures
        r is Ok <==> instantiable_of(wasm@),
        r matches Err(f) ==> (f is Unparsable <==> !parsable_of(wasm@)),
{
    let engine = wasmi::Engine::default();
    let module =
        wasmi::Module::new(&engine, wasm).map_err(|_| InstantiateFault::Unparsable)?;
    let mut store = wasmi::Store::new(&engine, ());
    let linker: wasmi::Linker<()> = wasmi::Linker::new(&engine);
    let instance = linker
        .instantiate_and_start(&mut store, &module)
        .map_err(|_| InstantiateFault::Invalid)?;
    let memory = instance
        .get_memory(&store, "memory")
        .ok_or(InstantiateFault::NoMemoryExport)?;
    Ok((module, WasmiVm { store, instance, memory }))
}

impl GuestMem for WasmiVm {
    closed spec fn mem(&self) -> Seq<u8> {
        wasmi_mem(self)
    }

    fn mem_size(&self) -> (r: u64) {
        vm_mem_size(self)
    }

    fn read_bytes(&self, offset: u64, len: u64) -> (r: Result<Vec<u8>, ()>) {
        vm_read(self, offset, len)
    }

    fn write_bytes(&mut self, offset: u64, data: &[u8]) -> (r: Result<(), ()>) {
        vm_write(self, offset, data)
    }

    fn call_allocate(&mut self, len: u32) -> (r: Result<u32, Wasm2EngineError>) {
        let mut args: Vec<u32> = Vec::new();
        args.push(len);
        let outcome = match vm_invoke(self, "allocate", &args) {
            Ok(o) => o,
            Err(_) => {
                return Err(Wasm2EngineError::MemoryAllocationError);
            },
        };
        match outcome {
            InvokeOutcome::Value(x) => {
                if x == 0 {
                    Err(Wasm2EngineError::MemoryAllocationError)
                } else {
                    proof {
                        assert(x != 0 ==> (x as u32) != 0) by (bit_vector);
                    }
                    Ok(#[verifier::truncate] (x as u32))
                }
            },
            _ => Err(Wasm2EngineError::MemoryAllocationError),
        }
    }
}

} // verus!
