//! The engine orchestrating one call: decompress the module binary, parse it,
//! reject it if it declares an implicit start routine, instantiate it, and
//! invoke its `handle` or `query` entry point, marshaling arguments and
//! results through the verified guest-memory accessor.
//!
//! The engine binds no host imports: it runs import-free guests. A guest that
//! imports the host-function table is embedded through interpreter wiring the
//! embedder supplies, whose every decision is one call into the verified
//! dispatch.

use vstd::prelude::*;

use crate::errors::{wasmi_error_to_wasm2_error, StdError, Wasm2EngineError};
use crate::instance::{Wasm2Instance, Wasm2Operation};
use crate::interpreter::{
    instantiable_of, instantiate_from_bytes, parsable_of, parse_module, vm_invoke,
    InstantiateFault, InvokeOutcome, WasmiVm,
};
use crate::memory::{extract_spec, write_pre, write_spec};
use crate::startcheck::{module_has_start, scan_for_start};
use crate::traits::{Api, Extern, Querier, Storage};

verus! {

/// A started engine: the instantiated interpreter session wired to one
/// invocation's capabilities and permission mode.
pub struct Engine<S: Storage, A: Api, Q: Querier> {
    pub instance: Wasm2Instance<WasmiVm, S, A, Q>,
    pub module: wasmi::Module,
}

impl<S: Storage, A: Api, Q: Querier> Engine<S, A, Q> {
    pub fn new(instance: Wasm2Instance<WasmiVm, S, A, Q>, module: wasmi::Module) -> (r: Self)
        ensures
            r.instance == instance,
    {
        Engine { instance, module }
    }

    /// Hands a host-produced buffer into guest space through a freshly
    /// allocated Region.
    pub fn write_to_memory(&mut self, buffer: &[u8]) -> (r: Result<u32, Wasm2EngineError>)
        ensures
            old(self).instance.same_ctx(final(self).instance),
            final(self).instance.deps == old(self).instance.deps,
            r is Ok ==> r->Ok_0 != 0 && exists|m1: Seq<u8>|
                #[trigger] write_pre(m1, r->Ok_0, buffer@.len() as int) && final(self).instance.mem_view() == write_spec(m1, r->Ok_0, buffer@),
            r is Err ==> r->Err_0 is MemoryAllocationError || r->Err_0 is MemoryWriteError,
    {
        self.instance.write_to_memory(buffer)
    }

    /// Extracts a result buffer from guest space through the Region at
    /// `vec_ptr_ptr`.
    pub fn extract_vector(&self, vec_ptr_ptr: u32) -> (r: Result<Vec<u8>, Wasm2EngineError>)
        ensures
            match extract_spec(self.instance.mem_view(), vec_ptr_ptr) {
                Some(d) => r is Ok && r->Ok_0@ == d,
                None => r == Err::<Vec<u8>, _>(Wasm2EngineError::MemoryReadError),
            },
    {
        self.instance.extract_vector(vec_ptr_ptr)
    }

    /// Invokes the guest's `handle` entry point with the two argument Region
    /// pointers. Guest code runs freely during the call; the returned
    /// interpreter value must be a single 32-bit integer — the Region pointer
    /// of the result — and any other shape, like any trap, is a Panic kind.
    pub fn handle(&mut self, env_ptr: u32, msg_ptr: u32) -> (r: Result<u32, Wasm2EngineError>)
        ensures
            old(self).instance.same_ctx(final(self).instance),
            r is Err ==> r->Err_0 is Panic,
    {
        let mut args: Vec<u32> = Vec::new();
        args.push(env_ptr);
        args.push(msg_ptr);
        let outcome = match vm_invoke(&mut self.instance.mem, "handle", &args) {
            Ok(o) => o,
            Err(e) => {
                return Err(wasmi_error_to_wasm2_error(&e));
            },
        };
        match outcome {
            InvokeOutcome::Value(x) => Ok(#[verifier::truncate] (x as u32)),
            _ => Err(Wasm2EngineError::Panic),
        }
    }

    /// Invokes the guest's `query` entry point with the message Region
    /// pointer; the same return protocol as `handle`.
    pub fn query(&mut self, msg_ptr: u32) -> (r: Result<u32, Wasm2EngineError>)
        ensures
            old(self).instance.same_ctx(final(self).instance),
            r is Err ==> r->Err_0 is Panic,
    {
        let mut args: Vec<u32> = Vec::new();
        args.push(msg_ptr);
        let outcome = match vm_invoke(&mut self.instance.mem, "query", &args) {
            Ok(o) => o,
            Err(e) => {
                return Err(wasmi_error_to_wasm2_error(&e));
            },
        };
        match outcome {
            InvokeOutcome::Value(x) => Ok(#[verifier::truncate] (x as u32)),
            _ => Err(Wasm2EngineError::Panic),
        }
    }
}

/// What single-shot gzip decompression yields on a byte stream — a function
/// of the input alone — or `None` on a corrupt stream.
pub uninterp spec fn gunzip_of(compressed: Seq<u8>) -> Option<Seq<u8>>;

/// Relies on libflate::gzip::Decoder: its construction parses the gzip
/// header, and reading it to the end inflates the whole stream; both are
/// deterministic in the input bytes.
#[verifier::external_body]
fn gunzip(compressed: &[u8]) -> (r: Result<Vec<u8>, ()>)
    ensures
        r is Ok <==> gunzip_of(compressed@) is Some,
        r is Ok ==> Some(r->Ok_0@) == gunzip_of(compressed@),
{
    let mut decoder = match libflate::gzip::Decoder::new(std::io::Cursor::new(compressed)) {
        Ok(d) => d,
        Err(_) => {
            return Err(());
        },
    };
    let mut buf: Vec<u8> = Vec::new();
    match std::io::Read::read_to_end(&mut decoder, &mut buf) {
        Ok(_) => Ok(buf),
        Err(_) => Err(()),
    }
}

/// Decompresses a gzip-packed module binary; a corrupt stream is a terminal,
/// non-retryable error.
pub fn deflate_wasm(compressed_bytes: &[u8]) -> (r: Result<Vec<u8>, StdError>)
    ensures
        r is Ok <==> gunzip_of(compressed_bytes@) is Some,
        r is Ok ==> Some(r->Ok_0@) == gunzip_of(compressed_bytes@),
{
    match gunzip(compressed_bytes) {
        Ok(v) => Ok(v),
        Err(_) => Err(
            StdError::GenericErr { msg: "failed to deflate WASM binary".to_owned() },
        ),
    }
}

/// Parses and validates the module binary: it succeeds exactly on a
/// structurally valid container and reports the parser's rejection otherwise.
/// The parsed module is opaque to the caller — every later guarantee is
/// stated against the binary it came from.
pub fn parse_wasm(wasm_binary_u8: &[u8]) -> (r: Result<wasmi::Module, StdError>)
    ensures
        r is Ok <==> parsable_of(wasm_binary_u8@),
{
    match parse_module(wasm_binary_u8) {
        Ok(m) => Ok(m),
        Err(_) => Err(StdError::GenericErr { msg: "failed to parse WASM binary".to_owned() }),
    }
}

/// Builds a started engine from a module binary: checks the binary for an
/// implicit start routine, then parses and instantiates it against an empty
/// import table. The start check cannot be skipped — the interpreter of this
/// version runs any start function during instantiation, so a module whose
/// binary declares one (or whose container the scanner cannot follow) is
/// rejected before the interpreter sees it. Everything is decided by
/// `wasm_binary` itself, so success is owed exactly to a start-free,
/// instantiable binary. No host imports are bound here: a guest importing the
/// host functions must be embedded through wiring the embedder supplies.
pub fn start_engine<S: Storage, A: Api, Q: Querier>(
    deps: Extern<S, A, Q>,
    wasm_binary: &[u8],
    operation: Wasm2Operation,
) -> (r: Result<Engine<S, A, Q>, StdError>)
    ensures
        r is Ok <==> module_has_start(wasm_binary@) == Some(false) && instantiable_of(
            wasm_binary@,
        ),
        r is Ok ==> r->Ok_0.instance.operation == operation && r->Ok_0.instance.deps == deps,
{
    let has_start = match scan_for_start(wasm_binary) {
        Ok(b) => b,
        Err(_) => {
            return Err(StdError::GenericErr { msg: "WASM2 module invalid".to_owned() });
        },
    };
    if has_start {
        return Err(
            StdError::GenericErr {
                msg: "WASM2 module provided should not have 'start' defined".to_owned(),
            },
        );
    }
    let (module, vm) = match instantiate_from_bytes(wasm_binary) {
        Ok(p) => p,
        Err(InstantiateFault::Unparsable) => {
            return Err(StdError::GenericErr { msg: "failed to parse WASM binary".to_owned() });
        },
        Err(InstantiateFault::Invalid) => {
            return Err(StdError::GenericErr { msg: "WASM2 module invalid".to_owned() });
        },
        Err(InstantiateFault::NoMemoryExport) => {
            return Err(
                StdError::GenericErr {
                    msg: "module expected to have 'memory' export".to_owned(),
                },
            );
        },
    };
    let instance = Wasm2Instance::new(deps, vm, operation);
    Ok(Engine::new(instance, module))
}

/// The whole load pipeline: decompress the module stream and start the engine
/// on the resulting binary. Success is owed exactly to a well-formed gzip
/// stream holding a start-free, instantiable module binary.
pub fn start_engine_from_wasm_binary<S: Storage, A: Api, Q: Querier>(
    data: &[u8],
    deps: Extern<S, A, Q>,
    operation: Wasm2Operation,
) -> (r: Result<Engine<S, A, Q>, StdError>)
    ensures
        r is Ok <==> (gunzip_of(data@) matches Some(w) && module_has_start(w) == Some(false)
            && instantiable_of(w)),
        r is Ok ==> r->Ok_0.instance.operation == operation && r->Ok_0.instance.deps == deps,
{
    let wasm = match deflate_wasm(data) {
        Ok(w) => w,
        Err(e) => {
            return Err(e);
        },
    };
    start_engine(deps, wasm.as_slice(), operation)
}

} // verus!
