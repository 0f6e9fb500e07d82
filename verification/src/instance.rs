//! The per-invocation instance: the guest memory, the capability bundle, and
//! the permission mode of one call, together with the privileged host
//! functions the guest reaches through the dispatch table.
//!
//! Each host function documents its own sentinel convention on the raw return
//! value — `0` for success, `0` for not-found, or a fresh Region pointer —
//! and the contracts below preserve each convention exactly, since guest
//! contracts are written against them.

use vstd::prelude::*;

use vstd::slice::slice_to_vec;
use vstd::string::StringSliceAdditionalSpecFns;
use vstd::utf8::valid_utf8;

use crate::errors::Wasm2EngineError;
use crate::memory::{
    extract_spec, extract_vector_from, write_pre, write_spec, write_to_allocated_from,
    write_to_memory_from, GuestMem,
};
use crate::traits::{Api, Extern, Querier, Storage};

verus! {

/// The permission mode attached to one invocation; fixed for its duration.
/// Query forbids any mutation of persistent storage, enforced at the
/// host-function dispatch boundary.
#[derive(Clone, Copy, Debug, PartialEq, Eq, Structural)]
pub enum Wasm2Operation {
    Handle,
    Query,
    Verify,
}

impl Wasm2Operation {
    pub fn is_handle(&self) -> (r: bool)
        ensures
            r == (*self is Handle),
    {
        matches!(self, Wasm2Operation::Handle)
    }

    pub fn is_query(&self) -> (r: bool)
        ensures
            r == (*self is Query),
    {
        matches!(self, Wasm2Operation::Query)
    }
}

/// The error-message buffer handed back to the guest when it passes
/// canonicalize-address bytes that are not valid UTF-8.
pub open spec fn utf8_err_msg() -> Seq<u8> {
    "input is not valid UTF-8".spec_bytes()
}

fn utf8_err_bytes() -> (r: Vec<u8>)
    ensures
        r@ == utf8_err_msg(),
{
    slice_to_vec("input is not valid UTF-8".as_bytes())
}

/// Relies on core::str::from_utf8: it returns `Ok` exactly on well-formed
/// UTF-8, the property vstd's `valid_utf8` models.
#[verifier::external_body]
fn utf8_check(b: &[u8]) -> (r: bool)
    ensures
        r == valid_utf8(b@),
{
    core::str::from_utf8(b).is_ok()
}

/// One invocation's view of the guest: its linear memory, the capability
/// bundle, and the permission mode. Maps each host-function index to its
/// implementation when the interpreter calls back in.
pub struct Wasm2Instance<M: GuestMem, S: Storage, A: Api, Q: Querier> {
    pub mem: M,
    pub deps: Extern<S, A, Q>,
    pub operation: Wasm2Operation,
}

impl<M: GuestMem, S: Storage, A: Api, Q: Querier> Wasm2Instance<M, S, A, Q> {
    /// The current guest linear memory.
    pub open spec fn mem_view(&self) -> Seq<u8> {
        self.mem.mem()
    }

    /// The current storage contents.
    pub open spec fn store_view(&self) -> Map<Seq<u8>, Seq<u8>> {
        self.deps.storage.contents()
    }

    /// Everything an invocation never changes: its mode and the non-storage
    /// capabilities.
    pub open spec fn same_ctx(self, other: Self) -> bool {
        &&& self.operation == other.operation
        &&& self.deps.api == other.deps.api
        &&& self.deps.querier == other.deps.querier
    }

    pub fn new(deps: Extern<S, A, Q>, mem: M, operation: Wasm2Operation) -> (r: Self)
        ensures
            r.mem == mem,
            r.deps == deps,
            r.operation == operation,
    {
        Wasm2Instance { mem, deps, operation }
    }

    /// Extracts a vector from the wasm memory space; every failure is a
    /// `MemoryReadError`.
    pub fn extract_vector(&self, vec_ptr_ptr: u32) -> (r: Result<Vec<u8>, Wasm2EngineError>)
        ensures
            match extract_spec(self.mem_view(), vec_ptr_ptr) {
                Some(d) => r is Ok && r->Ok_0@ == d,
                None => r == Err::<Vec<u8>, _>(Wasm2EngineError::MemoryReadError),
            },
    {
        match extract_vector_from(&self.mem, vec_ptr_ptr) {
            Ok(v) => Ok(v),
            Err(_) => Err(Wasm2EngineError::MemoryReadError),
        }
    }

    /// Drives the guest's `allocate` export; a null return is an allocation
    /// failure.
    pub fn allocate(&mut self, len: u32) -> (r: Result<u32, Wasm2EngineError>)
        ensures
            old(self).same_ctx(*final(self)),
            final(self).deps == old(self).deps,
            r is Ok ==> r->Ok_0 != 0,
            r is Err ==> r->Err_0 is MemoryAllocationError,
    {
        self.mem.call_allocate(len)
    }

    /// Writes `buffer` into the already-allocated Region at
    /// `ptr_to_region_in_wasm_vm`; fails closed with `MemoryWriteError`
    /// (memory untouched) whenever the Region is null, its declared capacity
    /// is too small, or any touched range is out of bounds.
    pub fn write_to_allocated_memory(&mut self, buffer: &[u8], ptr_to_region_in_wasm_vm: u32) -> (r:
        Result<u32, Wasm2EngineError>)
        ensures
            old(self).same_ctx(*final(self)),
            final(self).deps == old(self).deps,
            r is Ok <==> write_pre(old(self).mem_view(), ptr_to_region_in_wasm_vm, buffer@.len() as int),
            r is Ok ==> r->Ok_0 == ptr_to_region_in_wasm_vm && final(self).mem_view() == write_spec(
                old(self).mem_view(),
                ptr_to_region_in_wasm_vm,
                buffer@,
            ),
            r is Err ==> r->Err_0 is MemoryWriteError && final(self).mem_view() == old(self).mem_view(),
    {
        match write_to_allocated_from(&mut self.mem, buffer, ptr_to_region_in_wasm_vm) {
            Ok(p) => Ok(p),
            Err(_) => Err(Wasm2EngineError::MemoryWriteError),
        }
    }

    /// Allocates a fresh Region in guest memory and writes `buffer` into it;
    /// the single entry point for handing any host-produced buffer back into
    /// guest space.
    pub fn write_to_memory(&mut self, buffer: &[u8]) -> (r: Result<u32, Wasm2EngineError>)
        ensures
            old(self).same_ctx(*final(self)),
            final(self).deps == old(self).deps,
            r is Ok ==> r->Ok_0 != 0 && exists|m1: Seq<u8>|
                #[trigger] write_pre(m1, r->Ok_0, buffer@.len() as int) && final(self).mem_view()
                    == write_spec(m1, r->Ok_0, buffer@),
            r is Err ==> r->Err_0 is MemoryAllocationError || r->Err_0 is MemoryWriteError,
    {
        write_to_memory_from(&mut self.mem, buffer)
    }


    /// Exactly what read-storage guarantees, relating the instance before the
    /// call (`pre`) to the one after it (`post`): storage is never changed; a
    /// bad key Region is a `MemoryReadError`; an absent key answers the null
    /// pointer `0` with memory untouched; a present key answers a fresh,
    /// non-null Region pointer holding the stored value.
    pub open spec fn read_db_post(
        pre: Self,
        post: Self,
        state_key_ptr_ptr: i32,
        r: Result<Option<i32>, Wasm2EngineError>,
    ) -> bool {
        &&& pre.same_ctx(post)
        &&& post.store_view() == pre.store_view()
        &&& {
            let m0 = pre.mem_view();
            let st0 = pre.store_view();
            match extract_spec(m0, state_key_ptr_ptr as u32) {
                None => r == Err::<Option<i32>, _>(Wasm2EngineError::MemoryReadError)
                    && post.mem_view() == m0,
                Some(k) => {
                    if !st0.contains_key(k) {
                        r == Ok::<_, Wasm2EngineError>(Some(0i32)) && post.mem_view() == m0
                    } else {
                        &&& r is Ok ==> exists|p: u32, m1: Seq<u8>|
                            p != 0 && r == Ok::<_, Wasm2EngineError>(Some(p as i32))
                                && #[trigger] write_pre(m1, p, st0[k].len() as int)
                                && post.mem_view() == write_spec(m1, p, st0[k])
                        &&& r is Err ==> r->Err_0 is MemoryAllocationError
                            || r->Err_0 is MemoryWriteError
                    }
                },
            }
        }
    }

    /// read-storage: looks the key Region up in the storage capability. An
    /// absent key answers the null pointer `0` — the caller-visible
    /// "not found" signal, distinct from an error — and a present key answers
    /// a fresh Region pointer holding the value.
    pub fn read_db_index(&mut self, state_key_ptr_ptr: i32) -> (r: Result<
        Option<i32>,
        Wasm2EngineError,
    >)
        ensures
            Self::read_db_post(*old(self), *final(self), state_key_ptr_ptr, r),
    {
        let key = match self.extract_vector(state_key_ptr_ptr as u32) {
            Ok(k) => k,
            Err(e) => {
                return Err(e);
            },
        };
        let value = match self.deps.storage.get(key.as_slice()) {
            None => {
                return Ok(Some(0));
            },
            Some(v) => v,
        };
        let ptr = match self.write_to_memory(value.as_slice()) {
            Ok(p) => p,
            Err(e) => {
                return Err(e);
            },
        };
        Ok(Some(ptr as i32))
    }

    /// Exactly what remove-storage guarantees: guest memory is never changed;
    /// during a Query the call fails with `UnauthorizedWrite` and storage is
    /// exactly what it was; otherwise a bad key Region is a `MemoryReadError`
    /// leaving storage unchanged, and a good one removes the key.
    pub open spec fn remove_db_post(
        pre: Self,
        post: Self,
        state_key_ptr_ptr: i32,
        r: Result<Option<i32>, Wasm2EngineError>,
    ) -> bool {
        &&& pre.same_ctx(post)
        &&& post.mem_view() == pre.mem_view()
        &&& {
            let m0 = pre.mem_view();
            let st0 = pre.store_view();
            if pre.operation is Query {
                r == Err::<Option<i32>, _>(Wasm2EngineError::UnauthorizedWrite)
                    && post.store_view() == st0
            } else {
                match extract_spec(m0, state_key_ptr_ptr as u32) {
                    None => r == Err::<Option<i32>, _>(Wasm2EngineError::MemoryReadError)
                        && post.store_view() == st0,
                    Some(k) => r == Ok::<_, Wasm2EngineError>(None::<i32>) && post.store_view()
                        == st0.remove(k),
                }
            }
        }
    }

    /// remove-storage: forbidden during a Query — the storage is then left
    /// exactly as it was — and otherwise deletes the key named by the Region.
    pub fn remove_db_index(&mut self, state_key_ptr_ptr: i32) -> (r: Result<
        Option<i32>,
        Wasm2EngineError,
    >)
        ensures
            Self::remove_db_post(*old(self), *final(self), state_key_ptr_ptr, r),
    {
        if self.operation.is_query() {
            return Err(Wasm2EngineError::UnauthorizedWrite);
        }
        let key = match self.extract_vector(state_key_ptr_ptr as u32) {
            Ok(k) => k,
            Err(e) => {
                return Err(e);
            },
        };
        self.deps.storage.remove(key.as_slice());
        Ok(None)
    }

    /// Exactly what write-storage guarantees: guest memory is never changed;
    /// during a Query the call fails with `UnauthorizedWrite` and storage is
    /// exactly what it was; otherwise a bad key or value Region is a
    /// `MemoryReadError` leaving storage unchanged, and good ones store the
    /// value under the key.
    pub open spec fn write_db_post(
        pre: Self,
        post: Self,
        state_key_ptr_ptr: i32,
        value_ptr_ptr: i32,
        r: Result<Option<i32>, Wasm2EngineError>,
    ) -> bool {
        &&& pre.same_ctx(post)
        &&& post.mem_view() == pre.mem_view()
        &&& {
            let m0 = pre.mem_view();
            let st0 = pre.store_view();
            if pre.operation is Query {
                r == Err::<Option<i32>, _>(Wasm2EngineError::UnauthorizedWrite)
                    && post.store_view() == st0
            } else {
                match extract_spec(m0, state_key_ptr_ptr as u32) {
                    None => r == Err::<Option<i32>, _>(Wasm2EngineError::MemoryReadError)
                        && post.store_view() == st0,
                    Some(k) => match extract_spec(m0, value_ptr_ptr as u32) {
                        None => r == Err::<Option<i32>, _>(Wasm2EngineError::MemoryReadError)
                            && post.store_view() == st0,
                        Some(v) => r == Ok::<_, Wasm2EngineError>(None::<i32>) && post.store_view()
                            == st0.insert(k, v),
                    },
                }
            }
        }
    }

    /// write-storage: forbidden during a Query — the storage is then left
    /// exactly as it was — and otherwise stores the value Region under the
    /// key Region.
    pub fn write_db_index(&mut self, state_key_ptr_ptr: i32, value_ptr_ptr: i32) -> (r: Result<
        Option<i32>,
        Wasm2EngineError,
    >)
        ensures
            Self::write_db_post(*old(self), *final(self), state_key_ptr_ptr, value_ptr_ptr, r),
    {
        if self.operation.is_query() {
            return Err(Wasm2EngineError::UnauthorizedWrite);
        }
        let key = match self.extract_vector(state_key_ptr_ptr as u32) {
            Ok(k) => k,
            Err(e) => {
                return Err(e);
            },
        };
        let value = match self.extract_vector(value_ptr_ptr as u32) {
            Ok(v) => v,
            Err(e) => {
                return Err(e);
            },
        };
        self.deps.storage.set(key.as_slice(), value.as_slice());
        Ok(None)
    }

    /// Exactly what canonicalize-address guarantees: storage is never
    /// changed; a bad input Region is a `MemoryReadError`; input that is not
    /// valid UTF-8 does not fail the call but answers a fresh, non-null
    /// Region pointer holding the error message; on valid input the
    /// capability's canonical bytes land in the caller-supplied destination
    /// Region (capacity-checked, else `MemoryWriteError`) and the answer is
    /// the success sentinel `0`; a failing capability is a Panic kind.
    pub open spec fn canonicalize_address_post(
        pre: Self,
        post: Self,
        human_ptr_ptr: i32,
        canonical_ptr_ptr: i32,
        r: Result<Option<i32>, Wasm2EngineError>,
    ) -> bool {
        &&& pre.same_ctx(post)
        &&& post.store_view() == pre.store_view()
        &&& {
            let m0 = pre.mem_view();
            match extract_spec(m0, human_ptr_ptr as u32) {
                None => r == Err::<Option<i32>, _>(Wasm2EngineError::MemoryReadError)
                    && post.mem_view() == m0,
                Some(h) => {
                    if !valid_utf8(h) {
                        &&& r is Ok ==> exists|p: u32, m1: Seq<u8>|
                            p != 0 && r == Ok::<_, Wasm2EngineError>(Some(p as i32))
                                && #[trigger] write_pre(m1, p, utf8_err_msg().len() as int)
                                && post.mem_view() == write_spec(m1, p, utf8_err_msg())
                        &&& r is Err ==> r->Err_0 is MemoryAllocationError
                            || r->Err_0 is MemoryWriteError
                    } else {
                        match pre.deps.api.canon_spec(h) {
                            None => r == Err::<Option<i32>, _>(Wasm2EngineError::Panic)
                                && post.mem_view() == m0,
                            Some(c) => {
                                if write_pre(m0, canonical_ptr_ptr as u32, c.len() as int) {
                                    r == Ok::<_, Wasm2EngineError>(Some(0i32)) && post.mem_view()
                                        == write_spec(m0, canonical_ptr_ptr as u32, c)
                                } else {
                                    r == Err::<Option<i32>, _>(Wasm2EngineError::MemoryWriteError)
                                        && post.mem_view() == m0
                                }
                            },
                        }
                    }
                },
            }
        }
    }

    /// canonicalize-address: on input that is not valid UTF-8 the call does
    /// not fail — it answers a fresh, non-null Region pointer holding a
    /// human-readable error message. On valid input the canonical bytes go
    /// into the caller-supplied destination Region (capacity-checked) and the
    /// answer is `0`, the success sentinel. A failing address capability is a
    /// Panic kind.
    pub fn canonicalize_address_index(&mut self, human_ptr_ptr: i32, canonical_ptr_ptr: i32) -> (r:
        Result<Option<i32>, Wasm2EngineError>)
        ensures
            Self::canonicalize_address_post(
                *old(self),
                *final(self),
                human_ptr_ptr,
                canonical_ptr_ptr,
                r,
            ),
    {
        let human = match self.extract_vector(human_ptr_ptr as u32) {
            Ok(h) => h,
            Err(e) => {
                return Err(e);
            },
        };
        if !utf8_check(human.as_slice()) {
            let msg = utf8_err_bytes();
            let p = match self.write_to_memory(msg.as_slice()) {
                Ok(p) => p,
                Err(e) => {
                    return Err(e);
                },
            };
            return Ok(Some(p as i32));
        }
        let canonical = match self.deps.api.canonical_address(human.as_slice()) {
            Ok(c) => c,
            Err(_) => {
                return Err(Wasm2EngineError::Panic);
            },
        };
        match self.write_to_allocated_memory(canonical.as_slice(), canonical_ptr_ptr as u32) {
            Ok(_) => Ok(Some(0)),
            Err(e) => Err(e),
        }
    }

    /// Exactly what humanize-address guarantees: the mirror of
    /// canonicalize-address without the UTF-8 branch; the human bytes land in
    /// the caller-supplied destination Region and the answer is `0`.
    pub open spec fn humanize_address_post(
        pre: Self,
        post: Self,
        canonical_ptr_ptr: i32,
        human_ptr_ptr: i32,
        r: Result<Option<i32>, Wasm2EngineError>,
    ) -> bool {
        &&& pre.same_ctx(post)
        &&& post.store_view() == pre.store_view()
        &&& {
            let m0 = pre.mem_view();
            match extract_spec(m0, canonical_ptr_ptr as u32) {
                None => r == Err::<Option<i32>, _>(Wasm2EngineError::MemoryReadError)
                    && post.mem_view() == m0,
                Some(cb) => match pre.deps.api.human_spec(cb) {
                    None => r == Err::<Option<i32>, _>(Wasm2EngineError::Panic) && post.mem_view()
                        == m0,
                    Some(h) => {
                        if write_pre(m0, human_ptr_ptr as u32, h.len() as int) {
                            r == Ok::<_, Wasm2EngineError>(Some(0i32)) && post.mem_view()
                                == write_spec(m0, human_ptr_ptr as u32, h)
                        } else {
                            r == Err::<Option<i32>, _>(Wasm2EngineError::MemoryWriteError)
                                && post.mem_view() == m0
                        }
                    },
                },
            }
        }
    }

    /// humanize-address: converts the canonical Region through the address
    /// capability, writes the human bytes into the caller-supplied
    /// destination Region, and answers `0` on success. A failing address
    /// capability is a Panic kind.
    pub fn humanize_address_index(&mut self, canonical_ptr_ptr: i32, human_ptr_ptr: i32) -> (r:
        Result<Option<i32>, Wasm2EngineError>)
        ensures
            Self::humanize_address_post(
                *old(self),
                *final(self),
                canonical_ptr_ptr,
                human_ptr_ptr,
                r,
            ),
    {
        let canonical = match self.extract_vector(canonical_ptr_ptr as u32) {
            Ok(c) => c,
            Err(e) => {
                return Err(e);
            },
        };
        let human = match self.deps.api.human_address(canonical.as_slice()) {
            Ok(h) => h,
            Err(_) => {
                return Err(Wasm2EngineError::Panic);
            },
        };
        match self.write_to_allocated_memory(human.as_slice(), human_ptr_ptr as u32) {
            Ok(_) => Ok(Some(0)),
            Err(e) => Err(e),
        }
    }

    /// Exactly what query-chain guarantees: nothing changes, and the call
    /// never succeeds — a bad request Region is a `MemoryReadError`, and a
    /// good one still aborts, because the query capability is not integrated.
    pub open spec fn query_chain_post(
        pre: Self,
        post: Self,
        query_ptr_ptr: i32,
        r: Result<Option<i32>, Wasm2EngineError>,
    ) -> bool {
        &&& pre.same_ctx(post)
        &&& post.mem_view() == pre.mem_view()
        &&& post.store_view() == pre.store_view()
        &&& match extract_spec(pre.mem_view(), query_ptr_ptr as u32) {
            None => r == Err::<Option<i32>, _>(Wasm2EngineError::MemoryReadError),
            Some(q) => r == Err::<Option<i32>, _>(Wasm2EngineError::Panic),
        }
    }

    /// query-chain: the query capability is not integrated, so after reading
    /// the request buffer the call aborts with a Panic kind rather than
    /// fabricating an answer.
    pub fn query_chain_index(&mut self, query_ptr_ptr: i32) -> (r: Result<
        Option<i32>,
        Wasm2EngineError,
    >)
        ensures
            Self::query_chain_post(*old(self), *final(self), query_ptr_ptr, r),
    {
        let _query_buffer = match self.extract_vector(query_ptr_ptr as u32) {
            Ok(q) => q,
            Err(e) => {
                return Err(e);
            },
        };
        Err(Wasm2EngineError::Panic)
    }

    /// Exactly what debug-log guarantees: a bad message Region is a
    /// `MemoryReadError`, a message that is not UTF-8 is a Panic kind, and a
    /// well-formed one succeeds with no answer value.
    pub open spec fn debug_print_post(
        pre: Self,
        message_ptr_ptr: i32,
        r: Result<Option<i32>, Wasm2EngineError>,
    ) -> bool {
        match extract_spec(pre.mem_view(), message_ptr_ptr as u32) {
            None => r == Err::<Option<i32>, _>(Wasm2EngineError::MemoryReadError),
            Some(m) => {
                if valid_utf8(m) {
                    r == Ok::<_, Wasm2EngineError>(None::<i32>)
                } else {
                    r == Err::<Option<i32>, _>(Wasm2EngineError::Panic)
                }
            },
        }
    }

    /// debug-log: decodes the message Region as UTF-8; a malformed message is
    /// a Panic kind. The diagnostic sink itself lives outside the library.
    pub fn debug_print_index(&self, message_ptr_ptr: i32) -> (r: Result<
        Option<i32>,
        Wasm2EngineError,
    >)
        ensures
            Self::debug_print_post(*self, message_ptr_ptr, r),
    {
        let message = match self.extract_vector(message_ptr_ptr as u32) {
            Ok(m) => m,
            Err(e) => {
                return Err(e);
            },
        };
        if !utf8_check(message.as_slice()) {
            return Err(Wasm2EngineError::Panic);
        }
        Ok(None)
    }
}

} // verus!
