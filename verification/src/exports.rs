//! The guest shim's side of the protocol: the `allocate`/`deallocate` exports
//! the host drives, and the wrappers that marry a contract's callbacks to the
//! Region codec so they consume and produce host-compatible byte buffers.

use vstd::prelude::*;

use vstd::slice::slice_to_vec;

use crate::memory::{
    extract_spec, extract_vector_from, lemma_write_then_extract, lemma_write_untouched_outside,
    write_pre, write_to_allocated_from, GuestMem, HeapMemory,
};
use crate::region::{region_at, word_at, Region};
use crate::storage::MemoryStorage;
use crate::traits::{Extern, IdentityApi, NoQuerier, Storage};

verus! {

/// A contract's typed callbacks, already married to their serializer: the
/// shim hands byte buffers in and takes the serialized response back.
pub trait Contract {
    /// What handling yields, per environment and message bytes.
    spec fn handle_spec(&self, env: Seq<u8>, msg: Seq<u8>) -> Seq<u8>;

    /// What querying yields, per message bytes.
    spec fn query_spec(&self, msg: Seq<u8>) -> Seq<u8>;

    fn handle(&self, env: &Vec<u8>, msg: &Vec<u8>) -> (r: Vec<u8>)
        ensures
            r@ == self.handle_spec(env@, msg@),
    ;

    fn query(&self, msg: &Vec<u8>) -> (r: Vec<u8>)
        ensures
            r@ == self.query_spec(msg@),
    ;
}

/// A contract that answers every call with the message it was given.
pub struct EchoContract;

impl Contract for EchoContract {
    open spec fn handle_spec(&self, env: Seq<u8>, msg: Seq<u8>) -> Seq<u8> {
        msg
    }

    open spec fn query_spec(&self, msg: Seq<u8>) -> Seq<u8> {
        msg
    }

    fn handle(&self, env: &Vec<u8>, msg: &Vec<u8>) -> (r: Vec<u8>) {
        slice_to_vec(msg.as_slice())
    }

    fn query(&self, msg: &Vec<u8>) -> (r: Vec<u8>) {
        slice_to_vec(msg.as_slice())
    }
}

/// allocate: reserves `size` bytes in the shim's heap and returns a pointer
/// to a Region with `capacity = size, length = 0` describing them; exported
/// so the host can drive it. The null pointer answers exactly the requests
/// the heap cannot serve (an empty heap, or a Region past the 32-bit bound),
/// and the heap is then untouched.
pub fn allocate(mem: &mut HeapMemory, size: u32) -> (r: u32)
    ensures
        r == 0 <==> !(old(mem).mem().len() > 0 && old(mem).mem().len() + 12 + size
            <= 0xFFFF_FFFF),
        r == 0 ==> final(mem).mem() == old(mem).mem(),
        r != 0 ==> ({
            &&& r as int == old(mem).mem().len()
            &&& r + 12 + size <= 0xFFFF_FFFF
            &&& final(mem).mem().len() == old(mem).mem().len() + 12 + size
            &&& region_at(final(mem).mem(), r as int) == (Region {
                offset: (r + 12) as u32,
                capacity: size,
                length: 0,
            })
            &&& forall|j: int|
                0 <= j < old(mem).mem().len() ==> final(mem).mem()[j] == old(mem).mem()[j]
            &&& forall|j: int| r + 12 <= j < r + 12 + size ==> final(mem).mem()[j] == 0u8
        }),
{
    mem.allocate_region(size)
}

/// deallocate: accepts a pointer to a Region created with `allocate`. The
/// model heap reclaims nothing, so the call only marks the protocol point at
/// which the guest would release the Region and its bytes; it must be made at
/// most once per pointer, and never while the host still references it.
pub fn deallocate(mem: &mut HeapMemory, pointer: u32)
    ensures
        final(mem).mem() == old(mem).mem(),
{
}

/// Allocates a fresh Region at the end of the shim heap and writes `out` into
/// it: the one way a shim result buffer leaves the guest. Succeeds exactly
/// when the heap can serve the Region; on success the new Region sits wholly
/// beyond the old heap (every pre-existing byte untouched), and extracting
/// through the returned pointer yields exactly `out`.
fn publish_result(mem: &mut HeapMemory, out: &Vec<u8>) -> (r: u32)
    ensures
        ({
            let m0 = old(mem).mem();
            &&& (r == 0) <==> !(m0.len() > 0 && m0.len() + 12 + out@.len() <= 0xFFFF_FFFF)
            &&& r == 0 ==> final(mem).mem() == m0
            &&& r != 0 ==> ({
                &&& r as int == m0.len()
                &&& final(mem).mem().len() == m0.len() + 12 + out@.len()
                &&& forall|j: int| 0 <= j < m0.len() ==> final(mem).mem()[j] == m0[j]
                &&& extract_spec(final(mem).mem(), r) == Some(out@)
            })
        }),
{
    if out.len() > 0xFFFF_FFFFusize {
        return 0;
    }
    let ghost m0 = mem.mem();
    let p = mem.allocate_region(out.len() as u32);
    if p == 0 {
        return 0;
    }
    let ghost m1 = mem.mem();
    let w = write_to_allocated_from(mem, out.as_slice(), p);
    proof {
        let n = out@.len() as int;
        assert(word_at(m1, p as int) == p + 12);
        assert(write_pre(m1, p, n));
        assert(w is Ok);
        assert forall|j: int| 0 <= j < m0.len() implies mem.mem()[j] == m0[j] by {
            lemma_write_untouched_outside(m1, p, out@, j);
        }
        lemma_write_untouched_outside(m1, p, out@, 0);
        lemma_write_then_extract(m1, p, out@);
    }
    match w {
        Ok(_) => p,
        Err(_) => {
            proof {
                assert(false);
            }
            0
        },
    }
}

/// Consumes the env and msg Regions, hands the contract their bytes, and
/// returns a freshly allocated Region holding the serialized result — never
/// reusing either input Region for the output (the result pointer differs
/// from both, and no pre-existing heap byte changes). A malformed input
/// Region answers the null pointer `0` with the heap untouched; with readable
/// inputs, the call succeeds exactly when the heap can hold the result.
pub fn do_handle<C: Contract>(
    contract: &C,
    mem: &mut HeapMemory,
    env_ptr: u32,
    msg_ptr: u32,
) -> (r: u32)
    ensures
        ({
            let m0 = old(mem).mem();
            let env = extract_spec(m0, env_ptr);
            let msg = extract_spec(m0, msg_ptr);
            &&& !(env is Some && msg is Some) ==> r == 0 && final(mem).mem() == m0
            &&& (env is Some && msg is Some) ==> ({
                let out = contract.handle_spec(env->Some_0, msg->Some_0);
                &&& (r == 0) <==> !(m0.len() > 0 && m0.len() + 12 + out.len() <= 0xFFFF_FFFF)
                &&& r == 0 ==> final(mem).mem() == m0
                &&& r != 0 ==> ({
                    &&& r != env_ptr && r != msg_ptr
                    &&& final(mem).mem().len() == m0.len() + 12 + out.len()
                    &&& forall|j: int| 0 <= j < m0.len() ==> final(mem).mem()[j] == m0[j]
                    &&& extract_spec(final(mem).mem(), r) == Some(out)
                })
            })
        }),
{
    let env = match extract_vector_from(mem, env_ptr) {
        Ok(v) => v,
        Err(_) => {
            return 0;
        },
    };
    let msg = match extract_vector_from(mem, msg_ptr) {
        Ok(v) => v,
        Err(_) => {
            return 0;
        },
    };
    deallocate(mem, env_ptr);
    deallocate(mem, msg_ptr);
    let res = contract.handle(&env, &msg);
    let p = publish_result(mem, &res);
    proof {
        let m0 = old(mem).mem();
        let envs = extract_spec(m0, env_ptr);
        let msgs = extract_spec(m0, msg_ptr);
        assert(env@ == envs->Some_0 && msg@ == msgs->Some_0);
        assert(res@ == contract.handle_spec(envs->Some_0, msgs->Some_0));
        if p != 0 {
            assert(env_ptr + 4 <= m0.len() && msg_ptr + 4 <= m0.len());
        }
    }
    p
}

/// The read-only mirror of `do_handle`: consumes the msg Region, hands the
/// contract its bytes, and returns a freshly allocated Region holding the
/// serialized result, never reusing the input Region for the output.
pub fn do_query<C: Contract>(contract: &C, mem: &mut HeapMemory, msg_ptr: u32) -> (r: u32)
    ensures
        ({
            let m0 = old(mem).mem();
            let msg = extract_spec(m0, msg_ptr);
            &&& msg is None ==> r == 0 && final(mem).mem() == m0
            &&& msg is Some ==> ({
                let out = contract.query_spec(msg->Some_0);
                &&& (r == 0) <==> !(m0.len() > 0 && m0.len() + 12 + out.len() <= 0xFFFF_FFFF)
                &&& r == 0 ==> final(mem).mem() == m0
                &&& r != 0 ==> ({
                    &&& r != msg_ptr
                    &&& final(mem).mem().len() == m0.len() + 12 + out.len()
                    &&& forall|j: int| 0 <= j < m0.len() ==> final(mem).mem()[j] == m0[j]
                    &&& extract_spec(final(mem).mem(), r) == Some(out)
                })
            })
        }),
{
    let msg = match extract_vector_from(mem, msg_ptr) {
        Ok(v) => v,
        Err(_) => {
            return 0;
        },
    };
    deallocate(mem, msg_ptr);
    let res = contract.query(&msg);
    let p = publish_result(mem, &res);
    proof {
        let m0 = old(mem).mem();
        let msgs = extract_spec(m0, msg_ptr);
        assert(msg@ == msgs->Some_0);
        assert(res@ == contract.query_spec(msgs->Some_0));
        if p != 0 {
            assert(msg_ptr + 4 <= m0.len());
        }
    }
    p
}

/// Makes the bridges to the capabilities an invocation runs against: an empty
/// in-memory storage, the identity address capability, and the unintegrated
/// query capability.
pub fn make_dependencies() -> (r: Extern<MemoryStorage, IdentityApi, NoQuerier>)
    ensures
        r.storage.contents() == Map::<Seq<u8>, Seq<u8>>::empty(),
{
    Extern { storage: MemoryStorage::new(), api: IdentityApi, querier: NoQuerier }
}

} // verus!
