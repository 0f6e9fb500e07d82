//! The guest-memory accessor: the only code permitted to read or write guest
//! linear memory or to drive the guest's `allocate` export.
//!
//! Guest memory is reached through the [`GuestMem`] capability, whose model is
//! a byte sequence. Every pointer-validated read and write is specified here
//! against that model: [`extract_spec`] says exactly which reads succeed and
//! what they return, [`write_pre`] and [`write_spec`] say exactly when a
//! Region-directed write is accepted and what the memory looks like afterward.

use vstd::prelude::*;

use crate::errors::Wasm2EngineError;
use crate::region::{region_at, splice, u32_from_le, u32_le_bytes, u32_to_le, word_at, Region};
use crate::region::{lemma_splice_index, lemma_splice_len, lemma_u32_le_round_trip};

verus! {

/// Capability interface over a guest linear memory: bounds-checked byte reads
/// and writes against the current memory, plus the guest's own `allocate`
/// export, which runs guest code reentrantly and may change the memory
/// arbitrarily.
pub trait GuestMem: Sized {
    /// The current contents of the guest's linear memory. The default is the
    /// model of a memory that holds nothing; every implementation the library
    /// reasons about overrides it with its own model.
    open spec fn mem(&self) -> Seq<u8> {
        Seq::empty()
    }

    /// The current size of the memory in bytes.
    fn mem_size(&self) -> (r: u64)
        ensures
            r == self.mem().len(),
    ;

    /// Reads `len` bytes at `offset`; fails exactly on an out-of-bounds range.
    fn read_bytes(&self, offset: u64, len: u64) -> (r: Result<Vec<u8>, ()>)
        ensures
            r is Ok <==> offset + len <= self.mem().len(),
            r is Ok ==> r->Ok_0@ == self.mem().subrange(offset as int, offset + len),
    ;

    /// Writes `data` at `offset`; fails exactly on an out-of-bounds range, and
    /// on failure the memory is unmodified.
    fn write_bytes(&mut self, offset: u64, data: &[u8]) -> (r: Result<(), ()>)
        ensures
            r is Ok <==> offset + data@.len() <= old(self).mem().len(),
            r is Ok ==> final(self).mem() == splice(old(self).mem(), offset as int, data@),
            r is Err ==> final(self).mem() == old(self).mem(),
    ;

    /// Invokes the guest's exported `allocate` function with `len`. Guest code
    /// executes during this call, so nothing is promised about the memory
    /// afterward; a null (`0`) or ill-shaped return is an allocation failure.
    fn call_allocate(&mut self, len: u32) -> (r: Result<u32, Wasm2EngineError>)
        ensures
            r is Ok ==> r->Ok_0 != 0,
            r is Err ==> r->Err_0 is MemoryAllocationError,
    ;
}

/// What extracting a buffer through the Region at address `p` yields on memory
/// `m`: `None` when any validation step fails (header out of bounds, null
/// `offset`, or data range out of bounds), otherwise the `length` bytes at
/// `offset`.
pub open spec fn extract_spec(m: Seq<u8>, p: u32) -> Option<Seq<u8>> {
    if p + 4 > m.len() {
        None
    } else if word_at(m, p as int) == 0 {
        None
    } else if p + 12 > m.len() {
        None
    } else {
        let off = word_at(m, p as int);
        let l = word_at(m, p as int + 8);
        if off + l > m.len() {
            None
        } else {
            Some(m.subrange(off as int, off + l))
        }
    }
}

/// When a write of `n` bytes through the Region at address `p` is accepted:
/// the header words are readable, the Region is not null, its declared
/// capacity holds `n` bytes, and both the data range and the `length` word lie
/// inside the current memory.
pub open spec fn write_pre(m: Seq<u8>, p: u32, n: int) -> bool {
    &&& p + 8 <= m.len()
    &&& word_at(m, p as int) != 0
    &&& n <= word_at(m, p as int + 4)
    &&& word_at(m, p as int) + n <= m.len()
    &&& p + 12 <= m.len()
}

/// The memory after an accepted write of `data` through the Region at `p`:
/// `data` lands at the Region's `offset`, and the Region's `length` word is
/// rewritten to `data.len()`; nothing else changes.
pub open spec fn write_spec(m: Seq<u8>, p: u32, data: Seq<u8>) -> Seq<u8> {
    let off = word_at(m, p as int);
    splice(splice(m, off as int, data), p + 8, u32_le_bytes(data.len() as u32))
}

/// Extracts a vector from guest memory through the Region at `vec_ptr_ptr`,
/// exactly as [`extract_spec`] models it.
pub fn extract_vector_from<M: GuestMem>(mem: &M, vec_ptr_ptr: u32) -> (r: Result<Vec<u8>, ()>)
    ensures
        r is Ok <==> extract_spec(mem.mem(), vec_ptr_ptr) is Some,
        r is Ok ==> Some(r->Ok_0@) == extract_spec(mem.mem(), vec_ptr_ptr),
{
    let off_bytes = match mem.read_bytes(vec_ptr_ptr as u64, 4) {
        Ok(b) => b,
        Err(_) => {
            return Err(());
        },
    };
    let off = u32_from_le(&off_bytes);
    if off == 0 {
        return Err(());
    }
    let len_bytes = match mem.read_bytes(vec_ptr_ptr as u64 + 8, 4) {
        Ok(b) => b,
        Err(_) => {
            return Err(());
        },
    };
    let l = u32_from_le(&len_bytes);
    mem.read_bytes(off as u64, l as u64)
}

/// Writes `buffer` into the already-allocated Region at `ptr`: fails closed
/// (leaving memory untouched) whenever [`write_pre`] does not hold — in
/// particular the host never writes past the Region's declared `capacity` —
/// and otherwise produces [`write_spec`] and hands the same pointer back.
pub fn write_to_allocated_from<M: GuestMem>(mem: &mut M, buffer: &[u8], ptr: u32) -> (r: Result<
    u32,
    (),
>)
    ensures
        r is Ok <==> write_pre(old(mem).mem(), ptr, buffer@.len() as int),
        r is Ok ==> r->Ok_0 == ptr && final(mem).mem() == write_spec(
            old(mem).mem(),
            ptr,
            buffer@,
        ),
        r is Err ==> final(mem).mem() == old(mem).mem(),
{
    let size = mem.mem_size();
    let off_bytes = match mem.read_bytes(ptr as u64, 4) {
        Ok(b) => b,
        Err(_) => {
            return Err(());
        },
    };
    let off = u32_from_le(&off_bytes);
    if off == 0 {
        return Err(());
    }
    let cap_bytes = match mem.read_bytes(ptr as u64 + 4, 4) {
        Ok(b) => b,
        Err(_) => {
            return Err(());
        },
    };
    let cap = u32_from_le(&cap_bytes);
    if (buffer.len() as u64) > (cap as u64) {
        return Err(());
    }
    if off as u64 + (buffer.len() as u64) > size {
        return Err(());
    }
    if ptr as u64 + 12 > size {
        return Err(());
    }
    let ghost m0 = mem.mem();
    let r1 = mem.write_bytes(off as u64, buffer);
    proof {
        assert(r1 is Ok);
        lemma_splice_len(m0, off as int, buffer@);
    }
    let lb = u32_to_le(buffer.len() as u32);
    let r2 = mem.write_bytes(ptr as u64 + 8, lb.as_slice());
    proof {
        assert(r2 is Ok);
    }
    Ok(ptr)
}

/// Allocates a fresh Region in guest memory (driving the guest's `allocate`
/// export) and writes `buffer` into it; the single entry point used to hand a
/// host-produced buffer back into guest space.
pub fn write_to_memory_from<M: GuestMem>(mem: &mut M, buffer: &[u8]) -> (r: Result<
    u32,
    Wasm2EngineError,
>)
    ensures
        r is Ok ==> r->Ok_0 != 0 && exists|m1: Seq<u8>|
            #[trigger] write_pre(m1, r->Ok_0, buffer@.len() as int) && final(mem).mem()
                == write_spec(m1, r->Ok_0, buffer@),
        r is Err ==> r->Err_0 is MemoryAllocationError || r->Err_0 is MemoryWriteError,
{
    if buffer.len() > 0xFFFF_FFFFusize {
        return Err(Wasm2EngineError::MemoryAllocationError);
    }
    let ptr = match mem.call_allocate(buffer.len() as u32) {
        Ok(p) => p,
        Err(e) => {
            return Err(e);
        },
    };
    let ghost m1 = mem.mem();
    match write_to_allocated_from(mem, buffer, ptr) {
        Ok(p) => {
            proof {
                assert(write_pre(m1, p, buffer@.len() as int) && mem.mem() == write_spec(
                    m1,
                    p,
                    buffer@,
                ));
            }
            Ok(p)
        },
        Err(_) => Err(Wasm2EngineError::MemoryWriteError),
    }
}

/// Round trip through the protocol is exact: extracting through the same
/// Region pointer right after an accepted write yields the written bytes,
/// provided the Region's data range does not overlap the two header words the
/// extractor reads (any sane guest allocator reserves the header apart from
/// the buffer it describes).
pub proof fn lemma_write_then_extract(m0: Seq<u8>, p: u32, data: Seq<u8>)
    requires
        write_pre(m0, p, data.len() as int),
        word_at(m0, p as int) + data.len() <= p || p + 4 <= word_at(m0, p as int),
        word_at(m0, p as int) + data.len() <= p + 8 || p + 12 <= word_at(m0, p as int),
    ensures
        extract_spec(write_spec(m0, p, data), p) == Some(data),
{
    let n = data.len() as int;
    let off = word_at(m0, p as int) as int;
    let lb = u32_le_bytes(data.len() as u32);
    let m1 = splice(m0, off, data);
    let m2 = splice(m1, p + 8, lb);
    lemma_splice_len(m0, off, data);
    lemma_splice_len(m1, p + 8, lb);
    assert forall|j: int| p <= j < p + 4 implies m2[j] == m0[j] by {
        lemma_splice_index(m1, p + 8, lb, j);
        lemma_splice_index(m0, off, data, j);
    }
    assert(word_at(m2, p as int) == word_at(m0, p as int));
    assert forall|j: int| p + 8 <= j < p + 12 implies m2[j] == lb[j - (p + 8)] by {
        lemma_splice_index(m1, p + 8, lb, j);
    }
    lemma_u32_le_round_trip(data.len() as u32);
    assert(word_at(m2, p as int + 8) == data.len() as u32);
    assert forall|j: int| off <= j < off + n implies m2[j] == data[j - off] by {
        lemma_splice_index(m1, p + 8, lb, j);
        lemma_splice_index(m0, off, data, j);
    }
    assert(m2.subrange(off, off + n) =~= data);
}

/// A concrete guest memory: a zero-initialized byte heap whose `allocate`
/// behaves as the guest shim's bump allocator does, reserving a fresh 12-byte
/// Region header followed by the requested buffer. The engine's tests run the
/// whole marshaling protocol against it in place of an interpreter-owned
/// memory.
pub struct HeapMemory {
    bytes: Vec<u8>,
}

impl HeapMemory {
    /// A zeroed memory of `size` bytes.
    pub fn new(size: u32) -> (r: HeapMemory)
        ensures
            r.mem() == Seq::new(size as nat, |i| 0u8),
    {
        let mut bytes: Vec<u8> = Vec::new();
        let mut i: u32 = 0;
        while i < size
            invariant
                i <= size,
                bytes@.len() == i as int,
                forall|j: int| 0 <= j < i as int ==> bytes@[j] == 0u8,
            decreases size - i,
        {
            bytes.push(0u8);
            i = i + 1;
        }
        proof {
            assert(bytes@ =~= Seq::new(size as nat, |j| 0u8));
        }
        HeapMemory { bytes }
    }

    /// The guest shim's allocator: reserves `size` bytes at the end of the
    /// heap behind a fresh Region header `{ offset: data start, capacity:
    /// size, length: 0 }` and returns the header's address. Returns the null
    /// pointer `0` exactly when the heap is empty or the new Region would not
    /// be addressable in 32 bits; in that case nothing changes.
    #[verifier::rlimit(50)]
    pub fn allocate_region(&mut self, size: u32) -> (r: u32)
        ensures
            r == 0 <==> !(old(self).mem().len() > 0 && old(self).mem().len() + 12 + size
                <= 0xFFFF_FFFF),
            r == 0 ==> final(self).mem() == old(self).mem(),
            r != 0 ==> ({
                &&& r as int == old(self).mem().len()
                &&& r + 12 + size <= 0xFFFF_FFFF
                &&& final(self).mem().len() == old(self).mem().len() + 12 + size
                &&& region_at(final(self).mem(), r as int) == (Region {
                    offset: (r + 12) as u32,
                    capacity: size,
                    length: 0,
                })
                &&& forall|j: int|
                    0 <= j < old(self).mem().len() ==> final(self).mem()[j] == old(self).mem()[j]
                &&& forall|j: int|
                    r + 12 <= j < r + 12 + size ==> final(self).mem()[j] == 0u8
            }),
    {
        let base = self.bytes.len();
        if base == 0 {
            return 0;
        }
        if size as u64 > 0xFFFF_FFFFu64 - 12 {
            return 0;
        }
        if base as u64 > 0xFFFF_FFFFu64 - 12 - size as u64 {
            return 0;
        }
        let ghost m0 = self.bytes@;
        let off_b = u32_to_le((base as u32) + 12);
        let cap_b = u32_to_le(size);
        let len_b = u32_to_le(0);
        self.bytes.push(off_b[0]);
        self.bytes.push(off_b[1]);
        self.bytes.push(off_b[2]);
        self.bytes.push(off_b[3]);
        self.bytes.push(cap_b[0]);
        self.bytes.push(cap_b[1]);
        self.bytes.push(cap_b[2]);
        self.bytes.push(cap_b[3]);
        self.bytes.push(len_b[0]);
        self.bytes.push(len_b[1]);
        self.bytes.push(len_b[2]);
        self.bytes.push(len_b[3]);
        let ghost hlen: int = m0.len() as int + 12;
        let ghost hdr: Seq<u8> = m0.add(u32_le_bytes((m0.len() + 12) as u32)).add(
            u32_le_bytes(size),
        ).add(u32_le_bytes(0));
        proof {
            assert(self.bytes@ =~= hdr);
        }
        let mut i: u32 = 0;
        while i < size
            invariant
                i <= size,
                self.bytes@.len() == hlen + i as int,
                hlen == m0.len() as int + 12,
                self.bytes@.subrange(0, hlen) == hdr,
                forall|j: int| hlen <= j < self.bytes@.len() ==> self.bytes@[j] == 0u8,
            decreases size - i,
        {
            let ghost prev = self.bytes@;
            self.bytes.push(0u8);
            proof {
                assert(self.bytes@.subrange(0, hlen) =~= prev.subrange(0, hlen));
            }
            i = i + 1;
        }
        proof {
            let m2 = self.bytes@;
            assert forall|j: int| 0 <= j < hlen implies m2[j] == hdr[j] by {
                assert(m2.subrange(0, hlen)[j] == m2[j]);
            }
            lemma_u32_le_round_trip((m0.len() + 12) as u32);
            lemma_u32_le_round_trip(size);
            lemma_u32_le_round_trip(0);
            assert(word_at(m2, m0.len() as int) == (m0.len() + 12) as u32);
            assert(word_at(m2, m0.len() as int + 4) == size);
            assert(word_at(m2, m0.len() as int + 8) == 0);
        }
        base as u32
    }
}

impl GuestMem for HeapMemory {
    closed spec fn mem(&self) -> Seq<u8> {
        self.bytes@
    }

    fn mem_size(&self) -> (r: u64) {
        self.bytes.len() as u64
    }

    fn read_bytes(&self, offset: u64, len: u64) -> (r: Result<Vec<u8>, ()>) {
        let blen = self.bytes.len();
        if offset > blen as u64 || len > blen as u64 - offset {
            return Err(());
        }
        let off = offset as usize;
        let n = len as usize;
        let mut v: Vec<u8> = Vec::new();
        let mut i: usize = 0;
        while i < n
            invariant
                i <= n,
                off as int == offset as int,
                n as int == len as int,
                blen as int == self.bytes@.len(),
                off as int + n as int <= blen as int,
                v@.len() == i as int,
                forall|j: int| 0 <= j < i as int ==> v@[j] == self.bytes@[off + j],
            decreases n - i,
        {
            v.push(self.bytes[off + i]);
            i = i + 1;
        }
        proof {
            assert(v@ =~= self.bytes@.subrange(offset as int, offset + len));
        }
        Ok(v)
    }

    fn write_bytes(&mut self, offset: u64, data: &[u8]) -> (r: Result<(), ()>) {
        let blen = self.bytes.len();
        if offset > blen as u64 || (data.len() as u64) > blen as u64 - offset {
            return Err(());
        }
        let ghost m0 = self.bytes@;
        let off = offset as usize;
        let mut i: usize = 0;
        while i < data.len()
            invariant
                i <= data@.len(),
                off as int == offset as int,
                blen as int == self.bytes@.len(),
                off as int + data@.len() <= blen as int,
                self.bytes@.len() == m0.len(),
                forall|j: int|
                    0 <= j < m0.len() ==> self.bytes@[j] == (if off <= j < off + i as int {
                        data@[j - off]
                    } else {
                        m0[j]
                    }),
            decreases data@.len() - i,
        {
            self.bytes.set(off + i, data[i]);
            i = i + 1;
        }
        proof {
            assert forall|j: int| 0 <= j < m0.len() implies self.bytes@[j] == splice(
                m0,
                offset as int,
                data@,
            )[j] by {
                lemma_splice_index(m0, offset as int, data@, j);
            }
            lemma_splice_len(m0, offset as int, data@);
            assert(self.bytes@ =~= splice(m0, offset as int, data@));
        }
        Ok(())
    }

    fn call_allocate(&mut self, len: u32) -> (r: Result<u32, Wasm2EngineError>) {
        let p = self.allocate_region(len);
        if p == 0 {
            Err(Wasm2EngineError::MemoryAllocationError)
        } else {
            Ok(p)
        }
    }
}

/// A failed Region write modifies nothing, and an accepted one touches only
/// the Region's data range (never more than its declared capacity) and the
/// Region's own `length` word: every byte outside those two ranges is exactly
/// what it was.
pub proof fn lemma_write_untouched_outside(m0: Seq<u8>, p: u32, data: Seq<u8>, i: int)
    requires
        write_pre(m0, p, data.len() as int),
        0 <= i < m0.len(),
        !(word_at(m0, p as int) <= i < word_at(m0, p as int) + data.len()),
        !(p + 8 <= i < p + 12),
    ensures
        write_spec(m0, p, data).len() == m0.len(),
        write_spec(m0, p, data)[i] == m0[i],
{
    let n = data.len() as int;
    let off = word_at(m0, p as int) as int;
    let lb = u32_le_bytes(data.len() as u32);
    let m1 = splice(m0, off, data);
    lemma_splice_len(m0, off, data);
    lemma_splice_len(m1, p + 8, lb);
    lemma_splice_index(m1, p + 8, lb, i);
    lemma_splice_index(m0, off, data, i);
}

} // verus!
