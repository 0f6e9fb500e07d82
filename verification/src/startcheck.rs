//! A scanner over the wasm binary container that decides whether a module
//! declares an implicit start routine. The engine must reject such a module
//! before instantiating it — otherwise guest code would run before the host
//! has established call discipline — so the decision is taken on the raw
//! binary, ahead of the interpreter.
//!
//! The container is the 8-byte magic/version preamble followed by sections,
//! each a one-byte id, a LEB128-encoded payload size, and the payload; the
//! start section carries a fixed id.

use vstd::prelude::*;

verus! {

/// The section id the container format assigns to the start section.
pub open spec fn start_section_id() -> u8 {
    8
}

/// An upper bound on the value a LEB128 integer of at most `5 - k` bytes can
/// carry.
pub open spec fn leb_bound(k: nat) -> nat
    decreases 5 - k,
{
    if k >= 5 {
        1
    } else {
        128 * leb_bound((k + 1) as nat)
    }
}

/// The LEB128 unsigned integer starting at position `i` of `m`, read with at
/// most `5 - k` bytes: its value and the position just past it, or `None`
/// when the encoding runs past the buffer or past five bytes.
pub open spec fn leb128_at(m: Seq<u8>, i: int, k: nat) -> Option<(nat, int)>
    decreases 5 - k,
{
    if k >= 5 || i < 0 || i >= m.len() {
        None
    } else {
        let b = m[i];
        if b < 0x80 {
            Some((b as nat, i + 1))
        } else {
            match leb128_at(m, i + 1, (k + 1) as nat) {
                None => None,
                Some((v, j)) => Some(((b - 0x80) as nat + 128 * v, j)),
            }
        }
    }
}

proof fn lemma_leb_bound_pos(k: nat)
    ensures
        leb_bound(k) >= 1,
    decreases 5 - k,
{
    if k < 5 {
        lemma_leb_bound_pos((k + 1) as nat);
    }
}

proof fn lemma_leb128_at(m: Seq<u8>, i: int, k: nat)
    ensures
        match leb128_at(m, i, k) {
            Some(p) => i < p.1 <= m.len() && p.0 < leb_bound(k),
            None => true,
        },
    decreases 5 - k,
{
    if k < 5 && 0 <= i < m.len() {
        lemma_leb_bound_pos((k + 1) as nat);
        assert(leb_bound(k) == 128 * leb_bound((k + 1) as nat));
        if m[i] >= 0x80 {
            lemma_leb128_at(m, i + 1, (k + 1) as nat);
        }
    }
}

/// Whether the section list starting at position `i` contains a start
/// section: `None` when the list is malformed (a truncated size or a payload
/// running past the buffer).
pub open spec fn has_start_section(m: Seq<u8>, i: int) -> Option<bool>
    decreases m.len() - i when 0 <= i <= m.len()
{
    if i == m.len() {
        Some(false)
    } else {
        let id = m[i];
        match leb128_at(m, i + 1, 0) {
            None => None,
            Some((size, j)) => {
                if j <= i || j + size > m.len() {
                    None
                } else if id == start_section_id() {
                    Some(true)
                } else {
                    has_start_section(m, j + size)
                }
            },
        }
    }
}

/// The magic bytes every module binary opens with.
pub open spec fn wasm_magic() -> Seq<u8> {
    seq![0x00u8, 0x61u8, 0x73u8, 0x6du8]
}

/// The container version the scanner understands.
pub open spec fn wasm_version() -> Seq<u8> {
    seq![0x01u8, 0x00u8, 0x00u8, 0x00u8]
}

/// Whether the module binary `m` declares a start section: `None` when the
/// container itself is malformed.
pub open spec fn module_has_start(m: Seq<u8>) -> Option<bool> {
    if m.len() < 8 {
        None
    } else if m.subrange(0, 4) != wasm_magic() || m.subrange(4, 8) != wasm_version() {
        None
    } else {
        has_start_section(m, 8)
    }
}

/// Reads the LEB128 integer at `pos` with at most `5 - k` bytes, exactly as
/// [`leb128_at`] models it.
fn parse_leb(wasm: &[u8], pos: usize, k: u8) -> (r: Result<(u64, usize), ()>)
    requires
        k <= 5,
    ensures
        match leb128_at(wasm@, pos as int, k as nat) {
            None => r is Err,
            Some((v, j)) => r == Ok::<(u64, usize), ()>((v as u64, j as usize)) && v
                < 0x8_0000_0000 && pos < j <= wasm@.len(),
        },
    decreases 5 - k,
{
    proof {
        lemma_leb128_at(wasm@, pos as int, k as nat);
        assert(leb_bound(5) == 1);
        assert(leb_bound(4) == 128);
        assert(leb_bound(3) == 128 * 128);
        assert(leb_bound(2) == 128 * 128 * 128);
        assert(leb_bound(1) == 128 * 128 * 128 * 128);
        assert(leb_bound(0) == 128 * 128 * 128 * 128 * 128);
        assert(leb_bound(k as nat) <= 0x8_0000_0000);
    }
    if k >= 5 || pos >= wasm.len() {
        return Err(());
    }
    let b = wasm[pos];
    if b < 0x80 {
        Ok((b as u64, pos + 1))
    } else {
        match parse_leb(wasm, pos + 1, k + 1) {
            Err(_) => Err(()),
            Ok((v, j)) => Ok(((b - 0x80) as u64 + 128 * v, j)),
        }
    }
}

/// Decides whether the module binary declares a start section; `Err` exactly
/// on a malformed container.
pub fn scan_for_start(wasm: &[u8]) -> (r: Result<bool, ()>)
    ensures
        match module_has_start(wasm@) {
            None => r is Err,
            Some(b) => r == Ok::<bool, ()>(b),
        },
{
    if wasm.len() < 8 {
        return Err(());
    }
    let magic_ok = wasm[0] == 0x00 && wasm[1] == 0x61 && wasm[2] == 0x73 && wasm[3] == 0x6d
        && wasm[4] == 0x01 && wasm[5] == 0x00 && wasm[6] == 0x00 && wasm[7] == 0x00;
    proof {
        let s1 = wasm@.subrange(0, 4);
        let s2 = wasm@.subrange(4, 8);
        assert(s1[0] == wasm@[0] && s1[1] == wasm@[1] && s1[2] == wasm@[2] && s1[3] == wasm@[3]);
        assert(s2[0] == wasm@[4] && s2[1] == wasm@[5] && s2[2] == wasm@[6] && s2[3] == wasm@[7]);
        if magic_ok {
            assert(s1 =~= wasm_magic());
            assert(s2 =~= wasm_version());
        }
    }
    if !magic_ok {
        return Err(());
    }
    let mut i: usize = 8;
    loop
        invariant
            8 <= i <= wasm@.len(),
            module_has_start(wasm@) == has_start_section(wasm@, i as int),
        decreases wasm@.len() - i,
    {
        if i >= wasm.len() {
            return Ok(false);
        }
        let id = wasm[i];
        let (size, j) = match parse_leb(wasm, i + 1, 0) {
            Err(_) => {
                return Err(());
            },
            Ok(p) => p,
        };
        if size > (wasm.len() - j) as u64 {
            return Err(());
        }
        if id == 8 {
            proof {
                assert(wasm@[i as int] == start_section_id());
                assert(has_start_section(wasm@, i as int) == Some(true));
            }
            return Ok(true);
        }
        proof {
            assert(has_start_section(wasm@, i as int) == has_start_section(
                wasm@,
                j + size as usize,
            ));
        }
        i = j + size as usize;
    }
}

} // verus!
