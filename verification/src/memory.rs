//! Guest-memory helpers on plain byte slices: NUL-terminated string
//! reads, fixed-width little-endian reads, the variadic-argument cursor,
//! and bounded writes back into guest memory.

use vstd::assert_seqs_equal;
use vstd::bytes::{
    spec_u32_from_le_bytes, spec_u64_from_le_bytes, u32_from_le_bytes, u64_from_le_bytes,
};
use vstd::prelude::*;
use vstd::slice::{slice_subrange, SliceAdditionalExecFns};

verus! {

/// The position of the first NUL byte at or after `i`, if any.
pub open spec fn spec_first_nul(mem: Seq<u8>, i: int) -> Option<int>
    decreases mem.len() - i,
    when 0 <= i
{
    if i >= mem.len() {
        None
    } else if mem[i] == 0 {
        Some(i)
    } else {
        spec_first_nul(mem, i + 1)
    }
}

/// The C string starting at `offset`: the bytes up to but not including
/// the first NUL, or nothing when no NUL follows before end of memory.
pub open spec fn spec_c_str(mem: Seq<u8>, offset: int) -> Option<Seq<u8>> {
    if 0 <= offset <= mem.len() {
        match spec_first_nul(mem, offset) {
            Some(end) => Some(mem.subrange(offset, end)),
            None => None,
        }
    } else {
        None
    }
}

/// Scanning past a non-NUL byte does not change which NUL is found.
proof fn lemma_first_nul_step(mem: Seq<u8>, i: int)
    requires
        0 <= i < mem.len(),
        mem[i] != 0,
    ensures
        spec_first_nul(mem, i) == spec_first_nul(mem, i + 1),
{
}

/// Read the NUL-terminated string at `offset`, failing when no NUL byte
/// follows before end of memory or the offset lies outside it.
pub fn read_c_string(mem: &[u8], offset: usize) -> (r: Option<Vec<u8>>)
    ensures
        match r {
            Some(v) => spec_c_str(mem@, offset as int) == Some(v@),
            None => spec_c_str(mem@, offset as int) is None,
        },
{
    if offset > mem.len() {
        return None;
    }
    let mut i: usize = offset;
    while i < mem.len()
        invariant
            offset <= i <= mem@.len(),
            spec_first_nul(mem@, offset as int) == spec_first_nul(mem@, i as int),
        decreases mem@.len() - i,
    {
        if *slice_index_get(mem, i) == 0 {
            let bytes = slice_subrange(mem, offset, i);
            return Some(slice_to_vec(bytes));
        }
        proof {
            lemma_first_nul_step(mem@, i as int);
        }
        i = i + 1;
    }
    None
}

/// Copy a byte slice into an owned vector.
pub fn slice_to_vec(s: &[u8]) -> (r: Vec<u8>)
    ensures
        r@ == s@,
{
    let mut v: Vec<u8> = Vec::new();
    let mut i: usize = 0;
    while i < s.len()
        invariant
            0 <= i <= s@.len(),
            v@ == s@.subrange(0, i as int),
        decreases s@.len() - i,
    {
        v.push(*slice_index_get(s, i));
        proof {
            assert_seqs_equal!(v@, s@.subrange(0, i + 1));
        }
        i = i + 1;
    }
    proof {
        assert_seqs_equal!(v@, s@);
    }
    v
}

/// Read one element of a slice.
pub fn slice_index_get<T>(s: &[T], i: usize) -> (r: &T)
    requires
        0 <= i < s@.len(),
    ensures
        *r == s@[i as int],
{
    &s[i]
}

/// Read the little-endian 32-bit word at `offset`, failing past the end.
pub fn read_u32_le(mem: &[u8], offset: usize) -> (r: Option<u32>)
    ensures
        offset + 4 <= mem@.len() ==> r == Some(
            spec_u32_from_le_bytes(mem@.subrange(offset as int, offset + 4)),
        ),
        offset + 4 > mem@.len() ==> r is None,
{
    if offset >= mem.len() || mem.len() - offset < 4 {
        return None;
    }
    Some(u32_from_le_bytes(slice_subrange(mem, offset, offset + 4)))
}

/// Read the little-endian 64-bit word at `offset`, failing past the end.
pub fn read_u64_le(mem: &[u8], offset: usize) -> (r: Option<u64>)
    ensures
        offset + 8 <= mem@.len() ==> r == Some(
            spec_u64_from_le_bytes(mem@.subrange(offset as int, offset + 8)),
        ),
        offset + 8 > mem@.len() ==> r is None,
{
    if offset >= mem.len() || mem.len() - offset < 8 {
        return None;
    }
    Some(u64_from_le_bytes(slice_subrange(mem, offset, offset + 8)))
}

/// A cursor over a guest-memory variadic argument list: a byte offset
/// advanced by the width of each argument read. Integer arguments
/// narrower than four bytes arrive promoted to four.
pub struct WasmVaList {
    pub base_ptr: u32,
}

impl WasmVaList {
    /// A cursor at the given guest address.
    pub fn new(base_ptr: u32) -> (r: WasmVaList)
        ensures
            r.base_ptr == base_ptr,
    {
        WasmVaList { base_ptr }
    }

    /// Read the next four-byte word and advance.
    pub fn next_u32(&mut self, mem: &[u8]) -> (r: Option<u32>)
        ensures
            old(self).base_ptr + 4 <= mem@.len() && old(self).base_ptr + 4 <= u32::MAX ==> {
                &&& r == Some(
                    spec_u32_from_le_bytes(
                        mem@.subrange(old(self).base_ptr as int, old(self).base_ptr + 4),
                    ),
                )
                &&& final(self).base_ptr == old(self).base_ptr + 4
            },
            !(old(self).base_ptr + 4 <= mem@.len() && old(self).base_ptr + 4 <= u32::MAX) ==> r
                is None && *final(self) == *old(self),
    {
        if self.base_ptr as u64 + 4 > u32::MAX as u64 {
            return None;
        }
        match read_u32_le(mem, self.base_ptr as usize) {
            Some(v) => {
                self.base_ptr = self.base_ptr + 4;
                Some(v)
            },
            None => None,
        }
    }

    /// Read the next eight-byte word and advance.
    pub fn next_u64(&mut self, mem: &[u8]) -> (r: Option<u64>)
        ensures
            old(self).base_ptr + 8 <= mem@.len() && old(self).base_ptr + 8 <= u32::MAX ==> {
                &&& r == Some(
                    spec_u64_from_le_bytes(
                        mem@.subrange(old(self).base_ptr as int, old(self).base_ptr + 8),
                    ),
                )
                &&& final(self).base_ptr == old(self).base_ptr + 8
            },
            !(old(self).base_ptr + 8 <= mem@.len() && old(self).base_ptr + 8 <= u32::MAX) ==> r
                is None && *final(self) == *old(self),
    {
        if self.base_ptr as u64 + 8 > u32::MAX as u64 {
            return None;
        }
        match read_u64_le(mem, self.base_ptr as usize) {
            Some(v) => {
                self.base_ptr = self.base_ptr + 8;
                Some(v)
            },
            None => None,
        }
    }

    /// Read the next four-byte pointer, then the NUL-terminated string it
    /// points at.
    pub fn next_str(&mut self, mem: &[u8]) -> (r: Option<Vec<u8>>)
        ensures
            !(old(self).base_ptr + 4 <= mem@.len() && old(self).base_ptr + 4 <= u32::MAX) ==> r
                is None && *final(self) == *old(self),
            old(self).base_ptr + 4 <= mem@.len() && old(self).base_ptr + 4 <= u32::MAX ==> {
                let ptr = spec_u32_from_le_bytes(
                    mem@.subrange(old(self).base_ptr as int, old(self).base_ptr + 4),
                );
                &&& final(self).base_ptr == old(self).base_ptr + 4
                &&& match spec_c_str(mem@, ptr as int) {
                    Some(bytes) => r matches Some(v) && v@ == bytes,
                    None => r is None,
                }
            },
    {
        let ptr = match self.next_u32(mem) {
            Some(p) => p,
            None => {
                return None;
            },
        };
        read_c_string(mem, ptr as usize)
    }
}

/// Copy `src` into memory at `pos`, failing without a write when it does
/// not fit; on success only the target range changes.
pub fn write_bytes(mem: &mut [u8], pos: usize, src: &[u8]) -> (r: bool)
    ensures
        final(mem)@.len() == old(mem)@.len(),
        r == (pos + src@.len() <= old(mem)@.len()),
        r ==> final(mem)@ == old(mem)@.subrange(0, pos as int) + src@ + old(mem)@.subrange(
            pos + src@.len(),
            old(mem)@.len() as int,
        ),
        !r ==> final(mem)@ == old(mem)@,
    {
    if pos > mem.len() || mem.len() - pos < src.len() {
        return false;
    }
    let n: usize = mem.len();
    let mut i: usize = 0;
    while i < src.len()
        invariant
            0 <= i <= src@.len(),
            pos + src@.len() <= n,
            n == mem@.len(),
            mem@.len() == old(mem)@.len(),
            forall|k: int| 0 <= k < pos ==> mem@[k] == old(mem)@[k],
            forall|k: int| 0 <= k < i ==> mem@[pos + k] == src@[k],
            forall|k: int| pos + i <= k < mem@.len() ==> mem@[k] == old(mem)@[k],
        decreases src@.len() - i,
    {
        mem.set(pos + i, *slice_index_get(src, i));
        i = i + 1;
    }
    proof {
        assert_seqs_equal!(
            mem@,
            old(mem)@.subrange(0, pos as int) + src@
                + old(mem)@.subrange(pos + src@.len(), old(mem)@.len() as int)
        );
    }
    true
}

} // verus!
