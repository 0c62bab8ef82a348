//! The jump-table fabric: the fixed guest addresses at which SDK entry
//! points live, the table indices assigned at install time, and the
//! memory writes that install them. The absolute addresses are guest ABI;
//! the indirect-table indices are assigned per run and are not.

use vstd::assert_seqs_equal;
use vstd::bytes::{spec_u32_to_le_bytes, u32_to_le_bytes};
use vstd::prelude::*;
use vstd::slice::SliceAdditionalExecFns;

verus! {

/// First guest address of the jump-table window.
pub const JUMP_TABLE_BASE: u32 = 0x037F_C000;

/// Size of the jump-table window in bytes.
pub const JUMP_TABLE_WINDOW: u32 = 0x4000;

/// The linear-memory page count that covers the jump-table window.
pub const REQUIRED_MEMORY_PAGES: u64 = 0x700;

/// How building a jump table can fail. These are programming errors of
/// the simulator itself, and callers treat them as fatal.
#[derive(Debug, Clone, Copy, PartialEq, Eq, Structural)]
pub enum JumpTableError {
    /// The offset was registered twice.
    DuplicateAddress,
    /// The offset lies outside the jump-table window.
    AddressOutOfWindow,
    /// The offset is not four-byte aligned.
    MisalignedAddress,
}

/// The registered jump-table entries: window offsets in registration
/// order. The host function for the entry at position `i` is the one the
/// indirect function table holds at `base + i` after installation.
pub struct JumpTable {
    pub addresses: Vec<u32>,
}

/// One word to write into guest memory: the table index, little endian,
/// at the absolute guest address.
#[derive(Debug, Clone, Copy, PartialEq, Eq, Structural)]
pub struct JumpWrite {
    pub address: u32,
    pub index: u32,
}

impl JumpTable {
    /// Offsets are aligned words inside the window, registered once each.
    pub open spec fn wf(&self) -> bool {
        &&& forall|i: int|
            0 <= i < self.addresses@.len() ==> #[trigger] self.addresses@[i] < JUMP_TABLE_WINDOW
                && self.addresses@[i] % 4 == 0
        &&& forall|i: int, j: int|
            0 <= i < j < self.addresses@.len() ==> self.addresses@[i] != self.addresses@[j]
    }

    /// An empty table.
    pub fn new() -> (r: JumpTable)
        ensures
            r.wf(),
            r.addresses@.len() == 0,
    {
        JumpTable { addresses: Vec::new() }
    }

    /// The number of registered entries.
    pub fn len(&self) -> (r: usize)
        ensures
            r == self.addresses@.len(),
    {
        self.addresses.len()
    }

    /// Register one entry at a window offset. A duplicate, misaligned or
    /// out-of-window offset is refused and changes nothing.
    pub fn insert(&mut self, address: u32) -> (r: Result<(), JumpTableError>)
        requires
            old(self).wf(),
        ensures
            final(self).wf(),
            address >= JUMP_TABLE_WINDOW ==> r == Err::<(), JumpTableError>(
                JumpTableError::AddressOutOfWindow,
            ) && *final(self) == *old(self),
            address < JUMP_TABLE_WINDOW && address % 4 != 0 ==> r == Err::<(), JumpTableError>(
                JumpTableError::MisalignedAddress,
            ) && *final(self) == *old(self),
            address < JUMP_TABLE_WINDOW && address % 4 == 0 && old(self).addresses@.contains(
                address,
            ) ==> r == Err::<(), JumpTableError>(JumpTableError::DuplicateAddress) && *final(self)
                == *old(self),
            address < JUMP_TABLE_WINDOW && address % 4 == 0 && !old(self).addresses@.contains(
                address,
            ) ==> r == Ok::<(), JumpTableError>(()) && final(self).addresses@ == old(
                self,
            ).addresses@.push(address),
    {
        if address >= JUMP_TABLE_WINDOW {
            return Err(JumpTableError::AddressOutOfWindow);
        }
        if address % 4 != 0 {
            return Err(JumpTableError::MisalignedAddress);
        }
        if self.contains_address(address) {
            return Err(JumpTableError::DuplicateAddress);
        }
        self.addresses.push(address);
        Ok(())
    }

    /// Whether an offset is already registered.
    pub fn contains_address(&self, address: u32) -> (r: bool)
        ensures
            r == self.addresses@.contains(address),
    {
        let mut i: usize = 0;
        while i < self.addresses.len()
            invariant
                0 <= i <= self.addresses@.len(),
                forall|j: int| 0 <= j < i ==> self.addresses@[j] != address,
            decreases self.addresses@.len() - i,
        {
            if self.addresses[i] == address {
                return true;
            }
            i = i + 1;
        }
        false
    }

    /// The memory writes that install this table, given the first free
    /// index of the indirect function table: the entry registered at
    /// position `i` gets table index `base + i`, written at its absolute
    /// guest address.
    pub fn expose_writes(&self, table_base: u32) -> (r: Vec<JumpWrite>)
        requires
            self.wf(),
            table_base + self.addresses@.len() <= u32::MAX,
        ensures
            r@.len() == self.addresses@.len(),
            forall|i: int|
                0 <= i < r@.len() ==> #[trigger] r@[i] == (JumpWrite {
                    address: (JUMP_TABLE_BASE + self.addresses@[i]) as u32,
                    index: (table_base + i) as u32,
                }),
    {
        let mut writes: Vec<JumpWrite> = Vec::new();
        let mut i: usize = 0;
        while i < self.addresses.len()
            invariant
                self.wf(),
                table_base + self.addresses@.len() <= u32::MAX,
                0 <= i <= self.addresses@.len(),
                writes@.len() == i,
                forall|j: int|
                    0 <= j < i ==> #[trigger] writes@[j] == (JumpWrite {
                        address: (JUMP_TABLE_BASE + self.addresses@[j]) as u32,
                        index: (table_base + j) as u32,
                    }),
            decreases self.addresses@.len() - i,
        {
            let offset = self.addresses[i];
            writes.push(
                JumpWrite { address: JUMP_TABLE_BASE + offset, index: table_base + (i as u32) },
            );
            i = i + 1;
        }
        writes
    }
}

/// The offsets of the full default API, in ascending address order. The
/// two entries at 0x6a8 and 0x6b4 are registered so that a guest call
/// lands on an explanatory trap rather than an empty table slot.
pub open spec fn spec_default_jump_offsets() -> Seq<u32> {
    seq![
        0x05cu32, 0x0f0, 0x0f4, 0x0f8, 0x130, 0x134, 0x1a4, 0x1a8, 0x640, 0x644, 0x648, 0x64c,
        0x650, 0x654, 0x658, 0x65c, 0x660, 0x664, 0x668, 0x66c, 0x670, 0x674, 0x678, 0x67c,
        0x680, 0x684, 0x688, 0x6a8, 0x6b0, 0x6b4, 0x6b8, 0x6bc, 0x6c0, 0x6c4, 0x794, 0x7a0,
        0x7a4, 0x7a8, 0x898, 0x89c, 0x8a0, 0x8a4, 0x8ac, 0x990, 0x9d8,
    ]
}

/// The full default API: every jump-table offset of the SDK entry points,
/// in ascending address order. The host function registered for the entry
/// at position `i` of the result belongs at indirect-table slot
/// `base + i` when the table is installed.
#[verifier::rlimit(100)]
pub fn default_jump_table() -> (r: JumpTable)
    ensures
        r.wf(),
        r.addresses@ == spec_default_jump_offsets(),
{
    let offsets: Vec<u32> = vec![
        0x05c, 0x0f0, 0x0f4, 0x0f8, 0x130, 0x134, 0x1a4, 0x1a8, 0x640, 0x644, 0x648, 0x64c,
        0x650, 0x654, 0x658, 0x65c, 0x660, 0x664, 0x668, 0x66c, 0x670, 0x674, 0x678, 0x67c,
        0x680, 0x684, 0x688, 0x6a8, 0x6b0, 0x6b4, 0x6b8, 0x6bc, 0x6c0, 0x6c4, 0x794, 0x7a0,
        0x7a4, 0x7a8, 0x898, 0x89c, 0x8a0, 0x8a4, 0x8ac, 0x990, 0x9d8,
    ];
    proof {
        assert_seqs_equal!(offsets@, spec_default_jump_offsets());
        assert forall|i: int|
            0 <= i < offsets@.len() implies #[trigger] offsets@[i] < JUMP_TABLE_WINDOW
            && offsets@[i] % 4 == 0 by {
            lemma_default_offsets_ascending();
        }
        assert forall|i: int, j: int|
            0 <= i < j < offsets@.len() implies offsets@[i] != offsets@[j] by {
            lemma_default_offsets_ascending();
            lemma_ascending_distinct(offsets@, i, j);
        }
    }
    JumpTable { addresses: offsets }
}

/// The catalog's offsets are strictly ascending, aligned words inside the
/// window.
pub proof fn lemma_default_offsets_ascending()
    ensures
        forall|i: int|
            0 <= i < spec_default_jump_offsets().len()
                ==> #[trigger] spec_default_jump_offsets()[i] < JUMP_TABLE_WINDOW
                && spec_default_jump_offsets()[i] % 4 == 0,
        forall|i: int|
            0 <= i && i + 1 < spec_default_jump_offsets().len()
                ==> #[trigger] spec_default_jump_offsets()[i] < spec_default_jump_offsets()[i + 1],
{
}

/// Strictly ascending entries are distinct.
pub proof fn lemma_ascending_distinct(s: Seq<u32>, i: int, j: int)
    requires
        forall|k: int| 0 <= k && k + 1 < s.len() ==> #[trigger] s[k] < s[k + 1],
        0 <= i < j < s.len(),
    ensures
        s[i] < s[j],
    decreases j - i,
{
    if i + 1 < j {
        lemma_ascending_distinct(s, i + 1, j);
    }
}

/// Whether byte position `k` lies inside the four-byte word of any write.
pub open spec fn spec_in_write_window(writes: Seq<JumpWrite>, k: int) -> bool {
    exists|i: int|
        0 <= i < writes.len() && #[trigger] writes[i].address <= k < writes[i].address + 4
}

/// Writes whose four-byte words overlap nowhere.
pub open spec fn spec_writes_disjoint(writes: Seq<JumpWrite>) -> bool {
    forall|i: int, j: int|
        0 <= i < writes.len() && 0 <= j < writes.len() && i != j
            ==> #[trigger] writes[i].address + 4 <= #[trigger] writes[j].address || writes[j].address
            + 4 <= writes[i].address
}

/// The writes of a well-formed table are pairwise disjoint: distinct
/// aligned offsets keep their words four bytes apart.
pub proof fn lemma_expose_writes_disjoint(jt: JumpTable, writes: Seq<JumpWrite>)
    requires
        jt.wf(),
        writes.len() == jt.addresses@.len(),
        forall|i: int|
            0 <= i < writes.len() ==> #[trigger] writes[i].address == JUMP_TABLE_BASE as int
                + jt.addresses@[i],
    ensures
        spec_writes_disjoint(writes),
{
    assert forall|i: int, j: int|
        0 <= i < writes.len() && 0 <= j < writes.len() && i != j implies #[trigger] writes[i].address
        + 4 <= #[trigger] writes[j].address || writes[j].address + 4 <= writes[i].address by {
        let a = jt.addresses@[i];
        let b = jt.addresses@[j];
        assert(a != b);
        assert(a % 4 == 0 && b % 4 == 0);
        assert(a + 4 <= b || b + 4 <= a) by (nonlinear_arith)
            requires
                a != b,
                a % 4 == 0,
                b % 4 == 0,
                a >= 0,
                b >= 0,
        ;
    }
}

/// Install a whole table in one verified step: compute its writes for the
/// given first free indirect-table index and apply them to guest memory.
/// After it, memory holds `table_base + i` as a little-endian word at the
/// absolute address of the entry registered at position `i`, and no byte
/// outside those words changed.
pub fn install_jump_table(mem: &mut [u8], table: &JumpTable, table_base: u32) -> (r: bool)
    requires
        table.wf(),
        table_base + table.addresses@.len() <= u32::MAX,
    ensures
        final(mem)@.len() == old(mem)@.len(),
        r == (forall|i: int|
            0 <= i < table.addresses@.len() ==> JUMP_TABLE_BASE + #[trigger] table.addresses@[i]
                + 4 <= old(mem)@.len()),
        r ==> forall|i: int|
            0 <= i < table.addresses@.len() ==> final(mem)@.subrange(
                JUMP_TABLE_BASE + #[trigger] table.addresses@[i],
                JUMP_TABLE_BASE + table.addresses@[i] + 4,
            ) == spec_u32_to_le_bytes((table_base + i) as u32),
        r ==> forall|k: int|
            0 <= k < old(mem)@.len() && !(exists|i: int|
                0 <= i < table.addresses@.len() && JUMP_TABLE_BASE + #[trigger] table.addresses@[i]
                    <= k < JUMP_TABLE_BASE + table.addresses@[i] + 4) ==> final(mem)@[k] == old(
                mem,
            )@[k],
        !r ==> final(mem)@ == old(mem)@,
{
    let writes = table.expose_writes(table_base);
    proof {
        lemma_expose_writes_disjoint(*table, writes@);
    }
    let ok = install_jump_writes(mem, &writes);
    proof {
        if ok {
            assert forall|i: int|
                0 <= i < table.addresses@.len() implies JUMP_TABLE_BASE
                + #[trigger] table.addresses@[i] + 4 <= old(mem)@.len() by {
                assert(writes@[i].address + 4 <= old(mem)@.len());
                assert(writes@[i].address == JUMP_TABLE_BASE + table.addresses@[i]);
            }
        } else {
            let oob = choose|i: int|
                0 <= i < writes@.len() && !(#[trigger] writes@[i].address + 4 <= old(mem)@.len());
            assert(writes@[oob].address == JUMP_TABLE_BASE + table.addresses@[oob]);
            assert(!(JUMP_TABLE_BASE + table.addresses@[oob] + 4 <= old(mem)@.len()));
        }
        if ok {
            assert forall|i: int|
                0 <= i < table.addresses@.len() implies mem@.subrange(
                JUMP_TABLE_BASE + #[trigger] table.addresses@[i],
                JUMP_TABLE_BASE + table.addresses@[i] + 4,
            ) == spec_u32_to_le_bytes((table_base + i) as u32) by {
                assert(writes@[i] == (JumpWrite {
                    address: (JUMP_TABLE_BASE + table.addresses@[i]) as u32,
                    index: (table_base + i) as u32,
                }));
                assert(mem@.subrange(writes@[i].address as int, writes@[i].address + 4)
                    == spec_u32_to_le_bytes(writes@[i].index));
            }
            assert forall|k: int|
                0 <= k < old(mem)@.len() && !(exists|i: int|
                    0 <= i < table.addresses@.len() && JUMP_TABLE_BASE
                        + #[trigger] table.addresses@[i] <= k < JUMP_TABLE_BASE
                        + table.addresses@[i] + 4) implies mem@[k] == old(mem)@[k] by {
                assert(!spec_in_write_window(writes@, k));
            }
        }
    }
    ok
}

/// Write one little-endian 32-bit word into memory; only its four bytes
/// change.
pub fn write_u32_le_at(mem: &mut [u8], pos: usize, v: u32)
    requires
        pos + 4 <= old(mem)@.len(),
    ensures
        final(mem)@.len() == old(mem)@.len(),
        final(mem)@.subrange(pos as int, pos + 4) == spec_u32_to_le_bytes(v),
        forall|k: int| 0 <= k < old(mem)@.len() && !(pos <= k < pos + 4) ==> final(mem)@[k] == old(
            mem,
        )@[k],
{
    let n: usize = mem.len();
    let bytes = u32_to_le_bytes(v);
    proof {
        vstd::bytes::lemma_auto_spec_u32_to_from_le_bytes();
        assert(pos + 4 <= n);
    }
    mem.set(pos, bytes[0]);
    mem.set(pos + 1, bytes[1]);
    mem.set(pos + 2, bytes[2]);
    mem.set(pos + 3, bytes[3]);
    proof {
        assert_seqs_equal!(mem@.subrange(pos as int, pos + 4), spec_u32_to_le_bytes(v));
    }
}

/// Install the jump table into guest memory: after the call, memory holds
/// each write's table index as four little-endian bytes at its address,
/// and every byte outside those words is unchanged.
pub fn install_jump_writes(mem: &mut [u8], writes: &Vec<JumpWrite>) -> (r: bool)
    requires
        spec_writes_disjoint(writes@),
    ensures
        final(mem)@.len() == old(mem)@.len(),
        r == (forall|i: int|
            0 <= i < writes@.len() ==> #[trigger] writes@[i].address + 4 <= old(mem)@.len()),
        r ==> forall|i: int|
            0 <= i < writes@.len() ==> final(mem)@.subrange(
                #[trigger] writes@[i].address as int,
                writes@[i].address + 4,
            ) == spec_u32_to_le_bytes(writes@[i].index),
        r ==> forall|k: int|
            0 <= k < old(mem)@.len() && !spec_in_write_window(writes@, k) ==> final(mem)@[k] == old(
                mem,
            )@[k],
        !r ==> final(mem)@ == old(mem)@,
{
    let mut i: usize = 0;
    while i < writes.len()
        invariant
            0 <= i <= writes@.len(),
            mem@ == old(mem)@,
            forall|j: int| 0 <= j < i ==> #[trigger] writes@[j].address + 4 <= mem@.len(),
        decreases writes@.len() - i,
    {
        let w = writes[i];
        if w.address as u64 + 4 > mem.len() as u64 {
            return false;
        }
        i = i + 1;
    }
    let mut j: usize = 0;
    while j < writes.len()
        invariant
            spec_writes_disjoint(writes@),
            0 <= j <= writes@.len(),
            mem@.len() == old(mem)@.len(),
            forall|i2: int| 0 <= i2 < writes@.len() ==> #[trigger] writes@[i2].address + 4 <= mem@.len(),
            forall|i2: int|
                0 <= i2 < j ==> mem@.subrange(
                    #[trigger] writes@[i2].address as int,
                    writes@[i2].address + 4,
                ) == spec_u32_to_le_bytes(writes@[i2].index),
            forall|k: int|
                0 <= k < mem@.len() && !(exists|i2: int|
                    0 <= i2 < j && #[trigger] writes@[i2].address <= k < writes@[i2].address + 4)
                    ==> mem@[k] == old(mem)@[k],
        decreases writes@.len() - j,
    {
        let w = writes[j];
        let ghost pre = mem@;
        write_u32_le_at(mem, w.address as usize, w.index);
        proof {
            assert forall|i2: int|
                0 <= i2 < j + 1 implies mem@.subrange(
                #[trigger] writes@[i2].address as int,
                writes@[i2].address + 4,
            ) == spec_u32_to_le_bytes(writes@[i2].index) by {
                if i2 < j {
                    assert(writes@[i2].address + 4 <= writes@[j as int].address
                        || writes@[j as int].address + 4 <= writes@[i2].address);
                    assert_seqs_equal!(
                        mem@.subrange(writes@[i2].address as int, writes@[i2].address + 4),
                        pre.subrange(writes@[i2].address as int, writes@[i2].address + 4)
                    );
                }
            }
        }
        j = j + 1;
    }
    true
}

} // verus!
