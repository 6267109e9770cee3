//! What the two descriptor tables share: entries of eight bytes at fixed offsets,
//! and the pointer image that the processor's table-load instructions read.

use vstd::prelude::*;

verus! {

/// The size of one table entry in bytes.
pub const ENTRY_SIZE: usize = 8;

/// The eight bytes of entry `slot` of a table.
pub open spec fn entry_at(table: Seq<u8>, slot: int) -> Seq<u8> {
    table.subrange(8 * slot, 8 * slot + 8)
}

/// The table with entry `slot` replaced by `entry`.
pub open spec fn with_entry(table: Seq<u8>, slot: int, entry: Seq<u8>) -> Seq<u8> {
    Seq::new(
        table.len(),
        |i: int|
            if 8 * slot <= i < 8 * slot + 8 {
                entry[i - 8 * slot]
            } else {
                table[i]
            },
    )
}

/// Replacing one entry changes that entry and no other.
pub proof fn with_entry_slots(table: Seq<u8>, slot: int, entry: Seq<u8>)
    requires
        entry.len() == 8,
        0 <= slot,
        8 * slot + 8 <= table.len(),
    ensures
        with_entry(table, slot, entry).len() == table.len(),
        entry_at(with_entry(table, slot, entry), slot) == entry,
        forall|other: int|
            0 <= other && other != slot && 8 * other + 8 <= table.len() ==> #[trigger] entry_at(
                with_entry(table, slot, entry),
                other,
            ) == entry_at(table, other),
{
    let changed = with_entry(table, slot, entry);
    assert(entry_at(changed, slot) =~= entry);
    assert forall|other: int|
        0 <= other && other != slot && 8 * other + 8 <= table.len() implies #[trigger] entry_at(
        changed,
        other,
    ) == entry_at(table, other) by {
        assert(entry_at(changed, other) =~= entry_at(table, other));
    }
}

/// Puts `entry` at entry `slot` of `table`.
pub fn store_entry(table: &mut [u8], slot: usize, entry: &[u8; 8])
    requires
        8 * slot + 8 <= old(table)@.len(),
    ensures
        final(table)@ == with_entry(old(table)@, slot as int, entry@),
{
    let len: usize = table.len();
    assert(8 * slot + 8 <= len);
    let start: usize = slot * ENTRY_SIZE;
    let mut k: usize = 0;
    while k < ENTRY_SIZE
        invariant
            k <= 8,
            start == 8 * slot,
            start + 8 <= old(table)@.len(),
            table@.len() == old(table)@.len(),
            forall|i: int|
                0 <= i < table@.len() ==> table@[i] == if start <= i < start + k {
                    entry@[i - start]
                } else {
                    old(table)@[i]
                },
        decreases 8 - k,
    {
        table[start + k] = entry[k];
        k += 1;
    }
}

/// The operand of a table-load instruction: the table's size in bytes less one, then
/// its linear address.
#[derive(Clone, Copy, Debug, PartialEq, Eq, Structural)]
pub struct DescriptorTablePointer {
    pub limit: u16,
    pub base: u32,
}

/// The pointer to a table of `len` bytes at `base`: there is one where the table is
/// not empty and its last byte's offset fits in sixteen bits.
pub open spec fn pointer_to(base: u32, len: nat) -> Option<DescriptorTablePointer> {
    if 1 <= len <= 0x10000 {
        Some(DescriptorTablePointer { limit: (len - 1) as u16, base })
    } else {
        None
    }
}

impl DescriptorTablePointer {
    /// The six bytes that the processor reads: the limit, then the base, each with
    /// its lowest byte first.
    pub open spec fn bytes(&self) -> Seq<u8> {
        seq![
            self.limit as u8,
            (self.limit >> 8) as u8,
            self.base as u8,
            (self.base >> 8) as u8,
            (self.base >> 16) as u8,
            (self.base >> 24) as u8,
        ]
    }

    /// The pointer to a table of `len` bytes that lies at `base`.
    pub fn for_table(base: u32, len: usize) -> (p: Option<DescriptorTablePointer>)
        ensures
            p == pointer_to(base, len as nat),
    {
        if 1 <= len && len <= 0x10000 {
            Some(DescriptorTablePointer { limit: (len - 1) as u16, base })
        } else {
            None
        }
    }

    /// The pointer as the six bytes handed to the table-load instruction.
    pub fn to_bytes(&self) -> (out: [u8; 6])
        ensures
            out@ == self.bytes(),
    {
        let out: [u8; 6] = [
            self.limit as u8,
            (self.limit >> 8) as u8,
            self.base as u8,
            (self.base >> 8) as u8,
            (self.base >> 16) as u8,
            (self.base >> 24) as u8,
        ];
        out
    }
}

} // verus!
