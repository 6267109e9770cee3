//! The boot-protocol header: a list of tags that tells the bootloader what the
//! kernel asks for, behind four words that end in a checksum.

use crate::bytes::{le16, le32, push_u16_le, push_u32_le, push_zeros, word_at, word_of_split, zeros};
use vstd::prelude::*;

verus! {

/// The first word of the header, by which the bootloader finds it.
pub const HEADER_MAGIC: u32 = 0xE85250D6;

/// The architecture word for 32-bit protected mode.
pub const ARCHITECTURE_I386: u32 = 0;

/// What a bootloader of this protocol leaves in the first register at entry.
pub const BOOTLOADER_MAGIC: u32 = 0x36d76289;

/// The size of the four header words in bytes.
pub const HEADER_WORDS_SIZE: usize = 16;

/// Whether the value that the bootloader handed over is this protocol's.
pub fn bootloader_is_multiboot2(eax: u32) -> (ok: bool)
    ensures
        ok == (eax == BOOTLOADER_MAGIC),
{
    eax == BOOTLOADER_MAGIC
}

/// One request to the bootloader.
#[derive(Debug)]
#[allow(inconsistent_fields)]
pub enum MultibootTag {
    /// Asks for the information of the listed kinds.
    InfoReq { flags: Vec<u32> },
    /// Says what console the kernel can use.
    ConsoleFlags { flags: u32 },
    /// Asks for a framebuffer of the given geometry.
    FramebufferReq { width: u32, height: u32, depth: u32 },
}

/// The bytes of a sequence of 32-bit values, one after the other.
pub open spec fn le_words(words: Seq<u32>) -> Seq<u8>
    decreases words.len(),
{
    if words.len() == 0 {
        Seq::empty()
    } else {
        le_words(words.drop_last()) + le32(words.last())
    }
}

/// The number of zero bytes after `length` bytes that brings the next tag to a
/// multiple of eight.
pub open spec fn padding(length: int) -> int {
    (8 - length % 8) % 8
}

/// `length` rounded up to a multiple of eight.
pub open spec fn round_up8(length: int) -> int {
    ((length + 7) / 8) * 8
}

impl MultibootTag {
    /// The tag's type field.
    pub open spec fn type_code(&self) -> u16 {
        match self {
            MultibootTag::InfoReq { .. } => 1,
            MultibootTag::ConsoleFlags { .. } => 4,
            MultibootTag::FramebufferReq { .. } => 5,
        }
    }

    /// The bytes that follow the tag's own fields.
    pub open spec fn payload(&self) -> Seq<u8> {
        match self {
            MultibootTag::InfoReq { flags } => le_words(flags@),
            MultibootTag::ConsoleFlags { flags } => le32(*flags),
            MultibootTag::FramebufferReq { width, height, depth } => le32(*width) + le32(*height)
                + le32(*depth),
        }
    }

    /// The tag's length field: its own eight bytes and the payload, without padding.
    pub open spec fn length(&self) -> int {
        8 + self.payload().len() as int
    }

    /// The tag as it lies in the header: type, zero flags, length, payload, and zero
    /// bytes up to the next multiple of eight.
    pub open spec fn block(&self) -> Seq<u8> {
        le16(self.type_code()) + seq![0u8, 0u8] + le32(self.length() as u32) + self.payload()
            + zeros(padding(self.length()))
    }

    /// The tag's type field.
    pub fn get_type(&self) -> (ty: u16)
        ensures
            ty == self.type_code(),
    {
        match self {
            MultibootTag::InfoReq { .. } => 1,
            MultibootTag::ConsoleFlags { .. } => 4,
            MultibootTag::FramebufferReq { .. } => 5,
        }
    }

    /// The tag's payload.
    pub fn data(&self) -> (payload: Vec<u8>)
        ensures
            payload@ == self.payload(),
    {
        let mut data: Vec<u8> = Vec::new();
        match self {
            MultibootTag::InfoReq { flags } => {
                let mut i: usize = 0;
                while i < flags.len()
                    invariant
                        i <= flags@.len(),
                        data@ == le_words(flags@.subrange(0, i as int)),
                    decreases flags@.len() - i,
                {
                    assert(flags@.subrange(0, i + 1).drop_last() =~= flags@.subrange(0, i as int));
                    push_u32_le(&mut data, flags[i]);
                    i += 1;
                }
                assert(flags@.subrange(0, i as int) =~= flags@);
            },
            MultibootTag::ConsoleFlags { flags } => {
                push_u32_le(&mut data, *flags);
                assert(data@ =~= le32(*flags));
            },
            MultibootTag::FramebufferReq { width, height, depth } => {
                push_u32_le(&mut data, *width);
                push_u32_le(&mut data, *height);
                push_u32_le(&mut data, *depth);
                assert(data@ =~= le32(*width) + le32(*height) + le32(*depth));
            },
        }
        data
    }
}

/// The tags as they lie in the header, one block after the other.
pub open spec fn tags_bytes(tags: Seq<MultibootTag>) -> Seq<u8>
    decreases tags.len(),
{
    if tags.len() == 0 {
        Seq::empty()
    } else {
        tags_bytes(tags.drop_last()) + tags.last().block()
    }
}

/// The tag that ends the list: type 0, flags 0, length 8.
pub open spec fn end_tag() -> Seq<u8> {
    seq![0u8, 0u8, 0u8, 0u8, 8u8, 0u8, 0u8, 0u8]
}

/// The size of the whole header in bytes: the four words, the tags with their
/// padding, and the end tag.
pub open spec fn total_length(tags: Seq<MultibootTag>) -> int {
    16 + tags_bytes(tags).len() as int + 8
}

/// The word that brings the sum of the four header words to zero modulo 2^32.
pub open spec fn checksum_of(total: u32) -> u32 {
    ((0x1_0000_0000 - (HEADER_MAGIC + ARCHITECTURE_I386 + total) % 0x1_0000_0000)
        % 0x1_0000_0000) as u32
}

/// The four words at the start of a header of `total` bytes: the magic number, the
/// architecture, the length and the checksum.
pub open spec fn header_words(total: u32) -> Seq<u8> {
    le32(HEADER_MAGIC) + le32(ARCHITECTURE_I386) + le32(total) + le32(checksum_of(total))
}

/// The header for a list of tags: the four words, the tags, the end tag.
pub open spec fn header_bytes(tags: Seq<MultibootTag>) -> Seq<u8> {
    header_words(total_length(tags) as u32) + tags_bytes(tags) + end_tag()
}

/// The offset in the header at which tag `i` starts; for `i` the number of tags, the
/// offset of the end tag.
pub open spec fn tag_offset(tags: Seq<MultibootTag>, i: int) -> int {
    16 + tags_bytes(tags.subrange(0, i)).len() as int
}

/// The checksum for a header of `total` bytes.
pub fn checksum(total: u32) -> (sum: u32)
    ensures
        sum == checksum_of(total),
{
    let words: u64 = HEADER_MAGIC as u64 + ARCHITECTURE_I386 as u64 + total as u64;
    let low: u64 = words % 0x1_0000_0000;
    ((0x1_0000_0000 - low) % 0x1_0000_0000) as u32
}

/// Assembles the header for `tags`, in their order. There is none where the header
/// would be longer than its 32-bit length field can say.
pub fn build_header(tags: &Vec<MultibootTag>) -> (out: Option<Vec<u8>>)
    ensures
        out is Some <==> total_length(tags@) <= u32::MAX,
        out is Some ==> out->0@ == header_bytes(tags@),
{
    let mut data: Vec<u8> = Vec::new();
    let mut i: usize = 0;
    while i < tags.len()
        invariant
            i <= tags@.len(),
            data@ == tags_bytes(tags@.subrange(0, i as int)),
            data@.len() + 24 <= u32::MAX,
        decreases tags@.len() - i,
    {
        let tag = &tags[i];
        let mut payload = tag.data();
        proof {
            assert(tags@.subrange(0, i + 1).drop_last() =~= tags@.subrange(0, i as int));
            block_length(*tag);
            prefix_bytes(tags@, i + 1);
        }
        let room: u64 = 0xFFFF_FFFF - 24 - data.len() as u64;
        let payload_len: u64 = payload.len() as u64;
        if payload_len > room {
            return None;
        }
        let length: u64 = payload_len + 8;
        let pad: u64 = (8 - length % 8) % 8;
        if length + pad > room {
            return None;
        }
        let ghost before = data@;
        push_u16_le(&mut data, tag.get_type());
        data.push(0);
        data.push(0);
        push_u32_le(&mut data, length as u32);
        data.append(&mut payload);
        push_zeros(&mut data, pad as usize);
        assert(data@ =~= before + tag.block());
        i += 1;
    }
    assert(tags@.subrange(0, i as int) =~= tags@);
    let ghost tagged = data@;
    data.push(0);
    data.push(0);
    data.push(0);
    data.push(0);
    data.push(8);
    data.push(0);
    data.push(0);
    data.push(0);
    assert(data@ =~= tagged + end_tag());

    let total: u32 = (data.len() + HEADER_WORDS_SIZE) as u32;
    let mut header: Vec<u8> = Vec::new();
    push_u32_le(&mut header, HEADER_MAGIC);
    push_u32_le(&mut header, ARCHITECTURE_I386);
    push_u32_le(&mut header, total);
    push_u32_le(&mut header, checksum(total));
    header.append(&mut data);
    assert(header@ =~= header_bytes(tags@));
    Some(header)
}

/// A tag's block is its length rounded up to a multiple of eight.
pub proof fn block_length(tag: MultibootTag)
    ensures
        tag.block().len() == tag.length() + padding(tag.length()),
        tag.block().len() == round_up8(tag.length()),
        tag.block().len() % 8 == 0,
        0 <= padding(tag.length()) < 8,
{
}

/// The four header words sum to zero modulo 2^32, whatever the length.
pub proof fn checksum_cancels(total: u32)
    ensures
        (HEADER_MAGIC + ARCHITECTURE_I386 + total + checksum_of(total)) % 0x1_0000_0000 == 0,
{
}

/// In every header built from a list of tags, the first four words are the magic
/// number, the architecture, the header's own length in bytes and the checksum, and
/// their sum is zero modulo 2^32.
pub proof fn header_checksum(tags: Seq<MultibootTag>)
    requires
        total_length(tags) <= u32::MAX,
    ensures
        header_bytes(tags).len() == total_length(tags),
        word_at(header_bytes(tags), 0) == HEADER_MAGIC,
        word_at(header_bytes(tags), 4) == ARCHITECTURE_I386,
        word_at(header_bytes(tags), 8) == total_length(tags),
        (word_at(header_bytes(tags), 0) + word_at(header_bytes(tags), 4) + word_at(
            header_bytes(tags),
            8,
        ) + word_at(header_bytes(tags), 12)) % 0x1_0000_0000 == 0,
{
    let total = total_length(tags) as u32;
    let h = header_bytes(tags);
    let w = header_words(total);
    word_of_split(HEADER_MAGIC);
    word_of_split(ARCHITECTURE_I386);
    word_of_split(total);
    word_of_split(checksum_of(total));
    checksum_cancels(total);
    assert(w.len() == 16);
    assert forall|k: int| 0 <= k < 16 implies h[k] == w[k] by {}
    assert(word_at(w, 0) == word_at(le32(HEADER_MAGIC), 0));
    assert(word_at(w, 4) == word_at(le32(ARCHITECTURE_I386), 0));
    assert(word_at(w, 8) == word_at(le32(total), 0));
    assert(word_at(w, 12) == word_at(le32(checksum_of(total)), 0));
}

/// Every tag starts at a multiple of eight, lies in the header as its block, and
/// the next tag, or after the last one the end tag, starts at the tag's length
/// rounded up to a multiple of eight behind it.
pub proof fn tag_alignment(tags: Seq<MultibootTag>, i: int)
    requires
        0 <= i < tags.len(),
    ensures
        tag_offset(tags, i + 1) - tag_offset(tags, i) == round_up8(tags[i].length()),
        tag_offset(tags, i) % 8 == 0,
        tag_offset(tags, i + 1) <= tag_offset(tags, tags.len() as int),
        header_bytes(tags).subrange(tag_offset(tags, i), tag_offset(tags, i + 1))
            == tags[i].block(),
        header_bytes(tags).subrange(
            tag_offset(tags, tags.len() as int),
            tag_offset(tags, tags.len() as int) + 8,
        ) == end_tag(),
{
    let before = tags_bytes(tags.subrange(0, i));
    let upto = tags_bytes(tags.subrange(0, i + 1));
    let all = tags_bytes(tags);
    let block = tags[i].block();
    let h = header_bytes(tags);
    let b = before.len() as int;
    let u = upto.len() as int;
    let a = all.len() as int;
    assert(upto == before + block) by {
        assert(tags.subrange(0, i + 1).drop_last() =~= tags.subrange(0, i));
    }
    block_length(tags[i]);
    offsets_aligned(tags, i);
    prefix_bytes(tags, i + 1);
    assert(tags.subrange(0, tags.len() as int) =~= tags);
    assert(header_words(total_length(tags) as u32).len() == 16);
    assert(h.subrange(16, 16 + a) =~= all);
    assert(h.subrange(16 + a, 16 + a + 8) =~= end_tag());
    assert(h.subrange(16 + b, 16 + u) =~= block) by {
        assert(all.subrange(0, u) == upto);
        assert forall|k: int| 0 <= k < block.len() implies h[16 + b + k]
            == block[k] by {
            assert(h[16 + b + k] == all[b + k]);
            assert(all[b + k] == all.subrange(0, u)[b + k]);
            assert(upto[b + k] == block[k]);
        }
    }
}

/// The tags before a given one lie at the start of all the tags' bytes.
pub proof fn prefix_bytes(tags: Seq<MultibootTag>, n: int)
    requires
        0 <= n <= tags.len(),
    ensures
        tags_bytes(tags.subrange(0, n)).len() <= tags_bytes(tags).len(),
        tags_bytes(tags).subrange(0, tags_bytes(tags.subrange(0, n)).len() as int) == tags_bytes(
            tags.subrange(0, n),
        ),
    decreases tags.len() - n,
{
    if n < tags.len() {
        assert(tags.subrange(0, n + 1).drop_last() =~= tags.subrange(0, n));
        prefix_bytes(tags, n + 1);
        assert(tags_bytes(tags).subrange(0, tags_bytes(tags.subrange(0, n)).len() as int)
            =~= tags_bytes(tags.subrange(0, n)));
    } else {
        assert(tags.subrange(0, n) =~= tags);
        assert(tags_bytes(tags).subrange(0, tags_bytes(tags).len() as int) =~= tags_bytes(tags));
    }
}

/// Every tag starts at a multiple of eight.
pub proof fn offsets_aligned(tags: Seq<MultibootTag>, n: int)
    requires
        0 <= n <= tags.len(),
    ensures
        tag_offset(tags, n) % 8 == 0,
    decreases n,
{
    if n > 0 {
        assert(tags.subrange(0, n).drop_last() =~= tags.subrange(0, n - 1));
        offsets_aligned(tags, n - 1);
        block_length(tags[n - 1]);
    }
}

} // verus!
