use x86_boot::bytes::{push_u16_le, push_u32_le, push_zeros};
use x86_boot::multiboot::{
    bootloader_is_multiboot2, build_header, checksum, MultibootTag, ARCHITECTURE_I386,
    BOOTLOADER_MAGIC, HEADER_MAGIC,
};

fn word(bytes: &[u8], at: usize) -> u32 {
    u32::from_le_bytes([bytes[at], bytes[at + 1], bytes[at + 2], bytes[at + 3]])
}

#[test]
fn one_info_request_gives_forty_bytes() {
    let tags = vec![MultibootTag::InfoReq { flags: vec![8] }];
    let header = build_header(&tags).unwrap();
    assert_eq!(header.len(), 40);
    assert_eq!(word(&header, 0), 0xE85250D6);
    assert_eq!(word(&header, 4), 0);
    assert_eq!(word(&header, 8), 40);
    assert_eq!(word(&header, 12), 0u32.wrapping_sub(0xE85250D6u32.wrapping_add(40)));
    assert_eq!(word(&header, 12), 0x17ADAF02);
    assert_eq!(
        header,
        vec![
            0xD6, 0x50, 0x52, 0xE8, 0x00, 0x00, 0x00, 0x00, 0x28, 0x00, 0x00, 0x00, 0x02, 0xAF,
            0xAD, 0x17, 0x01, 0x00, 0x00, 0x00, 0x0C, 0x00, 0x00, 0x00, 0x08, 0x00, 0x00, 0x00,
            0x00, 0x00, 0x00, 0x00, 0x00, 0x00, 0x00, 0x00, 0x08, 0x00, 0x00, 0x00,
        ]
    );
}

#[test]
fn no_tags_gives_words_and_end_tag() {
    let header = build_header(&Vec::new()).unwrap();
    assert_eq!(header.len(), 24);
    assert_eq!(word(&header, 8), 24);
    assert_eq!(&header[16..], &[0, 0, 0, 0, 8, 0, 0, 0]);
}

#[test]
fn header_words_sum_to_zero() {
    let lists = vec![
        vec![],
        vec![MultibootTag::InfoReq { flags: vec![8] }],
        vec![MultibootTag::InfoReq { flags: vec![1, 2, 3] }, MultibootTag::ConsoleFlags { flags: 1 }],
        vec![
            MultibootTag::ConsoleFlags { flags: 0b01 },
            MultibootTag::FramebufferReq { width: 80, height: 25, depth: 0 },
            MultibootTag::InfoReq { flags: vec![] },
        ],
    ];
    for tags in lists {
        let header = build_header(&tags).unwrap();
        let sum = word(&header, 0)
            .wrapping_add(word(&header, 4))
            .wrapping_add(word(&header, 8))
            .wrapping_add(word(&header, 12));
        assert_eq!(sum, 0);
        assert_eq!(word(&header, 0), HEADER_MAGIC);
        assert_eq!(word(&header, 4), ARCHITECTURE_I386);
        assert_eq!(word(&header, 8) as usize, header.len());
    }
}

#[test]
fn tags_start_at_multiples_of_eight() {
    let tags = vec![
        MultibootTag::ConsoleFlags { flags: 0b01 },
        MultibootTag::FramebufferReq { width: 80, height: 25, depth: 0 },
        MultibootTag::InfoReq { flags: vec![1, 2] },
        MultibootTag::InfoReq { flags: vec![] },
    ];
    let header = build_header(&tags).unwrap();
    let lengths = [12usize, 20, 16, 8];
    let types = [4u16, 5, 1, 1];
    let mut at = 16usize;
    for i in 0..tags.len() {
        assert_eq!(at % 8, 0);
        assert_eq!(u16::from_le_bytes([header[at], header[at + 1]]), types[i]);
        assert_eq!(&header[at + 2..at + 4], &[0, 0]);
        assert_eq!(word(&header, at + 4) as usize, lengths[i]);
        assert_eq!(&header[at + 8..at + lengths[i]], &tags[i].data()[..]);
        let next = at + (lengths[i] + 7) / 8 * 8;
        assert!(header[at + lengths[i]..next].iter().all(|b| *b == 0));
        at = next;
    }
    assert_eq!(&header[at..], &[0, 0, 0, 0, 8, 0, 0, 0]);
    assert_eq!(header.len(), 16 + 16 + 24 + 16 + 8 + 8);
}

#[test]
fn tag_types_and_payloads() {
    let info = MultibootTag::InfoReq { flags: vec![8, 0x01020304] };
    assert_eq!(info.get_type(), 1);
    assert_eq!(info.data(), vec![8, 0, 0, 0, 4, 3, 2, 1]);
    let console = MultibootTag::ConsoleFlags { flags: 0b01 };
    assert_eq!(console.get_type(), 4);
    assert_eq!(console.data(), vec![1, 0, 0, 0]);
    let fb = MultibootTag::FramebufferReq { width: 80, height: 25, depth: 0x11223344 };
    assert_eq!(fb.get_type(), 5);
    assert_eq!(fb.data(), vec![80, 0, 0, 0, 25, 0, 0, 0, 0x44, 0x33, 0x22, 0x11]);
}

#[test]
fn checksum_values() {
    assert_eq!(checksum(40), 0x17ADAF02);
    assert_eq!(checksum(24), 0x17ADAF12);
    assert_eq!(checksum(0x17ADAF2A), 0);
    assert_eq!(checksum(0xFFFFFFFF), 0x17ADAF2B);
    for total in [0u32, 24, 40, 0x17ADAF29, 0x17ADAF2A, 0x17ADAF2B, 0xFFFFFFFF] {
        assert_eq!(HEADER_MAGIC.wrapping_add(total).wrapping_add(checksum(total)), 0);
    }
}

#[test]
fn bootloader_magic_is_checked() {
    assert!(bootloader_is_multiboot2(0x36d76289));
    assert!(bootloader_is_multiboot2(BOOTLOADER_MAGIC));
    assert!(!bootloader_is_multiboot2(0x2BADB002));
    assert!(!bootloader_is_multiboot2(0));
}

#[test]
fn little_endian_pushes() {
    let mut out = vec![0xEE];
    push_u16_le(&mut out, 0x1234);
    push_u32_le(&mut out, 0xA1B2C3D4);
    push_zeros(&mut out, 3);
    push_zeros(&mut out, 0);
    assert_eq!(out, vec![0xEE, 0x34, 0x12, 0xD4, 0xC3, 0xB2, 0xA1, 0, 0, 0]);
}
