use x86_boot::gdt::{
    decode_segment, encode_segment, encode_task_state_descriptor, gdt_pointer, init_gdt, kernel_cs,
    kernel_ds,
    GdtDescriptor, SegmentFields, SegmentKind, SegmentSelector, KERNEL_CS, KERNEL_DS, USER_CS,
    USER_DS,
};
use x86_boot::table::{store_entry, DescriptorTablePointer};

#[test]
fn selector_constants_have_their_encodings() {
    assert_eq!(KERNEL_CS, 0x08);
    assert_eq!(KERNEL_DS, 0x10);
    assert_eq!(USER_CS, 0x1B);
    assert_eq!(USER_DS, 0x23);
    assert_eq!(kernel_cs().encode(), KERNEL_CS);
    assert_eq!(kernel_ds().encode(), KERNEL_DS);
    assert_eq!(SegmentSelector::new(3, 3).encode(), USER_CS);
    assert_eq!(SegmentSelector::new(4, 3).encode(), USER_DS);
}

#[test]
fn selector_converts_to_u16() {
    let ss = SegmentSelector { index: 5, use_ldt: false, privl: 2 };
    assert_eq!(u16::from(ss), 0x2A);
    let local = SegmentSelector { index: 1, use_ldt: true, privl: 0 };
    assert_eq!(u16::from(local), 0x0C);
}

#[test]
fn selector_decodes_what_it_encoded() {
    let ss = SegmentSelector::new(8191, 3);
    assert_eq!(ss.encode(), 0xFFFB);
    assert_eq!(SegmentSelector::decode(0xFFFB), ss);
    assert_eq!(
        SegmentSelector::decode(0x0C),
        SegmentSelector { index: 1, use_ldt: true, privl: 0 }
    );
}

#[test]
fn new_code_keeps_a_small_limit() {
    let d = GdtDescriptor::new_code(1, 0x1000, 0xFFFFF, 0);
    assert_eq!(d.base, 0x1000);
    assert_eq!(d.limit, 0xFFFFF);
    assert_eq!(d.access, 0x9A);
    assert_eq!(d.flags, 0x40);
    assert_eq!(d.index, SegmentSelector { index: 1, use_ldt: false, privl: 0 });
}

#[test]
fn new_code_counts_a_large_limit_in_pages() {
    let d = GdtDescriptor::new_code(3, 0, 0x100000, 3);
    assert_eq!(d.limit, 0x100);
    assert_eq!(d.access, 0xFA);
    assert_eq!(d.flags, 0xC0);
}

#[test]
fn new_data_sets_the_data_access_bits() {
    let d = GdtDescriptor::new_data(2, 0, 0xFFFFFFFF, 0);
    assert_eq!(d.limit, 0xFFFFF);
    assert_eq!(d.access, 0x92);
    assert_eq!(d.flags, 0xC0);
    let user = GdtDescriptor::new_data(4, 0, 0x1234, 3);
    assert_eq!(user.limit, 0x1234);
    assert_eq!(user.access, 0xF2);
    assert_eq!(user.flags, 0x40);
}

#[test]
fn new_tss_uses_the_system_type() {
    let d = GdtDescriptor::new_tss(5, 0x12345678, 0x68, 0);
    assert_eq!(d.base, 0x12345678);
    assert_eq!(d.limit, 0x68);
    assert_eq!(d.access, 0x89);
    assert_eq!(d.flags, 0x00);
    let big = GdtDescriptor::new_tss(5, 0, 0x200000, 1);
    assert_eq!(big.limit, 0x200);
    assert_eq!(big.access, 0xA9);
    assert_eq!(big.flags, 0x80);
}

#[test]
fn write_lays_out_the_eight_bytes() {
    let d = GdtDescriptor::new_tss(5, 0x12345678, 0x68, 0);
    let mut buf = [0xAAu8; 10];
    d.write(&mut buf);
    assert_eq!(buf, [0x68, 0x00, 0x78, 0x56, 0x34, 0x89, 0x00, 0x12, 0xAA, 0xAA]);
    assert_eq!(d.encode(), [0x68, 0x00, 0x78, 0x56, 0x34, 0x89, 0x00, 0x12]);
}

#[test]
fn encode_segment_flat_kernel_code() {
    let bytes = encode_segment(0, 0xFFFFFFFF, SegmentKind::Code, 0);
    assert_eq!(bytes, [0xFF, 0xFF, 0x00, 0x00, 0x00, 0x9A, 0xCF, 0x00]);
}

#[test]
fn encode_segment_user_data() {
    let bytes = encode_segment(0xA1B2C3D4, 0xABCDE, SegmentKind::Data, 3);
    assert_eq!(bytes, [0xDE, 0xBC, 0xD4, 0xC3, 0xB2, 0xF2, 0x4A, 0xA1]);
}

#[test]
fn encode_task_state_descriptor_matches_the_kind() {
    let a = encode_task_state_descriptor(0x00100000, 0x67, 0);
    assert_eq!(a, [0x67, 0x00, 0x00, 0x00, 0x10, 0x89, 0x00, 0x00]);
    assert_eq!(a, encode_segment(0x00100000, 0x67, SegmentKind::TaskState, 0));
}

#[test]
fn round_trip_below_one_mebibyte() {
    let kinds = [SegmentKind::Code, SegmentKind::Data, SegmentKind::TaskState];
    let bases = [0u32, 1, 0x00FF00FF, 0x12345678, 0xFFFFFFFF];
    let limits = [0u32, 1, 0xFFFF, 0x10000, 0xABCDE, 0xFFFFF];
    for kind in kinds {
        for base in bases {
            for limit in limits {
                for privl in 0u8..4 {
                    let bytes = encode_segment(base, limit, kind, privl);
                    assert_eq!(
                        decode_segment(&bytes),
                        Some(SegmentFields {
                            base,
                            limit,
                            page_granularity: false,
                            kind,
                            privl,
                            present: true,
                        })
                    );
                }
            }
        }
    }
}

#[test]
fn large_limits_are_promoted_to_pages() {
    for limit in [0x100000u32, 0x100FFF, 0x12345678, 0xFFFFFFFF] {
        let bytes = encode_segment(0x1000, limit, SegmentKind::Data, 0);
        let fields = decode_segment(&bytes).unwrap();
        assert_eq!(fields.limit, limit >> 12);
        assert!(fields.page_granularity);
        assert_eq!(fields.byte_limit(), limit & !0xFFF);
        assert!(limit - fields.byte_limit() < 4096);
    }
}

#[test]
fn decode_refuses_an_unknown_access_byte() {
    assert_eq!(decode_segment(&[0u8; 8]), None);
    assert_eq!(decode_segment(&[0, 0, 0, 0, 0, 0x8E, 0, 0]), None);
}

#[test]
fn decode_reads_an_absent_segment() {
    let fields = decode_segment(&[0x34, 0x12, 0, 0, 0, 0x12, 0x40, 0]).unwrap();
    assert!(!fields.present);
    assert_eq!(fields.kind, SegmentKind::Data);
    assert_eq!(fields.limit, 0x1234);
    assert_eq!(fields.byte_limit(), 0x1234);
}

#[test]
fn gdt_has_six_entries_and_a_null_descriptor() {
    let gdt = init_gdt(0x00200000, 0x68);
    assert_eq!(gdt.len(), 48);
    assert_eq!(&gdt[0..8], &[0u8; 8]);
    assert_eq!(&gdt[8..16], &[0xFF, 0xFF, 0x00, 0x00, 0x00, 0x9A, 0xCF, 0x00]);
    assert_eq!(&gdt[16..24], &[0xFF, 0xFF, 0x00, 0x00, 0x00, 0x92, 0xCF, 0x00]);
    assert_eq!(&gdt[24..32], &[0xFF, 0xFF, 0x00, 0x00, 0x00, 0xFA, 0xCF, 0x00]);
    assert_eq!(&gdt[32..40], &[0xFF, 0xFF, 0x00, 0x00, 0x00, 0xF2, 0xCF, 0x00]);
    assert_eq!(&gdt[40..48], &[0x68, 0x00, 0x00, 0x00, 0x20, 0x89, 0x00, 0x00]);
}

#[test]
fn null_descriptor_whatever_the_task_state_block() {
    for (base, limit) in [(0u32, 0u32), (0xFFFFFFFF, 0xFFFFFFFF), (0x1234, 0x68)] {
        let gdt = init_gdt(base, limit);
        assert!(gdt[0..8].iter().all(|b| *b == 0));
    }
}

#[test]
fn store_entry_changes_one_entry() {
    let mut table = [0x11u8; 24];
    store_entry(&mut table, 1, &[1, 2, 3, 4, 5, 6, 7, 8]);
    assert_eq!(&table[0..8], &[0x11u8; 8]);
    assert_eq!(&table[8..16], &[1, 2, 3, 4, 5, 6, 7, 8]);
    assert_eq!(&table[16..24], &[0x11u8; 8]);
}

#[test]
fn table_pointer_is_size_less_one_then_base() {
    let p = DescriptorTablePointer::for_table(0x00103000, 48).unwrap();
    assert_eq!(p, DescriptorTablePointer { limit: 47, base: 0x00103000 });
    assert_eq!(p.to_bytes(), [0x2F, 0x00, 0x00, 0x30, 0x10, 0x00]);
    let q = DescriptorTablePointer::for_table(0xDEADBEEF, 2048).unwrap();
    assert_eq!(q.to_bytes(), [0xFF, 0x07, 0xEF, 0xBE, 0xAD, 0xDE]);
    let full = DescriptorTablePointer::for_table(0, 0x10000).unwrap();
    assert_eq!(full.limit, 0xFFFF);
}

#[test]
fn table_pointer_needs_a_size_that_fits() {
    assert_eq!(DescriptorTablePointer::for_table(0x1000, 0), None);
    assert_eq!(DescriptorTablePointer::for_table(0x1000, 0x10001), None);
}

#[test]
fn gdt_pointer_covers_the_six_entries() {
    let p = gdt_pointer(0x00103000);
    assert_eq!(Some(p), DescriptorTablePointer::for_table(0x00103000, init_gdt(0, 0).len()));
    assert_eq!(p.to_bytes(), [0x2F, 0x00, 0x00, 0x30, 0x10, 0x00]);
}
