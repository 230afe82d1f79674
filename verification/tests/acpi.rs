use myacpi::bgrt::Bgrt;
use myacpi::bitmap::{convert_bmp, Rgb};
use myacpi::madt::{ApicStatus, Madt, MadtEntry};
use myacpi::{AcpiHeader, AcpiTable, Gas, GasAccessSize, GasAddressSpaceId, RsdPtr, TableId, Xsdt};

fn put_u32(b: &mut Vec<u8>, off: usize, v: u32) {
    b[off] = (v & 0xff) as u8;
    b[off + 1] = ((v >> 8) & 0xff) as u8;
    b[off + 2] = ((v >> 16) & 0xff) as u8;
    b[off + 3] = ((v >> 24) & 0xff) as u8;
}

fn put_u64(b: &mut Vec<u8>, off: usize, v: u64) {
    for k in 0..8 {
        b[off + k] = ((v >> (8 * k)) & 0xff) as u8;
    }
}

/// A table buffer of `total` bytes whose header declares length `declared`.
fn make_table(sig: &[u8; 4], total: usize, declared: u32) -> Vec<u8> {
    let mut b = vec![0u8; total];
    b[..4].copy_from_slice(sig);
    put_u32(&mut b, 4, declared);
    b
}

fn valid_rsdp(xsdt_addr: u64) -> Vec<u8> {
    let mut b = vec![0u8; 36];
    b[..8].copy_from_slice(b"RSD PTR ");
    b[15] = 2;
    put_u64(&mut b, 24, xsdt_addr);
    b
}

#[test]
fn rsdp_parse_valid() {
    let b = valid_rsdp(0x1234_5678_9abc_def0);
    let p = RsdPtr::parse(b).expect("valid root pointer must parse");
    assert!(p.is_valid());
    assert_eq!(p.xsdt(), 0x1234_5678_9abc_def0);
}

#[test]
fn rsdp_parse_rejects_any_signature_mutation() {
    for i in 0..8 {
        let mut b = valid_rsdp(0);
        b[i] ^= 0x01;
        assert!(RsdPtr::parse(b).is_none(), "mutated signature byte {} accepted", i);
    }
}

#[test]
fn rsdp_parse_rejects_wrong_revision() {
    for rev in [0u8, 1, 3, 255] {
        let mut b = valid_rsdp(0);
        b[15] = rev;
        assert!(RsdPtr::parse(b).is_none(), "revision {} accepted", rev);
    }
}

#[test]
fn rsdp_parse_rejects_short_buffer() {
    let b = valid_rsdp(0)[..20].to_vec();
    assert!(RsdPtr::parse(b).is_none());
}

#[test]
fn rsdp_yields_xsdt_base() {
    // The address stored in the root pointer becomes the base of the header
    // view built from the bytes read there.
    let a: u64 = 0x0000_0000_dead_0000;
    let p = RsdPtr::parse(valid_rsdp(a)).unwrap();
    let xsdt_bytes = make_table(b"XSDT", 36, 36);
    let h = AcpiHeader::new(p.xsdt(), xsdt_bytes).unwrap();
    assert_eq!(h.base(), a);
}

#[test]
fn header_rejects_buffer_shorter_than_declared_length() {
    let b = make_table(b"XSDT", 40, 44);
    assert!(AcpiHeader::new(0, b).is_none());
    let b = vec![0u8; 20];
    assert!(AcpiHeader::new(0, b).is_none());
}

#[test]
fn header_accessors() {
    let b = make_table(b"APIC", 44, 44);
    let h = AcpiHeader::new(7, b).unwrap();
    assert_eq!(h.len(), 44);
    assert_eq!(h.signature().bytes(), *b"APIC");
    assert!(h.signature().matches(&TableId::madt()));
    assert!(!h.signature().matches(&TableId::xsdt()));
}

#[test]
fn identify_populated_iff_signature_matches() {
    let h = AcpiHeader::new(0, make_table(b"APIC", 44, 44)).unwrap();
    assert!(h.identify::<Madt>().is_some());
    assert!(h.identify::<Xsdt>().is_none());
    assert!(h.identify::<Bgrt>().is_none());
    let h = AcpiHeader::new(0, make_table(b"XSDT", 36, 36)).unwrap();
    assert!(h.identify::<Xsdt>().is_some());
    assert!(h.identify::<Madt>().is_none());
}

#[test]
fn xsdt_walker_yields_entries_in_order() {
    let k = 3usize;
    let mut b = make_table(b"XSDT", 36 + 8 * k, (36 + 8 * k) as u32);
    let addrs: [u64; 3] = [0x1000, 0xffff_ffff_0000_0002, 0x3000];
    for (i, a) in addrs.iter().enumerate() {
        put_u64(&mut b, 36 + 8 * i, *a);
    }
    let xsdt: Xsdt = AcpiHeader::new(0, b).unwrap().identify().unwrap();
    assert_eq!(xsdt.table_count(), 3);
    assert_eq!(xsdt.tables(), addrs.to_vec());
}

#[test]
fn xsdt_short_declared_length_yields_no_entries() {
    // Declared length under the 36 header bytes: the walk yields nothing.
    let b = make_table(b"XSDT", 36, 20);
    let xsdt: Xsdt = AcpiHeader::new(0, b).unwrap().identify().unwrap();
    assert_eq!(xsdt.table_count(), 0);
    assert_eq!(xsdt.tables(), Vec::<u64>::new());
}

#[test]
fn xsdt_partial_trailing_entry_is_not_yielded() {
    // 4 bytes too few for a second whole entry.
    let b = make_table(b"XSDT", 48, 48);
    let xsdt: Xsdt = AcpiHeader::new(0, b).unwrap().identify().unwrap();
    assert_eq!(xsdt.table_count(), 1);
}

#[test]
fn find_first_returns_first_matching_kind() {
    let xsdt: Xsdt = AcpiHeader::new(0, make_table(b"XSDT", 36, 36)).unwrap().identify().unwrap();
    let headers = vec![
        AcpiHeader::new(0x100, make_table(b"FACP", 36, 36)).unwrap(),
        AcpiHeader::new(0x200, make_table(b"APIC", 44, 44)).unwrap(),
        AcpiHeader::new(0x300, make_table(b"BGRT", 56, 56)).unwrap(),
        AcpiHeader::new(0x400, make_table(b"APIC", 44, 44)).unwrap(),
    ];
    let madt: Madt = xsdt.find_first(&headers).expect("a MADT is present");
    assert_eq!(madt.header().base(), 0x200);
    let bgrt: Bgrt = xsdt.find_first(&headers).expect("a BGRT is present");
    assert_eq!(bgrt.header().base(), 0x300);
}

#[test]
fn find_first_empty_when_kind_absent() {
    let xsdt: Xsdt = AcpiHeader::new(0, make_table(b"XSDT", 36, 36)).unwrap().identify().unwrap();
    let headers = vec![AcpiHeader::new(0x100, make_table(b"FACP", 36, 36)).unwrap()];
    assert!(xsdt.find_first::<Bgrt>(&headers).is_none());
}

fn madt_with(flags: u32, records: &[u8]) -> Madt {
    let total = 44 + records.len();
    let mut b = make_table(b"APIC", total, total as u32);
    put_u32(&mut b, 36, 0xfee0_0000);
    put_u32(&mut b, 40, flags);
    b[44..].copy_from_slice(records);
    AcpiHeader::new(0, b).unwrap().identify().unwrap()
}

#[test]
fn madt_has_8259_follows_flags_bit_0() {
    assert!(madt_with(1, &[]).has_8259());
    assert!(madt_with(0xffff_fffe, &[]).has_8259() == false);
    assert!(madt_with(3, &[]).has_8259());
}

#[test]
fn madt_local_apic_address() {
    assert_eq!(madt_with(0, &[]).local_apic_address(), 0xfee0_0000);
}

#[test]
fn madt_walk_classifies_known_records() {
    let records: Vec<u8> = vec![
        // local APIC: uid 7, apic id 9, flags 1 (enabled)
        0, 8, 7, 9, 1, 0, 0, 0,
        // I/O APIC: id 2, address 0xfec00000, gsi base 24
        1, 12, 2, 0, 0x00, 0x00, 0xc0, 0xfe, 24, 0, 0, 0,
        // override: bus 0, source 9, gsi 0x19, flags 0x000d
        2, 10, 0, 9, 0x19, 0, 0, 0, 0x0d, 0x00,
        // local APIC: uid 1, apic id 3, flags 0 (disabled)
        0, 8, 1, 3, 0, 0, 0, 0,
    ];
    let entries = madt_with(1, &records).all_entries();
    assert_eq!(entries.len(), 4);
    match &entries[0] {
        MadtEntry::LocalApic(e) => {
            assert_eq!(e.uid(), 7);
            assert_eq!(e.apic_id(), 9);
            assert_eq!(e.status(), ApicStatus::Enabled);
        }
        other => panic!("expected a local APIC record, got {:?}", other),
    }
    match &entries[1] {
        MadtEntry::IoApic(e) => {
            assert_eq!(e.apic_id(), 2);
            assert_eq!(e.io_apic_address(), 0xfec0_0000);
            assert_eq!(e.gsi_base(), 24);
        }
        other => panic!("expected an I/O APIC record, got {:?}", other),
    }
    match &entries[2] {
        MadtEntry::InterruptSourceOverride(e) => {
            assert_eq!(e.bus(), 0);
            assert_eq!(e.source(), 9);
            assert_eq!(e.global_system_interrupt(), 0x19);
            assert_eq!(e.flags(), 0x000d);
        }
        other => panic!("expected an override record, got {:?}", other),
    }
    match &entries[3] {
        MadtEntry::LocalApic(e) => assert_eq!(e.status(), ApicStatus::Disabled),
        other => panic!("expected a local APIC record, got {:?}", other),
    }
}

#[test]
fn madt_walk_preserves_unknown_tag_and_length() {
    // Tag 9 is none of the modeled kinds: the walk exposes the raw tag and
    // length bytes unchanged.
    let records: Vec<u8> = vec![9, 6, 0xaa, 0xbb, 0xcc, 0xdd, 0, 8, 1, 2, 1, 0, 0, 0];
    let entries = madt_with(0, &records).all_entries();
    assert_eq!(entries.len(), 2);
    match &entries[0] {
        MadtEntry::Other(e) => {
            assert_eq!(e.entry_type(), 9);
            assert_eq!(e.len(), 6);
        }
        other => panic!("expected an opaque record, got {:?}", other),
    }
    assert!(matches!(&entries[1], MadtEntry::LocalApic(_)));
}

#[test]
fn madt_walk_consumes_exactly_the_stream() {
    // Records tile the stream exactly: the walk consumes every byte between
    // offset 44 and the declared length, and yields one entry per record.
    let records: Vec<u8> = vec![9, 3, 0, 9, 2, 9, 5, 0, 0, 0, 0, 8, 1, 2, 0, 0, 0, 0];
    let madt = madt_with(0, &records);
    let entries = madt.all_entries();
    assert_eq!(entries.len(), 4);
    let mut consumed = 0usize;
    for e in &entries {
        consumed += match e {
            MadtEntry::Other(o) => o.len() as usize,
            MadtEntry::LocalApic(_) => 8,
            MadtEntry::IoApic(_) => 12,
            MadtEntry::InterruptSourceOverride(_) => 10,
        };
    }
    assert_eq!(consumed, records.len());
    assert_eq!(consumed, madt.header().len() - 44);
}

#[test]
fn madt_walk_stops_at_table_boundary() {
    // The second record claims 200 bytes, past the declared length: the walk
    // stops rather than read outside the table.
    let records: Vec<u8> = vec![0, 8, 1, 2, 1, 0, 0, 0, 9, 200, 1, 1];
    let entries = madt_with(0, &records).all_entries();
    assert_eq!(entries.len(), 1);
}

#[test]
fn madt_walk_stops_on_zero_length_record() {
    let records: Vec<u8> = vec![0, 8, 1, 2, 1, 0, 0, 0, 9, 0, 1, 1];
    let entries = madt_with(0, &records).all_entries();
    assert_eq!(entries.len(), 1);
}

#[test]
fn madt_short_known_record_stays_opaque() {
    // Tag 0 but only 4 bytes: too short for a local-APIC record's fields, so
    // it is preserved opaquely instead of being read out of bounds.
    let records: Vec<u8> = vec![0, 4, 1, 2];
    let entries = madt_with(0, &records).all_entries();
    assert_eq!(entries.len(), 1);
    match &entries[0] {
        MadtEntry::Other(e) => {
            assert_eq!(e.entry_type(), 0);
            assert_eq!(e.len(), 4);
        }
        other => panic!("expected an opaque record, got {:?}", other),
    }
}

#[test]
fn bgrt_accessors() {
    let mut b = make_table(b"BGRT", 56, 56);
    b[36] = 1; // version
    b[38] = 1; // status: image valid
    b[39] = 0; // image type: bitmap
    put_u64(&mut b, 40, 0x8000_0000);
    put_u32(&mut b, 48, 100);
    put_u32(&mut b, 52, 200);
    let bgrt: Bgrt = AcpiHeader::new(0, b).unwrap().identify().unwrap();
    assert_eq!(bgrt.bitmap(), 0x8000_0000);
    assert_eq!(bgrt.offset(), (100, 200));
}

/// A 2x2, 24-bit-per-pixel bitmap with distinct channel bytes per pixel and
/// explicit row padding (stride 8 for 6 pixel bytes).
fn sample_bmp_2x2(bpp: u16) -> Vec<u8> {
    let data_off = 32usize;
    let stride = 8usize;
    let mut b = vec![0u8; data_off + stride * 2];
    put_u32(&mut b, 10, data_off as u32);
    put_u32(&mut b, 18, 2);
    put_u32(&mut b, 22, 2);
    b[28] = (bpp & 0xff) as u8;
    b[29] = (bpp >> 8) as u8;
    // Stored bottom-to-top, channels blue-green-red. Bottom row: pixels
    // (1,0) and (1,1) of the decoded top-down image.
    b[data_off..data_off + 6].copy_from_slice(&[0x31, 0x32, 0x33, 0x41, 0x42, 0x43]);
    // Top row: pixels (0,0) and (0,1).
    b[data_off + stride..data_off + stride + 6]
        .copy_from_slice(&[0x11, 0x12, 0x13, 0x21, 0x22, 0x23]);
    b
}

#[test]
fn bmp_decode_reorders_channels_and_rows() {
    let (w, h, pixels) = convert_bmp(&sample_bmp_2x2(24));
    assert_eq!((w, h), (2, 2));
    assert_eq!(
        pixels,
        vec![
            Rgb { red: 0x13, green: 0x12, blue: 0x11 },
            Rgb { red: 0x23, green: 0x22, blue: 0x21 },
            Rgb { red: 0x33, green: 0x32, blue: 0x31 },
            Rgb { red: 0x43, green: 0x42, blue: 0x41 },
        ]
    );
}

#[test]
fn bmp_unsupported_depth_reports_dimensions_with_empty_buffer() {
    let (w, h, pixels) = convert_bmp(&sample_bmp_2x2(1));
    assert_eq!((w, h), (2, 2));
    assert!(pixels.is_empty());
}

#[test]
fn bmp_32bpp_drops_padding_byte() {
    let data_off = 32usize;
    let stride = 4usize;
    let mut b = vec![0u8; data_off + stride];
    put_u32(&mut b, 10, data_off as u32);
    put_u32(&mut b, 18, 1);
    put_u32(&mut b, 22, 1);
    b[28] = 32;
    b[data_off..data_off + 4].copy_from_slice(&[0x51, 0x52, 0x53, 0x7f]);
    let (w, h, pixels) = convert_bmp(&b);
    assert_eq!((w, h), (1, 1));
    assert_eq!(pixels, vec![Rgb { red: 0x53, green: 0x52, blue: 0x51 }]);
}

#[test]
fn bmp_pixel_array_outside_buffer_yields_empty_buffer() {
    let mut b = vec![0u8; 40];
    put_u32(&mut b, 10, 32);
    put_u32(&mut b, 18, 4);
    put_u32(&mut b, 22, 4);
    b[28] = 24;
    let (w, h, pixels) = convert_bmp(&b);
    assert_eq!((w, h), (4, 4));
    assert!(pixels.is_empty());
}

#[test]
fn gas_read_decodes_fields() {
    let mut b = vec![0u8; 12];
    b[0] = 1; // system I/O space
    b[1] = 8; // bit width
    b[2] = 0; // bit offset
    b[3] = 1; // byte access
    put_u64(&mut b, 4, 0xb2);
    let g = Gas::read(&b, 0).unwrap();
    assert_eq!(g.id, GasAddressSpaceId::SystemIo);
    assert_eq!(g.bit_width, 8);
    assert_eq!(g.bit_offset, 0);
    assert_eq!(g.access_size, GasAccessSize::Byte);
    assert_eq!(g.address, 0xb2);
}

#[test]
fn gas_read_rejects_undefined_enumeration_bytes() {
    let mut b = vec![0u8; 12];
    b[0] = 0x20; // not a defined address space
    b[3] = 1;
    assert!(Gas::read(&b, 0).is_none());
    b[0] = 0x7f; // functional fixed hardware is defined
    b[3] = 9; // not a defined access size
    assert!(Gas::read(&b, 0).is_none());
    b[3] = 4;
    let g = Gas::read(&b, 0).unwrap();
    assert_eq!(g.id, GasAddressSpaceId::FunctionalFixedHardware);
    assert_eq!(g.access_size, GasAccessSize::Qword);
}

#[test]
fn table_id_constants() {
    assert_eq!(TableId::xsdt().bytes(), *b"XSDT");
    assert_eq!(TableId::fadt().bytes(), *b"FACP");
    assert_eq!(TableId::madt().bytes(), *b"APIC");
    assert_eq!(TableId::hpet().bytes(), *b"HPET");
    assert_eq!(TableId::bgrt().bytes(), *b"BGRT");
}
