use exhume_partitions::ebr::{parse_ebr, MAX_EBR_LINKS};
use exhume_partitions::gpt::{parse_gpt_entries, GPTPartitionEntry, GPT};
use exhume_partitions::guid::{format_guid, parse_guid};
use exhume_partitions::mbr::{MBRPartitionEntry, MBR};
use exhume_partitions::{
    discover_any_gpt, discover_ebr_partitions, discover_gpt_partitions, discover_mbr_partitions,
    read_gpt_header_at, PartError, Partitions,
};

const SS: usize = 512;

fn put_u16(b: &mut [u8], at: usize, v: u16) {
    b[at..at + 2].copy_from_slice(&v.to_le_bytes());
}

fn put_u32(b: &mut [u8], at: usize, v: u32) {
    b[at..at + 4].copy_from_slice(&v.to_le_bytes());
}

fn put_u64(b: &mut [u8], at: usize, v: u64) {
    b[at..at + 8].copy_from_slice(&v.to_le_bytes());
}

/// Writes MBR-shaped slot `slot` of the sector that starts at `base`.
fn put_slot(b: &mut [u8], base: usize, slot: usize, boot: u8, ptype: u8, lba: u32, size: u32) {
    let o = base + 446 + 16 * slot;
    b[o] = boot;
    b[o + 4] = ptype;
    put_u32(b, o + 8, lba);
    put_u32(b, o + 12, size);
}

fn put_signature(b: &mut [u8], base: usize) {
    put_u16(b, base + 510, 0xAA55);
}

/// Writes a GPT header at sector `lba`.
fn put_gpt_header(b: &mut [u8], lba: usize, entry_lba: u64, count: u32, entry_size: u32) {
    let h = lba * SS;
    b[h..h + 8].copy_from_slice(b"EFI PART");
    put_u32(b, h + 8, 0x0001_0000);
    put_u32(b, h + 12, 92);
    put_u64(b, h + 24, lba as u64);
    put_u64(b, h + 72, entry_lba);
    put_u32(b, h + 80, count);
    put_u32(b, h + 84, entry_size);
}

const EFI_TYPE_RAW: [u8; 16] = [
    0x28, 0x73, 0x2A, 0xC1, 0x1F, 0xF8, 0xD2, 0x11, 0xBA, 0x4B, 0x00, 0xA0, 0xC9, 0x3E, 0xC9, 0x3B,
];

fn put_gpt_entry(b: &mut [u8], at: usize, type_guid: [u8; 16], first: u64, last: u64, name: &str) {
    b[at..at + 16].copy_from_slice(&type_guid);
    for i in 0..16 {
        b[at + 16 + i] = i as u8 + 1;
    }
    put_u64(b, at + 32, first);
    put_u64(b, at + 40, last);
    put_u64(b, at + 48, 0x8000_0000_0000_0001);
    for (i, u) in name.encode_utf16().enumerate() {
        put_u16(b, at + 56 + 2 * i, u);
    }
}

#[test]
fn chs_all_zero_bytes() {
    assert_eq!(MBRPartitionEntry::chs_tuple([0x00, 0x00, 0x00]), (0, 0, 0));
}

#[test]
fn chs_high_cylinder_bits() {
    assert_eq!(MBRPartitionEntry::chs_tuple([0x10, 0x81, 0x05]), (0x0205, 0x10, 0x01));
    assert_eq!(MBRPartitionEntry::chs_tuple([0xFE, 0xFF, 0xFF]), (0x03FF, 0xFE, 0x3F));
}

#[test]
fn mbr_decodes_fields() {
    let mut s = vec![0u8; 512];
    s[0] = 0xEB;
    put_slot(&mut s, 0, 1, 0x80, 0x07, 2048, 4096);
    s[446 + 16 + 1..446 + 16 + 4].copy_from_slice(&[0x20, 0x21, 0x00]);
    put_signature(&mut s, 0);
    let m = MBR::from_bytes(&s, SS).unwrap();
    assert_eq!(m.bootloader.len(), 446);
    assert_eq!(m.bootloader[0], 0xEB);
    assert_eq!(m.boot_signature, 0xAA55);
    let e = &m.partition_table[1];
    assert_eq!(e.id, Some(1));
    assert_eq!(e.boot_indicator, 0x80);
    assert_eq!(e.partition_type, 0x07);
    assert_eq!(e.start_lba, 2048);
    assert_eq!(e.size_sectors, 4096);
    assert_eq!(e.first_byte_addr, 2048 * 512);
    assert_eq!(e._get_first_byte_address(), 2048 * 512);
    assert_eq!(e.description, "NTFS/exFAT/IFS/HPFS");
    assert_eq!(e.partition_type_description(), "NTFS/exFAT/IFS/HPFS");
    assert_eq!(e.start_chs_tuple(), (0, 0x20, 0x21));
    assert_eq!(m.partition_table[0].description, "Unused");
    assert!(m.is_mbr());
    assert!(!m.is_pmbr());
}

#[test]
fn mbr_too_short_is_truncated() {
    let s = vec![0u8; 511];
    assert_eq!(MBR::from_bytes(&s, SS).unwrap_err(), PartError::TruncatedInput);
}

#[test]
fn is_mbr_needs_signature() {
    let mut s = vec![0u8; 512];
    put_slot(&mut s, 0, 0, 0x00, 0x83, 63, 100);
    let m = MBR::from_bytes(&s, SS).unwrap();
    assert!(!m.is_mbr());
    put_u16(&mut s, 510, 0x55AA);
    assert!(!MBR::from_bytes(&s, SS).unwrap().is_mbr());
    put_signature(&mut s, 0);
    assert!(MBR::from_bytes(&s, SS).unwrap().is_mbr());
}

#[test]
fn is_mbr_needs_a_well_formed_slot() {
    let mut s = vec![0u8; 512];
    put_signature(&mut s, 0);
    assert!(!MBR::from_bytes(&s, SS).unwrap().is_mbr());
    put_slot(&mut s, 0, 0, 0x42, 0x83, 63, 100);
    assert!(!MBR::from_bytes(&s, SS).unwrap().is_mbr());
    put_slot(&mut s, 0, 0, 0x80, 0x83, 0, 100);
    assert!(!MBR::from_bytes(&s, SS).unwrap().is_mbr());
    put_slot(&mut s, 0, 3, 0x00, 0x0C, 1, 100);
    assert!(MBR::from_bytes(&s, SS).unwrap().is_mbr());
}

#[test]
fn discover_mbr_outcomes() {
    let mut img = vec![0u8; 1024];
    assert_eq!(discover_mbr_partitions(&img[..100], SS).unwrap_err(), PartError::TruncatedInput);
    assert_eq!(discover_mbr_partitions(&img, SS).unwrap_err(), PartError::InvalidSignature);
    put_slot(&mut img, 0, 0, 0x00, 0xEE, 1, 1);
    put_signature(&mut img, 0);
    let m = discover_mbr_partitions(&img, SS).unwrap();
    assert!(m.is_pmbr());
}

/// An image with an extended partition at LBA 10 whose chain has `n`
/// links at relative addresses 10, 20, 30, ...
fn ebr_image(n: usize) -> Vec<u8> {
    let mut img = vec![0u8; SS * (10 * n + 20)];
    put_slot(&mut img, 0, 0, 0x00, 0x05, 10, 1000);
    put_signature(&mut img, 0);
    for k in 0..n {
        let lba = 10 * (k + 1);
        let base = lba * SS;
        put_slot(&mut img, base, 0, 0x00, 0x83, 2, 5);
        if k + 1 < n {
            put_slot(&mut img, base, 1, 0x00, 0x05, (lba + 10) as u32, 10);
        }
        put_signature(&mut img, base);
    }
    img
}

#[test]
fn ebr_chain_yields_one_partition_per_link() {
    for n in 1..5 {
        let img = ebr_image(n);
        let links = parse_ebr(&img, 10, SS).unwrap();
        assert_eq!(links.len(), n);
        for (k, ebr) in links.iter().enumerate() {
            let lba = 10 * (k as u32 + 1);
            let p = &ebr.partition_table[0];
            assert_eq!(p.partition_type, 0x83);
            assert_eq!(p.start_lba, lba + 2);
            assert_eq!(p.first_byte_addr, (lba as u64 + 2) * 512);
        }
    }
}

#[test]
fn ebr_chain_stops_at_unused_next_slot() {
    let mut img = ebr_image(4);
    // Link 2 of 4 loses its pointer: the chain ends there.
    let base = 20 * SS;
    img[base + 446 + 16 + 4] = 0x00;
    assert_eq!(parse_ebr(&img, 10, SS).unwrap().len(), 2);
}

#[test]
fn ebr_link_with_unused_logical_slot_yields_nothing() {
    let mut img = ebr_image(1);
    img[10 * SS + 446 + 4] = 0x00;
    assert!(parse_ebr(&img, 10, SS).unwrap().is_empty());
}

#[test]
fn ebr_link_with_unused_logical_slot_is_still_followed() {
    let mut img = ebr_image(3);
    // The middle link holds no logical partition but still points on.
    img[20 * SS + 446 + 4] = 0x00;
    let links = parse_ebr(&img, 10, SS).unwrap();
    assert_eq!(links.len(), 2);
    assert_eq!(links[0].partition_table[0].start_lba, 12);
    assert_eq!(links[1].partition_table[0].start_lba, 32);
    let m = discover_mbr_partitions(&img, SS).unwrap();
    assert_eq!(discover_ebr_partitions(&img, &m, SS).unwrap().len(), 2);
}

#[test]
fn ebr_cycle_is_unbounded() {
    let mut img = ebr_image(2);
    put_slot(&mut img, 20 * SS, 1, 0x00, 0x05, 10, 10);
    assert_eq!(parse_ebr(&img, 10, SS).unwrap_err(), PartError::UnboundedChain);
    assert!(MAX_EBR_LINKS >= 2);
}

#[test]
fn ebr_past_end_is_truncated() {
    let mut img = ebr_image(2);
    put_slot(&mut img, 10 * SS, 1, 0x00, 0x05, 100_000, 10);
    assert_eq!(parse_ebr(&img, 10, SS).unwrap_err(), PartError::TruncatedInput);
}

#[test]
fn ebr_rebase_overflow() {
    let mut img = ebr_image(1);
    put_slot(&mut img, 10 * SS, 0, 0x00, 0x83, u32::MAX - 5, 5);
    assert_eq!(parse_ebr(&img, 10, SS).unwrap_err(), PartError::AddressOverflow);
}

#[test]
fn ebr_discovery_over_extended_slots() {
    let img = ebr_image(3);
    let m = discover_mbr_partitions(&img, SS).unwrap();
    assert_eq!(discover_ebr_partitions(&img, &m, SS).unwrap().len(), 3);
    let mut plain = vec![0u8; 4096];
    put_slot(&mut plain, 0, 0, 0x80, 0x83, 1, 7);
    put_signature(&mut plain, 0);
    let m = discover_mbr_partitions(&plain, SS).unwrap();
    assert!(discover_ebr_partitions(&plain, &m, SS).unwrap().is_empty());
}

#[test]
fn guid_text_of_efi_system_type() {
    assert_eq!(format_guid(&EFI_TYPE_RAW), "c12a7328-f81f-11d2-ba4b-00a0c93ec93b");
    assert_eq!(format_guid(&[0u8; 16]), "00000000-0000-0000-0000-000000000000");
}

#[test]
fn guid_round_trips() {
    let raw = parse_guid("C12A7328-F81F-11D2-BA4B-00A0C93EC93B").unwrap();
    assert_eq!(raw, EFI_TYPE_RAW);
    let text = "0fc63daf-8483-4772-8e79-3d69d8477de4";
    assert_eq!(format_guid(&parse_guid(text).unwrap()), text);
    let g: [u8; 16] = [9, 8, 7, 6, 5, 4, 3, 2, 1, 0, 0xFF, 0xEE, 0xDD, 0xCC, 0xBB, 0xAA];
    assert_eq!(parse_guid(&format_guid(&g)).unwrap(), g);
}

#[test]
fn guid_rejects_malformed_text() {
    assert!(parse_guid("c12a7328f81f-11d2-ba4b-00a0c93ec93b0").is_none());
    assert!(parse_guid("c12a7328-f81f-11d2-ba4b-00a0c93ec93").is_none());
    assert!(parse_guid("g12a7328-f81f-11d2-ba4b-00a0c93ec93b").is_none());
    assert!(parse_guid("c12a7328-f81f-11d2-ba4b-00a0c93ec9é").is_none());
}

#[test]
fn gpt_entry_decodes_fields() {
    let mut b = vec![0u8; 128];
    put_gpt_entry(&mut b, 0, EFI_TYPE_RAW, 2048, 4095, "EFI");
    let e = GPTPartitionEntry::from_bytes(&b, SS).unwrap();
    assert_eq!(e.partition_type_guid, EFI_TYPE_RAW);
    assert_eq!(e.partition_type_guid_string, "c12a7328-f81f-11d2-ba4b-00a0c93ec93b");
    assert_eq!(e.partition_guid_string, "04030201-0605-0807-090a-0b0c0d0e0f10");
    assert_eq!(e.description, "EFI System partition");
    assert_eq!(e.partition_type_description(), "EFI System partition");
    assert_eq!(e.starting_lba, 2048);
    assert_eq!(e.ending_lba, 4095);
    assert_eq!(e.size_sectors, 2048);
    assert_eq!(e.first_byte_addr, 2048 * 512);
    assert_eq!(e.attributes, 0x8000_0000_0000_0001);
    assert_eq!(e.partition_name.trim_end_matches('\0'), "EFI");
    assert_eq!(e.partition_name.chars().count(), 36);
    assert_eq!(e.id, None);
}

#[test]
fn gpt_entry_unknown_type_and_saturation() {
    let mut b = vec![0u8; 128];
    put_gpt_entry(&mut b, 0, [0xAB; 16], u64::MAX, 3, "");
    let e = GPTPartitionEntry::from_bytes(&b, SS).unwrap();
    assert_eq!(e.description, "Unknown partition type");
    assert_eq!(e.first_byte_addr, u64::MAX);
    assert_eq!(e.size_sectors, 0);
    assert_eq!(GPTPartitionEntry::from_bytes(&b[..127], SS).unwrap_err(), PartError::TruncatedInput);
}

#[test]
fn gpt_type_catalogue_tail_entries() {
    let cases = [
        ("6a82cb45-1dd2-11b2-99a6-080020736631", "Solaris Boot partition"),
        ("4fbd7e29-9d25-41b8-afd0-062c0ceff05d", "Ceph OSD partition"),
        ("e6a0c4fe-1339-466b-9aef-ef9e2ab8fa56", "Android-IA AVB"),
    ];
    for (text, name) in cases {
        let mut b = vec![0u8; 128];
        put_gpt_entry(&mut b, 0, parse_guid(text).unwrap(), 1, 2, "");
        let e = GPTPartitionEntry::from_bytes(&b, SS).unwrap();
        assert_eq!(e.partition_type_guid_string, text);
        assert_eq!(e.description, name);
    }
}

#[test]
fn gpt_entries_skip_unused_slots() {
    for count in 0..6u32 {
        let mut arr = vec![0u8; 128 * 6];
        for i in 0..count as usize {
            if i % 2 == 1 {
                put_gpt_entry(&mut arr, i * 128, EFI_TYPE_RAW, 10 + i as u64, 20, "p");
            }
        }
        let v = parse_gpt_entries(&arr, 0, count, 128, SS);
        assert_eq!(v.len(), count as usize / 2);
        for e in &v {
            assert_ne!(e.partition_type_guid, [0u8; 16]);
        }
    }
}

#[test]
fn gpt_header_decode_and_magic() {
    let mut img = vec![0u8; 4 * SS];
    put_gpt_header(&mut img, 1, 2, 4, 128);
    let g = GPT::from_bytes(&img[SS..2 * SS]).unwrap();
    assert!(g.is_gpt());
    assert_eq!(g.header.revision, 0x0001_0000);
    assert_eq!(g.header.header_size, 92);
    assert_eq!(g.header.current_lba, 1);
    assert_eq!(g.header.partition_entry_lba, 2);
    assert_eq!(g.header.num_partition_entries, 4);
    assert_eq!(g.header.partition_entry_size, 128);
    assert_eq!(g.header.disk_guid_string, "00000000-0000-0000-0000-000000000000");
    assert!(g.partition_entries.is_empty());
    assert!(!GPT::from_bytes(&img[..SS]).unwrap().is_gpt());
    assert_eq!(GPT::from_bytes(&img[..91]).unwrap_err(), PartError::TruncatedInput);
    assert_eq!(read_gpt_header_at(&img, SS, 1).unwrap().num_partition_entries, 4);
    assert_eq!(read_gpt_header_at(&img, SS, 0).unwrap_err(), PartError::InvalidSignature);
    assert_eq!(read_gpt_header_at(&img, SS, 4).unwrap_err(), PartError::TruncatedInput);
}

#[test]
fn gpt_entry_array_past_end_is_truncated() {
    let mut img = vec![0u8; 4 * SS];
    put_gpt_header(&mut img, 1, 2, 100, 128);
    assert_eq!(discover_gpt_partitions(&img, SS, false).unwrap_err(), PartError::TruncatedInput);
    put_gpt_header(&mut img, 1, 2, 1, 64);
    assert_eq!(discover_gpt_partitions(&img, SS, false).unwrap_err(), PartError::TruncatedInput);
}

#[test]
fn gpt_falls_back_to_backup_header() {
    let sectors = 64;
    let mut img = vec![0u8; sectors * SS];
    put_gpt_header(&mut img, sectors - 1, 40, 4, 128);
    put_gpt_entry(&mut img, 40 * SS, EFI_TYPE_RAW, 34, 39, "backup");
    assert_eq!(discover_gpt_partitions(&img, SS, false).unwrap_err(), PartError::InvalidSignature);
    let g = discover_any_gpt(&img, SS).unwrap();
    assert_eq!(g.header.current_lba, (sectors - 1) as u64);
    assert_eq!(g.partition_entries.len(), 1);
    assert_eq!(g.partition_entries[0].starting_lba, 34);
}

#[test]
fn gpt_prefers_primary_header() {
    let sectors = 64;
    let mut img = vec![0u8; sectors * SS];
    put_gpt_header(&mut img, 1, 2, 0, 128);
    put_gpt_header(&mut img, sectors - 1, 40, 0, 128);
    assert_eq!(discover_any_gpt(&img, SS).unwrap().header.current_lba, 1);
}

#[test]
fn gpt_absent_in_tiny_image() {
    let img = vec![0u8; 100];
    assert_eq!(discover_gpt_partitions(&img, SS, true).unwrap_err(), PartError::TruncatedInput);
    assert_eq!(discover_any_gpt(&img, SS).unwrap_err(), PartError::TruncatedInput);
}

#[test]
fn protective_mbr_over_empty_gpt() {
    let size = 1024 * 1024;
    let mut img = vec![0u8; size];
    put_slot(&mut img, 0, 0, 0x00, 0xEE, 1, (size / SS - 1) as u32);
    put_signature(&mut img, 0);
    put_gpt_header(&mut img, 1, 2, 0, 128);
    let p = Partitions::new(&img, SS);
    let m = p.mbr.as_ref().unwrap();
    assert!(m.is_mbr());
    assert!(m.is_pmbr());
    assert!(p.ebr.as_ref().unwrap().as_ref().unwrap().is_empty());
    let g = p.gpt.as_ref().unwrap();
    assert!(g.is_gpt());
    assert!(g.partition_entries.is_empty());
}

#[test]
fn blank_image_has_no_scheme() {
    let img = vec![0u8; 8 * SS];
    let p = Partitions::new(&img, SS);
    assert_eq!(p.mbr.unwrap_err(), PartError::InvalidSignature);
    assert!(p.ebr.is_none());
    assert_eq!(p.gpt.unwrap_err(), PartError::InvalidSignature);
}
