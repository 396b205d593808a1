//! Discovery of every partitioning scheme of a disk image: the MBR, the EBR
//! chains behind its extended slots, and the GPT (primary, else backup).
//! Each scheme is found or not on its own; none stops the others.
use crate::ebr::{ebr_chain, ebrs_decode, link_sector, logical_links, parse_ebr};
use crate::error::PartError;
use crate::gpt::{GPT, GPTHeader, GPT_ENTRY_SIZE, GPT_HEADER_SIZE, PRIMARY_HEADER_LBA, efi_part, entries_decode, header_decodes, parse_gpt_entries};
use crate::le::{le_u16, le_u32, le_u64};
use crate::mbr::{BOOT_SIGNATURE, MAX_SECTOR_SIZE, MBR, MBR_SIZE, UNUSED_TYPE, slot_offset, stored_lba, stored_type};
use vstd::prelude::*;

verus! {

/// The image's first 512 bytes.
pub open spec fn boot_sector(img: Seq<u8>) -> Seq<u8> {
    img.subrange(0, MBR_SIZE as int)
}

/// Slot `k` of the boot sector `b` looks like a real partition.
pub open spec fn sector_slot_well_formed(b: Seq<u8>, k: int) -> bool {
    &&& stored_type(b, k) != UNUSED_TYPE
    &&& (b[slot_offset(k)] == 0x00 || b[slot_offset(k)] == 0x80)
    &&& stored_lba(b, k) != 0
}

/// The boot sector `b` holds a valid MBR: signature `0xAA55` and at least
/// one well-formed slot.
pub open spec fn sector_is_mbr(b: Seq<u8>) -> bool {
    &&& le_u16(b, 510) == BOOT_SIGNATURE
    &&& exists|k: int| 0 <= k < 4 && #[trigger] sector_slot_well_formed(b, k)
}

/// `r` is the outcome of looking for an MBR in `img`.
pub open spec fn mbr_found(r: Result<MBR, PartError>, img: Seq<u8>, ss: int) -> bool {
    if img.len() < MBR_SIZE {
        r == Err::<MBR, PartError>(PartError::TruncatedInput)
    } else if !sector_is_mbr(boot_sector(img)) {
        r == Err::<MBR, PartError>(PartError::InvalidSignature)
    } else {
        r is Ok && r->Ok_0.decodes(boot_sector(img), ss)
    }
}

/// Whether an MBR partition type marks an extended (EBR chain) container.
pub open spec fn is_extended(t: u8) -> bool {
    t == 0x05 || t == 0x0F || t == 0x85
}

/// The links holding a logical partition in the EBR chains behind the
/// extended slots among the first `n` slots of `table`, slot after slot; or
/// the first chain's failure.
pub open spec fn ebr_links(img: Seq<u8>, table: Seq<crate::mbr::MBRPartitionEntry>, ss: int, n: nat) -> Result<Seq<u32>, PartError>
    decreases n,
{
    if n == 0 {
        Ok(seq![])
    } else {
        match ebr_links(img, table, ss, (n - 1) as nat) {
            Err(e) => Err(e),
            Ok(prev) => if is_extended(table[n - 1].partition_type) {
                match ebr_chain(img, table[n - 1].start_lba, ss) {
                    Ok(links) => Ok(prev + logical_links(img, ss, links)),
                    Err(e) => Err(e),
                }
            } else {
                Ok(prev)
            },
        }
    }
}

/// `r` is the outcome of walking every EBR chain behind `m`.
pub open spec fn ebrs_found(r: Result<Vec<MBR>, PartError>, img: Seq<u8>, m: MBR, ss: int) -> bool {
    match ebr_links(img, m.partition_table@, ss, 4) {
        Ok(links) => r is Ok && ebrs_decode(r->Ok_0@, img, ss, links),
        Err(e) => r == Err::<Vec<MBR>, PartError>(e),
    }
}

/// Whether a GPT header read at sector `lba` succeeds: its 92 bytes lie in
/// the image and start with `"EFI PART"`.
pub open spec fn header_outcome(img: Seq<u8>, ss: int, lba: int) -> Result<(), PartError> {
    let h = lba * ss;
    if h + GPT_HEADER_SIZE > img.len() {
        Err(PartError::TruncatedInput)
    } else if img.subrange(h, h + 8) != efi_part() {
        Err(PartError::InvalidSignature)
    } else {
        Ok(())
    }
}

/// Whether reading the GPT whose header is at sector `lba` succeeds: the
/// header reads, and its entry array, unless empty, has records of at least
/// 128 bytes that all lie in the image.
pub open spec fn gpt_outcome(img: Seq<u8>, ss: int, lba: int) -> Result<(), PartError> {
    let h = lba * ss;
    match header_outcome(img, ss, lba) {
        Err(e) => Err(e),
        Ok(_) => {
            let n = le_u32(img, h + 80);
            let size = le_u32(img, h + 84);
            if n == 0 {
                Ok(())
            } else if size < GPT_ENTRY_SIZE || le_u64(img, h + 72) * ss + n * size > img.len() {
                Err(PartError::TruncatedInput)
            } else {
                Ok(())
            }
        },
    }
}

/// `g` is the GPT whose header is at sector `lba`, with its used entries.
pub open spec fn gpt_decodes(g: GPT, img: Seq<u8>, ss: int, lba: int) -> bool {
    let h = lba * ss;
    &&& header_decodes(g.header, img.subrange(h, h + GPT_HEADER_SIZE))
    &&& entries_decode(
        g.partition_entries@,
        img,
        g.header.partition_entry_lba * ss,
        g.header.partition_entry_size as int,
        g.header.num_partition_entries as nat,
        ss,
    )
}

/// The sector of the GPT header to read: LBA 1 for the primary, the last
/// whole sector for the backup, none when the image is under one sector.
pub open spec fn gpt_target(len: int, ss: int, backup: bool) -> Option<int> {
    if !backup {
        Some(PRIMARY_HEADER_LBA as int)
    } else if len < ss {
        None
    } else {
        Some(len / ss - 1)
    }
}

/// `r` is the outcome of reading the GPT whose header is at `target`.
pub open spec fn gpt_found_at(r: Result<GPT, PartError>, img: Seq<u8>, ss: int, target: Option<int>) -> bool {
    match target {
        None => r == Err::<GPT, PartError>(PartError::TruncatedInput),
        Some(lba) => match gpt_outcome(img, ss, lba) {
            Ok(_) => r is Ok && gpt_decodes(r->Ok_0, img, ss, lba),
            Err(e) => r == Err::<GPT, PartError>(e),
        },
    }
}

/// `r` is the outcome of looking for a GPT: the primary when it reads,
/// else the backup.
pub open spec fn any_gpt_found(r: Result<GPT, PartError>, img: Seq<u8>, ss: int) -> bool {
    if gpt_outcome(img, ss, PRIMARY_HEADER_LBA as int) is Ok {
        gpt_found_at(r, img, ss, Some(PRIMARY_HEADER_LBA as int))
    } else {
        gpt_found_at(r, img, ss, gpt_target(img.len() as int, ss, true))
    }
}

/// A decoded boot sector is a valid MBR exactly when the sector's signature
/// is `0xAA55` and one of its slots is well formed.
pub proof fn lemma_is_mbr_of_sector(m: MBR, b: Seq<u8>, ss: int)
    requires
        b.len() == MBR_SIZE,
        m.decodes(b, ss),
    ensures
        m.is_mbr_spec() <==> sector_is_mbr(b),
{
    assert forall|k: int| 0 <= k < 4 implies crate::mbr::slot_well_formed(#[trigger] m.partition_table@[k])
        <==> sector_slot_well_formed(b, k) by {}
    if m.is_mbr_spec() {
        let k = choose|k: int| 0 <= k < 4 && crate::mbr::slot_well_formed(#[trigger] m.partition_table@[k]);
        assert(sector_slot_well_formed(b, k));
    }
    if sector_is_mbr(b) {
        let k = choose|k: int| 0 <= k < 4 && #[trigger] sector_slot_well_formed(b, k);
        assert(crate::mbr::slot_well_formed(m.partition_table@[k]));
    }
}

/// Looks for an MBR in the image's first sector.
pub fn discover_mbr_partitions(image: &[u8], sector_size: usize) -> (r: Result<MBR, PartError>)
    requires
        sector_size <= MAX_SECTOR_SIZE,
    ensures
        mbr_found(r, image@, sector_size as int),
{
    match MBR::from_bytes(image, sector_size) {
        Err(e) => Err(e),
        Ok(m) => {
            proof {
                lemma_is_mbr_of_sector(m, boot_sector(image@), sector_size as int);
            }
            if m.is_mbr() {
                Ok(m)
            } else {
                Err(PartError::InvalidSignature)
            }
        },
    }
}

/// Once a chain fails, the walk over more slots fails the same way.
proof fn lemma_ebr_links_fail(img: Seq<u8>, table: Seq<crate::mbr::MBRPartitionEntry>, ss: int, n: nat, m: nat)
    requires
        n <= m,
        ebr_links(img, table, ss, n) is Err,
    ensures
        ebr_links(img, table, ss, m) == ebr_links(img, table, ss, n),
    decreases m - n,
{
    if n < m {
        lemma_ebr_links_fail(img, table, ss, n, (m - 1) as nat);
    }
}

/// Walks the EBR chain behind every extended slot of `main_mbr`, in slot
/// order, and returns all their link sectors that hold a logical partition;
/// fails as the first failing chain does.
pub fn discover_ebr_partitions(image: &[u8], main_mbr: &MBR, sector_size: usize) -> (r: Result<Vec<MBR>, PartError>)
    requires
        sector_size <= MAX_SECTOR_SIZE,
    ensures
        ebrs_found(r, image@, *main_mbr, sector_size as int),
{
    let ghost img = image@;
    let ghost ss = sector_size as int;
    let ghost table = main_mbr.partition_table@;
    let mut all: Vec<MBR> = Vec::new();
    let ghost mut links: Seq<u32> = seq![];
    let mut k: usize = 0;
    while k < 4
        invariant
            k <= 4,
            img == image@,
            ss == sector_size,
            sector_size <= MAX_SECTOR_SIZE,
            table == main_mbr.partition_table@,
            ebr_links(img, table, ss, k as nat) == Ok::<Seq<u32>, PartError>(links),
            ebrs_decode(all@, img, ss, links),
        decreases 4 - k,
    {
        let p = &main_mbr.partition_table[k];
        if p.partition_type == 0x05 || p.partition_type == 0x0F || p.partition_type == 0x85 {
            match parse_ebr(image, p.start_lba, sector_size) {
                Err(e) => {
                    proof {
                        lemma_ebr_links_fail(img, table, ss, (k + 1) as nat, 4);
                    }
                    return Err(e);
                },
                Ok(mut found) => {
                    let ghost chain = logical_links(img, ss, ebr_chain(img, p.start_lba, ss)->Ok_0);
                    let ghost before = all@;
                    let ghost fv = found@;
                    all.append(&mut found);
                    proof {
                        assert(all@ =~= before + fv);
                        assert forall|i: int| 0 <= i < all@.len() implies (#[trigger] all@[i]).decodes_rebased(
                            link_sector(img, (links + chain)[i] as int, ss),
                            ss,
                            (links + chain)[i] as int,
                        ) by {
                            if i >= before.len() {
                                assert(all@[i] == fv[i - before.len()]);
                            }
                        }
                        links = links + chain;
                    }
                },
            }
        }
        k = k + 1;
    }
    Ok(all)
}

/// A sector address times a sector size up to `MAX_SECTOR_SIZE` fits in 128 bits.
proof fn lemma_offset_fits(lba: int, ss: int)
    requires
        0 <= lba <= u64::MAX,
        0 <= ss <= MAX_SECTOR_SIZE,
    ensures
        0 <= lba * ss <= u64::MAX * MAX_SECTOR_SIZE,
{
    assert(0 <= lba * ss <= u64::MAX * MAX_SECTOR_SIZE) by (nonlinear_arith)
        requires
            0 <= lba <= u64::MAX,
            0 <= ss <= MAX_SECTOR_SIZE,
    ;
}

/// Reads the GPT header at sector `lba` of the image, and checks its magic.
pub fn read_gpt_header_at(image: &[u8], sector_size: usize, lba: u64) -> (r: Result<GPTHeader, PartError>)
    requires
        sector_size <= MAX_SECTOR_SIZE,
    ensures
        match header_outcome(image@, sector_size as int, lba as int) {
            Ok(_) => r is Ok && header_decodes(
                r->Ok_0,
                image@.subrange(lba * sector_size, lba * sector_size + GPT_HEADER_SIZE),
            ),
            Err(e) => r == Err::<GPTHeader, PartError>(e),
        },
{
    proof {
        lemma_offset_fits(lba as int, sector_size as int);
    }
    let h = lba as u128 * sector_size as u128;
    if h + GPT_HEADER_SIZE as u128 > image.len() as u128 {
        return Err(PartError::TruncatedInput);
    }
    let at = h as usize;
    let header = GPTHeader::decode_at(image, at);
    proof {
        assert(image@.subrange(at as int, at + GPT_HEADER_SIZE).subrange(0, 8) =~= image@.subrange(at as int, at + 8));
    }
    if header.has_efi_signature() {
        Ok(header)
    } else {
        Err(PartError::InvalidSignature)
    }
}

/// Reads the GPT whose header is the primary one (LBA 1) or, with `backup`,
/// the backup one (the image's last whole sector), with its used entries.
pub fn discover_gpt_partitions(image: &[u8], sector_size: usize, backup: bool) -> (r: Result<GPT, PartError>)
    requires
        0 < sector_size <= MAX_SECTOR_SIZE,
    ensures
        gpt_found_at(r, image@, sector_size as int, gpt_target(image@.len() as int, sector_size as int, backup)),
{
    let ghost img = image@;
    let ghost ss = sector_size as int;
    let len = image.len();
    let lba: u64 = if backup {
        if len < sector_size {
            return Err(PartError::TruncatedInput);
        }
        assert(len / sector_size >= 1) by (nonlinear_arith)
            requires
                len >= sector_size > 0,
        ;
        (len / sector_size - 1) as u64
    } else {
        PRIMARY_HEADER_LBA
    };
    let header = match read_gpt_header_at(image, sector_size, lba) {
        Ok(h) => h,
        Err(e) => return Err(e),
    };
    let ghost h = lba * ss;
    let ghost rec = img.subrange(h, h + GPT_HEADER_SIZE);
    assert(le_u32(rec, 80) == le_u32(img, h + 80));
    assert(le_u32(rec, 84) == le_u32(img, h + 84));
    assert(le_u64(rec, 72) == le_u64(img, h + 72));
    let n = header.num_partition_entries;
    let size = header.partition_entry_size;
    if n == 0 {
        return Ok(GPT { header, partition_entries: Vec::new() });
    }
    if size < GPT_ENTRY_SIZE as u32 {
        return Err(PartError::TruncatedInput);
    }
    proof {
        lemma_offset_fits(header.partition_entry_lba as int, ss);
        assert(0 <= n * size <= u32::MAX * u32::MAX) by (nonlinear_arith)
            requires
                0 <= n <= u32::MAX,
                0 <= size <= u32::MAX,
        ;
    }
    let start = header.partition_entry_lba as u128 * sector_size as u128;
    let total = n as u128 * size as u128;
    if start + total > len as u128 {
        return Err(PartError::TruncatedInput);
    }
    let entries = parse_gpt_entries(image, start as usize, n, size, sector_size);
    Ok(GPT { header, partition_entries: entries })
}

/// Reads the primary GPT, and the backup one when the primary cannot be
/// read: a damaged primary header does not hide a good backup.
pub fn discover_any_gpt(image: &[u8], sector_size: usize) -> (r: Result<GPT, PartError>)
    requires
        0 < sector_size <= MAX_SECTOR_SIZE,
    ensures
        any_gpt_found(r, image@, sector_size as int),
{
    match discover_gpt_partitions(image, sector_size, false) {
        Ok(g) => Ok(g),
        Err(_) => discover_gpt_partitions(image, sector_size, true),
    }
}

/// What discovery found of each partitioning scheme of an image.
#[derive(Debug)]
pub struct Partitions {
    /// The MBR, or why there is none.
    pub mbr: Result<MBR, PartError>,
    /// With an MBR, the EBR link sectors that hold a logical partition in
    /// the chains behind its extended slots, or why they could not be
    /// walked; without one, `None`.
    pub ebr: Option<Result<Vec<MBR>, PartError>>,
    /// The GPT, primary or else backup, or why neither could be read.
    pub gpt: Result<GPT, PartError>,
}

impl Partitions {
    /// Discovers every partitioning scheme of a disk image with
    /// `sector_size`-byte sectors. It always returns: a scheme that is
    /// absent or unreadable is recorded as such and the others still count.
    pub fn new(image: &[u8], sector_size: usize) -> (p: Partitions)
        requires
            0 < sector_size <= MAX_SECTOR_SIZE,
        ensures
            mbr_found(p.mbr, image@, sector_size as int),
            match p.mbr {
                Ok(m) => p.ebr is Some && ebrs_found(p.ebr->Some_0, image@, m, sector_size as int),
                Err(_) => p.ebr is None,
            },
            any_gpt_found(p.gpt, image@, sector_size as int),
    {
        let mbr = discover_mbr_partitions(image, sector_size);
        let ebr = match &mbr {
            Ok(m) => Some(discover_ebr_partitions(image, m, sector_size)),
            Err(_) => None,
        };
        let gpt = discover_any_gpt(image, sector_size);
        Partitions { mbr, ebr, gpt }
    }
}

/// When the primary GPT header is missing or damaged but the image's last
/// whole sector holds a header with the `"EFI PART"` magic whose entry array
/// is empty or readable, GPT discovery returns that backup GPT.
pub proof fn lemma_backup_gpt_found(r: Result<GPT, PartError>, img: Seq<u8>, ss: int)
    requires
        0 < ss <= img.len(),
        header_outcome(img, ss, PRIMARY_HEADER_LBA as int) is Err,
        ({
            let h = (img.len() as int / ss - 1) * ss;
            let n = le_u32(img, h + 80);
            let size = le_u32(img, h + 84);
            &&& h + GPT_HEADER_SIZE <= img.len()
            &&& img.subrange(h, h + 8) == efi_part()
            &&& (n == 0 || (size >= GPT_ENTRY_SIZE && le_u64(img, h + 72) * ss + n * size <= img.len()))
        }),
        any_gpt_found(r, img, ss),
    ensures
        r is Ok,
        gpt_decodes(r->Ok_0, img, ss, img.len() as int / ss - 1),
{
    let lba = img.len() as int / ss - 1;
    assert(gpt_target(img.len() as int, ss, true) == Some(lba));
    assert(gpt_outcome(img, ss, lba) is Ok);
}

} // verus!
