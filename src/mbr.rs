//! The Master Boot Record: one 512-byte boot sector holding bootstrap code,
//! a four-slot partition table and the `0xAA55` boot signature.
use crate::error::PartError;
use crate::le::{le_u16, le_u32, read_u16_le, read_u32_le};
use crate::mbr_types::{mbr_type_description, mbr_type_label};
use vstd::prelude::*;

verus! {

/// Bytes of the boot sector that an MBR occupies, whatever the sector size.
pub const MBR_SIZE: usize = 512;

/// Bytes of bootstrap code in front of the partition table.
pub const BOOTLOADER_SIZE: usize = 446;

/// Sector size assumed when the source does not say otherwise.
pub const DEFAULT_SECTOR_SIZE: usize = 512;

/// Largest sector size for which `first_byte_addr` always fits in 64 bits.
pub const MAX_SECTOR_SIZE: usize = 0xFFFF_FFFF;

/// Partition type of a slot that is not in use.
pub const UNUSED_TYPE: u8 = 0x00;

/// Partition type of the single slot of a protective MBR in front of a GPT.
pub const PROTECTIVE_TYPE: u8 = 0xEE;

/// The boot signature, bytes `55 AA` read little-endian.
pub const BOOT_SIGNATURE: u16 = 0xAA55;

/// One 16-byte slot of an MBR (or EBR) partition table.
#[derive(Debug, Clone)]
pub struct MBRPartitionEntry {
    pub id: Option<i64>,
    pub boot_indicator: u8,
    pub start_chs: [u8; 3],
    pub partition_type: u8,
    pub end_chs: [u8; 3],
    pub start_lba: u32,
    pub size_sectors: u32,
    pub sector_size: usize,
    pub first_byte_addr: u64,
    pub description: String,
}

/// Offset of table slot `slot` inside a boot sector.
pub open spec fn slot_offset(slot: int) -> int {
    446 + 16 * slot
}

/// Cylinder, head and sector packed into the three CHS bytes `b`: the head is
/// the first byte, the sector the low six bits of the second, and the cylinder
/// the top two bits of the second above the eight bits of the third.
pub open spec fn chs_of(b: Seq<u8>) -> (u16, u8, u8) {
    (((b[1] / 64) * 256 + b[2]) as u16, b[0], (b[1] % 64) as u8)
}

/// `e` holds slot `slot` of the boot sector `b` on a source of `ss`-byte
/// sectors, with `start_lba` as its starting address.
pub open spec fn entry_fields(e: MBRPartitionEntry, b: Seq<u8>, slot: int, ss: int, start_lba: int) -> bool {
    let o = slot_offset(slot);
    &&& e.id == Some(slot as i64)
    &&& e.boot_indicator == b[o]
    &&& e.start_chs@ == b.subrange(o + 1, o + 4)
    &&& e.partition_type == b[o + 4]
    &&& e.end_chs@ == b.subrange(o + 5, o + 8)
    &&& e.start_lba == start_lba
    &&& e.size_sectors == le_u32(b, o + 12)
    &&& e.sector_size == ss
    &&& e.first_byte_addr == start_lba * ss
    &&& e.description@ == mbr_type_label(b[o + 4])@
}

/// The starting address stored in slot `slot` of the boot sector `b`.
pub open spec fn stored_lba(b: Seq<u8>, slot: int) -> int {
    le_u32(b, slot_offset(slot) + 8)
}

/// The partition type stored in slot `slot` of the boot sector `b`.
pub open spec fn stored_type(b: Seq<u8>, slot: int) -> u8 {
    b[slot_offset(slot) + 4]
}

/// Where slot 0 starts once rebased on `base`: a used slot 0 counts from
/// `base`, an unused one is left as stored.
pub open spec fn rebased_lba(b: Seq<u8>, base: int) -> int {
    if stored_type(b, 0) != UNUSED_TYPE {
        base + stored_lba(b, 0)
    } else {
        stored_lba(b, 0)
    }
}

/// A slot that looks like a real partition: in use, with a standard boot
/// indicator and a non-zero starting address.
pub open spec fn slot_well_formed(e: MBRPartitionEntry) -> bool {
    &&& e.partition_type != UNUSED_TYPE
    &&& (e.boot_indicator == 0x00 || e.boot_indicator == 0x80)
    &&& e.start_lba != 0
}

impl MBRPartitionEntry {
    /// Looks up the name of this slot's partition type.
    pub fn partition_type_description(&self) -> (r: &'static str)
        ensures
            r == mbr_type_label(self.partition_type),
    {
        mbr_type_description(self.partition_type)
    }

    /// Unpacks a three-byte CHS address into (cylinder, head, sector).
    pub fn chs_tuple(bytes: [u8; 3]) -> (r: (u16, u8, u8))
        ensures
            r == chs_of(bytes@),
    {
        let head = bytes[1];
        let cylinder = (head / 64) as u16 * 256 + bytes[2] as u16;
        (cylinder, bytes[0], head % 64)
    }

    pub fn start_chs_tuple(&self) -> (r: (u16, u8, u8))
        ensures
            r == chs_of(self.start_chs@),
    {
        MBRPartitionEntry::chs_tuple(self.start_chs)
    }

    pub fn end_chs_tuple(&self) -> (r: (u16, u8, u8))
        ensures
            r == chs_of(self.end_chs@),
    {
        MBRPartitionEntry::chs_tuple(self.end_chs)
    }

    /// The absolute byte offset of the partition in the image.
    pub fn _get_first_byte_address(&self) -> (r: u64)
        requires
            self.sector_size <= MAX_SECTOR_SIZE,
        ensures
            r == self.start_lba * self.sector_size,
    {
        proof {
            lemma_address_fits(self.start_lba as int, self.sector_size as int);
        }
        self.start_lba as u64 * self.sector_size as u64
    }
}

/// A 32-bit address times a sector size up to `MAX_SECTOR_SIZE` fits in 64 bits.
pub proof fn lemma_address_fits(lba: int, ss: int)
    requires
        0 <= lba <= u32::MAX,
        0 <= ss <= MAX_SECTOR_SIZE,
    ensures
        0 <= lba * ss <= u64::MAX,
{
    assert(0 <= lba * ss <= u32::MAX * MAX_SECTOR_SIZE) by (nonlinear_arith)
        requires
            0 <= lba <= u32::MAX,
            0 <= ss <= MAX_SECTOR_SIZE,
    ;
}

/// Decodes table slot `slot` of the boot sector at `b[at..at + 512]`, with
/// `start_lba` as its starting address.
fn decode_entry(b: &[u8], at: usize, slot: usize, ss: usize, start_lba: u32) -> (e: MBRPartitionEntry)
    requires
        at + MBR_SIZE <= b@.len(),
        slot < 4,
        ss <= MAX_SECTOR_SIZE,
    ensures
        entry_fields(e, b@.subrange(at as int, at + MBR_SIZE), slot as int, ss as int, start_lba as int),
{
    let ghost sector = b@.subrange(at as int, at + MBR_SIZE);
    let len = b.len();
    assert(at + MBR_SIZE <= len);
    let o = at + BOOTLOADER_SIZE + 16 * slot;
    let partition_type = b[o + 4];
    proof {
        lemma_address_fits(start_lba as int, ss as int);
    }
    let e = MBRPartitionEntry {
        id: Some(slot as i64),
        boot_indicator: b[o],
        start_chs: [b[o + 1], b[o + 2], b[o + 3]],
        partition_type,
        end_chs: [b[o + 5], b[o + 6], b[o + 7]],
        start_lba,
        size_sectors: read_u32_le(b, o + 12),
        sector_size: ss,
        first_byte_addr: start_lba as u64 * ss as u64,
        description: String::from_str(mbr_type_description(partition_type)),
    };
    proof {
        let so = slot_offset(slot as int);
        assert(e.start_chs@ =~= sector.subrange(so + 1, so + 4));
        assert(e.end_chs@ =~= sector.subrange(so + 5, so + 8));
        assert(le_u32(b@, o + 12) == le_u32(sector, so + 12));
    }
    e
}

/// A decoded MBR boot sector.
#[derive(Debug, Clone)]
pub struct MBR {
    pub bootloader: Vec<u8>,
    pub partition_table: [MBRPartitionEntry; 4],
    pub boot_signature: u16,
}

impl MBR {
    /// `self` is the boot sector `b` on a source of `ss`-byte sectors, with a
    /// used slot 0 counted from `base` (see `rebased_lba`) and every other
    /// slot as stored.
    pub open spec fn decodes_rebased(self, b: Seq<u8>, ss: int, base: int) -> bool {
        &&& self.bootloader@ == b.subrange(0, BOOTLOADER_SIZE as int)
        &&& entry_fields(self.partition_table@[0], b, 0, ss, rebased_lba(b, base))
        &&& forall|k: int| 1 <= k < 4 ==> entry_fields(#[trigger] self.partition_table@[k], b, k, ss, stored_lba(b, k))
        &&& self.boot_signature == le_u16(b, 510)
    }

    /// `self` is the boot sector `b`, every slot as stored.
    pub open spec fn decodes(self, b: Seq<u8>, ss: int) -> bool {
        self.decodes_rebased(b, ss, 0)
    }

    /// The signature is `0xAA55` and at least one slot is well formed.
    pub open spec fn is_mbr_spec(self) -> bool {
        &&& self.boot_signature == BOOT_SIGNATURE
        &&& exists|k: int| 0 <= k < 4 && slot_well_formed(#[trigger] self.partition_table@[k])
    }

    /// Some slot carries the protective type `0xEE`.
    pub open spec fn is_pmbr_spec(self) -> bool {
        exists|k: int| 0 <= k < 4 && (#[trigger] self.partition_table@[k]).partition_type == PROTECTIVE_TYPE
    }

    /// Decodes the boot sector at `b[at..at + 512]`, counting a used slot 0
    /// from `base`.
    pub(crate) fn decode_at(b: &[u8], at: usize, ss: usize, base: u32) -> (m: MBR)
        requires
            at + MBR_SIZE <= b@.len(),
            ss <= MAX_SECTOR_SIZE,
            rebased_lba(b@.subrange(at as int, at + MBR_SIZE), base as int) <= u32::MAX,
        ensures
            m.decodes_rebased(b@.subrange(at as int, at + MBR_SIZE), ss as int, base as int),
    {
        let ghost sector = b@.subrange(at as int, at + MBR_SIZE);
        let len = b.len();
        let mut bootloader: Vec<u8> = Vec::new();
        let mut i: usize = 0;
        while i < BOOTLOADER_SIZE
            invariant
                i <= BOOTLOADER_SIZE,
                at + MBR_SIZE <= len,
                len == b@.len(),
                bootloader@ =~= b@.subrange(at as int, at + i),
            decreases BOOTLOADER_SIZE - i,
        {
            bootloader.push(b[at + i]);
            i = i + 1;
        }
        let stored0 = read_u32_le(b, at + 454);
        let first = if b[at + 450] != UNUSED_TYPE { base + stored0 } else { stored0 };
        assert(le_u32(b@, at + 454) == stored_lba(sector, 0));
        let e0 = decode_entry(b, at, 0, ss, first);
        let lba1 = read_u32_le(b, at + 470);
        assert(le_u32(b@, at + 470) == stored_lba(sector, 1));
        let e1 = decode_entry(b, at, 1, ss, lba1);
        let lba2 = read_u32_le(b, at + 486);
        assert(le_u32(b@, at + 486) == stored_lba(sector, 2));
        let e2 = decode_entry(b, at, 2, ss, lba2);
        let lba3 = read_u32_le(b, at + 502);
        assert(le_u32(b@, at + 502) == stored_lba(sector, 3));
        let e3 = decode_entry(b, at, 3, ss, lba3);
        let boot_signature = read_u16_le(b, at + 510);
        assert(le_u16(b@, at + 510) == le_u16(sector, 510));
        let m = MBR { bootloader, partition_table: [e0, e1, e2, e3], boot_signature };
        assert(m.bootloader@ =~= sector.subrange(0, BOOTLOADER_SIZE as int));
        m
    }

    /// Decodes an MBR from the first 512 bytes of `bytes`, a boot sector of a
    /// source with `sector_size`-byte sectors.
    pub fn from_bytes(bytes: &[u8], sector_size: usize) -> (r: Result<MBR, PartError>)
        requires
            sector_size <= MAX_SECTOR_SIZE,
        ensures
            match r {
                Ok(m) => bytes@.len() >= MBR_SIZE && m.decodes(bytes@.subrange(0, MBR_SIZE as int), sector_size as int),
                Err(e) => bytes@.len() < MBR_SIZE && e == PartError::TruncatedInput,
            },
    {
        if bytes.len() < MBR_SIZE {
            return Err(PartError::TruncatedInput);
        }
        Ok(MBR::decode_at(bytes, 0, sector_size, 0))
    }

    /// Whether this sector holds a valid MBR: the boot signature alone is not
    /// enough, one slot must also look like a real partition.
    pub fn is_mbr(&self) -> (r: bool)
        ensures
            r == self.is_mbr_spec(),
    {
        if self.boot_signature != BOOT_SIGNATURE {
            return false;
        }
        let mut k: usize = 0;
        while k < 4
            invariant
                k <= 4,
                self.boot_signature == BOOT_SIGNATURE,
                forall|j: int| 0 <= j < k ==> !slot_well_formed(#[trigger] self.partition_table@[j]),
            decreases 4 - k,
        {
            let p = &self.partition_table[k];
            if p.partition_type != UNUSED_TYPE && (p.boot_indicator == 0x00 || p.boot_indicator == 0x80)
                && p.start_lba != 0 {
                assert(slot_well_formed(self.partition_table@[k as int]));
                return true;
            }
            k = k + 1;
        }
        false
    }

    /// Whether this is a protective MBR, which announces a GPT disk.
    pub fn is_pmbr(&self) -> (r: bool)
        ensures
            r == self.is_pmbr_spec(),
    {
        let mut k: usize = 0;
        while k < 4
            invariant
                k <= 4,
                forall|j: int| 0 <= j < k ==> (#[trigger] self.partition_table@[j]).partition_type != PROTECTIVE_TYPE,
            decreases 4 - k,
        {
            if self.partition_table[k].partition_type == PROTECTIVE_TYPE {
                return true;
            }
            k = k + 1;
        }
        false
    }
}

} // verus!
