//! The GUID Partition Table: a 92-byte header (primary at LBA 1, backup at
//! the last LBA) and the array of fixed-size partition entries it points to.
use crate::error::PartError;
use crate::gpt_types::{gpt_type_description, gpt_type_label, guid_hi, guid_key, guid_lo};
use crate::guid::{format_guid, guid_text};
use crate::le::{le_u16, le_u32, le_u64, read_u16_le, read_u32_le, read_u64_le};
use vstd::prelude::*;

verus! {

/// Bytes of a GPT header.
pub const GPT_HEADER_SIZE: usize = 92;

/// Bytes of the fields of a GPT partition entry; records may be larger.
pub const GPT_ENTRY_SIZE: usize = 128;

/// UTF-16 code units of a partition name.
pub const PARTITION_NAME_UNITS: usize = 36;

/// Where the primary GPT header lives.
pub const PRIMARY_HEADER_LBA: u64 = 1;

/// The header magic `"EFI PART"`.
pub open spec fn efi_part() -> Seq<u8> {
    seq![0x45u8, 0x46u8, 0x49u8, 0x20u8, 0x50u8, 0x41u8, 0x52u8, 0x54u8]
}

/// The text of a sequence of UTF-16 code units, each unpaired surrogate
/// replaced by U+FFFD.
pub uninterp spec fn utf16_lossy(units: Seq<u16>) -> Seq<char>;

/// Relies on `String::from_utf16_lossy`: its result depends on the code
/// units alone.
#[verifier::external_body]
fn decode_utf16_lossy(units: &[u16]) -> (r: String)
    ensures
        r@ == utf16_lossy(units@),
{
    String::from_utf16_lossy(units)
}

/// GPT header.
#[derive(Debug, Clone)]
pub struct GPTHeader {
    pub signature: [u8; 8],
    pub revision: u32,
    pub header_size: u32,
    pub crc32: u32,
    pub reserved: u32,
    pub current_lba: u64,
    pub backup_lba: u64,
    pub first_usable_lba: u64,
    pub last_usable_lba: u64,
    pub disk_guid: [u8; 16],
    pub disk_guid_string: String,
    pub partition_entry_lba: u64,
    pub num_partition_entries: u32,
    pub partition_entry_size: u32,
    pub partition_array_crc32: u32,
}

/// One used GPT partition entry.
#[derive(Debug, Clone)]
pub struct GPTPartitionEntry {
    pub id: Option<i64>,
    pub partition_guid: [u8; 16],
    pub partition_guid_string: String,
    pub partition_type_guid: [u8; 16],
    pub partition_type_guid_string: String,
    pub description: String,
    pub starting_lba: u64,
    pub first_byte_addr: u64,
    pub size_sectors: u64,
    pub ending_lba: u64,
    pub attributes: u64,
    pub partition_name: String,
}

/// A GPT header with the used entries of its partition array.
#[derive(Debug, Clone)]
pub struct GPT {
    pub header: GPTHeader,
    pub partition_entries: Vec<GPTPartitionEntry>,
}

/// `h` holds the header record `b` (at least 92 bytes).
pub open spec fn header_decodes(h: GPTHeader, b: Seq<u8>) -> bool {
    &&& h.signature@ == b.subrange(0, 8)
    &&& h.revision == le_u32(b, 8)
    &&& h.header_size == le_u32(b, 12)
    &&& h.crc32 == le_u32(b, 16)
    &&& h.reserved == le_u32(b, 20)
    &&& h.current_lba == le_u64(b, 24)
    &&& h.backup_lba == le_u64(b, 32)
    &&& h.first_usable_lba == le_u64(b, 40)
    &&& h.last_usable_lba == le_u64(b, 48)
    &&& h.disk_guid@ == b.subrange(56, 72)
    &&& h.disk_guid_string@ == guid_text(b.subrange(56, 72))
    &&& h.partition_entry_lba == le_u64(b, 72)
    &&& h.num_partition_entries == le_u32(b, 80)
    &&& h.partition_entry_size == le_u32(b, 84)
    &&& h.partition_array_crc32 == le_u32(b, 88)
}

/// The UTF-16 code units of the name field of the entry record `b`.
pub open spec fn name_units(b: Seq<u8>) -> Seq<u16> {
    Seq::new(PARTITION_NAME_UNITS as nat, |i: int| le_u16(b, 56 + 2 * i) as u16)
}

/// Absolute byte address of sector `lba`, or `u64::MAX` past 64 bits.
pub open spec fn byte_address(lba: int, ss: int) -> u64 {
    if lba * ss <= u64::MAX {
        (lba * ss) as u64
    } else {
        u64::MAX
    }
}

/// Sectors from `first` to `last` inclusive, 0 when `last` is before
/// `first`, and at most `u64::MAX`.
pub open spec fn span_sectors(first: int, last: int) -> u64 {
    if last < first {
        0
    } else if last - first + 1 > u64::MAX {
        u64::MAX
    } else {
        (last - first + 1) as u64
    }
}

/// The name of the partition type of the raw type GUID `g`.
pub open spec fn type_label_of(g: Seq<u8>) -> &'static str {
    gpt_type_label(guid_hi(g) as u64, guid_lo(g) as u64)
}

/// `e` holds the entry record `b` (at least 128 bytes) of a source with
/// `ss`-byte sectors.
pub open spec fn entry_decodes(e: GPTPartitionEntry, b: Seq<u8>, ss: int) -> bool {
    &&& e.id is None
    &&& e.partition_type_guid@ == b.subrange(0, 16)
    &&& e.partition_guid@ == b.subrange(16, 32)
    &&& e.partition_type_guid_string@ == guid_text(b.subrange(0, 16))
    &&& e.partition_guid_string@ == guid_text(b.subrange(16, 32))
    &&& e.description@ == type_label_of(b.subrange(0, 16))@
    &&& e.starting_lba == le_u64(b, 32)
    &&& e.ending_lba == le_u64(b, 40)
    &&& e.attributes == le_u64(b, 48)
    &&& e.partition_name@ == utf16_lossy(name_units(b))
    &&& e.first_byte_addr == byte_address(le_u64(b, 32), ss)
    &&& e.size_sectors == span_sectors(le_u64(b, 32), le_u64(b, 40))
}

/// Sixteen zero bytes: the type GUID of an unused entry.
pub open spec fn is_zero_guid(g: Seq<u8>) -> bool {
    forall|i: int| 0 <= i < 16 ==> g[i] == 0
}

/// Record `i` of the entry array of `size`-byte records at `img[at..]`.
pub open spec fn record(img: Seq<u8>, at: int, size: int, i: int) -> Seq<u8> {
    img.subrange(at + i * size, at + i * size + size)
}

/// Indices, in order, of the first `n` records of the array whose type GUID
/// is not all zero.
pub open spec fn used_records(img: Seq<u8>, at: int, size: int, n: nat) -> Seq<int>
    decreases n,
{
    if n == 0 {
        seq![]
    } else {
        let prev = used_records(img, at, size, (n - 1) as nat);
        if is_zero_guid(record(img, at, size, n - 1).subrange(0, 16)) {
            prev
        } else {
            prev.push(n - 1)
        }
    }
}

/// `v` holds, in order, the used records among the first `n` of the array.
pub open spec fn entries_decode(v: Seq<GPTPartitionEntry>, img: Seq<u8>, at: int, size: int, n: nat, ss: int) -> bool {
    let used = used_records(img, at, size, n);
    &&& v.len() == used.len()
    &&& forall|j: int| 0 <= j < v.len() ==> entry_decodes(#[trigger] v[j], record(img, at, size, used[j]), ss)
}

/// Copies `N` bytes out of `b[at..at + N]`.
fn read_array<const N: usize>(b: &[u8], at: usize) -> (r: [u8; N])
    requires
        at + N <= b@.len(),
    ensures
        r@ == b@.subrange(at as int, at + N),
{
    let len = b.len();
    let mut r = [0u8; N];
    let mut i: usize = 0;
    while i < N
        invariant
            i <= N,
            at + N <= len,
            len == b@.len(),
            r@.len() == N,
            forall|j: int| 0 <= j < i ==> r@[j] == #[trigger] b@[at + j],
        decreases N - i,
    {
        r[i] = b[at + i];
        i = i + 1;
    }
    assert forall|j: int| 0 <= j < N implies r@[j] == b@.subrange(at as int, at + N)[j] by {
        assert(r@[j] == b@[at + j]);
    }
    assert(r@ =~= b@.subrange(at as int, at + N));
    r
}

impl GPTHeader {
    /// Whether the signature is the `"EFI PART"` magic.
    pub fn has_efi_signature(&self) -> (r: bool)
        ensures
            r == (self.signature@ == efi_part()),
    {
        let s = &self.signature;
        let r = s[0] == 0x45 && s[1] == 0x46 && s[2] == 0x49 && s[3] == 0x20 && s[4] == 0x50 && s[5] == 0x41
            && s[6] == 0x52 && s[7] == 0x54;
        assert(r ==> s@ =~= efi_part());
        r
    }

    /// Decodes the header record at `b[at..at + 92]`.
    pub(crate) fn decode_at(b: &[u8], at: usize) -> (h: GPTHeader)
        requires
            at + GPT_HEADER_SIZE <= b@.len(),
        ensures
            header_decodes(h, b@.subrange(at as int, at + GPT_HEADER_SIZE)),
    {
        let ghost rec = b@.subrange(at as int, at + GPT_HEADER_SIZE);
        let len = b.len();
        assert(at + GPT_HEADER_SIZE <= len);
        let disk_guid: [u8; 16] = read_array(b, at + 56);
        let h = GPTHeader {
            signature: read_array(b, at),
            revision: read_u32_le(b, at + 8),
            header_size: read_u32_le(b, at + 12),
            crc32: read_u32_le(b, at + 16),
            reserved: read_u32_le(b, at + 20),
            current_lba: read_u64_le(b, at + 24),
            backup_lba: read_u64_le(b, at + 32),
            first_usable_lba: read_u64_le(b, at + 40),
            last_usable_lba: read_u64_le(b, at + 48),
            disk_guid,
            disk_guid_string: format_guid(&disk_guid),
            partition_entry_lba: read_u64_le(b, at + 72),
            num_partition_entries: read_u32_le(b, at + 80),
            partition_entry_size: read_u32_le(b, at + 84),
            partition_array_crc32: read_u32_le(b, at + 88),
        };
        assert(h.signature@ =~= rec.subrange(0, 8));
        assert(h.disk_guid@ =~= rec.subrange(56, 72));
        h
    }
}

impl GPTPartitionEntry {
    /// Looks up the name of this entry's partition type.
    pub fn partition_type_description(&self) -> (r: &'static str)
        ensures
            r == type_label_of(self.partition_type_guid@),
    {
        let (hi, lo) = guid_key(&self.partition_type_guid);
        gpt_type_description(hi, lo)
    }

    /// Decodes the entry record at `b[at..at + 128]`.
    fn decode_at(b: &[u8], at: usize, sector_size: usize) -> (e: GPTPartitionEntry)
        requires
            at + GPT_ENTRY_SIZE <= b@.len(),
        ensures
            entry_decodes(e, b@.subrange(at as int, at + GPT_ENTRY_SIZE), sector_size as int),
    {
        let ghost rec = b@.subrange(at as int, at + GPT_ENTRY_SIZE);
        let len = b.len();
        let mut units: Vec<u16> = Vec::new();
        let mut i: usize = 0;
        while i < PARTITION_NAME_UNITS
            invariant
                i <= PARTITION_NAME_UNITS,
                at + GPT_ENTRY_SIZE <= len,
                len == b@.len(),
                rec == b@.subrange(at as int, at + GPT_ENTRY_SIZE),
                units@ =~= name_units(rec).subrange(0, i as int),
            decreases PARTITION_NAME_UNITS - i,
        {
            let u = read_u16_le(b, at + 56 + 2 * i);
            assert(le_u16(b@, at + 56 + 2 * i) == le_u16(rec, 56 + 2 * i));
            units.push(u);
            i = i + 1;
        }
        let type_guid: [u8; 16] = read_array(b, at);
        let part_guid: [u8; 16] = read_array(b, at + 16);
        let starting_lba = read_u64_le(b, at + 32);
        let ending_lba = read_u64_le(b, at + 40);
        let (hi, lo) = guid_key(&type_guid);
        let first_byte_addr = match starting_lba.checked_mul(sector_size as u64) {
            Some(a) => a,
            None => u64::MAX,
        };
        let size_sectors = if ending_lba < starting_lba {
            0
        } else {
            (ending_lba - starting_lba).saturating_add(1)
        };
        let e = GPTPartitionEntry {
            id: None,
            partition_guid: part_guid,
            partition_guid_string: format_guid(&part_guid),
            partition_type_guid: type_guid,
            partition_type_guid_string: format_guid(&type_guid),
            description: String::from_str(gpt_type_description(hi, lo)),
            starting_lba,
            first_byte_addr,
            size_sectors,
            ending_lba,
            attributes: read_u64_le(b, at + 48),
            partition_name: decode_utf16_lossy(units.as_slice()),
        };
        assert(type_guid@ =~= rec.subrange(0, 16));
        assert(part_guid@ =~= rec.subrange(16, 32));
        assert(units@ =~= name_units(rec));
        e
    }

    /// Decodes a partition entry from the first 128 bytes of `bytes`, on a
    /// source of `sector_size`-byte sectors.
    pub fn from_bytes(bytes: &[u8], sector_size: usize) -> (r: Result<GPTPartitionEntry, PartError>)
        ensures
            match r {
                Ok(e) => bytes@.len() >= GPT_ENTRY_SIZE && entry_decodes(
                    e,
                    bytes@.subrange(0, GPT_ENTRY_SIZE as int),
                    sector_size as int,
                ),
                Err(e) => bytes@.len() < GPT_ENTRY_SIZE && e == PartError::TruncatedInput,
            },
    {
        if bytes.len() < GPT_ENTRY_SIZE {
            return Err(PartError::TruncatedInput);
        }
        Ok(GPTPartitionEntry::decode_at(bytes, 0, sector_size))
    }
}

impl GPT {
    /// Whether the header carries the `"EFI PART"` magic.
    pub fn is_gpt(&self) -> (r: bool)
        ensures
            r == (self.header.signature@ == efi_part()),
    {
        self.header.has_efi_signature()
    }

    /// Decodes a GPT header from the first 92 bytes of `bytes`, with no
    /// partition entries yet. The magic is not checked: see `is_gpt`.
    pub fn from_bytes(bytes: &[u8]) -> (r: Result<GPT, PartError>)
        ensures
            match r {
                Ok(g) => bytes@.len() >= GPT_HEADER_SIZE && header_decodes(
                    g.header,
                    bytes@.subrange(0, GPT_HEADER_SIZE as int),
                ) && g.partition_entries@.len() == 0,
                Err(e) => bytes@.len() < GPT_HEADER_SIZE && e == PartError::TruncatedInput,
            },
    {
        if bytes.len() < GPT_HEADER_SIZE {
            return Err(PartError::TruncatedInput);
        }
        Ok(GPT { header: GPTHeader::decode_at(bytes, 0), partition_entries: Vec::new() })
    }
}

/// Record `i` of `n` records of `size` bytes lies inside the array.
proof fn lemma_record_inside(i: int, n: int, size: int)
    requires
        0 <= i < n,
        0 <= size,
    ensures
        0 <= i * size,
        i * size + size <= n * size,
{
    assert(i * size + size <= n * size) by (nonlinear_arith)
        requires
            0 <= i < n,
            0 <= size,
    ;
    assert(0 <= i * size) by (nonlinear_arith)
        requires
            0 <= i,
            0 <= size,
    ;
}

/// Whether the 16 bytes at `b[at..at + 16]` are all zero.
fn zero_guid_at(b: &[u8], at: usize) -> (r: bool)
    requires
        at + 16 <= b@.len(),
    ensures
        r == is_zero_guid(b@.subrange(at as int, at + 16)),
{
    let len = b.len();
    let mut i: usize = 0;
    while i < 16
        invariant
            i <= 16,
            at + 16 <= len,
            len == b@.len(),
            forall|j: int| at <= j < at + i ==> #[trigger] b@[j] == 0,
        decreases 16 - i,
    {
        if b[at + i] != 0 {
            assert(b@.subrange(at as int, at + 16)[i as int] != 0);
            return false;
        }
        i = i + 1;
    }
    true
}

/// Decodes the used entries of an array of `count` records of `entry_size`
/// bytes at `image[at..]`, in array order, skipping every record whose type
/// GUID is all zero.
pub fn parse_gpt_entries(image: &[u8], at: usize, count: u32, entry_size: u32, sector_size: usize) -> (r: Vec<GPTPartitionEntry>)
    requires
        count == 0 || (entry_size >= GPT_ENTRY_SIZE && at + count * entry_size <= image@.len()),
    ensures
        entries_decode(r@, image@, at as int, entry_size as int, count as nat, sector_size as int),
        forall|j: int| 0 <= j < r@.len() ==> !is_zero_guid((#[trigger] r@[j]).partition_type_guid@),
{
    let ghost img = image@;
    let len = image.len();
    let mut v: Vec<GPTPartitionEntry> = Vec::new();
    let mut i: u32 = 0;
    while i < count
        invariant
            i <= count,
            img == image@,
            len == img.len(),
            count == 0 || (entry_size >= GPT_ENTRY_SIZE && at + count * entry_size <= img.len()),
            entries_decode(v@, img, at as int, entry_size as int, i as nat, sector_size as int),
            forall|j: int| 0 <= j < v@.len() ==> !is_zero_guid((#[trigger] v@[j]).partition_type_guid@),
        decreases count - i,
    {
        proof {
            lemma_record_inside(i as int, count as int, entry_size as int);
        }
        let off = at + i as usize * entry_size as usize;
        let ghost rec = record(img, at as int, entry_size as int, i as int);
        assert(img.subrange(off as int, off + 16) =~= rec.subrange(0, 16));
        assert(img.subrange(off as int, off + GPT_ENTRY_SIZE) =~= rec.subrange(0, GPT_ENTRY_SIZE as int));
        let ghost used = used_records(img, at as int, entry_size as int, i as nat);
        if !zero_guid_at(image, off) {
            let e = GPTPartitionEntry::decode_at(image, off, sector_size);
            proof {
                assert(entry_decodes(e, rec, sector_size as int) <==> entry_decodes(e, rec.subrange(0, GPT_ENTRY_SIZE as int), sector_size as int)) by {
                    let t = rec.subrange(0, GPT_ENTRY_SIZE as int);
                    assert(rec.subrange(0, 16) =~= t.subrange(0, 16));
                    assert(rec.subrange(16, 32) =~= t.subrange(16, 32));
                    assert(name_units(rec) =~= name_units(t));
                }
                assert(!is_zero_guid(e.partition_type_guid@));
            }
            v.push(e);
            proof {
                let used2 = used_records(img, at as int, entry_size as int, (i + 1) as nat);
                assert(used2 == used.push(i as int));
                assert forall|j: int| 0 <= j < v@.len() implies entry_decodes(#[trigger] v@[j], record(img, at as int, entry_size as int, used2[j]), sector_size as int) by {
                    if j < v@.len() - 1 {
                        assert(used2[j] == used[j]);
                    }
                }
            }
        }
        i = i + 1;
    }
    v
}

proof fn lemma_used_records_nonzero(img: Seq<u8>, at: int, size: int, n: nat)
    ensures
        forall|j: int| 0 <= j < used_records(img, at, size, n).len() ==> !is_zero_guid(
            record(img, at, size, #[trigger] used_records(img, at, size, n)[j]).subrange(0, 16),
        ),
    decreases n,
{
    if n > 0 {
        let prev = used_records(img, at, size, (n - 1) as nat);
        let used = used_records(img, at, size, n);
        lemma_used_records_nonzero(img, at, size, (n - 1) as nat);
        assert forall|j: int| 0 <= j < used.len() implies !is_zero_guid(
            record(img, at, size, #[trigger] used[j]).subrange(0, 16),
        ) by {
            if j < prev.len() {
                assert(used[j] == prev[j]);
            }
        }
    }
}

/// No entry of a decoded partition array, whatever its entry count, has the
/// all-zero type GUID of an unused slot.
pub proof fn lemma_no_unused_entries(v: Seq<GPTPartitionEntry>, img: Seq<u8>, at: int, size: int, n: nat, ss: int)
    requires
        entries_decode(v, img, at, size, n, ss),
    ensures
        forall|j: int| 0 <= j < v.len() ==> !is_zero_guid((#[trigger] v[j]).partition_type_guid@),
{
    lemma_used_records_nonzero(img, at, size, n);
    let used = used_records(img, at, size, n);
    assert forall|j: int| 0 <= j < v.len() implies !is_zero_guid((#[trigger] v[j]).partition_type_guid@) by {
        let rec = record(img, at, size, used[j]);
        assert(entry_decodes(v[j], rec, ss));
        assert(!is_zero_guid(rec.subrange(0, 16)));
    }
}

} // verus!
