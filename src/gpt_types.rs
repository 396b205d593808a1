//! Static catalogue of GPT partition-type GUIDs.
//!
//! A GUID is keyed here by its canonical text read as two 64-bit numbers:
//! `hi` for the first 16 hexadecimal digits and `lo` for the last 16.
use vstd::prelude::*;

verus! {

/// The first 16 hexadecimal digits of the canonical text of the raw GUID
/// `g`, as a number: bytes 3, 2, 1, 0, 5, 4, 7, 6, most significant first.
pub open spec fn guid_hi(g: Seq<u8>) -> int {
    g[3] * 0x100_0000_0000_0000 + g[2] * 0x1_0000_0000_0000 + g[1] * 0x100_0000_0000 + g[0] * 0x1_0000_0000
        + g[5] * 0x100_0000 + g[4] * 0x1_0000 + g[7] * 0x100 + g[6]
}

/// The last 16 hexadecimal digits of the canonical text of the raw GUID `g`,
/// as a number: bytes 8 to 15 in stored order, most significant first.
pub open spec fn guid_lo(g: Seq<u8>) -> int {
    g[8] * 0x100_0000_0000_0000 + g[9] * 0x1_0000_0000_0000 + g[10] * 0x100_0000_0000 + g[11] * 0x1_0000_0000
        + g[12] * 0x100_0000 + g[13] * 0x1_0000 + g[14] * 0x100 + g[15]
}

/// Computes `(guid_hi(g), guid_lo(g))` of a raw GUID.
pub fn guid_key(g: &[u8; 16]) -> (r: (u64, u64))
    ensures
        r.0 == guid_hi(g@),
        r.1 == guid_lo(g@),
{
    let hi = g[3] as u64 * 0x100_0000_0000_0000 + g[2] as u64 * 0x1_0000_0000_0000 + g[1] as u64 * 0x100_0000_0000
        + g[0] as u64 * 0x1_0000_0000 + g[5] as u64 * 0x100_0000 + g[4] as u64 * 0x1_0000 + g[7] as u64 * 0x100
        + g[6] as u64;
    let lo = g[8] as u64 * 0x100_0000_0000_0000 + g[9] as u64 * 0x1_0000_0000_0000 + g[10] as u64 * 0x100_0000_0000
        + g[11] as u64 * 0x1_0000_0000 + g[12] as u64 * 0x100_0000 + g[13] as u64 * 0x1_0000 + g[14] as u64 * 0x100
        + g[15] as u64;
    (hi, lo)
}

/// The human-readable name of the partition type whose GUID has the key
/// `(hi, lo)`.
pub open spec fn gpt_type_label(hi: u64, lo: u64) -> &'static str {
    match (hi, lo) {
        (0x00000000_00000000, 0x00000000_00000000) => "Unused entry",
        (0x024dee41_33e711d3, 0x9d690008_c781f39f) => "MBR partition scheme",
        (0xc12a7328_f81f11d2, 0xba4b00a0_c93ec93b) => "EFI System partition",
        (0x21686148_64496e6f, 0x744e6565_64454649) => "BIOS boot partition",
        (0xd3bfe2de_3daf11df, 0xba40e3a5_56d89593) => "Intel Fast Flash (iFFS) partition",
        (0xf4019732_066e4e12, 0x8273346c_5641494f) => "Sony boot partition",
        (0xbfbfafe7_a34f448a, 0x9a5b6213_eb736c22) => "Lenovo boot partition",
        (0xe3c9e316_0b5c4db8, 0x817df92d_f00215ae) => "Microsoft Reserved Partition (MSR)",
        (0xebd0a0a2_b9e54433, 0x87c068b6_b72699c7) => "Basic data partition",
        (0x5808c8aa_7e8f42e0, 0x85d2e1e9_0434cfb3) => "Logical Disk Manager (LDM) metadata partition",
        (0xaf9b60a0_14314f62, 0xbc683311_714a69ad) => "Logical Disk Manager data partition",
        (0xde94bba4_06d14d40, 0xa16abfd5_0179d6ac) => "Windows Recovery Environment",
        (0x37affc90_ef7d4e96, 0x91c32d7a_e055b174) => "IBM General Parallel File System (GPFS) partition",
        (0xe75caf8f_f6804cee, 0xafa3b001_e56efc2d) => "Storage Spaces partition",
        (0x558d43c5_a1ac43c0, 0xaac8d147_2b2923d1) => "Storage Replica partition",
        (0x75894c1e_3aeb11d3, 0xb7c17b03_a0000000) => "HP-UX Data partition",
        (0xe2a1e728_32e311d6, 0xa6827b03_a0000000) => "Service partition",
        (0x0fc63daf_84834772, 0x8e793d69_d8477de4) => "Linux filesystem data",
        (0xa19d880f_05fc4d3b, 0xa006743f_0f84911e) => "RAID partition",
        (0x6523f8ae_3eb14e2a, 0xa05a18b6_95ae656f) => "Root partition (Alpha)",
        (0xd27f46ed_29194cb8, 0xbd259531_f3c16534) => "ARC",
        (0x69dad710_2ce44e3c, 0xb16c21a1_d49abed3) => "ARM 32‑bit",
        (0xb921b045_1df041c3, 0xaf444c6f_280d3fae) => "AArch64",
        (0x993d8d3d_f80e4225, 0x855a9daf_8ed7ea97) => "IA-64",
        (0x77055800_792c4f94, 0xb39a98c9_1b762bb6) => "LoongArch 64‑bit",
        (0xe9434544_6e2c47cc, 0xbae212d6_deafb44c) => "32‑bit MIPS (big‑endian)",
        (0xd113af76_80ef41b4, 0xbdb60cff_4d3d4a25) => "64‑bit MIPS (big‑endian)",
        (0x37c58c8a_d9134156, 0xa25f48b1_b64e07f0) => "32‑bit MIPS (little‑endian)",
        (0x700bda43_7a344507, 0xb179eeb9_3d7a7ca3) => "64‑bit MIPS (little‑endian)",
        (0x1aacdb3b_54444138, 0xbd9ee5c2_239b2346) => "PA‑RISC",
        (0x1de3f1ef_fa9847b5, 0x8dcd4a86_0a654d78) => "32‑bit PowerPC",
        (0x912ade1d_a8394913, 0x8964a10e_ee08fbd2) => "64‑bit PowerPC (big‑endian)",
        (0xc31c45e6_3f39412e, 0x80fb4809_c4980599) => "64‑bit PowerPC (little‑endian)",
        (0x60d5a7fe_8e7d435c, 0xb7143dd8_162144e1) => "RISC‑V 32‑bit",
        (0x72ec70a6_cf7440e6, 0xbd494bda_08e8f224) => "RISC‑V 64‑bit",
        (0x08a7acea_624c4a20, 0x91e86e0f_a67d23f9) => "s390",
        (0x5eead9a9_fe094a1e, 0xa1d7520d_00531306) => "s390x",
        (0xc50cdd70_38624cc3, 0x90e1809a_8c93ee2c) => "TILE‑Gx",
        (0x44479540_f29741b2, 0x9af7d131_d5f0458a) => "x86",
        (0x4f68bce3_e8cd4db1, 0x96e7fbca_f984b709) => "x86‑64",
        (0xe18cf08c_33ec4c0d, 0x8246c6c6_fb3da024) => "/usr partition (Alpha)",
        (0x7978a683_63164922, 0xbbee38bf_f5a2fecc) => "ARC (Alpha)",
        (0x7d0359a3_02b34f0a, 0x865c6544_03e70625) => "ARM 32‑bit (Alpha)",
        (0xb0e01050_ee5f4390, 0x949a9101_b17104e9) => "AArch64 (Alpha)",
        (0x4301d2a6_4e3b4b2a, 0xbb949e0b_2c4225ea) => "IA‑64 (Alpha)",
        (0xe611c702_575c4cbe, 0x9a46434f_a0bf7e3f) => "LoongArch 64‑bit (Alpha)",
        (0x773b2abc_2a994398, 0x8bf503ba_ac40d02b) => "32‑bit MIPS (big‑endian, Alpha)",
        (0x57e13958_73314365, 0x8e6e35ee_ee17c61b) => "64‑bit MIPS (big‑endian, Alpha)",
        (0x0f4868e9_99524706, 0x979f3ed3_a473e947) => "32‑bit MIPS (little‑endian, Alpha)",
        (0xc97c1f32_ba0640b4, 0x9f222360_61b08aa8) => "64‑bit MIPS (little‑endian, Alpha)",
        (0xdc4a4480_69174262, 0xa4ecdb93_84949f25) => "PA‑RISC (Alpha)",
        (0x7d14fec5_cc71415d, 0x9d6c06bf_0b3c3eaf) => "32‑bit PowerPC (Alpha)",
        (0x2c9739e2_f06846b3, 0x9fd001c5_a9afbcca) => "64‑bit PowerPC (big‑endian, Alpha)",
        (0x15bb03af_77e74d4a, 0xb12bc0d0_84f7491c) => "64‑bit PowerPC (little‑endian, Alpha)",
        (0xb933fb22_5c3f4f91, 0xaf90e2bb_0fa50702) => "RISC‑V 32‑bit (Alpha)",
        (0xbeaec34b_8442439b, 0xa40b9843_81ed097d) => "RISC‑V 64‑bit (Alpha)",
        (0xcd0f869b_d0fb4ca0, 0xb1419ea8_7cc78d66) => "s390 (Alpha)",
        (0x8a4f5770_50aa4ed3, 0x874a99b7_10db6fea) => "s390x (Alpha)",
        (0x55497029_c7c144cc, 0xaa39815e_d1558630) => "TILE‑Gx (Alpha)",
        (0x75250d76_8cc6458e, 0xbd66bd47_cc81a812) => "x86 (Alpha)",
        (0x8484680c_952148c6, 0x9c11b072_0656f69e) => "x86‑64 (Alpha)",
        (0xfc56d9e9_e6e54c06, 0xbe32e744_07ce09a5) => "Root verity partition for dm‑verity (Alpha)",
        (0x24b2d975_0f974521, 0xafa1cd53_1e421b8d) => "ARC (dm‑verity)",
        (0x7386cdf2_203c47a9, 0xa498f2ec_ee45a2d6) => "ARM 32‑bit (dm‑verity)",
        (0xdf3300ce_d69f4c92, 0x978c9bfb_0f38d820) => "AArch64 (dm‑verity)",
        (0x86ed10d5_b60745bb, 0x8957d350_f23d0571) => "IA‑64 (dm‑verity)",
        (0xf3393b22_e9af4613, 0xa9489d3b_fbd0c535) => "LoongArch 64‑bit (dm‑verity)",
        (0x7a430799_f7114c7e, 0x8e5b1d68_5bd48607) => "32‑bit MIPS (dm‑verity)",
        (0x579536f8_6a334055, 0xa95adf2d_5e2c42a8) => "64‑bit MIPS (dm‑verity)",
        (0xd7d150d2_2a044a33, 0x8f121665_1205ff7b) => "32‑bit MIPS (dm‑verity, little‑endian)",
        (0x16b417f8_3e064f57, 0x8dd29b52_32f41aa6) => "64‑bit MIPS (dm‑verity, little‑endian)",
        (0xd212a430_fbc549f9, 0xa983a7fe_ef2b8d0e) => "PA‑RISC (dm‑verity)",
        (0x906bd944_45894aae, 0xa4e4dd98_3917446a) => "64‑bit PowerPC (dm‑verity, little‑endian)",
        (0x9225a9a3_3c194d89, 0xb4f6eeff_88f17631) => "64‑bit PowerPC (dm‑verity, big‑endian)",
        (0x98cfe649_158846dc, 0xb2f0add1_47424925) => "32‑bit PowerPC (dm‑verity)",
        (0xae0253be_11674007, 0xac684392_6c14c5de) => "RISC‑V 32‑bit (dm‑verity)",
        (0xb6ed5582_440b4209, 0xb8da5ff7_c419ea3d) => "RISC‑V 64‑bit (dm‑verity)",
        (0x7ac63b47_b25c463b, 0x8df8b4a9_4e6c90e1) => "s390 (dm‑verity)",
        (0xb325bfbe_c7be4ab8, 0x8357139e_652d2f6b) => "s390x (dm‑verity)",
        (0x966061ec_28e44b2e, 0xb4a51f0a_825a1d84) => "TILE‑Gx (dm‑verity)",
        (0x2c7357ed_ebd246d9, 0xaec123d4_37ec2bf5) => "x86‑64 (dm‑verity)",
        (0xd13c5d3b_b5d1422a, 0xb29f9454_fdc89d76) => "x86 (dm‑verity)",
        (0x48465300_000011aa, 0xaa110030_6543ecac) => "Apple HFS+",
        (0xbc13c2ff_59e64262, 0xa352b275_fd6f7172) => "/boot (XBOOTLDR) partition",
        (0x0657fd6d_a4ab43c4, 0x84e50933_c84b4f4f) => "Swap partition",
        (0xe6d1d9b7_95b34a3d, 0xb11485ff_3d230a6e) => "LVM partition",
        (0x933ac7e1_2eb44f13, 0xb8440e14_e2aef915) => "/home partition",
        (0x3b8f8425_20e04f3b, 0x907f1a25_a76f98e8) => "/srv partition",
        (0x69646981_091c4e43, 0x9c84b7b3_5b13c7e6) => "Per-user home partition",
        (0x7ffec5c9_2d0049b1, 0x988ac22c_947ffee7) => "Encrypted partition (dm-crypt)",
        (0xca7d7ccb_63ed4c53, 0xbb4a2e38_7187f96d) => "LUKS partition",
        (0x7c3457ef_000011aa, 0xaa110030_6543ecac) => "APFS partition",
        (0x3bd3c9df_5f3c4b0b, 0x9d225d1b_012fcf10) => "GNU/Hurd root partition",
        (0x516e7cb4_6ecf11d6, 0x8ff80002_2d09712b) => "FreeBSD data partition",
        (0x6a82cb45_1dd211b2, 0x99a60800_20736631) => "Solaris Boot partition",
        (0x4fbd7e29_9d2541b8, 0xafd0062c_0ceff05d) => "Ceph OSD partition",
        (0xe6a0c4fe_1339466b, 0x9aefef9e_2ab8fa56) => "Android-IA AVB",
        _ => "Unknown partition type",
    }
}

/// Looks up the human-readable name of the partition type whose GUID has the
/// key `(hi, lo)`.
pub fn gpt_type_description(hi: u64, lo: u64) -> (r: &'static str)
    ensures
        r == gpt_type_label(hi, lo),
{
    match (hi, lo) {
        (0x00000000_00000000, 0x00000000_00000000) => "Unused entry",
        (0x024dee41_33e711d3, 0x9d690008_c781f39f) => "MBR partition scheme",
        (0xc12a7328_f81f11d2, 0xba4b00a0_c93ec93b) => "EFI System partition",
        (0x21686148_64496e6f, 0x744e6565_64454649) => "BIOS boot partition",
        (0xd3bfe2de_3daf11df, 0xba40e3a5_56d89593) => "Intel Fast Flash (iFFS) partition",
        (0xf4019732_066e4e12, 0x8273346c_5641494f) => "Sony boot partition",
        (0xbfbfafe7_a34f448a, 0x9a5b6213_eb736c22) => "Lenovo boot partition",
        (0xe3c9e316_0b5c4db8, 0x817df92d_f00215ae) => "Microsoft Reserved Partition (MSR)",
        (0xebd0a0a2_b9e54433, 0x87c068b6_b72699c7) => "Basic data partition",
        (0x5808c8aa_7e8f42e0, 0x85d2e1e9_0434cfb3) => "Logical Disk Manager (LDM) metadata partition",
        (0xaf9b60a0_14314f62, 0xbc683311_714a69ad) => "Logical Disk Manager data partition",
        (0xde94bba4_06d14d40, 0xa16abfd5_0179d6ac) => "Windows Recovery Environment",
        (0x37affc90_ef7d4e96, 0x91c32d7a_e055b174) => "IBM General Parallel File System (GPFS) partition",
        (0xe75caf8f_f6804cee, 0xafa3b001_e56efc2d) => "Storage Spaces partition",
        (0x558d43c5_a1ac43c0, 0xaac8d147_2b2923d1) => "Storage Replica partition",
        (0x75894c1e_3aeb11d3, 0xb7c17b03_a0000000) => "HP-UX Data partition",
        (0xe2a1e728_32e311d6, 0xa6827b03_a0000000) => "Service partition",
        (0x0fc63daf_84834772, 0x8e793d69_d8477de4) => "Linux filesystem data",
        (0xa19d880f_05fc4d3b, 0xa006743f_0f84911e) => "RAID partition",
        (0x6523f8ae_3eb14e2a, 0xa05a18b6_95ae656f) => "Root partition (Alpha)",
        (0xd27f46ed_29194cb8, 0xbd259531_f3c16534) => "ARC",
        (0x69dad710_2ce44e3c, 0xb16c21a1_d49abed3) => "ARM 32‑bit",
        (0xb921b045_1df041c3, 0xaf444c6f_280d3fae) => "AArch64",
        (0x993d8d3d_f80e4225, 0x855a9daf_8ed7ea97) => "IA-64",
        (0x77055800_792c4f94, 0xb39a98c9_1b762bb6) => "LoongArch 64‑bit",
        (0xe9434544_6e2c47cc, 0xbae212d6_deafb44c) => "32‑bit MIPS (big‑endian)",
        (0xd113af76_80ef41b4, 0xbdb60cff_4d3d4a25) => "64‑bit MIPS (big‑endian)",
        (0x37c58c8a_d9134156, 0xa25f48b1_b64e07f0) => "32‑bit MIPS (little‑endian)",
        (0x700bda43_7a344507, 0xb179eeb9_3d7a7ca3) => "64‑bit MIPS (little‑endian)",
        (0x1aacdb3b_54444138, 0xbd9ee5c2_239b2346) => "PA‑RISC",
        (0x1de3f1ef_fa9847b5, 0x8dcd4a86_0a654d78) => "32‑bit PowerPC",
        (0x912ade1d_a8394913, 0x8964a10e_ee08fbd2) => "64‑bit PowerPC (big‑endian)",
        (0xc31c45e6_3f39412e, 0x80fb4809_c4980599) => "64‑bit PowerPC (little‑endian)",
        (0x60d5a7fe_8e7d435c, 0xb7143dd8_162144e1) => "RISC‑V 32‑bit",
        (0x72ec70a6_cf7440e6, 0xbd494bda_08e8f224) => "RISC‑V 64‑bit",
        (0x08a7acea_624c4a20, 0x91e86e0f_a67d23f9) => "s390",
        (0x5eead9a9_fe094a1e, 0xa1d7520d_00531306) => "s390x",
        (0xc50cdd70_38624cc3, 0x90e1809a_8c93ee2c) => "TILE‑Gx",
        (0x44479540_f29741b2, 0x9af7d131_d5f0458a) => "x86",
        (0x4f68bce3_e8cd4db1, 0x96e7fbca_f984b709) => "x86‑64",
        (0xe18cf08c_33ec4c0d, 0x8246c6c6_fb3da024) => "/usr partition (Alpha)",
        (0x7978a683_63164922, 0xbbee38bf_f5a2fecc) => "ARC (Alpha)",
        (0x7d0359a3_02b34f0a, 0x865c6544_03e70625) => "ARM 32‑bit (Alpha)",
        (0xb0e01050_ee5f4390, 0x949a9101_b17104e9) => "AArch64 (Alpha)",
        (0x4301d2a6_4e3b4b2a, 0xbb949e0b_2c4225ea) => "IA‑64 (Alpha)",
        (0xe611c702_575c4cbe, 0x9a46434f_a0bf7e3f) => "LoongArch 64‑bit (Alpha)",
        (0x773b2abc_2a994398, 0x8bf503ba_ac40d02b) => "32‑bit MIPS (big‑endian, Alpha)",
        (0x57e13958_73314365, 0x8e6e35ee_ee17c61b) => "64‑bit MIPS (big‑endian, Alpha)",
        (0x0f4868e9_99524706, 0x979f3ed3_a473e947) => "32‑bit MIPS (little‑endian, Alpha)",
        (0xc97c1f32_ba0640b4, 0x9f222360_61b08aa8) => "64‑bit MIPS (little‑endian, Alpha)",
        (0xdc4a4480_69174262, 0xa4ecdb93_84949f25) => "PA‑RISC (Alpha)",
        (0x7d14fec5_cc71415d, 0x9d6c06bf_0b3c3eaf) => "32‑bit PowerPC (Alpha)",
        (0x2c9739e2_f06846b3, 0x9fd001c5_a9afbcca) => "64‑bit PowerPC (big‑endian, Alpha)",
        (0x15bb03af_77e74d4a, 0xb12bc0d0_84f7491c) => "64‑bit PowerPC (little‑endian, Alpha)",
        (0xb933fb22_5c3f4f91, 0xaf90e2bb_0fa50702) => "RISC‑V 32‑bit (Alpha)",
        (0xbeaec34b_8442439b, 0xa40b9843_81ed097d) => "RISC‑V 64‑bit (Alpha)",
        (0xcd0f869b_d0fb4ca0, 0xb1419ea8_7cc78d66) => "s390 (Alpha)",
        (0x8a4f5770_50aa4ed3, 0x874a99b7_10db6fea) => "s390x (Alpha)",
        (0x55497029_c7c144cc, 0xaa39815e_d1558630) => "TILE‑Gx (Alpha)",
        (0x75250d76_8cc6458e, 0xbd66bd47_cc81a812) => "x86 (Alpha)",
        (0x8484680c_952148c6, 0x9c11b072_0656f69e) => "x86‑64 (Alpha)",
        (0xfc56d9e9_e6e54c06, 0xbe32e744_07ce09a5) => "Root verity partition for dm‑verity (Alpha)",
        (0x24b2d975_0f974521, 0xafa1cd53_1e421b8d) => "ARC (dm‑verity)",
        (0x7386cdf2_203c47a9, 0xa498f2ec_ee45a2d6) => "ARM 32‑bit (dm‑verity)",
        (0xdf3300ce_d69f4c92, 0x978c9bfb_0f38d820) => "AArch64 (dm‑verity)",
        (0x86ed10d5_b60745bb, 0x8957d350_f23d0571) => "IA‑64 (dm‑verity)",
        (0xf3393b22_e9af4613, 0xa9489d3b_fbd0c535) => "LoongArch 64‑bit (dm‑verity)",
        (0x7a430799_f7114c7e, 0x8e5b1d68_5bd48607) => "32‑bit MIPS (dm‑verity)",
        (0x579536f8_6a334055, 0xa95adf2d_5e2c42a8) => "64‑bit MIPS (dm‑verity)",
        (0xd7d150d2_2a044a33, 0x8f121665_1205ff7b) => "32‑bit MIPS (dm‑verity, little‑endian)",
        (0x16b417f8_3e064f57, 0x8dd29b52_32f41aa6) => "64‑bit MIPS (dm‑verity, little‑endian)",
        (0xd212a430_fbc549f9, 0xa983a7fe_ef2b8d0e) => "PA‑RISC (dm‑verity)",
        (0x906bd944_45894aae, 0xa4e4dd98_3917446a) => "64‑bit PowerPC (dm‑verity, little‑endian)",
        (0x9225a9a3_3c194d89, 0xb4f6eeff_88f17631) => "64‑bit PowerPC (dm‑verity, big‑endian)",
        (0x98cfe649_158846dc, 0xb2f0add1_47424925) => "32‑bit PowerPC (dm‑verity)",
        (0xae0253be_11674007, 0xac684392_6c14c5de) => "RISC‑V 32‑bit (dm‑verity)",
        (0xb6ed5582_440b4209, 0xb8da5ff7_c419ea3d) => "RISC‑V 64‑bit (dm‑verity)",
        (0x7ac63b47_b25c463b, 0x8df8b4a9_4e6c90e1) => "s390 (dm‑verity)",
        (0xb325bfbe_c7be4ab8, 0x8357139e_652d2f6b) => "s390x (dm‑verity)",
        (0x966061ec_28e44b2e, 0xb4a51f0a_825a1d84) => "TILE‑Gx (dm‑verity)",
        (0x2c7357ed_ebd246d9, 0xaec123d4_37ec2bf5) => "x86‑64 (dm‑verity)",
        (0xd13c5d3b_b5d1422a, 0xb29f9454_fdc89d76) => "x86 (dm‑verity)",
        (0x48465300_000011aa, 0xaa110030_6543ecac) => "Apple HFS+",
        (0xbc13c2ff_59e64262, 0xa352b275_fd6f7172) => "/boot (XBOOTLDR) partition",
        (0x0657fd6d_a4ab43c4, 0x84e50933_c84b4f4f) => "Swap partition",
        (0xe6d1d9b7_95b34a3d, 0xb11485ff_3d230a6e) => "LVM partition",
        (0x933ac7e1_2eb44f13, 0xb8440e14_e2aef915) => "/home partition",
        (0x3b8f8425_20e04f3b, 0x907f1a25_a76f98e8) => "/srv partition",
        (0x69646981_091c4e43, 0x9c84b7b3_5b13c7e6) => "Per-user home partition",
        (0x7ffec5c9_2d0049b1, 0x988ac22c_947ffee7) => "Encrypted partition (dm-crypt)",
        (0xca7d7ccb_63ed4c53, 0xbb4a2e38_7187f96d) => "LUKS partition",
        (0x7c3457ef_000011aa, 0xaa110030_6543ecac) => "APFS partition",
        (0x3bd3c9df_5f3c4b0b, 0x9d225d1b_012fcf10) => "GNU/Hurd root partition",
        (0x516e7cb4_6ecf11d6, 0x8ff80002_2d09712b) => "FreeBSD data partition",
        (0x6a82cb45_1dd211b2, 0x99a60800_20736631) => "Solaris Boot partition",
        (0x4fbd7e29_9d2541b8, 0xafd0062c_0ceff05d) => "Ceph OSD partition",
        (0xe6a0c4fe_1339466b, 0x9aefef9e_2ab8fa56) => "Android-IA AVB",
        _ => "Unknown partition type",
    }
}

} // verus!
