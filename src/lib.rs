//! Discovery and decoding of disk partitioning metadata (MBR, EBR chains and
//! GPT) from a raw, sector-addressed disk image held in memory.
pub mod discover;
pub mod ebr;
pub mod error;
pub mod gpt;
pub mod gpt_types;
pub mod guid;
pub mod le;
pub mod mbr;
pub mod mbr_types;

pub use discover::{
    Partitions, discover_any_gpt, discover_ebr_partitions, discover_gpt_partitions, discover_mbr_partitions,
    read_gpt_header_at,
};
pub use error::PartError;
