//! The Extended Boot Record chain behind an extended MBR partition.
//!
//! Each link is a sector shaped like an MBR. Its slot 0 is one logical
//! partition, stored relative to the link itself; its slot 1, when in use,
//! names the next link by an address that is taken as it stands.
use crate::error::PartError;
use crate::le::read_u32_le;
use crate::mbr::{MAX_SECTOR_SIZE, MBR, MBR_SIZE, UNUSED_TYPE, rebased_lba, stored_lba, stored_type};
use vstd::prelude::*;

verus! {

/// Most links that one chain may hold before it is taken as circular.
pub const MAX_EBR_LINKS: usize = 1024;

/// The 512-byte sector of the link at `lba` on a source of `ss`-byte sectors.
pub open spec fn link_sector(img: Seq<u8>, lba: int, ss: int) -> Seq<u8> {
    img.subrange(lba * ss, lba * ss + MBR_SIZE)
}

/// The relative addresses of the links of the chain that starts at `lba`,
/// first link first, when at most `fuel` more links may follow it; or why
/// the chain cannot be walked.
pub open spec fn chain_links(img: Seq<u8>, lba: u32, ss: int, fuel: nat) -> Result<Seq<u32>, PartError>
    decreases fuel,
{
    if lba * ss + MBR_SIZE > img.len() {
        Err(PartError::TruncatedInput)
    } else if rebased_lba(link_sector(img, lba as int, ss), lba as int) > u32::MAX {
        Err(PartError::AddressOverflow)
    } else if stored_type(link_sector(img, lba as int, ss), 1) == UNUSED_TYPE {
        Ok(seq![lba])
    } else if fuel == 0 {
        Err(PartError::UnboundedChain)
    } else {
        let next = stored_lba(link_sector(img, lba as int, ss), 1) as u32;
        match chain_links(img, next, ss, (fuel - 1) as nat) {
            Ok(rest) => Ok(seq![lba] + rest),
            Err(e) => Err(e),
        }
    }
}

/// The links of the chain that starts at `lba`, within the link limit.
pub open spec fn ebr_chain(img: Seq<u8>, lba: u32, ss: int) -> Result<Seq<u32>, PartError> {
    chain_links(img, lba, ss, (MAX_EBR_LINKS - 1) as nat)
}

/// `links` put in front of the outcome `r` of the rest of a walk.
pub open spec fn after(links: Seq<u32>, r: Result<Seq<u32>, PartError>) -> Result<Seq<u32>, PartError> {
    match r {
        Ok(rest) => Ok(links + rest),
        Err(e) => Err(e),
    }
}

/// The links among `links`, in order, whose slot 0 holds a logical
/// partition; a link with an unused slot 0 only leads on to the next one.
pub open spec fn logical_links(img: Seq<u8>, ss: int, links: Seq<u32>) -> Seq<u32>
    decreases links.len(),
{
    if links.len() == 0 {
        seq![]
    } else {
        let prev = logical_links(img, ss, links.drop_last());
        if stored_type(link_sector(img, links.last() as int, ss), 0) != UNUSED_TYPE {
            prev.push(links.last())
        } else {
            prev
        }
    }
}

/// `ebrs` are the link sectors at `links`, in order, each with slot 0 rebased
/// on its own link.
pub open spec fn ebrs_decode(ebrs: Seq<MBR>, img: Seq<u8>, ss: int, links: Seq<u32>) -> bool {
    &&& ebrs.len() == links.len()
    &&& forall|i: int| 0 <= i < ebrs.len() ==> (#[trigger] ebrs[i]).decodes_rebased(
        link_sector(img, links[i] as int, ss), ss, links[i] as int)
}

proof fn lemma_after_append(links: Seq<u32>, lba: u32, r: Result<Seq<u32>, PartError>)
    ensures
        after(links, after(seq![lba], r)) == after(links.push(lba), r),
{
    if let Ok(rest) = r {
        assert(links + (seq![lba] + rest) =~= links.push(lba) + rest);
    }
}

/// Walks the EBR chain that starts at relative address `start_lba` of the
/// image, and returns, first link first, the sectors of the links whose
/// slot 0 is in use, each with that logical partition moved to the link's
/// own address plus the stored one. A link with an unused slot 0 is still
/// followed through its slot 1, but returns nothing.
pub fn parse_ebr(image: &[u8], start_lba: u32, sector_size: usize) -> (r: Result<Vec<MBR>, PartError>)
    requires
        sector_size <= MAX_SECTOR_SIZE,
    ensures
        match ebr_chain(image@, start_lba, sector_size as int) {
            Ok(links) => r is Ok && ebrs_decode(r->Ok_0@, image@, sector_size as int, logical_links(image@, sector_size as int, links)),
            Err(e) => r == Err::<Vec<MBR>, PartError>(e),
        },
        r is Ok ==> forall|i: int| 0 <= i < r->Ok_0@.len() ==> (#[trigger] r->Ok_0@[i]).partition_table@[0].partition_type != UNUSED_TYPE,
{
    let ghost img = image@;
    let ghost ss = sector_size as int;
    let len = image.len();
    let mut found: Vec<MBR> = Vec::new();
    let mut lba = start_lba;
    let mut fuel: usize = MAX_EBR_LINKS - 1;
    let ghost mut links: Seq<u32> = seq![];
    loop
        invariant
            len == img.len(),
            img == image@,
            ss == sector_size,
            sector_size <= MAX_SECTOR_SIZE,
            fuel < MAX_EBR_LINKS,
            ebr_chain(img, start_lba, ss) == after(links, chain_links(img, lba, ss, fuel as nat)),
            ebrs_decode(found@, img, ss, logical_links(img, ss, links)),
            forall|i: int| 0 <= i < found@.len() ==> (#[trigger] found@[i]).partition_table@[0].partition_type != UNUSED_TYPE,
        decreases fuel,
    {
        proof {
            crate::mbr::lemma_address_fits(lba as int, ss);
        }
        let off = lba as u64 * sector_size as u64;
        if off > len as u64 || (len as u64) - off < MBR_SIZE as u64 {
            return Err(PartError::TruncatedInput);
        }
        let at = off as usize;
        let ghost sector = link_sector(img, lba as int, ss);
        assert(sector =~= img.subrange(at as int, at + MBR_SIZE));
        let stored0 = read_u32_le(image, at + 454);
        assert(stored0 == stored_lba(sector, 0));
        if image[at + 450] != UNUSED_TYPE && stored0 > u32::MAX - lba {
            return Err(PartError::AddressOverflow);
        }
        if image[at + 450] != UNUSED_TYPE {
            let ebr = MBR::decode_at(image, at, sector_size, lba);
            found.push(ebr);
        }
        proof {
            assert(links.push(lba).drop_last() =~= links);
        }
        if image[at + 466] == UNUSED_TYPE {
            proof {
                assert(links.push(lba) =~= links + seq![lba]);
                links = links.push(lba);
            }
            return Ok(found);
        }
        if fuel == 0 {
            return Err(PartError::UnboundedChain);
        }
        let next = read_u32_le(image, at + 470);
        assert(next == stored_lba(sector, 1));
        proof {
            let rest = chain_links(img, next, ss, (fuel - 1) as nat);
            assert(chain_links(img, lba, ss, fuel as nat) == after(seq![lba], rest));
            lemma_after_append(links, lba, rest);
            links = links.push(lba);
        }
        lba = next;
        fuel = fuel - 1;
    }
}

/// Link `i` of `links` has its sector in the image, with a used slot 0
/// whose rebased address fits in 32 bits.
pub open spec fn link_holds_partition(img: Seq<u8>, ss: int, links: Seq<u32>, i: int) -> bool {
    let sector = link_sector(img, links[i] as int, ss);
    &&& links[i] * ss + MBR_SIZE <= img.len()
    &&& stored_type(sector, 0) != UNUSED_TYPE
    &&& rebased_lba(sector, links[i] as int) <= u32::MAX
}

/// Link `i` of `links` points at link `i + 1` through its slot 1.
pub open spec fn link_points_next(img: Seq<u8>, ss: int, links: Seq<u32>, i: int) -> bool {
    let sector = link_sector(img, links[i] as int, ss);
    &&& stored_type(sector, 1) != UNUSED_TYPE
    &&& stored_lba(sector, 1) == links[i + 1]
}

/// `links` form a well-linked chain: every link holds a partition, each
/// link but the last points at the next, and the last one's slot 1 is
/// unused.
pub open spec fn well_linked(img: Seq<u8>, ss: int, links: Seq<u32>) -> bool {
    &&& links.len() >= 1
    &&& forall|i: int| 0 <= i < links.len() ==> #[trigger] link_holds_partition(img, ss, links, i)
    &&& forall|i: int| 0 <= i < links.len() - 1 ==> #[trigger] link_points_next(img, ss, links, i)
    &&& stored_type(link_sector(img, links.last() as int, ss), 1) == UNUSED_TYPE
}

proof fn lemma_walk_well_linked(img: Seq<u8>, ss: int, links: Seq<u32>, fuel: nat)
    requires
        well_linked(img, ss, links),
        links.len() <= fuel + 1,
    ensures
        chain_links(img, links[0], ss, fuel) == Ok::<Seq<u32>, PartError>(links),
    decreases links.len(),
{
    assert(link_holds_partition(img, ss, links, 0));
    let sector = link_sector(img, links[0] as int, ss);
    if links.len() > 1 {
        let rest = links.drop_first();
        assert forall|i: int| 0 <= i < rest.len() implies #[trigger] link_holds_partition(img, ss, rest, i) by {
            assert(link_holds_partition(img, ss, links, i + 1));
            assert(rest[i] == links[i + 1]);
        }
        assert forall|i: int| 0 <= i < rest.len() - 1 implies #[trigger] link_points_next(img, ss, rest, i) by {
            assert(link_points_next(img, ss, links, i + 1));
            assert(rest[i] == links[i + 1]);
            assert(rest[i + 1] == links[i + 2]);
        }
        assert(rest.last() == links.last());
        assert(link_points_next(img, ss, links, 0));
        lemma_walk_well_linked(img, ss, rest, (fuel - 1) as nat);
        assert(stored_lba(sector, 1) as u32 == rest[0]);
        assert(seq![links[0]] + rest =~= links);
    } else {
        assert(links.last() == links[0]);
        assert(seq![links[0]] =~= links);
    }
}

proof fn lemma_all_logical(img: Seq<u8>, ss: int, links: Seq<u32>)
    requires
        forall|i: int| 0 <= i < links.len() ==> #[trigger] link_holds_partition(img, ss, links, i),
    ensures
        logical_links(img, ss, links) == links,
    decreases links.len(),
{
    if links.len() > 0 {
        let prev = links.drop_last();
        assert forall|i: int| 0 <= i < prev.len() implies #[trigger] link_holds_partition(img, ss, prev, i) by {
            assert(link_holds_partition(img, ss, links, i));
        }
        lemma_all_logical(img, ss, prev);
        assert(link_holds_partition(img, ss, links, links.len() - 1));
        assert(prev.push(links.last()) =~= links);
    }
}

/// A well-linked chain of N links, N at most `MAX_EBR_LINKS`, walks to
/// exactly those N links, so that `parse_ebr` returns N link sectors, each
/// holding one logical partition: a chain ends at the first link whose
/// slot 1 is unused.
pub proof fn lemma_chain_yields_each_link(img: Seq<u8>, ss: int, links: Seq<u32>, ebrs: Seq<MBR>)
    requires
        well_linked(img, ss, links),
        links.len() <= MAX_EBR_LINKS,
        ebrs_decode(ebrs, img, ss, logical_links(img, ss, links)),
    ensures
        ebr_chain(img, links[0], ss) == Ok::<Seq<u32>, PartError>(links),
        logical_links(img, ss, links) == links,
        ebrs.len() == links.len(),
        forall|i: int| 0 <= i < ebrs.len() ==> (#[trigger] ebrs[i]).partition_table@[0].partition_type != UNUSED_TYPE,
{
    lemma_walk_well_linked(img, ss, links, (MAX_EBR_LINKS - 1) as nat);
    lemma_all_logical(img, ss, links);
    assert forall|i: int| 0 <= i < ebrs.len() implies (#[trigger] ebrs[i]).partition_table@[0].partition_type != UNUSED_TYPE by {
        assert(link_holds_partition(img, ss, links, i));
    }
}

} // verus!
