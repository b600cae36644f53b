//! Finding the region of the emulator's address space that backs the
//! emulated RAM.

use vstd::prelude::*;
use crate::address::GC_RAM_SIZE;
use crate::process::ProcessHandle;

verus! {

/// Region type that the host reports for memory-mapped regions.
pub const MEM_MAPPED: u32 = 0x40000;

/// Bit of the working set attributes that is set for a resident page.
pub const PAGE_VALID: u64 = 1;

/// What the host reports of the region that bounds an address.
#[derive(Clone, Copy, Debug, PartialEq, Eq, Structural)]
pub struct RegionInfo {
    /// Address at which the region begins.
    pub base: usize,
    /// Size of the region in bytes.
    pub size: usize,
    /// Type of the region.
    pub kind: u32,
}

/// A size fits the emulated RAM when it is 32 MiB or an exact multiple of it.
pub open spec fn ram_sized(size: int) -> bool {
    size >= GC_RAM_SIZE && size % (GC_RAM_SIZE as int) == 0
}

/// A candidate region is memory-mapped and of a size that fits.
pub open spec fn candidate(region: RegionInfo) -> bool {
    ram_sized(region.size as int) && region.kind == MEM_MAPPED
}

/// The first page is resident when its attributes could be read and have
/// the valid bit set.
pub open spec fn resident(attributes: Option<u64>) -> bool {
    attributes matches Some(flags) && flags & PAGE_VALID == PAGE_VALID
}

/// A region is accepted when it is a candidate, its first page is resident
/// and it does not begin at address zero.
pub open spec fn accepted(region: RegionInfo, attributes: Option<u64>) -> bool {
    candidate(region) && resident(attributes) && region.base != 0
}

/// Tells whether a region is a candidate for the emulated RAM.
pub fn is_candidate(region: &RegionInfo) -> (yes: bool)
    ensures
        yes == candidate(*region),
{
    region.size >= GC_RAM_SIZE && region.size % GC_RAM_SIZE == 0 && region.kind == MEM_MAPPED
}

/// Tells whether the attributes of a page show it resident.
pub fn is_resident(attributes: Option<u64>) -> (yes: bool)
    ensures
        yes == resident(attributes),
{
    match attributes {
        Some(flags) => flags & PAGE_VALID == PAGE_VALID,
        None => false,
    }
}

/// Tells whether a region, with the attributes of its first page, is the
/// emulated RAM.
pub fn accepts(region: &RegionInfo, attributes: Option<u64>) -> (yes: bool)
    ensures
        yes == accepted(*region, attributes),
{
    is_candidate(region) && is_resident(attributes) && region.base != 0
}

/// One step of the walk: the cursor, the host's answer for the region that
/// bounds it, and, for a candidate, the attributes of the region's first page.
pub struct Probe {
    pub cursor: usize,
    pub region: Option<RegionInfo>,
    pub attributes: Option<u64>,
}

/// The probe holds what the host answered at its cursor.
pub open spec fn observed<Q, W>(query_region: Q, working_set: W, raw: isize, probe: Probe) -> bool
    where Q: Fn(isize, usize) -> Option<RegionInfo>, W: Fn(isize, usize) -> Option<u64> {
    &&& call_ensures(query_region, (raw, probe.cursor), probe.region)
    &&& (probe.region is Some && candidate(probe.region->Some_0) ==> call_ensures(
        working_set,
        (raw, probe.region->Some_0.base),
        probe.attributes,
    ))
}

/// The region that the walk returns at this probe, if it accepts it.
pub open spec fn walk_result(probe: Probe) -> Option<(usize, usize)> {
    match probe.region {
        Some(region) => if accepted(region, probe.attributes) {
            Some((region.base, region.size))
        } else {
            None
        },
        None => None,
    }
}

/// Where the walk goes on after this probe, or `None` where it ends: the
/// host gave no answer, the region was accepted, or the cursor cannot advance
/// inside the addressable range.
pub open spec fn next_cursor(probe: Probe) -> Option<usize> {
    match probe.region {
        Some(region) => if !accepted(region, probe.attributes) && region.size > 0 && probe.cursor
            + region.size <= usize::MAX {
            Some((probe.cursor + region.size) as usize)
        } else {
            None
        },
        None => None,
    }
}

/// Advances the cursor past a region that was not accepted; `None` where the
/// cursor cannot advance inside the addressable range.
pub fn advance(cursor: usize, region: &RegionInfo) -> (next: Option<usize>)
    ensures
        next == if region.size > 0 && cursor + region.size <= usize::MAX {
            Some((cursor + region.size) as usize)
        } else {
            None
        },
{
    if region.size == 0 {
        None
    } else {
        cursor.checked_add(region.size)
    }
}

/// The probes are a walk from address zero that has arrived at `cursor`:
/// each holds what the host answered, and each begins where the one before
/// it ended.
pub open spec fn walk_prefix<Q, W>(
    query_region: Q,
    working_set: W,
    raw: isize,
    probes: Seq<Probe>,
    cursor: usize,
) -> bool where Q: Fn(isize, usize) -> Option<RegionInfo>, W: Fn(isize, usize) -> Option<u64> {
    &&& forall|i: int|
        0 <= i < probes.len() ==> observed(query_region, working_set, raw, #[trigger] probes[i])
    &&& forall|i: int|
        0 <= i < probes.len() ==> next_cursor(#[trigger] probes[i]) == Some(
            if i + 1 < probes.len() {
                probes[i + 1].cursor
            } else {
                cursor
            },
        )
    &&& if probes.len() == 0 {
        cursor == 0
    } else {
        probes[0].cursor == 0
    }
}

/// The probes are a whole walk: a walk from address zero to the cursor of the
/// last probe, where it ends.
pub open spec fn whole_walk<Q, W>(query_region: Q, working_set: W, raw: isize, probes: Seq<Probe>) -> bool
    where Q: Fn(isize, usize) -> Option<RegionInfo>, W: Fn(isize, usize) -> Option<u64> {
    &&& probes.len() > 0
    &&& walk_prefix(query_region, working_set, raw, probes.drop_last(), probes.last().cursor)
    &&& observed(query_region, working_set, raw, probes.last())
    &&& next_cursor(probes.last()) is None
}

/// Walks the address space of the process from address zero and returns the
/// base address and the size of the first region that is accepted.
///
/// `query_region` asks the host for the region that bounds an address,
/// `working_set` for the attributes of the page at an address; each returns
/// `None` where the host's call fails. After each region the cursor advances
/// by the region's size. The walk ends without a result where the host gives
/// no answer or the cursor cannot advance inside the addressable range.
pub fn find_gamecube_ram_offset<Q, W>(
    process_handle: &ProcessHandle,
    query_region: &Q,
    working_set: &W,
) -> (found: Option<(usize, usize)>) where
    Q: Fn(isize, usize) -> Option<RegionInfo>,
    W: Fn(isize, usize) -> Option<u64>,

    requires
        forall|raw: isize, cursor: usize| call_requires(*query_region, (raw, cursor)),
        forall|raw: isize, base: usize| call_requires(*working_set, (raw, base)),
    ensures
        exists|probes: Seq<Probe>| #[trigger]
            whole_walk(*query_region, *working_set, process_handle@, probes) && found
                == walk_result(probes.last()),
{
    let raw = process_handle.raw();
    let mut cursor: usize = 0;
    let ghost mut probes: Seq<Probe> = Seq::empty();
    loop
        invariant
            raw == process_handle@,
            forall|raw: isize, cursor: usize| call_requires(*query_region, (raw, cursor)),
            forall|raw: isize, base: usize| call_requires(*working_set, (raw, base)),
            walk_prefix(*query_region, *working_set, raw, probes, cursor),
        decreases usize::MAX - cursor,
    {
        let answer = query_region(raw, cursor);
        let region = match answer {
            Some(region) => region,
            None => {
                proof {
                    let last = Probe { cursor, region: None, attributes: None };
                    let walk = probes.push(last);
                    assert(walk.drop_last() =~= probes);
                    assert(whole_walk(*query_region, *working_set, raw, walk));
                }
                return None;
            },
        };
        let attributes = if is_candidate(&region) {
            working_set(raw, region.base)
        } else {
            None
        };
        let ghost probe = Probe { cursor, region: Some(region), attributes };
        assert(observed(*query_region, *working_set, raw, probe));
        if accepts(&region, attributes) {
            proof {
                let walk = probes.push(probe);
                assert(walk.drop_last() =~= probes);
                assert(whole_walk(*query_region, *working_set, raw, walk));
            }
            return Some((region.base, region.size));
        }
        let next = match advance(cursor, &region) {
            Some(next) => next,
            None => {
                proof {
                    let walk = probes.push(probe);
                    assert(walk.drop_last() =~= probes);
                    assert(whole_walk(*query_region, *working_set, raw, walk));
                }
                return None;
            },
        };
        proof {
            let longer = probes.push(probe);
            assert forall|i: int| 0 <= i < longer.len() implies next_cursor(#[trigger] longer[i])
                == Some(
                if i + 1 < longer.len() {
                    longer[i + 1].cursor
                } else {
                    next
                },
            ) by {
                if i < probes.len() {
                    assert(longer[i] == probes[i]);
                }
            }
            assert forall|i: int| 0 <= i < longer.len() implies observed(
                *query_region,
                *working_set,
                raw,
                #[trigger] longer[i],
            ) by {
                if i < probes.len() {
                    assert(longer[i] == probes[i]);
                }
            }
            probes = longer;
        }
        cursor = next;
    }
}

/// A walk returns only a region that is memory-mapped, whose size is 32 MiB
/// or an exact multiple of it, whose first page is resident, and which does
/// not begin at address zero.
pub proof fn lemma_walk_accepts_only<Q, W>(
    query_region: Q,
    working_set: W,
    raw: isize,
    probes: Seq<Probe>,
) where Q: Fn(isize, usize) -> Option<RegionInfo>, W: Fn(isize, usize) -> Option<u64>
    requires
        whole_walk(query_region, working_set, raw, probes),
        walk_result(probes.last()) is Some,
    ensures
        probes.last().region matches Some(region) && {
            &&& walk_result(probes.last()) == Some((region.base, region.size))
            &&& region.size as int % (32 * 1024 * 1024int) == 0
            &&& region.size >= 32 * 1024 * 1024
            &&& region.kind == MEM_MAPPED
            &&& resident(probes.last().attributes)
            &&& region.base != 0
            &&& call_ensures(query_region, (raw, probes.last().cursor), Some(region))
            &&& call_ensures(working_set, (raw, region.base), probes.last().attributes)
        },
{
}

/// A walk returns the first region that qualifies: no probe before the last
/// one found a region that is accepted.
pub proof fn lemma_walk_returns_first<Q, W>(
    query_region: Q,
    working_set: W,
    raw: isize,
    probes: Seq<Probe>,
    earlier: int,
) where Q: Fn(isize, usize) -> Option<RegionInfo>, W: Fn(isize, usize) -> Option<u64>
    requires
        whole_walk(query_region, working_set, raw, probes),
        0 <= earlier < probes.len() - 1,
    ensures
        walk_result(probes[earlier]) is None,
{
    let before = probes.drop_last();
    assert(before[earlier] == probes[earlier]);
    assert(next_cursor(before[earlier]) is Some);
}

/// A walk on which no region qualifies finds nothing, and a walk on which
/// the region at probe `only` qualifies returns that region.
pub proof fn lemma_walk_finds_the_qualifying<Q, W>(
    query_region: Q,
    working_set: W,
    raw: isize,
    probes: Seq<Probe>,
    only: int,
) where Q: Fn(isize, usize) -> Option<RegionInfo>, W: Fn(isize, usize) -> Option<u64>
    requires
        whole_walk(query_region, working_set, raw, probes),
    ensures
        (forall|i: int| 0 <= i < probes.len() ==> walk_result(#[trigger] probes[i]) is None)
            ==> walk_result(probes.last()) is None,
        0 <= only < probes.len() && walk_result(probes[only]) is Some ==> only == probes.len() - 1
            && walk_result(probes.last()) == Some(
            (probes[only].region->Some_0.base, probes[only].region->Some_0.size),
        ),
{
    if 0 <= only < probes.len() - 1 {
        lemma_walk_returns_first(query_region, working_set, raw, probes, only);
    }
}

} // verus!
