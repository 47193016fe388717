//! Display adapters: what the driver lists, which physical adapters that makes, how they
//! are found again and how they are named.
use vstd::prelude::*;
use crate::text::{eq_ignore_ascii_case, push_decimal, push_hex};
use crate::utf16::{decode_terminated, wide_name};
use crate::text::{decimal, decimal_notation_round_trips, hexadecimal, lower_text, trimmed};
use crate::utf16::{before_zero, utf16_lossy};

verus! {

/// One physical display adapter. `device_id` follows the driver's listing order.
#[derive(Debug, PartialEq, Eq)]
pub struct GpuAdapter {
    pub device_id: i32,
    pub luid: u64,
    pub name: String,
    pub dedicated_video_memory: u64,
    pub vendor_id: u32,
    pub pci_device_id: u32,
    pub subsys_id: u32,
    pub revision: u32,
}

impl Clone for GpuAdapter {
    fn clone(&self) -> (r: Self)
        ensures
            r == *self,
    {
        GpuAdapter {
            device_id: self.device_id,
            luid: self.luid,
            name: self.name.clone(),
            dedicated_video_memory: self.dedicated_video_memory,
            vendor_id: self.vendor_id,
            pci_device_id: self.pci_device_id,
            subsys_id: self.subsys_id,
            revision: self.revision,
        }
    }
}

/// What the driver says of one entry of its adapter list.
#[derive(Debug, PartialEq, Eq)]
pub struct AdapterDesc {
    pub luid_high: i32,
    pub luid_low: u32,
    pub description: Vec<u16>,
    pub dedicated_video_memory: u64,
    pub vendor_id: u32,
    pub device_id: u32,
    pub subsys_id: u32,
    pub revision: u32,
    pub flags: u32,
}

/// The flag of an entry that is a software rasteriser and no physical adapter.
pub const ADAPTER_FLAG_SOFTWARE: u32 = 2;

/// The 64-bit form of a locally unique id given as its two halves.
pub open spec fn luid_value(high: i32, low: u32) -> u64 {
    (((high as u32) as int) * 0x1_0000_0000 + low) as u64
}

pub fn luid_u64(high: i32, low: u32) -> (luid: u64)
    ensures
        luid == luid_value(high, low),
{
    let hi: u64 = (high as u32) as u64;
    let lo: u64 = low as u64;
    assert(hi <= 0xffff_ffff && lo <= 0xffff_ffff ==> (hi << 32) | lo == hi * 0x1_0000_0000 + lo) by (bit_vector);
    (hi << 32) | lo
}

// ---------------------------------------------------------------------------------------
// Listing

/// The adapter that entry `index` of the driver's list describes, if it is a physical one
/// whose description could be read.
pub open spec fn is_adapter_of(index: int, desc: Option<AdapterDesc>, a: GpuAdapter) -> bool {
    &&& is_physical(desc)
    &&& a.device_id == index as i32
    &&& a.luid == luid_value(desc->0.luid_high, desc->0.luid_low)
    &&& a.name@ == trimmed(utf16_lossy(before_zero(desc->0.description@)))
    &&& a.dedicated_video_memory == desc->0.dedicated_video_memory
    &&& a.vendor_id == desc->0.vendor_id
    &&& a.pci_device_id == desc->0.device_id
    &&& a.subsys_id == desc->0.subsys_id
    &&& a.revision == desc->0.revision
}

pub open spec fn is_physical(desc: Option<AdapterDesc>) -> bool {
    desc is Some && desc->0.flags & ADAPTER_FLAG_SOFTWARE == 0
}

/// The positions of the physical adapters in the driver's list, in order.
pub open spec fn physical_positions(descs: Seq<Option<AdapterDesc>>) -> Seq<int>
    decreases descs.len(),
{
    if descs.len() == 0 {
        Seq::empty()
    } else {
        let before = physical_positions(descs.drop_last());
        if is_physical(descs.last()) {
            before.push(descs.len() - 1)
        } else {
            before
        }
    }
}

/// `raw` lists the physical adapters of the driver's list, in the driver's order.
pub open spec fn lists_physical(raw: Seq<GpuAdapter>, descs: Seq<Option<AdapterDesc>>) -> bool {
    let at = physical_positions(descs);
    &&& raw.len() == at.len()
    &&& forall|i: int|
        0 <= i < raw.len() ==> is_adapter_of(at[i], descs[at[i]], #[trigger] raw[i])
}

proof fn lemma_positions_in_range(descs: Seq<Option<AdapterDesc>>)
    ensures
        forall|i: int|
            0 <= i < physical_positions(descs).len() ==> 0 <= #[trigger] physical_positions(descs)[i]
                < descs.len(),
    decreases descs.len(),
{
    if descs.len() > 0 {
        lemma_positions_in_range(descs.drop_last());
        let before = physical_positions(descs.drop_last());
        assert forall|i: int| 0 <= i < physical_positions(descs).len() implies 0
            <= #[trigger] physical_positions(descs)[i] < descs.len() by {
            if i < before.len() {
                assert(0 <= before[i] < descs.len() - 1);
            }
        }
    }
}

/// Whether an adapter with this id is in the list.
pub open spec fn has_luid(adapters: Seq<GpuAdapter>, luid: u64) -> bool {
    exists|i: int| 0 <= i < adapters.len() && #[trigger] adapters[i].luid == luid
}

/// The list with only the first adapter of each id kept.
pub open spec fn first_per_luid(raw: Seq<GpuAdapter>) -> Seq<GpuAdapter>
    decreases raw.len(),
{
    if raw.len() == 0 {
        Seq::empty()
    } else {
        let before = first_per_luid(raw.drop_last());
        if has_luid(before, raw.last().luid) {
            before
        } else {
            before.push(raw.last())
        }
    }
}

pub open spec fn distinct_luids(adapters: Seq<GpuAdapter>) -> bool {
    forall|i: int, j: int|
        0 <= i < j < adapters.len() ==> #[trigger] adapters[i].luid != #[trigger] adapters[j].luid
}

/// After the duplicates are gone no two adapters share an id, and no id of the raw list is
/// lost.
pub proof fn first_per_luid_is_one_per_adapter(raw: Seq<GpuAdapter>)
    ensures
        distinct_luids(first_per_luid(raw)),
        forall|luid: u64| #[trigger] has_luid(first_per_luid(raw), luid) == has_luid(raw, luid),
    decreases raw.len(),
{
    if raw.len() > 0 {
        let prefix = raw.drop_last();
        first_per_luid_is_one_per_adapter(prefix);
        let before = first_per_luid(prefix);
        let all = first_per_luid(raw);
        assert forall|luid: u64| #[trigger] has_luid(all, luid) == has_luid(raw, luid) by {
            if has_luid(raw, luid) {
                let k = choose|k: int| 0 <= k < raw.len() && #[trigger] raw[k].luid == luid;
                if k < prefix.len() {
                    assert(prefix[k].luid == luid);
                    assert(has_luid(prefix, luid));
                    assert(has_luid(before, luid));
                    let j = choose|j: int| 0 <= j < before.len() && #[trigger] before[j].luid == luid;
                    assert(all[j].luid == luid);
                } else if !has_luid(before, luid) {
                    assert(all[all.len() - 1].luid == luid);
                }
            }
            if has_luid(all, luid) {
                let j = choose|j: int| 0 <= j < all.len() && #[trigger] all[j].luid == luid;
                if j < before.len() {
                    assert(before[j].luid == luid);
                    assert(has_luid(before, luid));
                    assert(has_luid(prefix, luid));
                    let k = choose|k: int| 0 <= k < prefix.len() && #[trigger] prefix[k].luid == luid;
                    assert(raw[k].luid == luid);
                } else {
                    assert(raw[raw.len() - 1].luid == luid);
                }
            }
        }
    }
}

/// A list without duplicates is left as it is.
pub proof fn distinct_lists_are_kept(adapters: Seq<GpuAdapter>)
    requires
        distinct_luids(adapters),
    ensures
        first_per_luid(adapters) == adapters,
    decreases adapters.len(),
{
    if adapters.len() > 0 {
        let prefix = adapters.drop_last();
        distinct_lists_are_kept(prefix);
        if has_luid(prefix, adapters.last().luid) {
            let k = choose|k: int| 0 <= k < prefix.len() && #[trigger] prefix[k].luid == adapters.last().luid;
            assert(adapters[k].luid != adapters[adapters.len() - 1].luid);
        }
        assert(prefix.push(adapters.last()) =~= adapters);
    }
}

/// Collapsing duplicates twice is the same as doing it once.
pub proof fn first_per_luid_is_idempotent(raw: Seq<GpuAdapter>)
    ensures
        first_per_luid(first_per_luid(raw)) == first_per_luid(raw),
{
    first_per_luid_is_one_per_adapter(raw);
    distinct_lists_are_kept(first_per_luid(raw));
}

/// One adapter per id: a driver may list the same physical adapter more than once, and then
/// the first entry, with the lowest ordinal, stands for it.
pub fn normalize_adapters(raw: Vec<GpuAdapter>) -> (adapters: Vec<GpuAdapter>)
    ensures
        adapters@ == first_per_luid(raw@),
        distinct_luids(adapters@),
{
    let mut adapters: Vec<GpuAdapter> = Vec::new();
    let mut i: usize = 0;
    while i < raw.len()
        invariant
            i <= raw@.len(),
            adapters@ == first_per_luid(raw@.take(i as int)),
        decreases raw@.len() - i,
    {
        let mut known = false;
        let mut k: usize = 0;
        while k < adapters.len()
            invariant
                i < raw@.len(),
                k <= adapters@.len(),
                known == exists|j: int| 0 <= j < k && #[trigger] adapters@[j].luid == raw@[i as int].luid,
            decreases adapters@.len() - k,
        {
            if adapters[k].luid == raw[i].luid {
                known = true;
            }
            k += 1;
        }
        assert(raw@.take(i + 1).drop_last() =~= raw@.take(i as int));
        assert(known == has_luid(adapters@, raw@[i as int].luid));
        if !known {
            adapters.push(raw[i].clone());
        }
        i += 1;
    }
    assert(raw@.take(i as int) =~= raw@);
    proof {
        first_per_luid_is_one_per_adapter(raw@);
    }
    adapters
}

fn adapters_of(descs: &[Option<AdapterDesc>]) -> (raw: Vec<GpuAdapter>)
    ensures
        lists_physical(raw@, descs@),
{
    let mut raw: Vec<GpuAdapter> = Vec::new();
    let mut i: usize = 0;
    while i < descs.len()
        invariant
            i <= descs@.len(),
            lists_physical(raw@, descs@.take(i as int)),
        decreases descs@.len() - i,
    {
        let ghost before = raw@;
        proof {
            lemma_positions_in_range(descs@.take(i as int));
            assert(descs@.take(i + 1).drop_last() =~= descs@.take(i as int));
        }
        if let Some(desc) = &descs[i] {
            if desc.flags & ADAPTER_FLAG_SOFTWARE == 0 {
                raw.push(
                    GpuAdapter {
                        device_id: i as i32,
                        luid: luid_u64(desc.luid_high, desc.luid_low),
                        name: wide_name(desc.description.as_slice()),
                        dedicated_video_memory: desc.dedicated_video_memory,
                        vendor_id: desc.vendor_id,
                        pci_device_id: desc.device_id,
                        subsys_id: desc.subsys_id,
                        revision: desc.revision,
                    },
                );
            }
        }
        assert(lists_physical(raw@, descs@.take(i + 1))) by {
            let at = physical_positions(descs@.take(i + 1));
            assert forall|k: int| 0 <= k < raw@.len() implies is_adapter_of(
                at[k],
                descs@.take(i + 1)[at[k]],
                #[trigger] raw@[k],
            ) by {
                if k < before.len() {
                    assert(before[k] == raw@[k]);
                    let p = physical_positions(descs@.take(i as int))[k];
                    assert(descs@.take(i as int)[p] == descs@.take(i + 1)[p]);
                }
            }
        }
        i += 1;
    }
    assert(descs@.take(i as int) =~= descs@);
    raw
}

/// The physical adapters of the driver's list. An entry whose description could not be read
/// is `None`; it keeps its place in the numbering.
pub fn enumerate_adapters(descs: &[Option<AdapterDesc>]) -> (adapters: Vec<GpuAdapter>)
    ensures
        exists|raw: Seq<GpuAdapter>|
            lists_physical(raw, descs@) && adapters@ == #[trigger] first_per_luid(raw),
        distinct_luids(adapters@),
{
    let raw = adapters_of(descs);
    let ghost listed = raw@;
    let adapters = normalize_adapters(raw);
    assert(lists_physical(listed, descs@) && adapters@ == first_per_luid(listed));
    adapters
}

/// The same list, for callers that have reported the adapters already.
pub fn enumerate_adapters_quiet(descs: &[Option<AdapterDesc>]) -> (adapters: Vec<GpuAdapter>)
    ensures
        exists|raw: Seq<GpuAdapter>|
            lists_physical(raw, descs@) && adapters@ == #[trigger] first_per_luid(raw),
        distinct_luids(adapters@),
{
    enumerate_adapters(descs)
}

/// The ids of the physical entries of a ranked list, each at its first place.
pub open spec fn ranked_luids(descs: Seq<Option<AdapterDesc>>) -> Seq<u64>
    decreases descs.len(),
{
    if descs.len() == 0 {
        Seq::empty()
    } else {
        let before = ranked_luids(descs.drop_last());
        let luid = luid_value(descs.last()->0.luid_high, descs.last()->0.luid_low);
        if is_physical(descs.last()) && !before.contains(luid) {
            before.push(luid)
        } else {
            before
        }
    }
}

/// No id is ranked twice.
pub proof fn ranked_luids_are_distinct(descs: Seq<Option<AdapterDesc>>)
    ensures
        ranked_luids(descs).no_duplicates(),
    decreases descs.len(),
{
    if descs.len() > 0 {
        ranked_luids_are_distinct(descs.drop_last());
    }
}

/// The ids of the physical adapters in the system's order of preference.
pub fn high_performance_luid_order_quiet(descs: &[Option<AdapterDesc>]) -> (luids: Vec<u64>)
    ensures
        luids@ == ranked_luids(descs@),
{
    let mut luids: Vec<u64> = Vec::new();
    let mut i: usize = 0;
    while i < descs.len()
        invariant
            i <= descs@.len(),
            luids@ == ranked_luids(descs@.take(i as int)),
        decreases descs@.len() - i,
    {
        assert(descs@.take(i + 1).drop_last() =~= descs@.take(i as int));
        if let Some(desc) = &descs[i] {
            if desc.flags & ADAPTER_FLAG_SOFTWARE == 0 {
                let luid: u64 = luid_u64(desc.luid_high, desc.luid_low);
                let mut known = false;
                let mut k: usize = 0;
                while k < luids.len()
                    invariant
                        k <= luids@.len(),
                        known == exists|j: int| 0 <= j < k && #[trigger] luids@[j] == luid,
                    decreases luids@.len() - k,
                {
                    if luids[k] == luid {
                        known = true;
                    }
                    k += 1;
                }
                assert(known == luids@.contains(luid));
                if !known {
                    luids.push(luid);
                }
            }
        }
        i += 1;
    }
    assert(descs@.take(i as int) =~= descs@);
    luids
}

// ---------------------------------------------------------------------------------------
// Lookup

/// `i` is the first position of an adapter with this id.
pub open spec fn is_first_with_luid(adapters: Seq<GpuAdapter>, luid: u64, i: int) -> bool {
    &&& 0 <= i < adapters.len()
    &&& adapters[i].luid == luid
    &&& forall|j: int| 0 <= j < i ==> #[trigger] adapters[j].luid != luid
}

/// The adapter with the given id: the first of them in the list.
pub open spec fn lookup(adapters: Seq<GpuAdapter>, luid: Option<u64>) -> Option<GpuAdapter> {
    match luid {
        Some(wanted) if has_luid(adapters, wanted) => Some(
            adapters[choose|i: int| is_first_with_luid(adapters, wanted, i)],
        ),
        _ => None,
    }
}

/// The lookup finds the first adapter with the id.
pub proof fn lookup_is_first(adapters: Seq<GpuAdapter>, luid: u64, i: int)
    requires
        is_first_with_luid(adapters, luid, i),
    ensures
        lookup(adapters, Some(luid)) == Some(adapters[i]),
{
    let j = choose|j: int| is_first_with_luid(adapters, luid, j);
    assert(has_luid(adapters, luid));
    assert(is_first_with_luid(adapters, luid, j));
    assert(adapters[i].luid == luid && adapters[j].luid == luid);
}

pub fn adapter_for_luid(adapters: &[GpuAdapter], luid: Option<u64>) -> (found: Option<&GpuAdapter>)
    ensures
        match found {
            Some(a) => luid is Some && exists|i: int|
                #[trigger] is_first_with_luid(adapters@, luid->0, i) && *a == adapters@[i],
            None => luid is None || !has_luid(adapters@, luid->0),
        },
        lookup(adapters@, luid) == (match found {
            Some(a) => Some(*a),
            None => None,
        }),
{
    let wanted: u64 = match luid {
        Some(wanted) => wanted,
        None => return None,
    };
    let mut i: usize = 0;
    while i < adapters.len()
        invariant
            luid == Some(wanted),
            i <= adapters@.len(),
            forall|j: int| 0 <= j < i ==> #[trigger] adapters@[j].luid != wanted,
        decreases adapters@.len() - i,
    {
        if adapters[i].luid == wanted {
            let hit = &adapters[i];
            assert(is_first_with_luid(adapters@, luid->0, i as int) && *hit == adapters@[i as int]);
            proof {
                lookup_is_first(adapters@, wanted, i as int);
            }
            return Some(hit);
        }
        i += 1;
    }
    None
}

/// The current ordinal of the adapter with the given id.
pub fn device_id_for_luid(adapters: &[GpuAdapter], luid: Option<u64>) -> (id: Option<i32>)
    ensures
        match id {
            Some(d) => luid is Some && exists|i: int|
                #[trigger] is_first_with_luid(adapters@, luid->0, i) && d == adapters@[i].device_id,
            None => luid is None || !has_luid(adapters@, luid->0),
        },
        id == (match lookup(adapters@, luid) {
            Some(adapter) => Some(adapter.device_id),
            None => None,
        }),
{
    match adapter_for_luid(adapters, luid) {
        Some(adapter) => Some(adapter.device_id),
        None => None,
    }
}

/// In a list without duplicates an id belongs to exactly one position, so what a lookup
/// finds does not depend on the order of the list.
pub proof fn lookup_is_unique(adapters: Seq<GpuAdapter>, luid: u64, i: int)
    requires
        distinct_luids(adapters),
        0 <= i < adapters.len(),
        adapters[i].luid == luid,
    ensures
        forall|k: int| #[trigger] is_first_with_luid(adapters, luid, k) <==> k == i,
{
    assert(is_first_with_luid(adapters, luid, i));
}

// ---------------------------------------------------------------------------------------
// Names

/// Same model name, whatever the case of its letters.
pub open spec fn shares_name(a: GpuAdapter, name: Seq<char>) -> bool {
    lower_text(a.name@) == lower_text(name)
}

/// The adapters that share a model name, in list order.
pub open spec fn namesakes(adapters: Seq<GpuAdapter>, name: Seq<char>) -> Seq<GpuAdapter>
    decreases adapters.len(),
{
    if adapters.len() == 0 {
        Seq::empty()
    } else if shares_name(adapters.last(), name) {
        namesakes(adapters.drop_last(), name).push(adapters.last())
    } else {
        namesakes(adapters.drop_last(), name)
    }
}

/// The place, counted from one, of the first adapter with this id; one if there is none.
pub open spec fn ordinal_of(same: Seq<GpuAdapter>, luid: u64) -> int {
    if exists|i: int| is_first_with_luid(same, luid, i) {
        1 + choose|i: int| is_first_with_luid(same, luid, i)
    } else {
        1
    }
}

/// The label of an adapter: its model name, with an ordinal where several adapters of the
/// list have the same model name.
pub open spec fn display_name(adapters: Seq<GpuAdapter>, adapter: GpuAdapter) -> Seq<char> {
    let same = namesakes(adapters, adapter.name@);
    if same.len() <= 1 {
        adapter.name@
    } else {
        adapter.name@ + " (GPU "@ + decimal(ordinal_of(same, adapter.luid) as nat) + ")"@
    }
}

proof fn lemma_ordinal(same: Seq<GpuAdapter>, luid: u64, i: int)
    requires
        is_first_with_luid(same, luid, i),
    ensures
        ordinal_of(same, luid) == i + 1,
{
    let k = choose|k: int| is_first_with_luid(same, luid, k);
    assert(is_first_with_luid(same, luid, k));
    assert(k == i) by {
        if k < i {
            assert(same[k].luid != luid);
        }
        if i < k {
            assert(same[i].luid != luid);
        }
    }
}

proof fn lemma_namesakes(adapters: Seq<GpuAdapter>, name: Seq<char>, other: Seq<char>)
    requires
        distinct_luids(adapters),
        lower_text(name) == lower_text(other),
    ensures
        namesakes(adapters, name) == namesakes(adapters, other),
        distinct_luids(namesakes(adapters, name)),
        forall|k: int|
            0 <= k < namesakes(adapters, name).len() ==> has_luid(
                adapters,
                (#[trigger] namesakes(adapters, name)[k]).luid,
            ),
        forall|i: int|
            0 <= i < adapters.len() && shares_name(#[trigger] adapters[i], name) ==> has_luid(
                namesakes(adapters, name),
                adapters[i].luid,
            ),
    decreases adapters.len(),
{
    if adapters.len() > 0 {
        let rest = adapters.drop_last();
        assert(distinct_luids(rest)) by {
            assert forall|i: int, j: int| 0 <= i < j < rest.len() implies #[trigger] rest[i].luid
                != #[trigger] rest[j].luid by {
                assert(adapters[i].luid != adapters[j].luid);
            }
        }
        lemma_namesakes(rest, name, other);
        let before = namesakes(rest, name);
        let same = namesakes(adapters, name);
        let last = adapters.len() - 1;
        assert forall|k: int| 0 <= k < same.len() implies has_luid(adapters, (#[trigger] same[k]).luid) by {
            if k < before.len() {
                assert(has_luid(rest, before[k].luid));
                let i = choose|i: int| 0 <= i < rest.len() && (#[trigger] rest[i]).luid == before[k].luid;
                assert(adapters[i].luid == same[k].luid);
            } else {
                assert(adapters[last].luid == same[k].luid);
            }
        }
        assert forall|i: int, j: int| 0 <= i < j < same.len() implies #[trigger] same[i].luid
            != #[trigger] same[j].luid by {
            if j == before.len() {
                assert(has_luid(rest, before[i].luid));
                let k = choose|k: int| 0 <= k < rest.len() && (#[trigger] rest[k]).luid == before[i].luid;
                assert(adapters[k].luid != adapters[last].luid);
            } else {
                assert(before[i].luid != before[j].luid);
            }
        }
        assert forall|i: int| 0 <= i < adapters.len() && shares_name(#[trigger] adapters[i], name) implies has_luid(
            same,
            adapters[i].luid,
        ) by {
            if i < last {
                assert(shares_name(rest[i], name));
                let k = choose|k: int| 0 <= k < before.len() && (#[trigger] before[k]).luid == rest[i].luid;
                assert(same[k].luid == adapters[i].luid);
            } else {
                assert(same[same.len() - 1].luid == adapters[i].luid);
            }
        }
    }
}

proof fn lemma_first_of_distinct(same: Seq<GpuAdapter>, luid: u64) -> (k: int)
    requires
        distinct_luids(same),
        has_luid(same, luid),
    ensures
        is_first_with_luid(same, luid, k),
        ordinal_of(same, luid) == k + 1,
        same[k].luid == luid,
{
    let k = choose|k: int| 0 <= k < same.len() && (#[trigger] same[k]).luid == luid;
    lookup_is_unique(same, luid, k);
    lemma_ordinal(same, luid, k);
    k
}

/// Two adapters of one model can be told apart: where names are the same, whatever the case of
/// their letters, the labels are not.
pub proof fn namesakes_have_their_own_labels(adapters: Seq<GpuAdapter>, i: int, j: int)
    requires
        distinct_luids(adapters),
        0 <= i < adapters.len(),
        0 <= j < adapters.len(),
        i != j,
        shares_name(adapters[i], adapters[j].name@),
    ensures
        display_name(adapters, adapters[i]) != display_name(adapters, adapters[j]),
{
    let a = adapters[i];
    let b = adapters[j];
    lemma_namesakes(adapters, a.name@, b.name@);
    let same = namesakes(adapters, a.name@);
    let m = lemma_first_of_distinct(same, a.luid);
    let n = lemma_first_of_distinct(same, b.luid);
    assert(a.luid != b.luid);
    assert(m != n);
    let x = decimal((m + 1) as nat);
    let y = decimal((n + 1) as nat);
    let most: nat = same.len();
    decimal_notation_round_trips((m + 1) as nat, most);
    decimal_notation_round_trips((n + 1) as nat, most);
    assert(x != y);
    assert(lower_text(a.name@).len() == a.name@.len());
    assert(lower_text(b.name@).len() == b.name@.len());
    let p = a.name@ + " (GPU "@ + x + ")"@;
    let q = b.name@ + " (GPU "@ + y + ")"@;
    if p == q {
        let from = (a.name@ + " (GPU "@).len() as int;
        reveal_strlit(")");
        assert(p.len() == from + x.len() + 1);
        assert(q.len() == from + y.len() + 1);
        assert(p.subrange(from, p.len() - 1) =~= x);
        assert(q.subrange(from, q.len() - 1) =~= y);
    }
}

/// The user-facing label of a physical adapter.
pub fn adapter_display_name(adapters: &[GpuAdapter], adapter: &GpuAdapter) -> (label: String)
    ensures
        label@ == display_name(adapters@, *adapter),
{
    let mut count: usize = 0;
    let mut found: Option<usize> = None;
    let mut i: usize = 0;
    let ghost name = adapter.name@;
    while i < adapters.len()
        invariant
            name == adapter.name@,
            i <= adapters@.len(),
            count == namesakes(adapters@.take(i as int), name).len(),
            count <= i,
            match found {
                Some(k) => is_first_with_luid(
                    namesakes(adapters@.take(i as int), name),
                    adapter.luid,
                    k as int,
                ),
                None => !has_luid(namesakes(adapters@.take(i as int), name), adapter.luid),
            },
        decreases adapters@.len() - i,
    {
        let ghost before = namesakes(adapters@.take(i as int), name);
        let ghost after = namesakes(adapters@.take(i + 1), name);
        assert(adapters@.take(i + 1).drop_last() =~= adapters@.take(i as int));
        if eq_ignore_ascii_case(adapters[i].name.as_str(), adapter.name.as_str()) {
            assert(after == before.push(adapters@[i as int]));
            if found.is_none() && adapters[i].luid == adapter.luid {
                found = Some(count);
                assert forall|j: int| 0 <= j < count implies #[trigger] after[j].luid != adapter.luid by {
                    assert(before[j].luid != adapter.luid);
                }
            }
            proof {
                match found {
                    Some(k) => {
                        if k < count {
                            assert(is_first_with_luid(before, adapter.luid, k as int));
                            assert forall|j: int| 0 <= j < k implies #[trigger] after[j].luid != adapter.luid by {
                                assert(before[j].luid != adapter.luid);
                            }
                        }
                    },
                    None => {
                        assert forall|j: int| 0 <= j < after.len() implies #[trigger] after[j].luid != adapter.luid by {
                            if j < before.len() {
                                assert(before[j].luid != adapter.luid);
                            }
                        }
                    },
                }
            }
            count += 1;
        }
        i += 1;
    }
    assert(adapters@.take(i as int) =~= adapters@);
    if count <= 1 {
        return adapter.name.clone();
    }
    let ordinal: usize = match found {
        Some(k) => k + 1,
        None => 1,
    };
    proof {
        let same = namesakes(adapters@, name);
        match found {
            Some(k) => lemma_ordinal(same, adapter.luid, k as int),
            None => {
                if exists|k: int| is_first_with_luid(same, adapter.luid, k) {
                    let k = choose|k: int| is_first_with_luid(same, adapter.luid, k);
                    assert(same[k].luid == adapter.luid);
                }
            },
        }
    }
    let mut label = adapter.name.clone();
    label.append(" (GPU ");
    push_decimal(&mut label, ordinal as u64);
    label.append(")");
    label
}

/// The identifier of an exact adapter in the per-application graphics settings, built from
/// its PCI vendor, device and subsystem numbers and not from its place in the list.
pub open spec fn adapter_identity(a: GpuAdapter) -> Seq<char> {
    hexadecimal(a.vendor_id as nat, 4, true) + "&"@ + hexadecimal(a.pci_device_id as nat, 4, true) + "&"@
        + hexadecimal(a.subsys_id as nat, 8, true)
}

pub fn specific_adapter_id(adapter: &GpuAdapter) -> (id: String)
    ensures
        id@ == adapter_identity(*adapter),
{
    let mut id = String::new();
    push_hex(&mut id, adapter.vendor_id as u64, 4, true);
    id.append("&");
    push_hex(&mut id, adapter.pci_device_id as u64, 4, true);
    id.append("&");
    push_hex(&mut id, adapter.subsys_id as u64, 8, true);
    assert(id@ =~= adapter_identity(*adapter));
    id
}

/// The flag that marks a choice of one exact adapter.
pub const WINDOWS_SPECIFIC_GPU_PREFERENCE: u32 = 0x4000_0000;

/// The settings value that asks for one exact adapter.
pub open spec fn preference_value(a: GpuAdapter) -> Seq<char> {
    "SpecificAdapter="@ + adapter_identity(a) + ";GpuPreference="@ + decimal(
        WINDOWS_SPECIFIC_GPU_PREFERENCE as nat,
    ) + ";"@
}

pub fn specific_gpu_preference(adapter: &GpuAdapter) -> (value: String)
    ensures
        value@ == preference_value(*adapter),
{
    let mut value = String::from_str("SpecificAdapter=");
    value.append(specific_adapter_id(adapter).as_str());
    value.append(";GpuPreference=");
    push_decimal(&mut value, WINDOWS_SPECIFIC_GPU_PREFERENCE as u64);
    value.append(";");
    value
}

/// The settings value depends on the PCI identity alone: moving an adapter to another place
/// of the list, or giving it another id or name, leaves it unchanged.
pub proof fn preference_ignores_list_position(a: GpuAdapter, b: GpuAdapter)
    requires
        a.vendor_id == b.vendor_id,
        a.pci_device_id == b.pci_device_id,
        a.subsys_id == b.subsys_id,
    ensures
        preference_value(a) == preference_value(b),
{
}

// ---------------------------------------------------------------------------------------
// Settings values

/// The system code for success.
pub const STATUS_SUCCESS: u32 = 0;

/// The system code for a missing value.
pub const STATUS_FILE_NOT_FOUND: u32 = 2;

/// What asking for the size of a settings value says.
#[derive(Clone, Copy, Debug, PartialEq, Eq, Structural)]
pub enum SizeReply {
    /// There is no such value.
    Absent,
    /// The system refused with this code.
    Refused(u32),
    /// The value is there and holds nothing.
    Empty,
    /// The value is there: read this many bytes.
    Read(u32),
}

pub fn preference_size_reply(status: u32, bytes: u32) -> (reply: SizeReply)
    ensures
        reply == (if status == STATUS_FILE_NOT_FOUND {
            SizeReply::Absent
        } else if status != STATUS_SUCCESS {
            SizeReply::Refused(status)
        } else if bytes == 0 {
            SizeReply::Empty
        } else {
            SizeReply::Read(bytes)
        }),
{
    if status == STATUS_FILE_NOT_FOUND {
        SizeReply::Absent
    } else if status != STATUS_SUCCESS {
        SizeReply::Refused(status)
    } else if bytes == 0 {
        SizeReply::Empty
    } else {
        SizeReply::Read(bytes)
    }
}

/// The little-endian 16-bit units in `bytes`; an odd last byte stands for nothing.
pub open spec fn le_units(bytes: Seq<u8>) -> Seq<u16> {
    Seq::new(bytes.len() / 2, |i: int| (bytes[2 * i] + 256 * bytes[2 * i + 1]) as u16)
}

/// The text that the first `reported` bytes of a settings value hold.
pub open spec fn preference_text(data: Seq<u8>, reported: int) -> Seq<char> {
    let usable = if reported < data.len() {
        reported
    } else {
        data.len() as int
    };
    utf16_lossy(before_zero(le_units(data.take(usable))))
}

/// Turns what reading a settings value gave into the value, or into the system's code.
pub fn preference_data(status: u32, data: &[u8], reported: u32) -> (value: Result<String, u32>)
    ensures
        match value {
            Ok(text) => status == STATUS_SUCCESS && text@ == preference_text(data@, reported as int),
            Err(code) => status != STATUS_SUCCESS && code == status,
        },
{
    if status != STATUS_SUCCESS {
        return Err(status);
    }
    let usable: usize = if (reported as u64) < data.len() as u64 {
        reported as usize
    } else {
        data.len()
    };
    let ghost bytes = data@.take(usable as int);
    let mut units: Vec<u16> = Vec::new();
    let mut i: usize = 0;
    while i < usable / 2
        invariant
            i <= usable / 2,
            usable <= data@.len(),
            bytes == data@.take(usable as int),
            units@ == le_units(bytes).take(i as int),
        decreases usable / 2 - i,
    {
        let lo: u16 = data[2 * i] as u16;
        let hi: u16 = data[2 * i + 1] as u16;
        units.push(lo + 256 * hi);
        assert(units@ =~= le_units(bytes).take(i + 1));
        i += 1;
    }
    assert(units@ =~= le_units(bytes));
    Ok(decode_terminated(units.as_slice()))
}

/// The outcome of writing or removing a settings value: removing what is not there is fine.
pub fn settings_update_result(status: u32, removing: bool) -> (r: Result<(), u32>)
    ensures
        r is Ok <==> status == STATUS_SUCCESS || (removing && status == STATUS_FILE_NOT_FOUND),
        r is Err ==> r->Err_0 == status,
{
    if status == STATUS_SUCCESS || (removing && status == STATUS_FILE_NOT_FOUND) {
        Ok(())
    } else {
        Err(status)
    }
}

// ---------------------------------------------------------------------------------------
// What the list of adapters is for

/// The two halves of an id make one number, the high half as it is stored, so that two ids are the
/// same number only where both halves are the same.
pub proof fn an_id_is_made_of_its_halves(high: i32, low: u32)
    ensures
        luid_value(high, low) % 0x1_0000_0000 == low,
        high >= 0 ==> luid_value(high, low) / 0x1_0000_0000 == high,
        high < 0 ==> luid_value(high, low) / 0x1_0000_0000 == high + 0x1_0000_0000,
{
    assert(high < 0 ==> (high as u32) as i64 == high as i64 + 0x1_0000_0000i64) by (bit_vector);
}

/// A real adapter is listed with what it says of itself, under its own place among all that are
/// listed; one that does not describe itself, or is only software, is not listed but keeps its
/// place.
pub proof fn real_adapters_keep_their_places(descs: Seq<Option<AdapterDesc>>, next: Option<AdapterDesc>, raw: GpuAdapter)
    ensures
        next matches Some(desc) ==> (desc.flags & 2 == 0 ==> physical_positions(descs.push(next))
            == physical_positions(descs).push(descs.len() as int)) && (desc.flags & 2 != 0 ==> physical_positions(
            descs.push(next),
        ) == physical_positions(descs)),
        next is None ==> physical_positions(descs.push(next)) == physical_positions(descs),
        physical_positions(Seq::empty()).len() == 0,
        is_adapter_of(descs.len() as int, next, raw) ==> next is Some && raw.device_id == descs.len() as i32 && raw.luid
            == luid_value(next->0.luid_high, next->0.luid_low) && raw.vendor_id == next->0.vendor_id
            && raw.pci_device_id == next->0.device_id && raw.subsys_id == next->0.subsys_id && raw.revision
            == next->0.revision && raw.dedicated_video_memory == next->0.dedicated_video_memory,
{
    assert(descs.push(next).drop_last() =~= descs);
}

/// Of several entries with one id the first is kept, where it stands; an entry with an id of its
/// own is kept too.
pub proof fn the_first_of_an_id_is_kept(raw: Seq<GpuAdapter>, next: GpuAdapter)
    ensures
        (exists|i: int| 0 <= i < raw.len() && (#[trigger] raw[i]).luid == next.luid) ==> first_per_luid(raw.push(next))
            == first_per_luid(raw),
        (forall|i: int| 0 <= i < raw.len() ==> (#[trigger] raw[i]).luid != next.luid) ==> first_per_luid(raw.push(next))
            == first_per_luid(raw).push(next),
{
    assert(raw.push(next).drop_last() =~= raw);
    lemma_same_ids(raw, next.luid);
}

proof fn lemma_same_ids(raw: Seq<GpuAdapter>, luid: u64)
    ensures
        has_luid(first_per_luid(raw), luid) <==> has_luid(raw, luid),
    decreases raw.len(),
{
    if raw.len() > 0 {
        let rest = raw.drop_last();
        lemma_same_ids(rest, luid);
        lemma_same_ids(rest, raw.last().luid);
        let before = first_per_luid(rest);
        let kept = first_per_luid(raw);
        if has_luid(raw, luid) {
            let i = choose|i: int| 0 <= i < raw.len() && (#[trigger] raw[i]).luid == luid;
            if i < rest.len() {
                assert(rest[i].luid == luid);
                assert(has_luid(before, luid));
            }
            if has_luid(before, luid) {
                let k = choose|k: int| 0 <= k < before.len() && (#[trigger] before[k]).luid == luid;
                assert(kept[k].luid == luid);
            } else {
                assert(kept[kept.len() - 1].luid == luid);
            }
        }
        if has_luid(kept, luid) {
            let k = choose|k: int| 0 <= k < kept.len() && (#[trigger] kept[k]).luid == luid;
            if k < before.len() {
                assert(before[k].luid == luid);
                let i = choose|i: int| 0 <= i < rest.len() && (#[trigger] rest[i]).luid == luid;
                assert(raw[i].luid == luid);
            } else {
                assert(raw[raw.len() - 1].luid == luid);
            }
        }
    }
}

/// The order of speed is that of the list: an adapter comes behind those that were listed before
/// it, once, and software never.
pub proof fn the_ranking_keeps_the_order(descs: Seq<Option<AdapterDesc>>, next: Option<AdapterDesc>)
    ensures
        ({
            let before = ranked_luids(descs);
            let after = ranked_luids(descs.push(next));
            &&& next is None ==> after == before
            &&& next matches Some(desc) ==> {
                let luid = luid_value(desc.luid_high, desc.luid_low);
                &&& desc.flags & 2 != 0 || before.contains(luid) ==> after == before
                &&& desc.flags & 2 == 0 && !before.contains(luid) ==> after == before.push(luid)
            }
            &&& ranked_luids(Seq::empty()).len() == 0
        }),
{
    assert(descs.push(next).drop_last() =~= descs);
}

/// The label of an adapter is its name alone where no other has that name, and its name with its
/// place among its namesakes where there are several.
pub proof fn a_label_counts_the_namesakes(adapters: Seq<GpuAdapter>, i: int)
    requires
        distinct_luids(adapters),
        0 <= i < adapters.len(),
    ensures
        (forall|j: int|
            0 <= j < adapters.len() && j != i ==> lower_text((#[trigger] adapters[j]).name@) != lower_text(
                adapters[i].name@,
            )) ==> display_name(adapters, adapters[i]) == adapters[i].name@,
        (exists|j: int|
            0 <= j < adapters.len() && j != i && lower_text((#[trigger] adapters[j]).name@) == lower_text(
                adapters[i].name@,
            )) ==> exists|n: nat|
            1 <= n <= adapters.len() && display_name(adapters, adapters[i]) == adapters[i].name@ + " (GPU "@
                + #[trigger] decimal(n) + ")"@,
{
    let name = adapters[i].name@;
    let same = namesakes(adapters, name);
    lemma_namesakes(adapters, name, name);
    lemma_namesakes_are_few(adapters, name);
    let k = lemma_first_of_distinct(same, adapters[i].luid);
    if forall|j: int| 0 <= j < adapters.len() && j != i ==> lower_text((#[trigger] adapters[j]).name@) != lower_text(name) {
        if same.len() > 1 {
            let other = if k == 0 {
                1
            } else {
                0int
            };
            assert(has_luid(adapters, same[other].luid));
            lemma_namesakes_share(adapters, name, other);
            let j = choose|j: int| 0 <= j < adapters.len() && #[trigger] adapters[j] == same[other];
            assert(j == i);
            assert(same[other].luid == same[k].luid);
            assert(false);
        }
    }
    if exists|j: int| 0 <= j < adapters.len() && j != i && lower_text((#[trigger] adapters[j]).name@) == lower_text(name) {
        let j = choose|j: int|
            0 <= j < adapters.len() && j != i && lower_text((#[trigger] adapters[j]).name@) == lower_text(name);
        assert(shares_name(adapters[j], name));
        let m = lemma_first_of_distinct(same, adapters[j].luid);
        assert(adapters[i].luid != adapters[j].luid);
        assert(m != k);
        assert(same.len() > 1);
        let n: nat = (k + 1) as nat;
        assert(display_name(adapters, adapters[i]) == name + " (GPU "@ + decimal(n) + ")"@);
    }
}

proof fn lemma_namesakes_are_few(adapters: Seq<GpuAdapter>, name: Seq<char>)
    ensures
        namesakes(adapters, name).len() <= adapters.len(),
    decreases adapters.len(),
{
    if adapters.len() > 0 {
        lemma_namesakes_are_few(adapters.drop_last(), name);
    }
}

proof fn lemma_namesakes_share(adapters: Seq<GpuAdapter>, name: Seq<char>, k: int)
    requires
        0 <= k < namesakes(adapters, name).len(),
    ensures
        shares_name(namesakes(adapters, name)[k], name),
        exists|j: int| 0 <= j < adapters.len() && #[trigger] adapters[j] == namesakes(adapters, name)[k],
    decreases adapters.len(),
{
    if adapters.len() > 0 {
        let rest = adapters.drop_last();
        let before = namesakes(rest, name);
        if k < before.len() {
            lemma_namesakes_share(rest, name, k);
            let j = choose|j: int| 0 <= j < rest.len() && #[trigger] rest[j] == before[k];
            assert(adapters[j] == rest[j]);
            assert(namesakes(adapters, name)[k] == before[k]);
        } else {
            assert(adapters[adapters.len() - 1] == namesakes(adapters, name)[k]);
        }
    }
}

/// An adapter is known to the system by the numbers of its maker, its model and its board, in
/// capital hexadecimal digits; adapters that differ in one of them are known by other texts.
pub proof fn the_preference_names_the_model(a: GpuAdapter)
    ensures
        preference_value(a) == "SpecificAdapter="@ + (hexadecimal(a.vendor_id as nat, 4, true) + "&"@ + hexadecimal(
            a.pci_device_id as nat,
            4,
            true,
        ) + "&"@ + hexadecimal(a.subsys_id as nat, 8, true)) + ";GpuPreference="@ + decimal(1073741824) + ";"@,
{
}

/// The stored bytes are units, the low byte first, and the text ends at its zero or where the
/// system says that the bytes end.
pub proof fn stored_bytes_are_units(bytes: Seq<u8>, i: int)
    requires
        0 <= i < bytes.len() / 2,
    ensures
        le_units(bytes).len() == bytes.len() / 2,
        le_units(bytes)[i] % 256 == bytes[2 * i],
        le_units(bytes)[i] / 256 == bytes[2 * i + 1],
{
}

/// The list of a driver is that of its real adapters, in its order, each with what it says of itself
/// and with its place as its number.
pub proof fn the_list_is_that_of_the_real_adapters(raw: Seq<GpuAdapter>, descs: Seq<Option<AdapterDesc>>, i: int)
    requires
        lists_physical(raw, descs),
        0 <= i < raw.len(),
    ensures
        raw.len() == physical_positions(descs).len(),
        ({
            let at = physical_positions(descs)[i];
            &&& descs[at] is Some
            &&& descs[at]->0.flags & 2 == 0
            &&& raw[i].device_id == at as i32
            &&& raw[i].luid == luid_value(descs[at]->0.luid_high, descs[at]->0.luid_low)
            &&& raw[i].name@ == trimmed(utf16_lossy(before_zero(descs[at]->0.description@)))
            &&& raw[i].vendor_id == descs[at]->0.vendor_id
            &&& raw[i].pci_device_id == descs[at]->0.device_id
            &&& raw[i].subsys_id == descs[at]->0.subsys_id
            &&& raw[i].revision == descs[at]->0.revision
            &&& raw[i].dedicated_video_memory == descs[at]->0.dedicated_video_memory
        }),
{
    let at = physical_positions(descs)[i];
    assert(is_adapter_of(at, descs[at], raw[i]));
}

/// A stored preference is read up to its zero, and no further than the system says that it goes.
pub proof fn a_stored_preference_is_read(data: Seq<u8>, reported: int)
    requires
        reported >= 0,
    ensures
        reported >= data.len() ==> preference_text(data, reported) == utf16_lossy(before_zero(le_units(data))),
        reported < data.len() ==> preference_text(data, reported) == preference_text(data.take(reported), reported),
{
    assert(data.take(data.len() as int) =~= data);
    if reported < data.len() {
        let part = data.take(reported);
        assert(part.take(part.len() as int) =~= part);
    }
}

} // verus!
