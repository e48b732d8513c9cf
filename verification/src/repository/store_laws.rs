use vstd::prelude::*;

use crate::domain::DeviceView;
use crate::repository::device_repository::{is_listing, lookup, stored};

verus! {

/// The contents after the devices of `devices` were stored one after the
/// other, the first of them first.
pub open spec fn stored_all(records: Map<u128, DeviceView>, devices: Seq<DeviceView>) -> Map<
    u128,
    DeviceView,
>
    decreases devices.len(),
{
    if devices.len() == 0 {
        records
    } else {
        stored(stored_all(records, devices.drop_last()), devices.last())
    }
}

/// Whether no two devices of `devices` share an identifier.
pub open spec fn distinct_ids(devices: Seq<DeviceView>) -> bool {
    forall|i: int, j: int|
        0 <= i < j < devices.len() ==> (#[trigger] devices[i]).id != (#[trigger] devices[j]).id
}

/// A device that was just stored is found under its identifier, equal to what
/// was stored.
pub proof fn lemma_created_device_is_found(records: Map<u128, DeviceView>, device: DeviceView)
    ensures
        lookup(stored(records, device), device.id) == Some(device),
{
}

/// A stored device is still found, unchanged, after any number of later
/// stores, as long as none of them reuses its identifier.
pub proof fn lemma_device_found_after_creates(
    records: Map<u128, DeviceView>,
    devices: Seq<DeviceView>,
    i: int,
)
    requires
        0 <= i < devices.len(),
        forall|j: int| i < j < devices.len() ==> (#[trigger] devices[j]).id != devices[i].id,
    ensures
        lookup(stored_all(records, devices), devices[i].id) == Some(devices[i]),
    decreases devices.len(),
{
    if i < devices.len() - 1 {
        let earlier = devices.drop_last();
        assert(devices.last() == devices[devices.len() - 1]);
        assert forall|j: int| i < j < earlier.len() implies (#[trigger] earlier[j]).id
            != earlier[i].id by {
            assert(earlier[j] == devices[j]);
        }
        lemma_device_found_after_creates(records, earlier, i);
    }
}

/// Looking up an identifier that none of the stored devices carries gives
/// what it gave before they were stored.
pub proof fn lemma_other_ids_are_untouched(
    records: Map<u128, DeviceView>,
    devices: Seq<DeviceView>,
    id: u128,
)
    requires
        forall|i: int| 0 <= i < devices.len() ==> (#[trigger] devices[i]).id != id,
    ensures
        lookup(stored_all(records, devices), id) == lookup(records, id),
    decreases devices.len(),
{
    if devices.len() > 0 {
        let earlier = devices.drop_last();
        assert(devices.last() == devices[devices.len() - 1]);
        assert forall|i: int| 0 <= i < earlier.len() implies (#[trigger] earlier[i]).id != id by {
            assert(earlier[i] == devices[i]);
        }
        lemma_other_ids_are_untouched(records, earlier, id);
    }
}

/// In a store that was filled from empty, an identifier that was never
/// inserted is absent.
pub proof fn lemma_never_inserted_is_absent(devices: Seq<DeviceView>, id: u128)
    requires
        forall|i: int| 0 <= i < devices.len() ==> (#[trigger] devices[i]).id != id,
    ensures
        lookup(stored_all(Map::empty(), devices), id) is None,
{
    lemma_other_ids_are_untouched(Map::empty(), devices, id);
}

/// A record of a store that was filled from empty is one of the devices that
/// were stored.
pub proof fn lemma_record_was_created(devices: Seq<DeviceView>, id: u128)
    requires
        stored_all(Map::empty(), devices).contains_key(id),
    ensures
        exists|i: int|
            0 <= i < devices.len() && #[trigger] devices[i] == stored_all(
                Map::empty(),
                devices,
            )[id],
    decreases devices.len(),
{
    if devices.len() > 0 {
        let earlier = devices.drop_last();
        let last = devices.len() - 1;
        assert(devices.last() == devices[last]);
        if devices[last].id != id {
            lemma_record_was_created(earlier, id);
            let i = choose|i: int|
                0 <= i < earlier.len() && #[trigger] earlier[i] == stored_all(
                    Map::empty(),
                    earlier,
                )[id];
            assert(devices[i] == earlier[i]);
        }
    }
}

/// After devices with distinct identifiers were stored into an empty store,
/// the store holds as many records as devices were stored.
pub proof fn lemma_record_count(devices: Seq<DeviceView>)
    requires
        distinct_ids(devices),
    ensures
        stored_all(Map::empty(), devices).dom().finite(),
        stored_all(Map::empty(), devices).dom().len() == devices.len(),
    decreases devices.len(),
{
    if devices.len() > 0 {
        let earlier = devices.drop_last();
        let last = devices.last();
        assert(last == devices[devices.len() - 1]);
        assert forall|i: int, j: int| 0 <= i < j < earlier.len() implies (#[trigger] earlier[i]).id
            != (#[trigger] earlier[j]).id by {
            assert(earlier[i] == devices[i]);
            assert(earlier[j] == devices[j]);
        }
        lemma_record_count(earlier);
        assert forall|i: int| 0 <= i < earlier.len() implies (#[trigger] earlier[i]).id
            != last.id by {
            assert(earlier[i] == devices[i]);
        }
        lemma_never_inserted_is_absent(earlier, last.id);
        let before = stored_all(Map::empty(), earlier);
        assert(stored_all(Map::empty(), devices).dom() =~= before.dom().insert(last.id));
    } else {
        assert(stored_all(Map::empty(), devices).dom() =~= Set::<u128>::empty());
    }
}

/// A listing taken after `N` devices with distinct identifiers were stored
/// into an empty store holds exactly `N` records, and these are the devices
/// that were stored, each equal to its created value, in whatever order.
pub proof fn lemma_listing_after_distinct_creates(
    devices: Seq<DeviceView>,
    listing: Seq<DeviceView>,
)
    requires
        distinct_ids(devices),
        is_listing(listing, stored_all(Map::empty(), devices)),
    ensures
        listing.len() == devices.len(),
        listing.to_set() == devices.to_set(),
        listing.no_duplicates(),
{
    let records = stored_all(Map::empty(), devices);
    lemma_record_count(devices);
    assert forall|d: DeviceView| listing.to_set().contains(d) implies devices.to_set().contains(
        d,
    ) by {
        let i = choose|i: int| 0 <= i < listing.len() && listing[i] == d;
        assert(lookup(records, listing[i].id) == Some(listing[i]));
        lemma_record_was_created(devices, d.id);
    }
    assert forall|d: DeviceView| devices.to_set().contains(d) implies listing.to_set().contains(
        d,
    ) by {
        let k = choose|k: int| 0 <= k < devices.len() && devices[k] == d;
        lemma_device_found_after_creates(Map::empty(), devices, k);
        assert(records.contains_key(d.id));
        let i = choose|i: int| 0 <= i < listing.len() && (#[trigger] listing[i]).id == d.id;
        assert(lookup(records, listing[i].id) == Some(listing[i]));
    }
    assert(listing.to_set() =~= devices.to_set());
}

/// Stores of devices with different identifiers commute: whichever of two
/// creations completes first, the store ends up the same.
pub proof fn lemma_creates_commute(
    records: Map<u128, DeviceView>,
    one: DeviceView,
    other: DeviceView,
)
    requires
        one.id != other.id,
    ensures
        stored(stored(records, one), other) == stored(stored(records, other), one),
{
    assert(stored(stored(records, one), other) =~= stored(stored(records, other), one));
}

/// No write is lost, whatever the order: two runs that store the same devices
/// with distinct identifiers, each in its own order, end with the same
/// contents, and every one of the devices is found in them.
pub proof fn lemma_creation_order_is_irrelevant(
    records: Map<u128, DeviceView>,
    first: Seq<DeviceView>,
    second: Seq<DeviceView>,
)
    requires
        distinct_ids(first),
        distinct_ids(second),
        first.to_set() == second.to_set(),
    ensures
        stored_all(records, first) == stored_all(records, second),
        forall|i: int|
            0 <= i < first.len() ==> lookup(
                stored_all(records, second),
                (#[trigger] first[i]).id,
            ) == Some(first[i]),
{
    let a = stored_all(records, first);
    let b = stored_all(records, second);
    assert forall|id: u128| lookup(a, id) == lookup(b, id) by {
        if exists|i: int| 0 <= i < first.len() && (#[trigger] first[i]).id == id {
            let i = choose|i: int| 0 <= i < first.len() && (#[trigger] first[i]).id == id;
            lemma_device_found_after_creates(records, first, i);
            assert(first.to_set().contains(first[i]));
            assert(second.to_set().contains(first[i]));
            let k = choose|k: int| 0 <= k < second.len() && second[k] == first[i];
            lemma_device_found_after_creates(records, second, k);
        } else {
            assert forall|k: int| 0 <= k < second.len() implies (#[trigger] second[k]).id
                != id by {
                if second[k].id == id {
                    assert(second.to_set().contains(second[k]));
                    assert(first.to_set().contains(second[k]));
                    let i = choose|i: int| 0 <= i < first.len() && first[i] == second[k];
                    assert(first[i].id == id);
                }
            }
            lemma_other_ids_are_untouched(records, first, id);
            lemma_other_ids_are_untouched(records, second, id);
        }
    }
    assert forall|id: u128| a.contains_key(id) == b.contains_key(id) by {
        assert(lookup(a, id) == lookup(b, id));
    }
    assert forall|id: u128| a.contains_key(id) implies a[id] == b[id] by {
        assert(lookup(a, id) == lookup(b, id));
    }
    assert(a =~= b);
    assert forall|i: int| 0 <= i < first.len() implies lookup(b, (#[trigger] first[i]).id) == Some(
        first[i],
    ) by {
        lemma_device_found_after_creates(records, first, i);
    }
}

} // verus!
