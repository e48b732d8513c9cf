use std::collections::HashMap;
use vstd::prelude::*;
use vstd::std_specs::hash::*;
use vstd::std_specs::iter::IteratorSpec;

use crate::domain::{Device, DeviceView};
use crate::repository::device_repository::{device_views, lookup, stored};
use crate::repository::{DeviceRepository, StoreError};

verus! {

broadcast use vstd::std_specs::hash::group_hash_axioms;

/// A volatile device store: a hash map from identifier to device.
pub struct InMemoryDeviceRepository {
    store: HashMap<u128, Device>,
}

impl InMemoryDeviceRepository {
    /// An empty store.
    pub fn new() -> (repository: Self)
        ensures
            repository.inv(),
            repository.records() == Map::<u128, DeviceView>::empty(),
    {
        let repository = InMemoryDeviceRepository { store: HashMap::new() };
        assert(repository.records() =~= Map::<u128, DeviceView>::empty());
        repository
    }
}

impl Default for InMemoryDeviceRepository {
    fn default() -> (repository: Self)
        ensures
            repository.inv(),
            repository.records() == Map::<u128, DeviceView>::empty(),
    {
        InMemoryDeviceRepository::new()
    }
}

impl DeviceRepository for InMemoryDeviceRepository {
    closed spec fn records(&self) -> Map<u128, DeviceView> {
        self.store@.map_values(|device: Device| device@)
    }

    closed spec fn inv(&self) -> bool {
        forall|id: u128| #[trigger]
            self.store@.contains_key(id) ==> self.store@[id].id == id
                && self.store@[id].well_formed()
    }

    open spec fn infallible() -> bool {
        true
    }

    proof fn lemma_records_valid(&self) {
        assert(self.records().dom() =~= self.store@.dom());
    }

    fn create(&mut self, device: Device) -> (result: Result<Device, StoreError>) {
        let key = device.id;
        let copy = device.clone();
        self.store.insert(key, copy);
        assert(self.records() =~= stored(old(self).records(), device@));
        Ok(device)
    }

    fn find_by_id(&self, id: u128) -> (result: Result<Option<Device>, StoreError>) {
        match self.store.get(&id) {
            Some(device) => Ok(Some(device.clone())),
            None => Ok(None),
        }
    }

    fn list(&self) -> (result: Result<Vec<Device>, StoreError>) {
        let mut devices: Vec<Device> = Vec::new();
        let ghost entries = self.store.iter().remaining();
        for entry in it: self.store.iter()
            invariant
                it.seq() == entries,
                devices@.len() == it.index(),
                forall|i: int| 0 <= i < devices@.len() ==> devices@[i] == *(#[trigger] entries[i]).1,
        {
            let (_, device) = entry;
            devices.push(device.clone());
        }
        proof {
            let listing = device_views(devices@);
            let records = self.records();
            assert(records.dom() =~= self.store@.dom());
            assert forall|i: int| 0 <= i < listing.len() implies lookup(
                records,
                (#[trigger] listing[i]).id,
            ) == Some(listing[i]) by {
                assert(self.store@.contains_key(*entries[i].0));
            }
            assert forall|i: int, j: int| 0 <= i < j < listing.len() implies (#[trigger] listing[i]).id
                != (#[trigger] listing[j]).id by {
                assert(self.store@.contains_key(*entries[i].0));
                assert(self.store@.contains_key(*entries[j].0));
                if listing[i].id == listing[j].id {
                    assert(entries[i] == entries[j]);
                }
            }
            assert forall|id: u128| #[trigger] records.contains_key(id) implies exists|i: int|
                0 <= i < listing.len() && (#[trigger] listing[i]).id == id by {
                assert(self.store@.contains_key(id));
                let entry = (&id, &self.store@[id]);
                assert(entries.contains(entry));
                let i = choose|i: int| 0 <= i < entries.len() && entries[i] == entry;
                assert(listing[i].id == id);
            }
        }
        Ok(devices)
    }
}

} // verus!
