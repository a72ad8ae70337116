//! The map from addresses to results that the master fills while responses
//! arrive.

use vstd::prelude::*;
use std::collections::HashMap;
use vstd::std_specs::iter::IteratorSpec;
use crate::common::{ModbusAddress, ModbusResult};

verus! {

broadcast use vstd::std_specs::hash::group_hash_axioms;

/// What the master has learnt so far: at most one result per address.
///
/// The results are kept under the addresses' keys; every key in the table is
/// the key of an address.
pub struct ModbusResultMap {
    entries: HashMap<u32, ModbusResult>,
}

impl View for ModbusResultMap {
    type V = Map<ModbusAddress, ModbusResult>;

    closed spec fn view(&self) -> Map<ModbusAddress, ModbusResult> {
        Map::new(
            |address: ModbusAddress| self.entries@.contains_key(address.key() as u32),
            |address: ModbusAddress| self.entries@[address.key() as u32],
        )
    }
}

impl ModbusResultMap {
    /// Every key in the table is the key of an address. `new` establishes
    /// this and every method keeps it.
    pub closed spec fn well_formed(self) -> bool {
        forall|key: u32| #[trigger]
            self.entries@.contains_key(key) ==> ModbusAddress::of_key(key as int) is Some
    }

    /// A map without results.
    pub fn new() -> (results: Self)
        ensures
            results.well_formed(),
            results@ == Map::<ModbusAddress, ModbusResult>::empty(),
    {
        let results = ModbusResultMap { entries: HashMap::new() };
        assert(results@ =~= Map::<ModbusAddress, ModbusResult>::empty());
        results
    }

    /// Records `result` for `address`, in place of any earlier result for it.
    pub fn insert(&mut self, address: ModbusAddress, result: ModbusResult)
        requires
            old(self).well_formed(),
        ensures
            final(self).well_formed(),
            final(self)@ == old(self)@.insert(address, result),
    {
        proof {
            ModbusAddress::lemma_key_round_trip(address, 0);
        }
        let key = address.to_key();
        self.entries.insert(key, result);
        proof {
            assert forall|other: ModbusAddress| other != address implies other.key() as u32
                != key by {
                ModbusAddress::lemma_key_order(other, address);
                ModbusAddress::lemma_key_round_trip(other, 0);
            }
            assert(self@ =~= old(self)@.insert(address, result));
        }
    }

    /// The result recorded for `address`, if there is one.
    pub fn get(&self, address: &ModbusAddress) -> (result: Option<ModbusResult>)
        ensures
            result == if self@.contains_key(*address) {
                Some(self@[*address])
            } else {
                None
            },
    {
        let key = address.to_key();
        match self.entries.get(&key) {
            Some(result) => Some(*result),
            None => None,
        }
    }

    /// Whether a result is recorded for `address`.
    pub fn contains_key(&self, address: &ModbusAddress) -> (present: bool)
        ensures
            present == self@.contains_key(*address),
    {
        let key = address.to_key();
        self.entries.contains_key(&key)
    }

    /// The set of keys in the table is the image of the set of addresses
    /// with a result, and no two of those addresses share a key.
    proof fn lemma_keys_mirror_addresses(self)
        requires
            self.well_formed(),
        ensures
            self@.dom().finite(),
            self@.dom().len() == self.entries@.dom().len(),
    {
        let keys = self.entries@.dom();
        let decode = |key: u32| ModbusAddress::of_key(key as int)->Some_0;
        assert forall|k1: u32, k2: u32|
            keys.contains(k1) && keys.contains(k2) && #[trigger] decode(k1) == #[trigger] decode(
                k2,
            ) implies k1 == k2 by {
            ModbusAddress::lemma_key_round_trip(decode(k1), k1 as int);
            ModbusAddress::lemma_key_round_trip(decode(k2), k2 as int);
        }
        assert forall|address: ModbusAddress| #[trigger]
            keys.map(decode).contains(address) implies self@.dom().contains(address) by {
            let key = choose|key: u32| keys.contains(key) && decode(key) == address;
            ModbusAddress::lemma_key_round_trip(address, key as int);
        }
        assert forall|address: ModbusAddress| #[trigger]
            self@.dom().contains(address) implies keys.map(decode).contains(address) by {
            ModbusAddress::lemma_key_round_trip(address, 0);
            assert(keys.contains(address.key() as u32));
            assert(decode(address.key() as u32) == address);
        }
        assert(keys.map(decode) =~= self@.dom());
        vstd::set_lib::lemma_map_size(keys, self@.dom(), decode);
    }

    /// The number of addresses with a result.
    pub fn len(&self) -> (count: usize)
        requires
            self.well_formed(),
        ensures
            self@.dom().finite(),
            count == self@.dom().len(),
    {
        proof {
            self.lemma_keys_mirror_addresses();
        }
        self.entries.len()
    }

    /// Whether no address has a result.
    pub fn is_empty(&self) -> (empty: bool)
        requires
            self.well_formed(),
        ensures
            empty == (self@ == Map::<ModbusAddress, ModbusResult>::empty()),
    {
        proof {
            self.lemma_keys_mirror_addresses();
            if self@.dom().len() == 0 {
                assert(self@ =~= Map::<ModbusAddress, ModbusResult>::empty());
            }
        }
        self.entries.len() == 0
    }

    /// Every address with a result, each once and with its result, in no
    /// particular order.
    pub fn entries(&self) -> (list: Vec<(ModbusAddress, ModbusResult)>)
        requires
            self.well_formed(),
        ensures
            list@.len() == self@.dom().len(),
            forall|i: int|
                0 <= i < list@.len() ==> #[trigger] self@.contains_pair(list@[i].0, list@[i].1),
            forall|i: int, j: int|
                0 <= i < j < list@.len() ==> list@[i].0 != list@[j].0,
            forall|address: ModbusAddress|
                self@.contains_key(address) ==> exists|i: int|
                    0 <= i < list@.len() && #[trigger] list@[i].0 == address,
    {
        proof {
            self.lemma_keys_mirror_addresses();
        }
        let mut list: Vec<(ModbusAddress, ModbusResult)> = Vec::new();
        let ghost keys = vstd::std_specs::hash::spec_keys_iter(&self.entries).remaining();
        for key in it: self.entries.keys()
            invariant
                it.seq() == keys,
                keys.no_duplicates(),
                keys.unref().to_set() == self.entries@.dom(),
                self.well_formed(),
                list@.len() == it.index(),
                forall|i: int|
                    0 <= i < list@.len() ==> {
                        &&& (#[trigger] list@[i]).0.key() == *keys[i]
                        &&& self.entries@[*keys[i]] == list@[i].1
                    },
        {
            assert(keys.unref()[it.index()] == *key);
            assert(self.entries@.dom().contains(*key));
            let address = ModbusAddress::from_key(*key);
            let result = self.entries.get(key);
            proof {
                ModbusAddress::lemma_key_round_trip(address->Some_0, *key as int);
            }
            match (address, result) {
                (Some(address), Some(result)) => {
                    list.push((address, *result));
                },
                _ => {},
            }
        }
        proof {
            assert forall|i: int| 0 <= i < list@.len() implies #[trigger] self@.contains_pair(
                list@[i].0,
                list@[i].1,
            ) by {
                assert(keys.unref()[i] == *keys[i]);
                assert(self.entries@.dom().contains(*keys[i]));
            }
            assert forall|address: ModbusAddress| self@.contains_key(address) implies exists|
                i: int,
            |
                0 <= i < list@.len() && #[trigger] list@[i].0 == address by {
                let key = address.key() as u32;
                ModbusAddress::lemma_key_round_trip(address, 0);
                assert(keys.unref().to_set().contains(key));
                let i = choose|i: int| 0 <= i < keys.unref().len() && keys.unref()[i] == key;
                ModbusAddress::lemma_key_order(list@[i].0, address);
                ModbusAddress::lemma_key_round_trip(list@[i].0, 0);
                assert(list@[i].0 == address);
            }
        }
        list
    }
}

} // verus!
