//! Who a slave talks to: the slave ids it answers for, the peers it
//! accepts, and how long a connection may stay silent.

use vstd::prelude::*;
use std::collections::HashSet;
use std::sync::Arc;
use crate::common::SlaveId;

verus! {

broadcast use vstd::std_specs::hash::group_hash_axioms;

/// The IP address of a peer as a number: 32 bits for version 4, 128 bits
/// for version 6, most significant byte first. A version 4 address and a
/// version 6 address are never the same peer.
#[derive(Clone, Copy, PartialEq, Eq, Debug, Structural)]
pub enum PeerIp {
    V4(u32),
    V6(u128),
}

/// The settings of a serving slave.
///
/// A list of allowed slave ids, where there is one, limits the queries that
/// are answered; a list of allowed peers, where there is one, limits the
/// connections that are accepted. The time to live is how long, in
/// milliseconds, a connection may stay without data before it is closed.
pub struct ModbusSlaveConnectionParameters {
    pub allowed_slaves: Arc<Option<HashSet<SlaveId>>>,
    pub allowed_ip_address: Option<Vec<PeerIp>>,
    pub connection_time_to_live_ms: u64,
}

/// Whether a list of allowed slave ids lets a query for `slave_id` through.
/// Without a list every slave id is let through.
pub open spec fn admits(allowed_slaves: Option<HashSet<SlaveId>>, slave_id: SlaveId) -> bool {
    match allowed_slaves {
        Some(allowed) => allowed@.contains(slave_id),
        None => true,
    }
}

/// Tests a slave id against a list of allowed slave ids.
pub fn is_slave_allowed(allowed_slaves: &Option<HashSet<SlaveId>>, slave_id: SlaveId) -> (allowed:
    bool)
    ensures
        allowed == admits(*allowed_slaves, slave_id),
{
    match allowed_slaves {
        Some(allowed) => allowed.contains(&slave_id),
        None => true,
    }
}

impl ModbusSlaveConnectionParameters {
    /// Whether a query for `slave_id` is answered.
    pub open spec fn admits_slave(&self, slave_id: SlaveId) -> bool {
        admits(*self.allowed_slaves, slave_id)
    }

    /// Whether a connection from `peer` is accepted. Without a list of
    /// allowed peers every peer is accepted.
    pub open spec fn admits_peer(&self, peer: PeerIp) -> bool {
        match self.allowed_ip_address {
            Some(allowed) => allowed@.contains(peer),
            None => true,
        }
    }

    /// The settings with the given lists, each slave id and peer once however
    /// often the lists name it.
    pub fn new(
        allowed_slaves: Option<Vec<SlaveId>>,
        allowed_ip_address: Option<Vec<PeerIp>>,
        connection_time_to_live_ms: u64,
    ) -> (parameters: Self)
        ensures
            match allowed_slaves {
                Some(list) => *parameters.allowed_slaves is Some
                    && parameters.allowed_slaves->Some_0@ == list@.to_set(),
                None => *parameters.allowed_slaves is None,
            },
            parameters.allowed_ip_address == allowed_ip_address,
            parameters.connection_time_to_live_ms == connection_time_to_live_ms,
    {
        let allowed_slaves = match allowed_slaves {
            Some(list) => {
                let mut set: HashSet<SlaveId> = HashSet::new();
                let mut index: usize = 0;
                assert(list@.take(0).to_set() =~= Set::<SlaveId>::empty());
                while index < list.len()
                    invariant
                        index <= list.len(),
                        set@ == list@.take(index as int).to_set(),
                    decreases list.len() - index,
                {
                    set.insert(list[index]);
                    index += 1;
                    assert(list@.take(index as int) =~= list@.take(index as int - 1).push(
                        list@[index as int - 1],
                    ));
                    assert(set@ =~= list@.take(index as int).to_set()) by {
                        let longer = list@.take(index as int);
                        let shorter = list@.take(index as int - 1);
                        assert forall|id: SlaveId| longer.to_set().contains(id) implies set@.contains(
                            id,
                        ) by {
                            let i = choose|i: int| 0 <= i < longer.len() && longer[i] == id;
                            if i < shorter.len() {
                                assert(shorter[i] == id);
                                assert(shorter.to_set().contains(id));
                            }
                        }
                        assert forall|id: SlaveId| set@.contains(id) implies longer.to_set().contains(
                            id,
                        ) by {
                            if shorter.to_set().contains(id) {
                                let i = choose|i: int| 0 <= i < shorter.len() && shorter[i] == id;
                                assert(longer[i] == id);
                            } else {
                                assert(longer[index as int - 1] == id);
                            }
                        }
                    }
                }
                assert(list@.take(index as int) =~= list@);
                Some(set)
            },
            None => None,
        };
        Self {
            allowed_slaves: Arc::new(allowed_slaves),
            allowed_ip_address,
            connection_time_to_live_ms,
        }
    }

    /// The settings of a slave that answers every slave id, accepts every
    /// peer and closes a connection after ten seconds without data.
    pub fn open_to_all() -> (parameters: Self)
        ensures
            *parameters.allowed_slaves is None,
            parameters.allowed_ip_address is None,
            parameters.connection_time_to_live_ms == 10_000,
    {
        Self::new(None, None, 10_000)
    }

    /// Tests the slave id of a query against the list of allowed slave ids.
    pub fn is_slave_allowed(&self, slave_id: SlaveId) -> (allowed: bool)
        ensures
            allowed == self.admits_slave(slave_id),
    {
        is_slave_allowed(&*self.allowed_slaves, slave_id)
    }

    /// Tests the address of a peer against the list of allowed peers.
    pub fn is_peer_allowed(&self, peer: &PeerIp) -> (allowed: bool)
        ensures
            allowed == self.admits_peer(*peer),
    {
        match &self.allowed_ip_address {
            None => true,
            Some(list) => {
                let mut index: usize = 0;
                while index < list.len()
                    invariant
                        index <= list.len(),
                        self.allowed_ip_address == Some(*list),
                        forall|i: int| 0 <= i < index ==> list@[i] != *peer,
                    decreases list.len() - index,
                {
                    if list[index] == *peer {
                        return true;
                    }
                    index += 1;
                }
                false
            },
        }
    }
}

} // verus!
