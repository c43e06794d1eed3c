use vstd::prelude::*;

verus! {

/// The address of a peer, as the connection limit tells peers apart.
#[derive(Debug, Clone, Copy, PartialEq, Eq, Structural)]
pub enum PeerAddress {
    V4(u32),
    V6(u128),
}

/// The addresses that currently hold an open connection.
#[derive(Debug)]
pub struct ConnectedPeers {
    addresses: Vec<PeerAddress>,
}

impl View for ConnectedPeers {
    type V = Set<PeerAddress>;

    closed spec fn view(&self) -> Set<PeerAddress> {
        self.addresses@.to_set()
    }
}

/// Whether a new connection from `address` is refused when `peers` hold
/// open connections: only where the limit is on and the address holds one.
pub open spec fn refused(peers: Set<PeerAddress>, limit_enabled: bool, address: PeerAddress) -> bool {
    limit_enabled && peers.contains(address)
}

impl ConnectedPeers {
    /// No peer is connected.
    pub fn new() -> (r: ConnectedPeers)
        ensures
            r@ == Set::<PeerAddress>::empty(),
    {
        let r = ConnectedPeers { addresses: Vec::new() };
        assert(r@ =~= Set::<PeerAddress>::empty());
        r
    }

    /// Whether `address` holds an open connection.
    pub fn contains(&self, address: PeerAddress) -> (r: bool)
        ensures
            r == self@.contains(address),
    {
        let mut i: usize = 0;
        while i < self.addresses.len()
            invariant
                0 <= i <= self.addresses@.len(),
                forall|j: int| 0 <= j < i ==> self.addresses@[j] != address,
            decreases self.addresses@.len() - i,
        {
            if self.addresses[i] == address {
                assert(self.addresses@.contains(address));
                return true;
            }
            i = i + 1;
        }
        false
    }

    /// Whether a new connection from `address` is refused: where the limit of
    /// one connection per address is on and the address already holds one.
    pub fn should_refuse(&self, limit_enabled: bool, address: PeerAddress) -> (r: bool)
        ensures
            r == refused(self@, limit_enabled, address),
    {
        limit_enabled && self.contains(address)
    }

    /// Records that `address` holds an open connection.
    pub fn insert(&mut self, address: PeerAddress)
        ensures
            final(self)@ == old(self)@.insert(address),
    {
        broadcast use vstd::seq_lib::group_seq_properties;
        if !self.contains(address) {
            self.addresses.push(address);
        }
        assert(self@ =~= old(self)@.insert(address));
    }

    /// Records that `address` no longer holds an open connection.
    pub fn remove(&mut self, address: PeerAddress)
        ensures
            final(self)@ == old(self)@.remove(address),
    {
        let ghost all = self.addresses@;
        let mut kept: Vec<PeerAddress> = Vec::new();
        let mut i: usize = 0;
        while i < self.addresses.len()
            invariant
                0 <= i <= all.len(),
                self.addresses@ == all,
                forall|x: PeerAddress|
                    #![trigger kept@.contains(x)]
                    #![trigger all.take(i as int).contains(x)]
                    kept@.contains(x) <==> (x != address && all.take(i as int).contains(x)),
            decreases all.len() - i,
        {
            let a = self.addresses[i];
            let ghost seen = all.take(i as int);
            let ghost before = kept@;
            assert(all.take(i + 1) =~= seen.push(a));
            if a != address {
                kept.push(a);
            }
            assert forall|x: PeerAddress|
                #![trigger kept@.contains(x)]
                #![trigger all.take(i + 1).contains(x)]
                kept@.contains(x) <==> (x != address && all.take(i + 1).contains(x)) by {
                assert(before.contains(x) <==> (x != address && seen.contains(x)));
                vstd::seq_lib::lemma_seq_contains_after_push(seen, a, x);
                vstd::seq_lib::lemma_seq_contains_after_push(before, a, x);
                if a != address {
                    assert(kept@ == before.push(a));
                }
            }
            i = i + 1;
        }
        assert(all.take(i as int) =~= all);
        self.addresses = kept;
        assert(self@ =~= old(self)@.remove(address));
    }
}

/// With the limit on, a second connection from an address that holds one is
/// refused, and once that connection has been released the address is let
/// in again; with the limit off nothing is refused.
pub proof fn law_one_connection_per_address(peers: Set<PeerAddress>, address: PeerAddress, limit_enabled: bool)
    ensures
        refused(peers.insert(address), true, address),
        !refused(peers.insert(address).remove(address), limit_enabled, address),
        !refused(peers, false, address),
{
}

} // verus!
