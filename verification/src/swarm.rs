use vstd::prelude::*;

verus! {

/// The peers a client has connected to, by their encoded peer IDs, in the
/// order the connections were made. Requests go to the first of them.
pub struct PeerRouter {
    peers: Vec<Vec<u8>>,
}

impl View for PeerRouter {
    type V = Seq<Seq<u8>>;

    closed spec fn view(&self) -> Seq<Seq<u8>> {
        self.peers@.map_values(|p: Vec<u8>| p@)
    }
}

impl PeerRouter {
    /// No peer connected yet.
    pub fn new() -> (r: PeerRouter)
        ensures
            r@ == Seq::<Seq<u8>>::empty(),
    {
        let r = PeerRouter { peers: Vec::new() };
        assert(r@ =~= Seq::<Seq<u8>>::empty());
        r
    }

    /// A connection with `peer` was established.
    pub fn on_connection_established(&mut self, peer: Vec<u8>)
        ensures
            final(self)@ == old(self)@.push(peer@),
    {
        let ghost p = peer@;
        self.peers.push(peer);
        assert(self@ =~= old(self)@.push(p));
    }

    /// Where a request goes: the first peer connected, or nowhere yet, in
    /// which case the request waits for a connection.
    pub fn route(&self) -> (r: Option<Vec<u8>>)
        ensures
            self@.len() == 0 ==> r is None,
            self@.len() > 0 ==> (r matches Some(p) && p@ == self@[0]),
    {
        if self.peers.len() == 0 {
            None
        } else {
            Some(self.peers[0].clone())
        }
    }
}

/// Once a peer is connected, every request goes to the first peer that
/// connected, whatever connects later.
pub proof fn lemma_route_stays_with_first_peer(peers: Seq<Seq<u8>>, later: Seq<u8>)
    requires
        peers.len() > 0,
    ensures
        peers.push(later)[0] == peers[0],
{
}

} // verus!
