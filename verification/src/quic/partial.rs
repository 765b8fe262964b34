use vstd::prelude::*;

use std::collections::HashMap;

use crate::quic::response::{header_view, Header};

verus! {

broadcast use vstd::std_specs::hash::group_hash_axioms;

/// A response that could not be sent in one go: the headers still to send,
/// if any, the body, and how much of the body has gone out.
pub struct PartialResponse {
    pub headers: Option<Vec<Header>>,
    pub body: Vec<u8>,
    pub written: usize,
}

/// What became of an attempt to send a response's headers.
#[derive(Clone, Copy, Debug, PartialEq, Eq, Structural)]
pub enum HeadersOutcome {
    Sent,
    /// The stream had no room; try again when it is writable.
    Blocked,
    Failed,
}

/// What became of an attempt to send (the rest of) a response's body.
#[derive(Clone, Copy, Debug, PartialEq, Eq, Structural)]
pub enum BodyOutcome {
    /// This many bytes went out.
    Written(usize),
    /// Nothing could be sent now.
    Done,
    Failed,
}

/// A pending response as plain values: headers still to send, body, bytes
/// of the body already sent.
pub type PendingView = (Option<Seq<(Seq<u8>, Seq<u8>)>>, Seq<u8>, nat);

pub open spec fn headers_view(hs: Option<Vec<Header>>) -> Option<Seq<(Seq<u8>, Seq<u8>)>> {
    match hs {
        Some(v) => Some(v@.map_values(|h: Header| header_view(h))),
        None => None,
    }
}

pub open spec fn pending_view(p: PartialResponse) -> PendingView {
    (headers_view(p.headers), p.body@, p.written as nat)
}

/// How many body bytes an outcome reports sent.
pub open spec fn sent_bytes(o: BodyOutcome) -> nat {
    match o {
        BodyOutcome::Written(n) => n as nat,
        _ => 0,
    }
}

/// No pending response claims more of its body sent than it has.
pub open spec fn within_bounds(m: Map<u64, PendingView>) -> bool {
    forall|k: u64| #[trigger] m.contains_key(k) ==> m[k].2 <= m[k].1.len()
}

/// The responses of one connection that still wait to be sent, by stream.
pub struct PartialResponses {
    responses: HashMap<u64, PartialResponse>,
}

impl View for PartialResponses {
    type V = Map<u64, PendingView>;

    closed spec fn view(&self) -> Map<u64, PendingView> {
        Map::new(
            |k: u64| self.responses@.contains_key(k),
            |k: u64| pending_view(self.responses@[k]),
        )
    }
}

impl PartialResponses {
    #[verifier::type_invariant]
    closed spec fn inv(self) -> bool {
        forall|k: u64| #[trigger]
            self.responses@.contains_key(k) ==> self.responses@[k].written
                <= self.responses@[k].body@.len()
    }

    /// Moves the map out, leaving an empty one in its place.
    fn take_map(&mut self) -> (m: HashMap<u64, PartialResponse>)
        ensures
            m@ == old(self).responses@,
            final(self).responses@ == Map::<u64, PartialResponse>::empty(),
            forall|k: u64| #[trigger] m@.contains_key(k) ==> m@[k].written <= m@[k].body@.len(),
    {
        proof {
            use_type_invariant(&*self);
        }
        let mut m: HashMap<u64, PartialResponse> = HashMap::new();
        std::mem::swap(&mut m, &mut self.responses);
        m
    }

    /// No response is pending.
    pub fn new() -> (r: PartialResponses)
        ensures
            r@ == Map::<u64, PendingView>::empty(),
    {
        let r = PartialResponses { responses: HashMap::new() };
        assert(r@ =~= Map::<u64, PendingView>::empty());
        r
    }

    /// Whether a response waits on `stream_id`.
    pub fn contains(&self, stream_id: u64) -> (r: bool)
        ensures
            r == self@.contains_key(stream_id),
            within_bounds(self@),
    {
        proof {
            use_type_invariant(self);
        }
        self.responses.contains_key(&stream_id)
    }

    /// The response that waits on `stream_id`, if any.
    pub fn get(&self, stream_id: u64) -> (r: Option<&PartialResponse>)
        ensures
            match r {
                Some(p) => self@.contains_key(stream_id) && self@[stream_id] == pending_view(*p),
                None => !self@.contains_key(stream_id),
            },
            within_bounds(self@),
    {
        proof {
            use_type_invariant(self);
        }
        self.responses.get(&stream_id)
    }

    /// The headers of a new response could not be sent: keep the whole
    /// response, nothing of it sent yet.
    pub fn on_response_blocked(&mut self, stream_id: u64, headers: Vec<Header>, body: Vec<u8>)
        ensures
            final(self)@ == old(self)@.insert(
                stream_id,
                (Some(headers@.map_values(|h: Header| header_view(h))), body@, 0nat),
            ),
            within_bounds(final(self)@),
    {
        proof {
            use_type_invariant(&*self);
        }
        let ghost hv = headers_view(Some(headers));
        let mut m = self.take_map();
        m.insert(stream_id, PartialResponse { headers: Some(headers), body, written: 0 });
        self.responses = m;
        assert(self@ =~= old(self)@.insert(stream_id, (hv, body@, 0nat)));
    }

    /// The headers of a new response went out and its body was sent with
    /// `outcome`: keep what is left of the body, if anything is and the send
    /// did not fail.
    pub fn on_body_sent(&mut self, stream_id: u64, body: Vec<u8>, outcome: BodyOutcome)
        requires
            sent_bytes(outcome) <= body@.len(),
        ensures
            outcome != BodyOutcome::Failed && sent_bytes(outcome) < body@.len() ==> final(self)@
                == old(self)@.insert(stream_id, (None, body@, sent_bytes(outcome))),
            outcome == BodyOutcome::Failed || sent_bytes(outcome) == body@.len() ==> final(self)@
                == old(self)@,
            within_bounds(final(self)@),
    {
        proof {
            use_type_invariant(&*self);
        }
        let written: usize = match outcome {
            BodyOutcome::Written(n) => n,
            BodyOutcome::Done => 0,
            BodyOutcome::Failed => {
                return;
            },
        };
        if written < body.len() {
            let ghost bv = body@;
            let mut m = self.take_map();
            m.insert(stream_id, PartialResponse { headers: None, body, written });
            self.responses = m;
            assert(self@ =~= old(self)@.insert(stream_id, (None, bv, written as nat)));
        }
    }

    /// Stream `stream_id` became writable and the pending headers, if there
    /// were any, were sent with `outcome`. Gives whether to go on with the
    /// body: only if a response waits there and its headers are out, which
    /// are then dropped from it.
    pub fn on_writable_headers(&mut self, stream_id: u64, outcome: HeadersOutcome) -> (proceed: bool)
        ensures
            proceed == (old(self)@.contains_key(stream_id) && (old(self)@[stream_id].0 is None
                || outcome == HeadersOutcome::Sent)),
            proceed ==> final(self)@ == old(self)@.insert(
                stream_id,
                (None, old(self)@[stream_id].1, old(self)@[stream_id].2),
            ),
            !proceed ==> final(self)@ == old(self)@,
            within_bounds(final(self)@),
    {
        proof {
            use_type_invariant(&*self);
        }
        let mut m = self.take_map();
        match m.remove(&stream_id) {
            None => {
                self.responses = m;
                assert(self@ =~= old(self)@);
                false
            },
            Some(resp) => {
                let pending_headers = resp.headers.is_some();
                if pending_headers && outcome != HeadersOutcome::Sent {
                    m.insert(stream_id, resp);
                    self.responses = m;
                    assert(self@ =~= old(self)@);
                    false
                } else {
                    let ghost bv = resp.body@;
                    let ghost w = resp.written as nat;
                    m.insert(
                        stream_id,
                        PartialResponse { headers: None, body: resp.body, written: resp.written },
                    );
                    self.responses = m;
                    assert(self@ =~= old(self)@.insert(stream_id, (None, bv, w)));
                    true
                }
            },
        }
    }

    /// The rest of the body on `stream_id` was sent with `outcome`: a failed
    /// send forgets the response; otherwise its count of sent bytes grows,
    /// and a response sent in full is forgotten.
    pub fn on_writable_body(&mut self, stream_id: u64, outcome: BodyOutcome)
        requires
            old(self)@.contains_key(stream_id) ==> old(self)@[stream_id].2 + sent_bytes(outcome)
                <= old(self)@[stream_id].1.len(),
        ensures
            !old(self)@.contains_key(stream_id) ==> final(self)@ == old(self)@,
            old(self)@.contains_key(stream_id) && (outcome == BodyOutcome::Failed
                || old(self)@[stream_id].2 + sent_bytes(outcome) == old(self)@[stream_id].1.len())
                ==> final(self)@ == old(self)@.remove(stream_id),
            old(self)@.contains_key(stream_id) && outcome != BodyOutcome::Failed
                && old(self)@[stream_id].2 + sent_bytes(outcome) < old(self)@[stream_id].1.len()
                ==> final(self)@ == old(self)@.insert(
                stream_id,
                (
                    old(self)@[stream_id].0,
                    old(self)@[stream_id].1,
                    old(self)@[stream_id].2 + sent_bytes(outcome),
                ),
            ),
            within_bounds(final(self)@),
    {
        proof {
            use_type_invariant(&*self);
        }
        let mut m = self.take_map();
        match m.remove(&stream_id) {
            None => {
                self.responses = m;
                assert(self@ =~= old(self)@);
            },
            Some(resp) => {
                let sent: usize = match outcome {
                    BodyOutcome::Written(n) => n,
                    BodyOutcome::Done => 0,
                    BodyOutcome::Failed => {
                        self.responses = m;
                        assert(self@ =~= old(self)@.remove(stream_id));
                        return;
                    },
                };
                let blen = resp.body.len();
                assert(old(self)@.contains_key(stream_id));
                assert(old(self)@[stream_id] == pending_view(resp));
                let written = resp.written + sent;
                if written == blen {
                    self.responses = m;
                    assert(self@ =~= old(self)@.remove(stream_id));
                } else {
                    let ghost hv = headers_view(resp.headers);
                    let ghost bv = resp.body@;
                    m.insert(
                        stream_id,
                        PartialResponse { headers: resp.headers, body: resp.body, written },
                    );
                    self.responses = m;
                    assert(self@ =~= old(self)@.insert(stream_id, (hv, bv, written as nat)));
                }
            },
        }
    }
}

} // verus!
