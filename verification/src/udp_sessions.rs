use vstd::prelude::*;

verus! {

/// What the UDP relay does with a datagram for a destination.
#[derive(Clone, Copy, Debug, PartialEq, Eq, Structural)]
pub enum SessionRoute {
    /// A session to the destination is open: send the payload on it.
    Existing,
    /// No session to the destination is open: open one and send the payload on it.
    Open,
}

/// The route for a datagram to `key` while the sessions to `open` are open.
pub open spec fn session_route(open: Set<Seq<char>>, key: Seq<char>) -> SessionRoute {
    if open.contains(key) {
        SessionRoute::Existing
    } else {
        SessionRoute::Open
    }
}

/// How opening a session for a datagram went.
#[derive(Clone, Copy, Debug, PartialEq, Eq, Structural)]
pub enum OpenOutcome {
    /// The pipeline could not connect an outbound for the destination.
    ConnectFailed,
    /// The outbound was connected but the first datagram could not be sent on it.
    SendFailed,
    /// The outbound was connected and the first datagram sent.
    Sent,
}

/// The destinations, by their `host:port` key, to which one UDP association has a session
/// open. A destination is reused while its session is open, recorded once its session is
/// opened and its first datagram sent, and dropped when its session ends.
///
/// The keys are kept in a vector with no key twice. A `HashSet<String>` would hold them
/// without order, but vstd specifies its operations only for key types that obey its key
/// model, and it gives no such fact for `String`: nothing could be proved through it.
pub struct UdpSessionTable {
    keys: Vec<String>,
}

impl UdpSessionTable {
    /// No key is recorded twice.
    #[verifier::type_invariant]
    spec fn keys_distinct(self) -> bool {
        forall|i: int, j: int|
            0 <= i < j < self.keys@.len() ==> #[trigger] self.keys@[i]@ != #[trigger] self.keys@[j]@
    }

    /// The keys of the destinations with an open session.
    pub closed spec fn open_sessions(&self) -> Set<Seq<char>> {
        Set::new(|k: Seq<char>| exists|i: int| 0 <= i < self.keys@.len() && #[trigger] self.keys@[i]@ == k)
    }

    /// A table without sessions.
    pub fn new() -> (t: Self)
        ensures
            t.open_sessions() == Set::<Seq<char>>::empty(),
    {
        let t = UdpSessionTable { keys: Vec::new() };
        assert(t.open_sessions() =~= Set::<Seq<char>>::empty());
        t
    }

    /// Where `key` is recorded, if it is.
    fn position(&self, key: &String) -> (r: Option<usize>)
        ensures
            match r {
                Some(i) => i < self.keys@.len() && self.keys@[i as int]@ == key@,
                None => forall|i: int| 0 <= i < self.keys@.len() ==> #[trigger] self.keys@[i]@ != key@,
            },
    {
        let mut i: usize = 0;
        while i < self.keys.len()
            invariant
                i <= self.keys@.len(),
                forall|j: int| 0 <= j < i ==> #[trigger] self.keys@[j]@ != key@,
            decreases self.keys@.len() - i,
        {
            if self.keys[i] == *key {
                return Some(i);
            }
            i = i + 1;
        }
        None
    }

    /// The route for a datagram to `key`: its open session, or a new one.
    pub fn route(&self, key: &String) -> (r: SessionRoute)
        ensures
            r == session_route(self.open_sessions(), key@),
    {
        match self.position(key) {
            Some(i) => {
                assert(self.open_sessions().contains(key@)) by {
                    assert(self.keys@[i as int]@ == key@);
                }
                SessionRoute::Existing
            },
            None => SessionRoute::Open,
        }
    }

    /// Records that a session to `key` is open.
    pub fn opened(&mut self, key: String)
        ensures
            final(self).open_sessions() == old(self).open_sessions().insert(key@),
    {
        proof {
            use_type_invariant(&*self);
        }
        match self.position(&key) {
            Some(i) => {
                assert(self.open_sessions() =~= self.open_sessions().insert(key@)) by {
                    assert(self.keys@[i as int]@ == key@);
                }
            },
            None => {
                let ghost before = self.open_sessions();
                let ghost k = key@;
                let mut keys: Vec<String> = Vec::new();
                std::mem::swap(&mut keys, &mut self.keys);
                let ghost old_keys = keys@;
                keys.push(key);
                assert(keys@.len() == old_keys.len() + 1);
                assert forall|i: int, j: int| 0 <= i < j < keys@.len() implies #[trigger] keys@[i]@ != #[trigger] keys@[j]@ by {
                    if j == old_keys.len() {
                        assert(keys@[i] == old_keys[i]);
                    } else {
                        assert(keys@[i] == old_keys[i] && keys@[j] == old_keys[j]);
                    }
                }
                self.keys = keys;
                assert forall|x: Seq<char>| self.open_sessions().contains(x) <==> before.insert(k).contains(x) by {
                    if self.open_sessions().contains(x) {
                        let i = choose|i: int| 0 <= i < self.keys@.len() && #[trigger] self.keys@[i]@ == x;
                        if i < old_keys.len() {
                            assert(old_keys[i]@ == x);
                        }
                    }
                    if before.contains(x) {
                        let i = choose|i: int| 0 <= i < old_keys.len() && #[trigger] old_keys[i]@ == x;
                        assert(self.keys@[i]@ == x);
                    }
                    if x == k {
                        assert(self.keys@[old_keys.len() as int]@ == x);
                    }
                }
                assert(self.open_sessions() =~= before.insert(k));
            },
        }
    }

    /// Takes in how opening a session to `key` went: the session is recorded only when its
    /// outbound was connected and the first datagram sent on it. Answers whether it was.
    pub fn open_finished(&mut self, key: String, outcome: OpenOutcome) -> (recorded: bool)
        ensures
            recorded == (outcome == OpenOutcome::Sent),
            recorded ==> final(self).open_sessions() == old(self).open_sessions().insert(key@),
            !recorded ==> final(self).open_sessions() == old(self).open_sessions(),
    {
        match outcome {
            OpenOutcome::Sent => {
                self.opened(key);
                true
            },
            _ => false,
        }
    }

    /// Records that the session to `key` has ended.
    pub fn closed(&mut self, key: &String)
        ensures
            final(self).open_sessions() == old(self).open_sessions().remove(key@),
    {
        proof {
            use_type_invariant(&*self);
        }
        match self.position(key) {
            None => {
                assert(self.open_sessions() =~= self.open_sessions().remove(key@));
            },
            Some(p) => {
                let ghost before = self.open_sessions();
                let ghost k = key@;
                let mut keys: Vec<String> = Vec::new();
                std::mem::swap(&mut keys, &mut self.keys);
                let ghost old_keys = keys@;
                assert forall|i: int, j: int| 0 <= i < j < old_keys.len() implies #[trigger] old_keys[i]@ != #[trigger] old_keys[j]@ by {
                    assert(old_keys[i] == old_keys[i] && old_keys[j] == old_keys[j]);
                }
                keys.remove(p);
                assert forall|i: int, j: int| 0 <= i < j < keys@.len() implies #[trigger] keys@[i]@ != #[trigger] keys@[j]@ by {
                    let oi = if i < p { i } else { i + 1 };
                    let oj = if j < p { j } else { j + 1 };
                    assert(keys@[i] == old_keys[oi] && keys@[j] == old_keys[oj]);
                    assert(old_keys[oi]@ != old_keys[oj]@);
                }
                self.keys = keys;
                assert forall|x: Seq<char>| self.open_sessions().contains(x) <==> before.remove(k).contains(x) by {
                    if self.open_sessions().contains(x) {
                        let i = choose|i: int| 0 <= i < self.keys@.len() && #[trigger] self.keys@[i]@ == x;
                        let oi = if i < p { i } else { i + 1 };
                        assert(old_keys[oi] == self.keys@[i]);
                        assert(old_keys[oi]@ == x);
                        assert(old_keys[p as int]@ != old_keys[oi]@);
                    }
                    if before.remove(k).contains(x) {
                        let i = choose|i: int| 0 <= i < old_keys.len() && #[trigger] old_keys[i]@ == x;
                        assert(i != p);
                        let ni = if i < p { i } else { i - 1 };
                        assert(self.keys@[ni] == old_keys[i]);
                        assert(self.keys@[ni]@ == x);
                    }
                }
                assert(self.open_sessions() =~= before.remove(k));
            },
        }
    }
}

/// Once a session to a destination is recorded, every datagram to it takes that session
/// until the session ends; after it ends, the next datagram opens a new one. Recording or
/// ending the session of one destination leaves the route of every other destination as it was.
pub proof fn lemma_sessions_reused_until_closed(open: Set<Seq<char>>, key: Seq<char>, other: Seq<char>)
    requires
        other != key,
    ensures
        session_route(open.insert(key), key) == SessionRoute::Existing,
        session_route(open.insert(key).remove(key), key) == SessionRoute::Open,
        session_route(open.insert(key), other) == session_route(open, other),
        session_route(open.remove(key), other) == session_route(open, other),
{
}

} // verus!
