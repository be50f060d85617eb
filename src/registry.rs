//! The relay's sessions: which endpoints are connected, and under which nickname.

use std::collections::HashMap;
use vstd::prelude::*;
use vstd::std_specs::hash::*;
use vstd::std_specs::iter::IteratorSpec;

verus! {

broadcast use group_hash_axioms;

/// Identity of a connected peer, as the transport layer assigns it.
pub type Endpoint = u64;

/// The nickname that a new session starts with.
pub open spec fn default_nick() -> Seq<char> {
    "anonymous"@
}

/// What a lookup of an endpoint that has no session gives.
pub open spec fn unknown_nick() -> Seq<char> {
    "unknown"@
}

/// The sessions after `register(e)`.
pub open spec fn registered(m: Map<Endpoint, Seq<char>>, e: Endpoint) -> Map<Endpoint, Seq<char>> {
    m.insert(e, default_nick())
}

/// The sessions after `rename(e, nick)`: only a known endpoint is renamed.
pub open spec fn renamed(m: Map<Endpoint, Seq<char>>, e: Endpoint, nick: Seq<char>) -> Map<
    Endpoint,
    Seq<char>,
> {
    if m.contains_key(e) {
        m.insert(e, nick)
    } else {
        m
    }
}

/// The sessions after `unregister(e)`.
pub open spec fn unregistered(m: Map<Endpoint, Seq<char>>, e: Endpoint) -> Map<Endpoint, Seq<char>> {
    m.remove(e)
}

/// The nickname that `lookup(e)` gives.
pub open spec fn looked_up(m: Map<Endpoint, Seq<char>>, e: Endpoint) -> Seq<char> {
    if m.contains_key(e) {
        m[e]
    } else {
        unknown_nick()
    }
}

/// Sessions keyed by endpoint, each with its nickname.
pub struct SessionRegistry {
    sessions: HashMap<Endpoint, String>,
}

impl View for SessionRegistry {
    type V = Map<Endpoint, Seq<char>>;

    closed spec fn view(&self) -> Map<Endpoint, Seq<char>> {
        self.sessions@.map_values(|s: String| s@)
    }
}

impl SessionRegistry {
    /// A registry without sessions.
    pub fn new() -> (r: SessionRegistry)
        ensures
            r@ == Map::<Endpoint, Seq<char>>::empty(),
    {
        let r = SessionRegistry { sessions: HashMap::new() };
        assert(r@ =~= Map::<Endpoint, Seq<char>>::empty());
        r
    }

    /// Starts a session for `e` under the default nickname, replacing any
    /// session it had.
    pub fn register(&mut self, e: Endpoint)
        ensures
            final(self)@ == registered(old(self)@, e),
    {
        self.sessions.insert(e, "anonymous".to_owned());
        proof {
            reveal_strlit("anonymous");
        }
        assert(self@ =~= registered(old(self)@, e));
    }

    /// Gives the session of `e` the nickname `nick`; does nothing when `e`
    /// has no session.
    pub fn rename(&mut self, e: Endpoint, nick: String)
        ensures
            final(self)@ == renamed(old(self)@, e, nick@),
    {
        if self.sessions.contains_key(&e) {
            self.sessions.insert(e, nick);
            assert(self@ =~= renamed(old(self)@, e, nick@));
        }
    }

    /// The nickname of `e`'s session, or `"unknown"` when it has none.
    pub fn lookup(&self, e: Endpoint) -> (r: String)
        ensures
            r@ == looked_up(self@, e),
    {
        match self.sessions.get(&e) {
            Some(nick) => nick.clone(),
            None => {
                proof {
                    reveal_strlit("unknown");
                }
                "unknown".to_owned()
            },
        }
    }

    /// Whether `e` has a session.
    pub fn contains(&self, e: Endpoint) -> (r: bool)
        ensures
            r == self@.contains_key(e),
    {
        self.sessions.contains_key(&e)
    }

    /// Ends the session of `e`, if it has one.
    pub fn unregister(&mut self, e: Endpoint)
        ensures
            final(self)@ == unregistered(old(self)@, e),
    {
        self.sessions.remove(&e);
        assert(self@ =~= unregistered(old(self)@, e));
    }

    /// Every endpoint with a session, each once.
    pub fn all_endpoints(&self) -> (r: Vec<Endpoint>)
        ensures
            r@.to_set() == self@.dom(),
            r@.no_duplicates(),
    {
        let mut out: Vec<Endpoint> = Vec::new();
        let keys = self.sessions.keys();
        let ghost all = keys.remaining().unref();
        for k in it: keys
            invariant
                it.seq().unref() == all,
                out@ == all.take(it.index() as int),
        {
            out.push(*k);
        }
        assert(out@ == all);
        out
    }
}

/// The registry's operations compose as expected: a new session reads as
/// `"anonymous"`, a rename is read back, an ended session reads as
/// `"unknown"`, and renaming an endpoint without a session changes nothing.
pub proof fn lemma_registry_laws(m: Map<Endpoint, Seq<char>>, e: Endpoint, nick: Seq<char>)
    ensures
        looked_up(registered(m, e), e) == default_nick(),
        looked_up(renamed(registered(m, e), e, nick), e) == nick,
        looked_up(unregistered(m, e), e) == unknown_nick(),
        !m.contains_key(e) ==> renamed(m, e, nick) == m,
{
}

} // verus!
