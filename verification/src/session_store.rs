//! The session credentials that a client holds, keyed by identity.

use crate::keys::{same_bytes, PublicKey};
use vstd::prelude::*;

verus! {

/// An opaque token that a homeserver issued after authentication.
#[derive(Debug, PartialEq, Eq)]
pub struct SessionCredential {
    pub token: String,
}

impl View for SessionCredential {
    type V = Seq<char>;

    open spec fn view(&self) -> Seq<char> {
        self.token@
    }
}

impl Clone for SessionCredential {
    fn clone(&self) -> (copy: SessionCredential)
        ensures
            copy@ == self@,
    {
        SessionCredential { token: self.token.clone() }
    }
}

/// Who keeps the credentials.
#[derive(Clone, Copy, Debug, PartialEq, Eq, Structural)]
pub enum Strategy {
    /// The transport keeps and replays them by itself: the store holds none.
    Delegated,
    /// The store keeps them, and the client attaches them to each request.
    Explicit,
}

#[derive(Debug)]
struct Entry {
    key: [u8; 32],
    token: String,
}

/// Whether some entry is filed under `key`.
spec fn holds(entries: Seq<Entry>, key: Seq<u8>) -> bool {
    exists|i: int| 0 <= i < entries.len() && (#[trigger] entries[i]).key@ == key
}

/// The place of the entry filed under `key`.
spec fn place_of(entries: Seq<Entry>, key: Seq<u8>) -> int {
    choose|i: int| 0 <= i < entries.len() && (#[trigger] entries[i]).key@ == key
}

/// No two entries are filed under the same key.
spec fn distinct(entries: Seq<Entry>) -> bool {
    forall|i: int, j: int|
        0 <= i < j < entries.len() ==> (#[trigger] entries[i]).key@ != (#[trigger] entries[j]).key@
}

/// The entries as a map from key to token.
spec fn as_map(entries: Seq<Entry>) -> Map<Seq<u8>, Seq<char>> {
    Map::new(|key: Seq<u8>| holds(entries, key), |key: Seq<u8>| entries[place_of(entries, key)].token@)
}

/// With distinct keys, the map gives each entry's key that entry's token.
proof fn lemma_entry(entries: Seq<Entry>, i: int)
    requires
        distinct(entries),
        0 <= i < entries.len(),
    ensures
        holds(entries, entries[i].key@),
        as_map(entries).contains_key(entries[i].key@),
        as_map(entries)[entries[i].key@] == entries[i].token@,
{
    let key = entries[i].key@;
    let j = place_of(entries, key);
    assert(0 <= j < entries.len() && entries[j].key@ == key);
    if i < j {
        assert(entries[i].key@ != entries[j].key@);
    } else if j < i {
        assert(entries[j].key@ != entries[i].key@);
    }
}

/// Whether a store of this strategy and these contents admits a request
/// that needs a session of `key`.
pub open spec fn admitted(strategy: Strategy, store: Map<Seq<u8>, Seq<char>>, key: Seq<u8>) -> bool {
    strategy == Strategy::Delegated || store.contains_key(key)
}

/// The credentials of a client, one per identity at most.
#[derive(Debug)]
pub struct SessionStore {
    strategy: Strategy,
    entries: Vec<Entry>,
}

impl View for SessionStore {
    type V = Map<Seq<u8>, Seq<char>>;

    closed spec fn view(&self) -> Map<Seq<u8>, Seq<char>> {
        as_map(self.entries@)
    }
}

impl SessionStore {
    /// Keys are filed once, and a delegated store files nothing.
    #[verifier::type_invariant]
    closed spec fn orderly(&self) -> bool {
        &&& distinct(self.entries@)
        &&& self.strategy == Strategy::Delegated ==> self.entries@.len() == 0
    }

    /// Who keeps the credentials.
    pub closed spec fn strategy_spec(&self) -> Strategy {
        self.strategy
    }

    /// A store for a transport that keeps the credentials by itself.
    pub fn delegated() -> (store: SessionStore)
        ensures
            store.strategy_spec() == Strategy::Delegated,
            store@ == Map::<Seq<u8>, Seq<char>>::empty(),
    {
        let store = SessionStore { strategy: Strategy::Delegated, entries: Vec::new() };
        assert(store@ =~= Map::<Seq<u8>, Seq<char>>::empty());
        store
    }

    /// An empty store that keeps the credentials itself.
    pub fn explicit() -> (store: SessionStore)
        ensures
            store.strategy_spec() == Strategy::Explicit,
            store@ == Map::<Seq<u8>, Seq<char>>::empty(),
    {
        let store = SessionStore { strategy: Strategy::Explicit, entries: Vec::new() };
        assert(store@ =~= Map::<Seq<u8>, Seq<char>>::empty());
        store
    }

    /// Who keeps the credentials.  A delegated store is always empty.
    pub fn strategy(&self) -> (strategy: Strategy)
        ensures
            strategy == self.strategy_spec(),
            strategy == Strategy::Delegated ==> self@ == Map::<Seq<u8>, Seq<char>>::empty(),
    {
        proof {
            use_type_invariant(self);
            if self.strategy == Strategy::Delegated {
                assert(self@ =~= Map::<Seq<u8>, Seq<char>>::empty());
            }
        }
        self.strategy
    }

    /// The place of the entry filed under `key`, if there is one.
    fn find(&self, key: &[u8; 32]) -> (place: Option<usize>)
        ensures
            match place {
                Some(i) => i < self.entries@.len() && self.entries@[i as int].key@ == key@,
                None => !holds(self.entries@, key@),
            },
    {
        let mut i: usize = 0;
        while i < self.entries.len()
            invariant
                i <= self.entries@.len(),
                forall|j: int| 0 <= j < i ==> (#[trigger] self.entries@[j]).key@ != key@,
            decreases self.entries@.len() - i,
        {
            if same_bytes(&self.entries[i].key, key) {
                return Some(i);
            }
            i += 1;
        }
        None
    }

    /// Records the credential of an identity, in place of any earlier one.
    /// A delegated store records nothing.
    pub fn put(&mut self, pubky: &PublicKey, credential: SessionCredential)
        ensures
            final(self).strategy_spec() == old(self).strategy_spec(),
            final(self)@ == if old(self).strategy_spec() == Strategy::Explicit {
                old(self)@.insert(pubky@, credential@)
            } else {
                old(self)@
            },
    {
        proof {
            use_type_invariant(&*self);
        }
        if self.strategy == Strategy::Delegated {
            return ;
        }
        let key = pubky.to_bytes();
        let ghost before = self.entries@;
        let place = self.find(&key);
        let mut entries: Vec<Entry> = Vec::new();
        std::mem::swap(&mut entries, &mut self.entries);
        match place {
            Some(i) => {
                entries.set(i, Entry { key, token: credential.token });
                proof {
                    let after = entries@;
                    assert(distinct(after)) by {
                        assert forall|a: int, b: int| 0 <= a < b < after.len() implies (
                        #[trigger] after[a]).key@ != (#[trigger] after[b]).key@ by {
                            assert(before[a].key@ != before[b].key@);
                        }
                    }
                    assert forall|k: Seq<u8>| holds(after, k) == (k == key@ || holds(before, k)) by {
                        if holds(after, k) {
                            let j = place_of(after, k);
                            assert(before[j].key@ == k);
                        }
                        if holds(before, k) {
                            let j = place_of(before, k);
                            assert(after[j].key@ == k);
                        }
                        if k == key@ {
                            assert(after[i as int].key@ == k);
                        }
                    }
                    assert forall|k: Seq<u8>| holds(after, k) implies as_map(after)[k] == (if k
                        == key@ {
                        credential@
                    } else {
                        as_map(before)[k]
                    }) by {
                        let j = place_of(after, k);
                        lemma_entry(after, j);
                        lemma_entry(before, j);
                    }
                    assert(as_map(after) =~= as_map(before).insert(key@, credential@));
                }
            },
            None => {
                entries.push(Entry { key, token: credential.token });
                proof {
                    let after = entries@;
                    let last = before.len() as int;
                    assert(distinct(after)) by {
                        assert forall|a: int, b: int| 0 <= a < b < after.len() implies (
                        #[trigger] after[a]).key@ != (#[trigger] after[b]).key@ by {
                            if b < last {
                                assert(before[a].key@ != before[b].key@);
                            } else {
                                assert(before[a].key@ != key@);
                            }
                        }
                    }
                    assert forall|k: Seq<u8>| holds(after, k) == (k == key@ || holds(before, k)) by {
                        if holds(after, k) {
                            let j = place_of(after, k);
                            if j < last {
                                assert(before[j].key@ == k);
                            }
                        }
                        if holds(before, k) {
                            let j = place_of(before, k);
                            assert(after[j].key@ == k);
                        }
                        if k == key@ {
                            assert(after[last].key@ == k);
                        }
                    }
                    assert forall|k: Seq<u8>| holds(after, k) implies as_map(after)[k] == (if k
                        == key@ {
                        credential@
                    } else {
                        as_map(before)[k]
                    }) by {
                        let j = place_of(after, k);
                        lemma_entry(after, j);
                        if j < last {
                            assert(before[j].key@ == k);
                            lemma_entry(before, j);
                        }
                    }
                    assert(as_map(after) =~= as_map(before).insert(key@, credential@));
                }
            },
        }
        self.entries = entries;
    }

    /// The credential recorded for an identity, if there is one.
    pub fn get(&self, pubky: &PublicKey) -> (credential: Option<SessionCredential>)
        ensures
            match credential {
                Some(c) => self@.contains_key(pubky@) && c@ == self@[pubky@],
                None => !self@.contains_key(pubky@),
            },
    {
        proof {
            use_type_invariant(self);
        }
        let key = pubky.to_bytes();
        match self.find(&key) {
            Some(i) => {
                proof {
                    lemma_entry(self.entries@, i as int);
                }
                Some(SessionCredential { token: self.entries[i].token.clone() })
            },
            None => None,
        }
    }

    /// Whether a credential is recorded for an identity.
    pub fn contains(&self, pubky: &PublicKey) -> (yes: bool)
        ensures
            yes == self@.contains_key(pubky@),
    {
        let key = pubky.to_bytes();
        self.find(&key).is_some()
    }

    /// Whether a request that needs a session may go out for an identity.
    /// A store that keeps the credentials itself admits the identities it
    /// holds a credential for.  A delegated store cannot tell and admits
    /// every identity: the transport attaches what it has, and the
    /// homeserver decides.
    pub fn admits(&self, pubky: &PublicKey) -> (yes: bool)
        ensures
            yes == admitted(self.strategy_spec(), self@, pubky@),
    {
        match self.strategy {
            Strategy::Delegated => true,
            Strategy::Explicit => self.contains(pubky),
        }
    }

    /// Evicts the credential of an identity.  Other identities keep theirs.
    pub fn remove(&mut self, pubky: &PublicKey)
        ensures
            final(self).strategy_spec() == old(self).strategy_spec(),
            final(self)@ == old(self)@.remove(pubky@),
    {
        proof {
            use_type_invariant(&*self);
        }
        let key = pubky.to_bytes();
        let ghost before = self.entries@;
        let place = self.find(&key);
        let mut entries: Vec<Entry> = Vec::new();
        std::mem::swap(&mut entries, &mut self.entries);
        match place {
            Some(i) => {
                entries.remove(i);
                proof {
                    let after = entries@;
                    let gone = i as int;
                    assert forall|a: int| 0 <= a < after.len() implies #[trigger] after[a]
                        == before[if a < gone {
                        a
                    } else {
                        a + 1
                    }] by {}
                    assert(distinct(after)) by {
                        assert forall|a: int, b: int| 0 <= a < b < after.len() implies (
                        #[trigger] after[a]).key@ != (#[trigger] after[b]).key@ by {
                            let a0 = if a < gone { a } else { a + 1 };
                            let b0 = if b < gone { b } else { b + 1 };
                            assert(before[a0].key@ != before[b0].key@);
                        }
                    }
                    assert forall|k: Seq<u8>| holds(after, k) == (k != key@ && holds(before, k)) by {
                        if holds(after, k) {
                            let j = place_of(after, k);
                            let j0 = if j < gone { j } else { j + 1 };
                            assert(before[j0].key@ == k);
                            if j0 < gone {
                                assert(before[j0].key@ != before[gone].key@);
                            } else {
                                assert(before[gone].key@ != before[j0].key@);
                            }
                        }
                        if k != key@ && holds(before, k) {
                            let j = place_of(before, k);
                            let j1 = if j < gone { j } else { j - 1 };
                            assert(after[j1].key@ == k);
                        }
                    }
                    assert forall|k: Seq<u8>| holds(after, k) implies as_map(after)[k] == as_map(
                        before,
                    )[k] by {
                        let j = place_of(after, k);
                        let j0 = if j < gone { j } else { j + 1 };
                        lemma_entry(after, j);
                        lemma_entry(before, j0);
                    }
                    assert(as_map(after) =~= as_map(before).remove(key@));
                }
            },
            None => {
                proof {
                    assert(as_map(before) =~= as_map(before).remove(key@));
                }
            },
        }
        self.entries = entries;
    }
}

} // verus!
