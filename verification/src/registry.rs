//! The callback registry: a mapping from caller-chosen string identifiers
//! to response handlers.
//!
//! Callers register a handler under an identifier of their choice before
//! sending commands; replies coming back from the host runtime are routed
//! to the handler registered under the identifier they carry.  At most one
//! handler is stored per identifier: registering an identifier again
//! replaces the earlier handler, and looking up an identifier that nobody
//! registered finds nothing — by design a stale reply is a silent no-op,
//! never an error.
//!
//! The registry does not call handlers itself: a lookup hands the handler
//! back to the embedding, which invokes it after every bridge lock has been
//! released, so a handler that itself sends commands cannot deadlock
//! against the pending queue.

use vstd::prelude::*;

verus! {

/// The stored entries as a mathematical map; a later entry for the same
/// identifier shadows an earlier one.
pub closed spec fn entries_map<H>(s: Seq<(String, H)>) -> Map<Seq<char>, H>
    decreases s.len(),
{
    if s.len() == 0 {
        Map::<Seq<char>, H>::empty()
    } else {
        entries_map(s.drop_last()).insert(s.last().0@, s.last().1)
    }
}

/// No identifier occurs twice among the entries.
pub open spec fn unique_keys<H>(s: Seq<(String, H)>) -> bool {
    forall|i: int, j: int| 0 <= i < j < s.len() ==> s[i].0@ != s[j].0@
}

/// A mapping from identifier to handler, mutated only through its narrow
/// interface.  The embedding wraps it in its mutual-exclusion primitive;
/// every operation here is one short, lock-scoped step.
///
/// Its view is the identifier-to-handler map.
pub struct CallbackRegistry<H> {
    entries: Vec<(String, H)>,
}

impl<H> View for CallbackRegistry<H> {
    type V = Map<Seq<char>, H>;

    closed spec fn view(&self) -> Map<Seq<char>, H> {
        entries_map(self.entries@)
    }
}

impl<H> CallbackRegistry<H> {
    /// Internal consistency: each identifier is stored at most once.
    pub closed spec fn wf(&self) -> bool {
        unique_keys(self.entries@)
    }

    /// A fresh registry with nothing registered.
    pub fn new() -> (r: CallbackRegistry<H>)
        ensures
            r.wf(),
            r@ == Map::<Seq<char>, H>::empty(),
    {
        CallbackRegistry { entries: Vec::new() }
    }

    /// Where `key` is stored, if anywhere.
    fn find_index(&self, key: &String) -> (r: Option<usize>)
        ensures
            match r {
                Some(i) => i < self.entries@.len() && self.entries@[i as int].0@ == key@,
                None => forall|j: int| 0 <= j < self.entries@.len() ==> self.entries@[j].0@ != key@,
            },
    {
        let n = self.entries.len();
        let mut i: usize = 0;
        while i < n
            invariant
                n == self.entries@.len(),
                i <= n,
                forall|j: int| 0 <= j < i ==> self.entries@[j].0@ != key@,
            decreases n - i,
        {
            if self.entries[i].0 == *key {
                return Some(i);
            }
            i = i + 1;
        }
        None
    }

    /// Stores `handler` under `id`, replacing whatever handler was
    /// registered under `id` before.
    pub fn register_callback(&mut self, id: String, handler: H)
        requires
            old(self).wf(),
        ensures
            final(self).wf(),
            final(self)@ == old(self)@.insert(id@, handler),
    {
        let ghost k = id@;
        let ghost s0 = self.entries@;
        match self.find_index(&id) {
            Some(i) => {
                proof {
                    lemma_entries_map_remove(s0, i as int);
                    lemma_unique_keys_remove(s0, i as int);
                }
                self.entries.remove(i);
                proof {
                    assert forall|j: int|
                        0 <= j < self.entries@.len() implies self.entries@[j].0@ != k by {
                        if j < i {
                            assert(self.entries@[j] == s0[j]);
                        } else {
                            assert(self.entries@[j] == s0[j + 1]);
                        }
                    }
                }
            },
            None => {},
        }
        let ghost s1 = self.entries@;
        proof {
            lemma_entries_map_contains(s1);
            assert(!entries_map(s1).contains_key(k));
        }
        let entry = (id, handler);
        let ghost e = entry;
        self.entries.push(entry);
        proof {
            assert(self.entries@.drop_last() =~= s1);
            assert(self.entries@.last() == e);
            lemma_unique_keys_push_fresh(s1, e);
            assert(entries_map(self.entries@) =~= entries_map(s0).insert(k, e.1));
        }
    }

    /// Removes whatever is registered under `id`; removing an identifier
    /// that is not registered is a no-op, not an error.
    pub fn unregister_callback(&mut self, id: &str)
        requires
            old(self).wf(),
        ensures
            final(self).wf(),
            final(self)@ == old(self)@.remove(id@),
    {
        let key = id.to_owned();
        let ghost s0 = self.entries@;
        match self.find_index(&key) {
            Some(i) => {
                proof {
                    lemma_entries_map_remove(s0, i as int);
                    lemma_unique_keys_remove(s0, i as int);
                }
                self.entries.remove(i);
            },
            None => {
                proof {
                    lemma_entries_map_contains(s0);
                    assert(!entries_map(s0).contains_key(id@));
                    assert(entries_map(s0).remove(id@) =~= entries_map(s0));
                }
            },
        }
    }

    /// Looks up the handler registered under `id`.  `None` means nothing
    /// was registered: the caller drops the payload silently.
    pub fn invoke<'a>(&'a self, id: &str) -> (h: Option<&'a H>)
        requires
            self.wf(),
        ensures
            match h {
                Some(f) => self@.contains_key(id@) && *f == self@[id@],
                None => !self@.contains_key(id@),
            },
    {
        let key = id.to_owned();
        proof {
            lemma_entries_map_contains(self.entries@);
        }
        match self.find_index(&key) {
            Some(i) => {
                proof {
                    lemma_entries_map_value(self.entries@, i as int);
                }
                Some(&self.entries[i].1)
            },
            None => None,
        }
    }

    /// How many identifiers are registered.
    pub fn len(&self) -> (n: usize)
        requires
            self.wf(),
        ensures
            n == self@.dom().len(),
    {
        proof {
            lemma_entries_map_len(self.entries@);
        }
        self.entries.len()
    }
}

/// Registry round trip: after registering a handler under an identifier,
/// a reply routed to that identifier finds exactly that handler, and after
/// unregistering it the same reply finds nothing — in both cases without
/// error.  Stated over the map that `register_callback`,
/// `unregister_callback` and `invoke` are specified against.
pub proof fn lemma_registry_round_trip<H>(m: Map<Seq<char>, H>, id: Seq<char>, handler: H)
    ensures
        m.insert(id, handler).contains_key(id),
        m.insert(id, handler)[id] == handler,
        !m.insert(id, handler).remove(id).contains_key(id),
{
}

/// An identifier is a key of the map exactly when some entry carries it.
proof fn lemma_entries_map_contains<H>(s: Seq<(String, H)>)
    ensures
        forall|k: Seq<char>| #[trigger]
            entries_map(s).contains_key(k) <==> (exists|i: int|
                0 <= i < s.len() && s[i].0@ == k),
    decreases s.len(),
{
    if s.len() > 0 {
        let t = s.drop_last();
        lemma_entries_map_contains(t);
        assert forall|k: Seq<char>| #[trigger]
            entries_map(s).contains_key(k) implies (exists|i: int|
            0 <= i < s.len() && s[i].0@ == k) by {
            if k == s.last().0@ {
                assert(s[s.len() - 1].0@ == k);
            } else {
                assert(entries_map(t).contains_key(k));
                let i = choose|i: int| 0 <= i < t.len() && t[i].0@ == k;
                assert(s[i].0@ == k);
            }
        }
        assert forall|k: Seq<char>|
            (exists|i: int| 0 <= i < s.len() && s[i].0@ == k) implies #[trigger] entries_map(
            s,
        ).contains_key(k) by {
            let i = choose|i: int| 0 <= i < s.len() && s[i].0@ == k;
            if i < s.len() - 1 {
                assert(t[i].0@ == k);
                assert(entries_map(t).contains_key(k));
            } else {
                assert(s.last().0@ == k);
            }
        }
    }
}

/// With unique identifiers, the entry at `i` is what the map stores for
/// its identifier.
proof fn lemma_entries_map_value<H>(s: Seq<(String, H)>, i: int)
    requires
        unique_keys(s),
        0 <= i < s.len(),
    ensures
        entries_map(s).contains_key(s[i].0@),
        entries_map(s)[s[i].0@] == s[i].1,
    decreases s.len(),
{
    let t = s.drop_last();
    if i == s.len() - 1 {
    } else {
        assert(t[i] == s[i]);
        assert forall|p: int, q: int| 0 <= p < q < t.len() implies t[p].0@ != t[q].0@ by {
            assert(t[p] == s[p]);
            assert(t[q] == s[q]);
        }
        lemma_entries_map_value(t, i);
        assert(s[i].0@ != s.last().0@);
    }
}

/// Removing the entry at `i` removes exactly its identifier from the map.
proof fn lemma_entries_map_remove<H>(s: Seq<(String, H)>, i: int)
    requires
        unique_keys(s),
        0 <= i < s.len(),
    ensures
        entries_map(s.remove(i)) == entries_map(s).remove(s[i].0@),
    decreases s.len(),
{
    let k = s[i].0@;
    let t = s.drop_last();
    assert forall|p: int, q: int| 0 <= p < q < t.len() implies t[p].0@ != t[q].0@ by {
        assert(t[p] == s[p]);
        assert(t[q] == s[q]);
    }
    if i == s.len() - 1 {
        assert(s.remove(i) =~= t);
        lemma_entries_map_contains(t);
        assert forall|j: int| 0 <= j < t.len() implies t[j].0@ != k by {
            assert(t[j] == s[j]);
        }
        assert(!entries_map(t).contains_key(k));
        assert(entries_map(s).remove(k) =~= entries_map(t));
    } else {
        let s2 = s.remove(i);
        assert(s2.len() == s.len() - 1);
        assert(s2.last() == s.last());
        assert(s2.drop_last() =~= t.remove(i));
        assert(t[i] == s[i]);
        lemma_entries_map_remove(t, i);
        assert(k != s.last().0@);
        assert(entries_map(s2) =~= entries_map(s).remove(k));
    }
}

/// Removing an entry keeps the remaining identifiers unique.
proof fn lemma_unique_keys_remove<H>(s: Seq<(String, H)>, i: int)
    requires
        unique_keys(s),
        0 <= i < s.len(),
    ensures
        unique_keys(s.remove(i)),
{
    let s2 = s.remove(i);
    assert forall|p: int, q: int| 0 <= p < q < s2.len() implies s2[p].0@ != s2[q].0@ by {
        let p0: int = if p < i {
            p
        } else {
            p + 1
        };
        let q0: int = if q < i {
            q
        } else {
            q + 1
        };
        assert(s2[p] == s[p0]);
        assert(s2[q] == s[q0]);
    }
}

/// Appending an entry whose identifier is fresh keeps identifiers unique.
proof fn lemma_unique_keys_push_fresh<H>(s: Seq<(String, H)>, e: (String, H))
    requires
        unique_keys(s),
        forall|j: int| 0 <= j < s.len() ==> s[j].0@ != e.0@,
    ensures
        unique_keys(s.push(e)),
{
    let s2 = s.push(e);
    assert forall|p: int, q: int| 0 <= p < q < s2.len() implies s2[p].0@ != s2[q].0@ by {
        if q < s.len() {
            assert(s2[p] == s[p]);
            assert(s2[q] == s[q]);
        } else {
            assert(s2[p] == s[p]);
            assert(s2[q] == e);
        }
    }
}

/// With unique identifiers, the map has exactly one key per entry.
proof fn lemma_entries_map_len<H>(s: Seq<(String, H)>)
    requires
        unique_keys(s),
    ensures
        entries_map(s).dom().len() == s.len(),
        entries_map(s).dom().finite(),
    decreases s.len(),
{
    if s.len() > 0 {
        let t = s.drop_last();
        assert forall|p: int, q: int| 0 <= p < q < t.len() implies t[p].0@ != t[q].0@ by {
            assert(t[p] == s[p]);
            assert(t[q] == s[q]);
        }
        lemma_entries_map_len(t);
        lemma_entries_map_contains(t);
        assert forall|j: int| 0 <= j < t.len() implies t[j].0@ != s.last().0@ by {
            assert(t[j] == s[j]);
        }
        assert(!entries_map(t).contains_key(s.last().0@));
        assert(entries_map(s).dom() =~= entries_map(t).dom().insert(s.last().0@));
        vstd::set::axiom_set_insert_len(entries_map(t).dom(), s.last().0@);
    }
}

} // verus!
