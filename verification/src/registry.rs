//! The handle registry: a per-type store mapping process-unique numeric
//! handles to live object instances.
//!
//! Handles are never zero (zero is the reserved "invalid" sentinel) and are
//! never reused: they come from a monotonically increasing counter, so a
//! destroyed handle can never later denote a different instance. The
//! embedding guards each registry with one lock; under that lock every
//! operation here is a plain sequential call, which is what this module
//! verifies.

use vstd::prelude::*;

verus! {

/// A store of live instances of one domain type, keyed by handle.
pub struct Registry<T> {
    entries: Vec<(usize, T)>,
    next_id: usize,
}

/// The map a sequence of handle/instance entries denotes, later entries
/// taking precedence (well-formed registries never hold a key twice).
pub open spec fn map_of<T>(s: Seq<(usize, T)>) -> Map<usize, T>
    decreases s.len(),
{
    if s.len() == 0 {
        Map::empty()
    } else {
        map_of(s.drop_last()).insert(s.last().0, s.last().1)
    }
}

/// A key occurs in `map_of(s)` exactly when some entry carries it.
proof fn lemma_map_of_contains<T>(s: Seq<(usize, T)>, k: usize)
    ensures
        map_of(s).contains_key(k) <==> exists|i: int| 0 <= i < s.len() && s[i].0 == k,
    decreases s.len(),
{
    if s.len() > 0 {
        lemma_map_of_contains(s.drop_last(), k);
        if s.last().0 == k {
            assert(s[s.len() - 1].0 == k);
        } else if map_of(s).contains_key(k) {
            let i = choose|i: int| 0 <= i < s.drop_last().len() && s.drop_last()[i].0 == k;
            assert(s[i].0 == k);
        } else if exists|i: int| 0 <= i < s.len() && s[i].0 == k {
            let i = choose|i: int| 0 <= i < s.len() && s[i].0 == k;
            assert(s.drop_last()[i].0 == k);
        }
    }
}

/// With pairwise distinct keys, the entry carrying a key gives its value.
proof fn lemma_map_of_index<T>(s: Seq<(usize, T)>, i: int)
    requires
        0 <= i < s.len(),
        forall|p: int, q: int| 0 <= p < q < s.len() ==> s[p].0 != s[q].0,
    ensures
        map_of(s).contains_key(s[i].0),
        map_of(s)[s[i].0] == s[i].1,
    decreases s.len(),
{
    if i == s.len() - 1 {
        lemma_map_of_contains(s, s[i].0);
    } else {
        lemma_map_of_index(s.drop_last(), i);
        assert(s[s.len() - 1].0 != s[i].0);
        assert(s.drop_last()[i] == s[i]);
    }
}

/// Removing the entry that carries a key removes exactly that key from the
/// denoted map, when keys are pairwise distinct.
proof fn lemma_map_of_remove<T>(s: Seq<(usize, T)>, i: int)
    requires
        0 <= i < s.len(),
        forall|p: int, q: int| 0 <= p < q < s.len() ==> s[p].0 != s[q].0,
    ensures
        map_of(s.remove(i)) =~= map_of(s).remove(s[i].0),
    decreases s.len(),
{
    lemma_map_of_contains(s, s[i].0);
    if i == s.len() - 1 {
        assert(s.remove(i) =~= s.drop_last());
        lemma_map_of_contains(s.drop_last(), s[i].0);
        assert(!map_of(s.drop_last()).contains_key(s[i].0));
        assert(map_of(s.drop_last()).remove(s[i].0) =~= map_of(s.drop_last()));
    } else {
        let t = s.drop_last();
        lemma_map_of_remove(t, i);
        assert(s.remove(i).drop_last() =~= t.remove(i));
        assert(s.remove(i).last() == s.last());
        assert(map_of(s.remove(i)) == map_of(t.remove(i)).insert(s.last().0, s.last().1));
        assert(s[i].0 != s.last().0);
    }
}

impl<T> Registry<T> {
    /// The live instances, by handle.
    pub closed spec fn map(self) -> Map<usize, T> {
        map_of(self.entries@)
    }

    /// The handle the next `create` call will issue.
    pub closed spec fn next_handle(self) -> usize {
        self.next_id
    }

    /// Structural invariant: handles are nonzero, below the counter, and
    /// pairwise distinct.
    pub closed spec fn inv(self) -> bool {
        &&& self.next_id >= 1
        &&& forall|i: int|
            0 <= i < self.entries@.len() ==> 1 <= (#[trigger] self.entries@[i]).0 < self.next_id
        &&& forall|p: int, q: int|
            0 <= p < q < self.entries@.len() ==> self.entries@[p].0 != self.entries@[q].0
    }

    /// Every live handle is nonzero and below the counter.
    pub proof fn lemma_live_handles_bounded(self, k: usize)
        requires
            self.inv(),
            self.map().contains_key(k),
        ensures
            1 <= k < self.next_handle(),
    {
        lemma_map_of_contains(self.entries@, k);
    }

    /// An empty registry whose first handle will be 1.
    pub fn new() -> (r: Self)
        ensures
            r.inv(),
            r.map() == Map::<usize, T>::empty(),
            r.next_handle() == 1,
    {
        Registry { entries: Vec::new(), next_id: 1 }
    }

    /// Stores an instance under a fresh handle and returns the handle.
    /// The handle is never zero and was never issued before.
    pub fn create(&mut self, instance: T) -> (h: usize)
        requires
            old(self).inv(),
            old(self).next_handle() < usize::MAX,
        ensures
            final(self).inv(),
            h == old(self).next_handle(),
            h != 0,
            !old(self).map().contains_key(h),
            final(self).map() == old(self).map().insert(h, instance),
            final(self).next_handle() == h + 1,
    {
        let h = self.next_id;
        proof {
            lemma_map_of_contains(self.entries@, h);
        }
        self.entries.push((h, instance));
        self.next_id = h + 1;
        proof {
            assert(self.entries@.drop_last() =~= old(self).entries@);
        }
        h
    }

    /// Whether a handle is live.
    pub fn contains(&self, handle: usize) -> (r: bool)
        requires
            self.inv(),
        ensures
            r == self.map().contains_key(handle),
    {
        let n = self.entries.len();
        let mut i: usize = 0;
        while i < n
            invariant
                n == self.entries@.len(),
                0 <= i <= n,
                forall|j: int| 0 <= j < i ==> (#[trigger] self.entries@[j]).0 != handle,
            decreases n - i,
        {
            if self.entries[i].0 == handle {
                proof {
                    lemma_map_of_contains(self.entries@, handle);
                }
                return true;
            }
            i += 1;
        }
        proof {
            lemma_map_of_contains(self.entries@, handle);
        }
        false
    }

    /// Looks a handle up: the stored instance if the handle is live,
    /// nothing otherwise.
    pub fn get(&self, handle: usize) -> (r: Option<&T>)
        requires
            self.inv(),
        ensures
            r is Some <==> self.map().contains_key(handle),
            r is Some ==> *r->Some_0 == self.map()[handle],
    {
        let n = self.entries.len();
        let mut i: usize = 0;
        while i < n
            invariant
                self.inv(),
                n == self.entries@.len(),
                0 <= i <= n,
                forall|j: int| 0 <= j < i ==> (#[trigger] self.entries@[j]).0 != handle,
            decreases n - i,
        {
            if self.entries[i].0 == handle {
                proof {
                    lemma_map_of_index(self.entries@, i as int);
                }
                return Some(&self.entries[i].1);
            }
            i += 1;
        }
        proof {
            lemma_map_of_contains(self.entries@, handle);
        }
        None
    }

    /// Looks a handle up and runs an operation against the stored
    /// instance: the operation's result if the handle is live, nothing
    /// otherwise ("not found").
    pub fn with<R, F: Fn(&T) -> R>(&self, handle: usize, op: F) -> (r: Option<R>)
        requires
            self.inv(),
            forall|t: &T| call_requires(op, (t,)),
        ensures
            r is Some <==> self.map().contains_key(handle),
            r is Some ==> call_ensures(op, (&self.map()[handle],), r->Some_0),
    {
        match self.get(handle) {
            Some(instance) => Some(op(instance)),
            None => None,
        }
    }

    /// Removes a handle's entry if it is live; on an unknown or already
    /// destroyed handle it is a silent no-op. The handle counter is
    /// untouched, so the handle is never issued again.
    pub fn destroy(&mut self, handle: usize)
        requires
            old(self).inv(),
        ensures
            final(self).inv(),
            final(self).map() == old(self).map().remove(handle),
            final(self).next_handle() == old(self).next_handle(),
    {
        let n = self.entries.len();
        let mut i: usize = 0;
        while i < n
            invariant
                self.inv(),
                self == old(self),
                n == self.entries@.len(),
                0 <= i <= n,
                forall|j: int| 0 <= j < i ==> (#[trigger] self.entries@[j]).0 != handle,
            decreases n - i,
        {
            if self.entries[i].0 == handle {
                proof {
                    lemma_map_of_remove(self.entries@, i as int);
                }
                self.entries.remove(i);
                return ;
            }
            i += 1;
        }
        proof {
            lemma_map_of_contains(self.entries@, handle);
            assert(self.map().remove(handle) =~= self.map());
        }
    }
}

/// Law: handles issued by `create` are pairwise distinct and never zero.
/// `create` issues the registry's `next_handle` and leaves the counter
/// strictly larger, and no other operation lowers the counter; so over any
/// sequence of calls, two handles issued at different times differ, and
/// neither is the reserved sentinel 0.
pub proof fn lemma_created_handles_distinct<T>(
    first: Registry<T>,
    second: Registry<T>,
    h1: usize,
    h2: usize,
)
    requires
        first.inv(),
        h1 == first.next_handle(),
        h1 < second.next_handle(),
        h2 == second.next_handle(),
    ensures
        h1 != 0,
        h2 != 0,
        h1 != h2,
{
}

/// Law: a lookup after `destroy(handle)` resolves to "not found", never to
/// a stale instance: `destroy` leaves exactly the map with the handle
/// removed, and `get`/`with` answer `None` on every key outside the map.
pub proof fn lemma_destroyed_not_found<T>(before: Registry<T>, after: Registry<T>, handle: usize)
    requires
        after.map() == before.map().remove(handle),
    ensures
        !after.map().contains_key(handle),
{
}

/// Law: `destroy` is idempotent. After one `destroy(handle)` the second
/// removal of the same handle changes nothing (and `destroy` never touches
/// the handle counter).
pub proof fn lemma_destroy_idempotent<T>(before: Registry<T>, after: Registry<T>, handle: usize)
    requires
        after.map() == before.map().remove(handle),
    ensures
        after.map().remove(handle) == after.map(),
{
    assert(after.map().remove(handle) =~= after.map());
}

/// Law: operations on distinct handles do not interfere. Creating or
/// destroying one handle leaves every other handle's liveness and instance
/// unchanged (lookups take the registry immutably and change nothing), so
/// per-handle call sequences give the same results however they are
/// interleaved.
pub proof fn lemma_handles_independent<T>(
    before: Registry<T>,
    after: Registry<T>,
    touched: usize,
    other: usize,
    instance: T,
)
    requires
        touched != other,
        after.map() == before.map().insert(touched, instance) || after.map() == before.map().remove(
            touched,
        ),
    ensures
        after.map().contains_key(other) == before.map().contains_key(other),
        after.map().contains_key(other) ==> after.map()[other] == before.map()[other],
{
}

} // verus!
