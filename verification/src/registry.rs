//! Subscription registry: maps feed identifiers to wire-level numeric IDs.
//!
//! IDs are assigned in strictly increasing order starting at 0 and are never
//! reused within a connection, even after an unsubscribe: the counter is
//! monotonic, not a freelist. Reusing an ID could let the server conflate a
//! stale receipt with a new subscription.

use vstd::prelude::*;
use crate::errors::StreamError;

verus! {

/// The feed-identifier-to-wire-ID mapping of one connection.
pub struct SubscriptionRegistry {
    entries: Vec<(String, u32)>,
    next_id: u32,
}

impl SubscriptionRegistry {
    /// The registered pairs of feed identifier and wire ID, in insertion
    /// order.
    pub closed spec fn entries_view(self) -> Seq<(Seq<char>, u32)> {
        self.entries@.map_values(|e: (String, u32)| (e.0@, e.1))
    }

    /// The counter value that the next allocation will return.
    pub closed spec fn next_wire_id(self) -> u32 {
        self.next_id
    }

    /// Whether `f` is currently registered.
    pub open spec fn contains_feed(self, f: Seq<char>) -> bool {
        exists|i: int|
            0 <= i < self.entries_view().len() && (#[trigger] self.entries_view()[i]).0 == f
    }

    /// The wire ID of a registered feed.
    pub open spec fn id_of(self, f: Seq<char>) -> u32 {
        (self.entries_view()[choose|i: int|
            0 <= i < self.entries_view().len() && (#[trigger] self.entries_view()[i]).0 == f]).1
    }

    /// Registry invariant: feed identifiers are distinct, wire IDs are
    /// distinct, and every assigned ID is below the counter.
    pub open spec fn wf(self) -> bool {
        &&& forall|i: int, j: int|
            0 <= i < j < self.entries_view().len() ==> (#[trigger] self.entries_view()[i]).0 != (
            #[trigger] self.entries_view()[j]).0
        &&& forall|i: int, j: int|
            0 <= i < j < self.entries_view().len() ==> (#[trigger] self.entries_view()[i]).1 != (
            #[trigger] self.entries_view()[j]).1
        &&& forall|i: int|
            0 <= i < self.entries_view().len() ==> (#[trigger] self.entries_view()[i]).1
                < self.next_wire_id()
    }

    /// The entry at a valid index decides `contains_feed` and `id_of` for
    /// its key, because keys are distinct.
    pub proof fn lemma_entry_decides(self, k: int)
        requires
            self.wf(),
            0 <= k < self.entries_view().len(),
        ensures
            self.contains_feed(self.entries_view()[k].0),
            self.id_of(self.entries_view()[k].0) == self.entries_view()[k].1,
    {
        let f = self.entries_view()[k].0;
        assert(self.contains_feed(f));
        let i = choose|i: int|
            0 <= i < self.entries_view().len() && (#[trigger] self.entries_view()[i]).0 == f;
        if i != k {
            assert(self.entries_view()[i].0 != self.entries_view()[k].0 || self.entries_view()[k].0
                != self.entries_view()[i].0);
        }
    }

    /// A fresh registry: no entries, counter at 0.
    pub fn new() -> (r: Self)
        ensures
            r.wf(),
            r.entries_view() =~= Seq::<(Seq<char>, u32)>::empty(),
            r.next_wire_id() == 0,
            forall|f: Seq<char>| !(#[trigger] r.contains_feed(f)),
    {
        let r = SubscriptionRegistry { entries: Vec::new(), next_id: 0 };
        proof {
            assert(r.entries_view() =~= Seq::<(Seq<char>, u32)>::empty());
        }
        r
    }

    /// The counter value that the next allocation will return; callers that
    /// must guard against counter exhaustion read it with this.
    pub fn counter(&self) -> (r: u32)
        ensures
            r == self.next_wire_id(),
    {
        self.next_id
    }

    /// Index of `feed_id` among the entries, if it is registered.
    fn find_index(&self, feed_id: &String) -> (r: Option<usize>)
        ensures
            r is None ==> !self.contains_feed(feed_id@),
            r matches Some(k) ==> 0 <= k < self.entries_view().len() && self.entries_view()[
                k as int].0 == feed_id@,
    {
        let n: usize = self.entries.len();
        let mut k: usize = 0;
        while k < n
            invariant
                k <= n,
                n == self.entries@.len(),
                n == self.entries_view().len(),
                forall|j: int| 0 <= j < k ==> (#[trigger] self.entries_view()[j]).0 != feed_id@,
            decreases n - k,
        {
            if self.entries[k].0 == *feed_id {
                return Some(k);
            }
            k = k + 1;
        }
        None
    }

    /// What a successful allocation of `f` does: the counter advances by
    /// one, `f` is registered under the old counter value, and every other
    /// feed keeps its status and its ID.
    pub open spec fn alloc_effect(pre: Self, post: Self, f: Seq<char>) -> bool {
        &&& post.next_wire_id() == pre.next_wire_id() + 1
        &&& post.contains_feed(f)
        &&& post.id_of(f) == pre.next_wire_id()
        &&& forall|g: Seq<char>|
            g != f ==> (#[trigger] post.contains_feed(g) <==> pre.contains_feed(g))
        &&& forall|g: Seq<char>|
            g != f && pre.contains_feed(g) ==> #[trigger] post.id_of(g) == pre.id_of(g)
    }

    /// What a successful release of `f` does: `f` is no longer registered,
    /// the counter does not roll back, and every other feed keeps its
    /// status and its ID.
    pub open spec fn release_effect(pre: Self, post: Self, f: Seq<char>) -> bool {
        &&& post.next_wire_id() == pre.next_wire_id()
        &&& !post.contains_feed(f)
        &&& forall|g: Seq<char>|
            g != f ==> (#[trigger] post.contains_feed(g) <==> pre.contains_feed(g))
        &&& forall|g: Seq<char>|
            g != f && pre.contains_feed(g) ==> #[trigger] post.id_of(g) == pre.id_of(g)
    }

    /// Registers `feed_id` and returns its newly assigned wire ID; fails
    /// with `DuplicateSubscription`, changing nothing, when `feed_id` is
    /// already registered.
    pub fn allocate(&mut self, feed_id: String) -> (r: Result<u32, StreamError>)
        requires
            old(self).wf(),
            old(self).next_wire_id() < u32::MAX,
        ensures
            final(self).wf(),
            old(self).contains_feed(feed_id@) ==> r == Err::<u32, StreamError>(
                StreamError::DuplicateSubscription,
            ) && *final(self) == *old(self),
            !old(self).contains_feed(feed_id@) ==> r == Ok::<u32, StreamError>(
                old(self).next_wire_id(),
            ) && Self::alloc_effect(*old(self), *final(self), feed_id@),
    {
        match self.find_index(&feed_id) {
            Some(_) => Err(StreamError::DuplicateSubscription),
            None => {
                let id = self.next_id;
                let ghost pre = *self;
                self.entries.push((feed_id, id));
                self.next_id = self.next_id + 1;
                proof {
                    let ghost f = feed_id@;
                    assert(self.entries_view() =~= pre.entries_view().push((f, id)));
                    let n = pre.entries_view().len() as int;
                    self.lemma_entry_decides(n);
                    assert forall|g: Seq<char>| g != f implies (#[trigger] self.contains_feed(g)
                        <==> pre.contains_feed(g)) by {
                        if self.contains_feed(g) {
                            let i = choose|i: int|
                                0 <= i < self.entries_view().len() && (
                                #[trigger] self.entries_view()[i]).0 == g;
                            assert(i < n);
                            assert(pre.entries_view()[i].0 == g);
                        }
                        if pre.contains_feed(g) {
                            let i = choose|i: int|
                                0 <= i < pre.entries_view().len() && (
                                #[trigger] pre.entries_view()[i]).0 == g;
                            assert(self.entries_view()[i].0 == g);
                        }
                    }
                    assert forall|g: Seq<char>| g != f && pre.contains_feed(g) implies (
                    #[trigger] self.id_of(g)) == pre.id_of(g) by {
                        let i = choose|i: int|
                            0 <= i < pre.entries_view().len() && (
                            #[trigger] pre.entries_view()[i]).0 == g;
                        pre.lemma_entry_decides(i);
                        assert(self.entries_view()[i].0 == g);
                        self.lemma_entry_decides(i);
                    }
                }
                Ok(id)
            },
        }
    }

    /// Removes `feed_id` and returns the wire ID it held; fails with
    /// `UnknownSubscription`, changing nothing, when `feed_id` is not
    /// registered. The counter is not rolled back: the ID is spent.
    pub fn release(&mut self, feed_id: &String) -> (r: Result<u32, StreamError>)
        requires
            old(self).wf(),
        ensures
            final(self).wf(),
            !old(self).contains_feed(feed_id@) ==> r == Err::<u32, StreamError>(
                StreamError::UnknownSubscription,
            ) && *final(self) == *old(self),
            old(self).contains_feed(feed_id@) ==> r == Ok::<u32, StreamError>(
                old(self).id_of(feed_id@),
            ) && Self::release_effect(*old(self), *final(self), feed_id@),
    {
        match self.find_index(feed_id) {
            None => Err(StreamError::UnknownSubscription),
            Some(k) => {
                let ghost pre = *self;
                let entry = self.entries.remove(k);
                proof {
                    let f = feed_id@;
                    let n = pre.entries_view().len() as int;
                    assert(self.entries_view() =~= pre.entries_view().remove(k as int));
                    pre.lemma_entry_decides(k as int);
                    assert forall|i: int| 0 <= i < n - 1 implies #[trigger] self.entries_view()[i]
                        == (if i < k { pre.entries_view()[i] } else {
                        pre.entries_view()[i + 1]
                    }) by {}
                    assert(!self.contains_feed(f)) by {
                        if self.contains_feed(f) {
                            let i = choose|i: int|
                                0 <= i < self.entries_view().len() && (
                                #[trigger] self.entries_view()[i]).0 == f;
                            if i < k {
                                assert(pre.entries_view()[i].0 == f);
                                assert(pre.entries_view()[i].0 != pre.entries_view()[k as int].0);
                            } else {
                                assert(pre.entries_view()[i + 1].0 == f);
                                assert(pre.entries_view()[k as int].0 != pre.entries_view()[i
                                    + 1].0);
                            }
                        }
                    }
                    assert forall|g: Seq<char>| g != f implies (#[trigger] self.contains_feed(g)
                        <==> pre.contains_feed(g)) by {
                        if self.contains_feed(g) {
                            let i = choose|i: int|
                                0 <= i < self.entries_view().len() && (
                                #[trigger] self.entries_view()[i]).0 == g;
                            if i < k {
                                assert(pre.entries_view()[i].0 == g);
                            } else {
                                assert(pre.entries_view()[i + 1].0 == g);
                            }
                        }
                        if pre.contains_feed(g) {
                            let i = choose|i: int|
                                0 <= i < pre.entries_view().len() && (
                                #[trigger] pre.entries_view()[i]).0 == g;
                            assert(i != k);
                            if i < k {
                                assert(self.entries_view()[i].0 == g);
                            } else {
                                assert(self.entries_view()[i - 1].0 == g);
                            }
                        }
                    }
                    assert forall|g: Seq<char>| g != f && pre.contains_feed(g) implies (
                    #[trigger] self.id_of(g)) == pre.id_of(g) by {
                        let i = choose|i: int|
                            0 <= i < pre.entries_view().len() && (
                            #[trigger] pre.entries_view()[i]).0 == g;
                        pre.lemma_entry_decides(i);
                        assert(i != k);
                        if i < k {
                            assert(self.entries_view()[i].0 == g);
                            self.lemma_entry_decides(i);
                        } else {
                            assert(self.entries_view()[i - 1].0 == g);
                            self.lemma_entry_decides(i - 1);
                        }
                    }
                }
                Ok(entry.1)
            },
        }
    }
}

/// Law: releasing a feed and allocating it again yields a strictly greater
/// wire ID than the first allocation. The counter never moves backwards, so
/// wire IDs are never reused within a connection.
pub proof fn lemma_realloc_strictly_greater(
    s0: SubscriptionRegistry,
    s1: SubscriptionRegistry,
    s2: SubscriptionRegistry,
    s3: SubscriptionRegistry,
    f: Seq<char>,
    id1: u32,
    id2: u32,
)
    requires
        id1 == s0.next_wire_id(),
        SubscriptionRegistry::alloc_effect(s0, s1, f),
        SubscriptionRegistry::release_effect(s1, s2, f),
        id2 == s2.next_wire_id(),
        SubscriptionRegistry::alloc_effect(s2, s3, f),
    ensures
        id2 > id1,
{
}

/// Law: after a successful allocation of `f`, `f` is registered, so a
/// second allocation of `f` without a release in between returns
/// `DuplicateSubscription` by `allocate`'s contract.
pub proof fn lemma_second_allocate_fails(
    s0: SubscriptionRegistry,
    s1: SubscriptionRegistry,
    f: Seq<char>,
)
    requires
        SubscriptionRegistry::alloc_effect(s0, s1, f),
    ensures
        s1.contains_feed(f),
{
}

} // verus!
