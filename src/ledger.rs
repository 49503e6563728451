use vstd::hash_map::HashMapWithView;
use vstd::prelude::*;

verus! {

/// Remembers the activity identifiers that were already accepted, each with
/// the time at which it was first seen.
pub struct Ledger {
    seen: HashMapWithView<u64, u64>,
    /// The identifiers of `seen`, each once, in order of acceptance.
    order: Vec<u64>,
}

impl View for Ledger {
    type V = Map<u64, u64>;

    closed spec fn view(&self) -> Map<u64, u64> {
        self.seen@
    }
}

/// `m` without the entries first seen before `cutoff`.
pub open spec fn retained(m: Map<u64, u64>, cutoff: u64) -> Map<u64, u64> {
    m.restrict(m.dom().filter(|id: u64| m[id] >= cutoff))
}

impl Ledger {
    /// The order list holds exactly the recorded identifiers, each once.
    pub closed spec fn wf(&self) -> bool {
        &&& self.order@.no_duplicates()
        &&& forall|id: u64| #[trigger] self.seen@.contains_key(id) <==> self.order@.contains(id)
    }

    /// An empty ledger.
    pub fn new() -> (r: Ledger)
        ensures
            r.wf(),
            r@ == Map::<u64, u64>::empty(),
    {
        Ledger { seen: HashMapWithView::new(), order: Vec::new() }
    }

    /// Whether `id` was already accepted.
    pub fn has_seen(&self, id: u64) -> (r: bool)
        ensures
            r == self@.contains_key(id),
    {
        self.seen.contains_key(&id)
    }

    /// Records `id` as seen at `now` if it was unseen, and reports whether it was.
    /// Exactly one call on an identifier returns `true`.
    pub fn record_if_new(&mut self, id: u64, now: u64) -> (r: bool)
        requires
            old(self).wf(),
        ensures
            final(self).wf(),
            r == !old(self)@.contains_key(id),
            final(self)@ == (if r {
                old(self)@.insert(id, now)
            } else {
                old(self)@
            }),
    {
        if self.seen.contains_key(&id) {
            false
        } else {
            self.seen.insert(id, now);
            self.order.push(id);
            proof {
                assert forall|x: u64| #[trigger] self.seen@.contains_key(x) <==> self.order@.contains(x) by {
                    if x != id && old(self).order@.contains(x) {
                        let j = choose|j: int| 0 <= j < old(self).order@.len() && old(self).order@[j] == x;
                        assert(self.order@[j] == x);
                    }
                    if self.order@.contains(x) && x != id {
                        let j = choose|j: int| 0 <= j < self.order@.len() && self.order@[j] == x;
                        assert(j < old(self).order@.len());
                        assert(old(self).order@[j] == x);
                    }
                    assert(self.order@[self.order@.len() - 1] == id);
                }
            }
            true
        }
    }

    /// Forgets the identifiers first seen before `cutoff`: past the retention
    /// window a replay is no longer a concern.
    pub fn evict_before(&mut self, cutoff: u64)
        requires
            old(self).wf(),
        ensures
            final(self).wf(),
            final(self)@ == retained(old(self)@, cutoff),
    {
        let ghost old_seen = self.seen@;
        let ghost old_order = self.order@;
        let mut kept: Vec<u64> = Vec::new();
        let mut k: usize = 0;
        while k < self.order.len()
            invariant
                0 <= k <= self.order@.len(),
                self.order@ == old_order,
                old_order.no_duplicates(),
                forall|id: u64| #[trigger] old_seen.contains_key(id) <==> old_order.contains(id),
                kept@.no_duplicates(),
                forall|id: u64| #[trigger]
                    kept@.contains(id) <==> (old_order.subrange(0, k as int).contains(id) && old_seen[id]
                        >= cutoff),
                forall|id: u64| #[trigger]
                    self.seen@.contains_key(id) <==> (old_seen.contains_key(id) && (old_seen[id] >= cutoff
                        || !old_order.subrange(0, k as int).contains(id))),
                forall|id: u64| #[trigger] self.seen@.contains_key(id) ==> self.seen@[id] == old_seen[id],
            decreases self.order@.len() - k,
        {
            let id = self.order[k];
            let ghost pre = old_order.subrange(0, k as int);
            let ghost post = old_order.subrange(0, k + 1);
            assert(post =~= pre.push(id));
            assert(!pre.contains(id)) by {
                if pre.contains(id) {
                    let j = choose|j: int| 0 <= j < pre.len() && pre[j] == id;
                    assert(old_order[j] == old_order[k as int]);
                }
            }
            assert(old_seen.contains_key(id)) by {
                assert(old_order[k as int] == id);
            }
            let at = match self.seen.get(&id) {
                Some(t) => *t,
                None => cutoff,
            };
            assert(at == old_seen[id]);
            let ghost kept_before = kept@;
            if at < cutoff {
                self.seen.remove(&id);
            } else {
                assert(!kept_before.contains(id));
                kept.push(id);
                assert forall|i: int, j: int| 0 <= i < j < kept@.len() implies kept@[i] != kept@[j] by {
                    if j == kept@.len() - 1 {
                        assert(kept_before[i] == kept@[i]);
                    } else {
                        assert(kept_before[i] == kept@[i] && kept_before[j] == kept@[j]);
                    }
                }
                assert forall|x: u64| kept@.contains(x) <==> kept_before.contains(x) || x == id by {
                    if kept@.contains(x) && x != id {
                        let j = choose|j: int| 0 <= j < kept@.len() && kept@[j] == x;
                        assert(kept_before[j] == x);
                    }
                    if kept_before.contains(x) {
                        let j = choose|j: int| 0 <= j < kept_before.len() && kept_before[j] == x;
                        assert(kept@[j] == x);
                    }
                    assert(kept@[kept@.len() - 1] == id);
                }
            }
            assert forall|x: u64| post.contains(x) <==> pre.contains(x) || x == id by {
                if post.contains(x) && x != id {
                    let j = choose|j: int| 0 <= j < post.len() && post[j] == x;
                    assert(pre[j] == x);
                }
                if pre.contains(x) {
                    let j = choose|j: int| 0 <= j < pre.len() && pre[j] == x;
                    assert(post[j] == x);
                }
                assert(post[k as int] == id);
            }
            assert forall|x: u64| #[trigger] kept@.contains(x) <==> (post.contains(x) && old_seen[x] >= cutoff) by {
                if x != id {
                    assert(kept@.contains(x) <==> kept_before.contains(x));
                }
            }
            k = k + 1;
        }
        assert(old_order.subrange(0, old_order.len() as int) =~= old_order);
        self.order = kept;
        assert(self.seen@ =~= retained(old_seen, cutoff));
    }
}

} // verus!
