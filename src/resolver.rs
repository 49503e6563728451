use crate::dispatch::SignatureError;
use vstd::hash_map::HashMapWithView;
use vstd::hash_set::HashSetWithView;
use vstd::prelude::*;

verus! {

/// What is known locally of an actor (a person or a community).
#[derive(Clone, Copy, Debug, PartialEq, Eq, Structural)]
pub struct ActorRecord {
    pub id: u64,
    /// The identifier of the actor's current public key.
    pub key_id: u64,
    pub inbox: u64,
    pub shared_inbox: Option<u64>,
    pub local: bool,
    pub banned: bool,
    pub deleted: bool,
    pub refreshed_at: u64,
}

/// Why an actor could not be resolved.
#[derive(Clone, Copy, Debug, PartialEq, Eq, Structural)]
pub enum ResolveError {
    /// The remote document was unreachable or malformed.
    FetchError,
    /// The actor is deleted or banned.
    DeletedActor,
}

/// The answer of the cache to a lookup.
#[derive(Clone, Copy, Debug, PartialEq, Eq, Structural)]
pub enum CacheLookup {
    Fresh(ActorRecord),
    /// Present but older than the allowed age: to be fetched again.
    Stale(ActorRecord),
    /// Not present: to be fetched.
    Missing,
}

/// An entry refreshed at `at` is fresh at `now` unless more than `max_age` has passed.
pub open spec fn is_fresh(at: u64, now: u64, max_age: u64) -> bool {
    now <= at || now - at <= max_age
}

/// A live actor is neither deleted nor banned.
pub open spec fn is_live(r: ActorRecord) -> bool {
    !r.deleted && !r.banned
}

/// The outcome of a resolution that found `r`.
pub open spec fn liveness_outcome(r: ActorRecord) -> Result<ActorRecord, ResolveError> {
    if is_live(r) {
        Ok(r)
    } else {
        Err(ResolveError::DeletedActor)
    }
}

/// The signature verdict for a request signed with `signed_key`, where
/// `resolved` is the resolution of the claimed actor and `crypto_ok` whether
/// the signature checks out against that actor's key.
pub open spec fn signature_verdict(
    resolved: Result<ActorRecord, ResolveError>,
    signed_key: u64,
    crypto_ok: bool,
) -> Result<(), SignatureError> {
    match resolved {
        Err(_) => Err(SignatureError::UnknownActor),
        Ok(a) => if a.key_id == signed_key && crypto_ok {
            Ok(())
        } else {
            Err(SignatureError::SignatureMismatch)
        },
    }
}

/// Checks an inbound signature against the claimed actor's current key.
/// A mismatch is a security rejection; a failed resolution is an unknown actor.
pub fn verify_signature(
    resolved: &Result<ActorRecord, ResolveError>,
    signed_key: u64,
    crypto_ok: bool,
) -> (r: Result<(), SignatureError>)
    ensures
        r == signature_verdict(*resolved, signed_key, crypto_ok),
{
    match resolved {
        Err(_) => Err(SignatureError::UnknownActor),
        Ok(a) => {
            if a.key_id == signed_key && crypto_ok {
                Ok(())
            } else {
                Err(SignatureError::SignatureMismatch)
            }
        },
    }
}

/// What a resolution of an actor is to do next.
#[derive(Clone, Copy, Debug, PartialEq, Eq)]
pub enum Resolution {
    /// Resolved from a fresh cache entry.
    Ready(Result<ActorRecord, ResolveError>),
    /// This caller fetches the actor's document, then calls `complete_fetch`.
    Fetch,
    /// Another caller is fetching the document: wait for it and look again.
    Await,
}

/// The next step of a resolution of `id`, and the identifiers being fetched after it.
pub open spec fn resolution_step(
    actors: Map<u64, ActorRecord>,
    fetching: Set<u64>,
    id: u64,
    now: u64,
    max_age: u64,
) -> (Resolution, Set<u64>) {
    if actors.contains_key(id) && is_fresh(actors[id].refreshed_at, now, max_age) {
        (Resolution::Ready(liveness_outcome(actors[id])), fetching)
    } else if fetching.contains(id) {
        (Resolution::Await, fetching)
    } else {
        (Resolution::Fetch, fetching.insert(id))
    }
}

/// Local cache of actors, keyed by actor identifier, with the identifiers
/// whose documents are being fetched.
pub struct ActorCache {
    actors: HashMapWithView<u64, ActorRecord>,
    fetching: HashSetWithView<u64>,
}

impl View for ActorCache {
    type V = Map<u64, ActorRecord>;

    closed spec fn view(&self) -> Map<u64, ActorRecord> {
        self.actors@
    }
}

impl ActorCache {
    /// The identifiers whose documents are being fetched.
    pub closed spec fn fetching(&self) -> Set<u64> {
        self.fetching@
    }

    /// Each entry is filed under its own actor identifier.
    pub open spec fn wf(&self) -> bool {
        forall|id: u64| #[trigger] self@.contains_key(id) ==> self@[id].id == id
    }

    /// An empty cache.
    pub fn new() -> (r: ActorCache)
        ensures
            r.wf(),
            r@ == Map::<u64, ActorRecord>::empty(),
            r.fetching() == Set::<u64>::empty(),
    {
        ActorCache { actors: HashMapWithView::new(), fetching: HashSetWithView::new() }
    }

    /// Looks `id` up; an entry older than `max_age` at `now` is stale.
    pub fn lookup(&self, id: u64, now: u64, max_age: u64) -> (r: CacheLookup)
        ensures
            r == (if !self@.contains_key(id) {
                CacheLookup::Missing
            } else if is_fresh(self@[id].refreshed_at, now, max_age) {
                CacheLookup::Fresh(self@[id])
            } else {
                CacheLookup::Stale(self@[id])
            }),
    {
        match self.actors.get(&id) {
            None => CacheLookup::Missing,
            Some(a) => {
                if now <= a.refreshed_at || now - a.refreshed_at <= max_age {
                    CacheLookup::Fresh(*a)
                } else {
                    CacheLookup::Stale(*a)
                }
            },
        }
    }

    /// Inserts `record`, replacing any entry with the same identifier.
    pub fn upsert(&mut self, record: ActorRecord) -> (r: ActorRecord)
        requires
            old(self).wf(),
        ensures
            final(self).wf(),
            final(self).fetching() == old(self).fetching(),
            r == record,
            final(self)@ == old(self)@.insert(record.id, record),
    {
        self.actors.insert(record.id, record);
        record
    }

    /// The entry for `id`, unless it is missing or deleted.
    pub fn read_from_apub_id(&self, id: u64) -> (r: Option<ActorRecord>)
        ensures
            r == (if self@.contains_key(id) && !self@[id].deleted {
                Some(self@[id])
            } else {
                None
            }),
    {
        match self.actors.get(&id) {
            Some(a) => if a.deleted {
                None
            } else {
                Some(*a)
            },
            None => None,
        }
    }

    /// Replaces the entry for `id` by `f`, if there is one.
    fn modify(&mut self, id: u64, f: ActorRecord) -> (r: Option<ActorRecord>)
        requires
            old(self).wf(),
            f.id == id,
        ensures
            final(self).wf(),
            final(self).fetching() == old(self).fetching(),
            r == (if old(self)@.contains_key(id) {
                Some(f)
            } else {
                None
            }),
            final(self)@ == (if old(self)@.contains_key(id) {
                old(self)@.insert(id, f)
            } else {
                old(self)@
            }),
    {
        if self.actors.contains_key(&id) {
            self.actors.insert(id, f);
            Some(f)
        } else {
            None
        }
    }

    /// Sets or lifts the ban on `id`; `None` when it is not cached.
    pub fn ban_person(&mut self, id: u64, ban: bool) -> (r: Option<ActorRecord>)
        requires
            old(self).wf(),
        ensures
            final(self).wf(),
            final(self).fetching() == old(self).fetching(),
            r == (if old(self)@.contains_key(id) {
                Some(ActorRecord { banned: ban, ..old(self)@[id] })
            } else {
                None
            }),
            final(self)@ == (match r {
                Some(a) => old(self)@.insert(id, a),
                None => old(self)@,
            }),
    {
        match self.actors.get(&id) {
            Some(a) => {
                let f = ActorRecord { banned: ban, ..*a };
                self.modify(id, f)
            },
            None => None,
        }
    }

    /// Marks the entry for `id` as refreshed at `now`; `None` when it is not cached.
    pub fn mark_as_updated(&mut self, id: u64, now: u64) -> (r: Option<ActorRecord>)
        requires
            old(self).wf(),
        ensures
            final(self).wf(),
            final(self).fetching() == old(self).fetching(),
            r == (if old(self)@.contains_key(id) {
                Some(ActorRecord { refreshed_at: now, ..old(self)@[id] })
            } else {
                None
            }),
            final(self)@ == (match r {
                Some(a) => old(self)@.insert(id, a),
                None => old(self)@,
            }),
    {
        match self.actors.get(&id) {
            Some(a) => {
                let f = ActorRecord { refreshed_at: now, ..*a };
                self.modify(id, f)
            },
            None => None,
        }
    }

    /// Marks the account `id` as deleted; `None` when it is not cached.
    pub fn delete_account(&mut self, id: u64) -> (r: Option<ActorRecord>)
        requires
            old(self).wf(),
        ensures
            final(self).wf(),
            final(self).fetching() == old(self).fetching(),
            r == (if old(self)@.contains_key(id) {
                Some(ActorRecord { deleted: true, ..old(self)@[id] })
            } else {
                None
            }),
            final(self)@ == (match r {
                Some(a) => old(self)@.insert(id, a),
                None => old(self)@,
            }),
    {
        match self.actors.get(&id) {
            Some(a) => {
                let f = ActorRecord { deleted: true, ..*a };
                self.modify(id, f)
            },
            None => None,
        }
    }

    /// Starts a resolution of `id`: a fresh entry resolves at once; otherwise
    /// the first caller is to fetch the document and later callers await that
    /// fetch, so that one identifier is never fetched twice at the same time.
    pub fn start_resolution(&mut self, id: u64, now: u64, max_age: u64) -> (r: Resolution)
        requires
            old(self).wf(),
        ensures
            final(self).wf(),
            final(self)@ == old(self)@,
            (r, final(self).fetching()) == resolution_step(old(self)@, old(self).fetching(), id, now, max_age),
    {
        match self.resolve_cached(id, now, max_age) {
            Some(outcome) => Resolution::Ready(outcome),
            None => {
                if self.fetching.contains(&id) {
                    Resolution::Await
                } else {
                    self.fetching.insert(id);
                    Resolution::Fetch
                }
            },
        }
    }

    /// Resolves `id` from the cache alone: `None` when the entry is missing or
    /// stale and a fetch is owed; otherwise the entry, if the actor is live.
    pub fn resolve_cached(&self, id: u64, now: u64, max_age: u64) -> (r: Option<
        Result<ActorRecord, ResolveError>,
    >)
        ensures
            r == (if self@.contains_key(id) && is_fresh(self@[id].refreshed_at, now, max_age) {
                Some(liveness_outcome(self@[id]))
            } else {
                None
            }),
    {
        match self.lookup(id, now, max_age) {
            CacheLookup::Fresh(a) => Some(check_live(a)),
            _ => None,
        }
    }

    /// Completes a resolution of `id` with what the fetch of its document
    /// gave: a parsed record is stored, refreshed at `now`; a failed fetch
    /// leaves the entries as they were and is a `FetchError`. Either way `id`
    /// is no longer being fetched.
    pub fn complete_fetch(
        &mut self,
        id: u64,
        fetched: Result<ActorRecord, ResolveError>,
        now: u64,
    ) -> (r: Result<ActorRecord, ResolveError>)
        requires
            old(self).wf(),
        ensures
            final(self).wf(),
            final(self).fetching() == old(self).fetching().remove(id),
            match fetched {
                Ok(f) => {
                    let stored = ActorRecord { id: id, refreshed_at: now, ..f };
                    &&& final(self)@ == old(self)@.insert(id, stored)
                    &&& r == liveness_outcome(stored)
                },
                Err(_) => final(self)@ == old(self)@ && r == Err::<ActorRecord, ResolveError>(ResolveError::FetchError),
            },
    {
        self.fetching.remove(&id);
        match fetched {
            Ok(f) => {
                let stored = ActorRecord { id: id, refreshed_at: now, ..f };
                self.actors.insert(id, stored);
                check_live(stored)
            },
            Err(_) => Err(ResolveError::FetchError),
        }
    }
}

/// The record if the actor is live, else `DeletedActor`.
pub fn check_live(a: ActorRecord) -> (r: Result<ActorRecord, ResolveError>)
    ensures
        r == liveness_outcome(a),
{
    if !a.deleted && !a.banned {
        Ok(a)
    } else {
        Err(ResolveError::DeletedActor)
    }
}

} // verus!
