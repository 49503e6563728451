//! Properties that hold across calls of the inbound and outbound pipelines.
use crate::authority::{
    authority_of, rank, standing_of, ActivityKind, AuthorityError, ContextModel, Standing,
};
use crate::delivery::{
    after_failure, lemma_base_delay_monotone, lemma_base_delay_positive, retry_delay, task_wf,
    time_after, DeliveryTask, FailureKind, TaskState, MAX_ATTEMPTS,
};
use crate::dispatch::{
    apply_effect, dispatch_model, Activity, DispatchError, Dispatched, InboxModel, LocalModel,
    ObjectState, SignatureError,
};
use crate::resolver::{resolution_step, ActorRecord, Resolution};
use vstd::prelude::*;

verus! {

/// Delivering the same activity twice changes the state at most once: the
/// second delivery leaves the state as the first left it. After an accepted
/// first delivery the second is a success that reports a duplicate; after a
/// rejected one it is rejected in the same way.
pub proof fn lemma_redelivery_is_noop(
    m: InboxModel,
    a: Activity,
    signature: Result<(), SignatureError>,
    authority: Result<Standing, AuthorityError>,
    now: u64,
    later: u64,
)
    ensures
        ({
            let (m1, r1) = dispatch_model(m, a, signature, authority, now);
            let (m2, r2) = dispatch_model(m1, a, signature, authority, later);
            &&& m2 == m1
            &&& (r1 is Ok ==> r2 == Ok::<Dispatched, DispatchError>(Dispatched::Duplicate))
            &&& (r1 is Err ==> r2 == r1 && m1 == m)
        }),
{
}

/// A rejected signature ends the pipeline before the ledger, the authority
/// decision or any handler: the state is unchanged whatever authority would say.
pub proof fn lemma_signature_checked_first(
    m: InboxModel,
    a: Activity,
    e: SignatureError,
    authority: Result<Standing, AuthorityError>,
    now: u64,
)
    ensures
        dispatch_model(m, a, Err(e), authority, now) == (m, Err::<Dispatched, DispatchError>(
            DispatchError::SignatureRejected(e),
        )),
{
}

/// A `Remove` in a community by an actor below moderator standing there, with
/// an identifier not accepted before, is rejected and changes nothing; with a
/// valid signature the rejection is `Unauthorized`.
pub proof fn lemma_remove_needs_moderator(
    m: InboxModel,
    a: Activity,
    ctx: ContextModel,
    admins: Seq<u64>,
    signature: Result<(), SignatureError>,
    now: u64,
)
    requires
        a.kind == ActivityKind::Remove,
        rank(standing_of(a.actor, ctx, admins)) < rank(Standing::Moderator),
        !m.ledger.contains_key(a.id),
    ensures
        ({
            let (m1, r) = dispatch_model(
                m,
                a,
                signature,
                authority_of(a.kind, a.actor, Some(ctx), admins),
                now,
            );
            &&& r is Err
            &&& m1 == m
            &&& (signature is Ok ==> r == Err::<Dispatched, DispatchError>(DispatchError::Unauthorized))
        }),
{
}

/// The local state after the handlers of `acts` ran in order, each failed
/// handler leaving the state as it was.
pub open spec fn apply_all(l: LocalModel, acts: Seq<Activity>) -> LocalModel
    decreases acts.len(),
{
    if acts.len() == 0 {
        l
    } else {
        let before = apply_all(l, acts.drop_last());
        match apply_effect(before, acts.last()) {
            Some(n) => n,
            None => before,
        }
    }
}

/// Once an object is deleted, no activity brings it back.
pub proof fn lemma_tombstone_stays(l: LocalModel, a: Activity, o: u64)
    requires
        l.objects.contains_key(o),
        l.objects[o] == ObjectState::Deleted,
    ensures
        ({
            let n = match apply_effect(l, a) {
                Some(n) => n,
                None => l,
            };
            n.objects.contains_key(o) && n.objects[o] == ObjectState::Deleted
        }),
{
}

/// Once an object is deleted, no dispatched activity brings it back.
pub proof fn lemma_deleted_stays_deleted(
    m: InboxModel,
    a: Activity,
    signature: Result<(), SignatureError>,
    authority: Result<Standing, AuthorityError>,
    now: u64,
    o: u64,
)
    requires
        m.local.objects.contains_key(o),
        m.local.objects[o] == ObjectState::Deleted,
    ensures
        ({
            let (m1, _r) = dispatch_model(m, a, signature, authority, now);
            m1.local.objects.contains_key(o) && m1.local.objects[o] == ObjectState::Deleted
        }),
{
    lemma_tombstone_stays(m.local, a, o);
}

/// Delete wins: whatever the order in which activities on an object are
/// applied, once a `Delete` of it is among them the object ends deleted.
pub proof fn lemma_delete_wins(l: LocalModel, acts: Seq<Activity>, o: u64)
    requires
        exists|i: int| 0 <= i < acts.len() && acts[i].kind == ActivityKind::Delete && acts[i].object == o,
    ensures
        apply_all(l, acts).objects.contains_key(o),
        apply_all(l, acts).objects[o] == ObjectState::Deleted,
    decreases acts.len(),
{
    let last = acts.last();
    let before = apply_all(l, acts.drop_last());
    if last.kind == ActivityKind::Delete && last.object == o {
    } else {
        let i = choose|i: int| 0 <= i < acts.len() && acts[i].kind == ActivityKind::Delete && acts[i].object == o;
        assert(i < acts.len() - 1);
        assert(acts.drop_last()[i] == acts[i]);
        lemma_delete_wins(l, acts.drop_last(), o);
        lemma_tombstone_stays(before, last, o);
    }
}

/// Retry delays strictly grow with the retry number, whatever the jitter.
pub proof fn lemma_backoff_strictly_increasing(n: nat, k: nat, jitter_n: u64, jitter_k: u64)
    requires
        1 <= n < k,
    ensures
        retry_delay(n, jitter_n) < retry_delay(k, jitter_k),
{
    lemma_base_delay_positive(n);
    lemma_base_delay_monotone(n + 1, k);
}

/// A pending task after transient failures at the given times with the given jitters.
pub open spec fn after_transient_failures(t: DeliveryTask, nows: Seq<u64>, jitters: Seq<u64>) -> DeliveryTask
    recommends
        nows.len() == jitters.len(),
    decreases nows.len(),
{
    if nows.len() == 0 || jitters.len() == 0 {
        t
    } else {
        after_failure(
            after_transient_failures(t, nows.drop_last(), jitters.drop_last()),
            FailureKind::Transient,
            nows.last(),
            jitters.last(),
        )
    }
}

/// A new task that fails transiently `n` times stays pending with `n`
/// attempts while `n < MAX_ATTEMPTS`, each retry scheduled after the backoff
/// delay of that attempt, and is abandoned exactly at attempt `MAX_ATTEMPTS`.
pub proof fn lemma_abandoned_exactly_at_cap(t: DeliveryTask, nows: Seq<u64>, jitters: Seq<u64>)
    requires
        t.state == TaskState::Pending,
        t.attempts == 0,
        nows.len() == jitters.len(),
        nows.len() <= MAX_ATTEMPTS,
    ensures
        ({
            let r = after_transient_failures(t, nows, jitters);
            &&& r.attempts == nows.len()
            &&& task_wf(r)
            &&& (r.state == TaskState::Abandoned <==> nows.len() == MAX_ATTEMPTS)
            &&& (nows.len() < MAX_ATTEMPTS ==> r.state == TaskState::Pending)
            &&& (0 < nows.len() < MAX_ATTEMPTS ==> r.next_attempt_at == time_after(
                nows.last(),
                retry_delay(nows.len() as nat, jitters.last()),
            ))
        }),
    decreases nows.len(),
{
    if nows.len() > 0 {
        lemma_abandoned_exactly_at_cap(t, nows.drop_last(), jitters.drop_last());
    }
}

/// While a fetch of an actor's document is under way, a second resolution
/// of the same actor never starts another fetch.
pub proof fn lemma_single_fetch_per_actor(
    actors: Map<u64, ActorRecord>,
    fetching: Set<u64>,
    id: u64,
    now: u64,
    later: u64,
    max_age: u64,
)
    ensures
        ({
            let (r1, f1) = resolution_step(actors, fetching, id, now, max_age);
            let (r2, f2) = resolution_step(actors, f1, id, later, max_age);
            !(r1 is Fetch && r2 is Fetch)
        }),
{
}

/// One delivery to the dispatcher: the activity with the verdicts it met.
pub ghost struct Delivery {
    pub activity: Activity,
    pub signature: Result<(), SignatureError>,
    pub authority: Result<Standing, AuthorityError>,
    pub now: u64,
}

/// The state after the dispatcher handled `ds` in order.
pub open spec fn dispatch_all(m: InboxModel, ds: Seq<Delivery>) -> InboxModel
    decreases ds.len(),
{
    if ds.len() == 0 {
        m
    } else {
        let d = ds.last();
        dispatch_model(dispatch_all(m, ds.drop_last()), d.activity, d.signature, d.authority, d.now).0
    }
}

/// The outcome of delivery number `i` of `ds`.
pub open spec fn outcome_at(m: InboxModel, ds: Seq<Delivery>, i: int) -> Result<Dispatched, DispatchError> {
    let d = ds[i];
    dispatch_model(dispatch_all(m, ds.take(i)), d.activity, d.signature, d.authority, d.now).1
}

/// Delete wins across the dispatcher: once a `Delete` of an object has been
/// applied, whatever arrives after it, in any order, leaves the object deleted.
pub proof fn lemma_dispatched_delete_wins(m: InboxModel, ds: Seq<Delivery>, o: u64)
    requires
        exists|i: int|
            0 <= i < ds.len() && ds[i].activity.kind == ActivityKind::Delete && ds[i].activity.object == o
                && outcome_at(m, ds, i) == Ok::<Dispatched, DispatchError>(Dispatched::Applied),
    ensures
        dispatch_all(m, ds).local.objects.contains_key(o),
        dispatch_all(m, ds).local.objects[o] == ObjectState::Deleted,
    decreases ds.len(),
{
    let i = choose|i: int|
        0 <= i < ds.len() && ds[i].activity.kind == ActivityKind::Delete && ds[i].activity.object == o
            && outcome_at(m, ds, i) == Ok::<Dispatched, DispatchError>(Dispatched::Applied);
    let last = ds.last();
    let before = dispatch_all(m, ds.drop_last());
    if i == ds.len() - 1 {
        assert(ds.take(i) =~= ds.drop_last());
    } else {
        let rest = ds.drop_last();
        assert(rest.take(i) =~= ds.take(i));
        assert(rest[i] == ds[i]);
        assert(outcome_at(m, rest, i) == outcome_at(m, ds, i));
        lemma_dispatched_delete_wins(m, rest, o);
        lemma_deleted_stays_deleted(before, last.activity, last.signature, last.authority, last.now, o);
    }
}

} // verus!
