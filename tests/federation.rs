use federation_core::authority::{
    authorize, classify, contains_id, required_for, ActivityKind, AuthorityError,
    CommunityContext, Standing,
};
use federation_core::delivery::{
    delivery_targets, retry_delay_for, DeliveryQueue, FailureKind, Recipient, TaskState,
    MAX_ATTEMPTS,
};
use federation_core::dispatch::{
    decode_kind, Activity, DispatchError, Dispatched, FollowEdge, Inbox, ObjectState,
    SignatureError,
};
use federation_core::ledger::Ledger;
use federation_core::purge::{check_purge, purge_post, AdminPurgePost, PostInfo, PurgeError};
use federation_core::resolver::{
    check_live, verify_signature, ActorCache, ActorRecord, CacheLookup, ResolveError, Resolution,
};

const COMMUNITY: u64 = 500;
const MEMBER: u64 = 10;
const MODERATOR: u64 = 11;
const ADMIN: u64 = 12;
const STRANGER: u64 = 13;

fn community() -> CommunityContext {
    CommunityContext { id: COMMUNITY, moderators: vec![MODERATOR], members: vec![MEMBER, MODERATOR] }
}

fn admins() -> Vec<u64> {
    vec![ADMIN]
}

fn act(id: u64, kind: ActivityKind, actor: u64, object: u64, content: u64) -> Activity {
    Activity { id, kind, actor, object, content }
}

fn run(inbox: &mut Inbox, a: &Activity) -> Result<Dispatched, DispatchError> {
    let ctx = community();
    inbox.dispatch(a, Ok(()), Some(&ctx), &admins(), 1000)
}

fn record(id: u64, refreshed_at: u64) -> ActorRecord {
    ActorRecord {
        id,
        key_id: id * 100,
        inbox: id + 7000,
        shared_inbox: None,
        local: false,
        banned: false,
        deleted: false,
        refreshed_at,
    }
}

#[test]
fn create_from_member_is_applied_and_recorded() {
    let mut inbox = Inbox::new();
    let a = act(1, ActivityKind::Create, MEMBER, 77, 5);
    assert_eq!(run(&mut inbox, &a), Ok(Dispatched::Applied));
    assert_eq!(inbox.object_state(77), Some(ObjectState::Live { content: 5 }));
    assert!(inbox.has_seen(1));
}

#[test]
fn redelivered_create_is_a_duplicate() {
    let mut inbox = Inbox::new();
    let a = act(1, ActivityKind::Create, MEMBER, 77, 5);
    assert_eq!(run(&mut inbox, &a), Ok(Dispatched::Applied));
    assert_eq!(run(&mut inbox, &a), Ok(Dispatched::Duplicate));
    assert_eq!(inbox.object_state(77), Some(ObjectState::Live { content: 5 }));
}

#[test]
fn redelivered_update_changes_nothing_more() {
    let mut inbox = Inbox::new();
    run(&mut inbox, &act(1, ActivityKind::Create, MEMBER, 77, 5)).unwrap();
    let u = act(2, ActivityKind::Update, MEMBER, 77, 6);
    assert_eq!(run(&mut inbox, &u), Ok(Dispatched::Applied));
    run(&mut inbox, &act(3, ActivityKind::Update, MEMBER, 77, 9)).unwrap();
    assert_eq!(run(&mut inbox, &u), Ok(Dispatched::Duplicate));
    assert_eq!(inbox.object_state(77), Some(ObjectState::Live { content: 9 }));
}

#[test]
fn bad_signature_is_rejected_before_anything_else() {
    let mut inbox = Inbox::new();
    let ctx = community();
    let a = act(1, ActivityKind::Create, MEMBER, 77, 5);
    let r = inbox.dispatch(&a, Err(SignatureError::SignatureMismatch), Some(&ctx), &admins(), 1000);
    assert_eq!(r, Err(DispatchError::SignatureRejected(SignatureError::SignatureMismatch)));
    assert!(!inbox.has_seen(1));
    assert_eq!(inbox.object_state(77), None);
    // Even without a community, the signature verdict comes first.
    let r = inbox.dispatch(&a, Err(SignatureError::UnknownActor), None, &admins(), 1000);
    assert_eq!(r, Err(DispatchError::SignatureRejected(SignatureError::UnknownActor)));
}

#[test]
fn delete_wins_in_every_arrival_order() {
    let c = act(1, ActivityKind::Create, MEMBER, 77, 5);
    let u = act(2, ActivityKind::Update, MEMBER, 77, 6);
    let d = act(3, ActivityKind::Delete, MEMBER, 77, 0);
    let orders = [[c, u, d], [c, d, u], [u, c, d], [u, d, c], [d, c, u], [d, u, c]];
    for order in orders.iter() {
        let mut inbox = Inbox::new();
        for a in order.iter() {
            let _ = run(&mut inbox, a);
        }
        assert_eq!(inbox.object_state(77), Some(ObjectState::Deleted));
    }
}

#[test]
fn create_after_delete_fails_to_apply() {
    let mut inbox = Inbox::new();
    run(&mut inbox, &act(3, ActivityKind::Delete, MEMBER, 77, 0)).unwrap();
    let r = run(&mut inbox, &act(1, ActivityKind::Create, MEMBER, 77, 5));
    assert_eq!(r, Err(DispatchError::ApplicationFailed));
    assert_eq!(inbox.object_state(77), Some(ObjectState::Deleted));
}

#[test]
fn remove_by_member_is_unauthorized() {
    let mut inbox = Inbox::new();
    run(&mut inbox, &act(1, ActivityKind::Create, MEMBER, 77, 5)).unwrap();
    let r = run(&mut inbox, &act(2, ActivityKind::Remove, MEMBER, 77, 0));
    assert_eq!(r, Err(DispatchError::Unauthorized));
    let r = run(&mut inbox, &act(3, ActivityKind::Remove, STRANGER, 77, 0));
    assert_eq!(r, Err(DispatchError::Unauthorized));
    assert_eq!(inbox.object_state(77), Some(ObjectState::Live { content: 5 }));
}

#[test]
fn remove_by_moderator_or_admin_is_applied() {
    let mut inbox = Inbox::new();
    run(&mut inbox, &act(1, ActivityKind::Create, MEMBER, 77, 5)).unwrap();
    assert_eq!(run(&mut inbox, &act(2, ActivityKind::Remove, MODERATOR, 77, 0)), Ok(Dispatched::Applied));
    assert_eq!(inbox.object_state(77), Some(ObjectState::Removed));
    run(&mut inbox, &act(3, ActivityKind::Create, MEMBER, 78, 5)).unwrap();
    assert_eq!(run(&mut inbox, &act(4, ActivityKind::Remove, ADMIN, 78, 0)), Ok(Dispatched::Applied));
    assert_eq!(inbox.object_state(78), Some(ObjectState::Removed));
}

#[test]
fn unknown_community_is_rejected() {
    let mut inbox = Inbox::new();
    let a = act(1, ActivityKind::Create, MEMBER, 77, 5);
    let r = inbox.dispatch(&a, Ok(()), None, &admins(), 1000);
    assert_eq!(r, Err(DispatchError::UnknownCommunity));
    assert_eq!(inbox.object_state(77), None);
}

#[test]
fn update_of_missing_object_fails_to_apply() {
    let mut inbox = Inbox::new();
    let r = run(&mut inbox, &act(1, ActivityKind::Update, MEMBER, 77, 5));
    assert_eq!(r, Err(DispatchError::ApplicationFailed));
    assert_eq!(inbox.object_state(77), None);
}

#[test]
fn follow_and_undo() {
    let mut inbox = Inbox::new();
    assert_eq!(run(&mut inbox, &act(40, ActivityKind::Follow, STRANGER, COMMUNITY, 0)), Ok(Dispatched::Applied));
    assert_eq!(inbox.follow(40), Some(FollowEdge { follower: STRANGER, community: COMMUNITY }));
    // Only the follower may undo its follow.
    assert_eq!(run(&mut inbox, &act(41, ActivityKind::Undo, MEMBER, 40, 0)), Err(DispatchError::ApplicationFailed));
    assert_eq!(run(&mut inbox, &act(42, ActivityKind::Undo, STRANGER, 40, 0)), Ok(Dispatched::Applied));
    assert_eq!(inbox.follow(40), None);
}

#[test]
fn standings_and_policy() {
    let ctx = community();
    assert_eq!(classify(ADMIN, &ctx, &admins()), Standing::Admin);
    assert_eq!(classify(MODERATOR, &ctx, &admins()), Standing::Moderator);
    assert_eq!(classify(MEMBER, &ctx, &admins()), Standing::Member);
    assert_eq!(classify(STRANGER, &ctx, &admins()), Standing::Outsider);
    assert_eq!(required_for(ActivityKind::Remove), Standing::Moderator);
    assert_eq!(required_for(ActivityKind::Create), Standing::Member);
    assert_eq!(authorize(ActivityKind::Create, STRANGER, Some(&ctx), &admins()), Err(AuthorityError::Unauthorized));
    assert_eq!(authorize(ActivityKind::Follow, STRANGER, Some(&ctx), &admins()), Ok(Standing::Outsider));
    assert_eq!(authorize(ActivityKind::Remove, ADMIN, None, &admins()), Err(AuthorityError::UnknownCommunity));
    assert!(contains_id(&vec![1, 2, 3], 3));
    assert!(!contains_id(&vec![], 3));
}

#[test]
fn ledger_records_once() {
    let mut l = Ledger::new();
    assert!(!l.has_seen(9));
    assert!(l.record_if_new(9, 5));
    assert!(!l.record_if_new(9, 6));
    assert!(l.has_seen(9));
}

#[test]
fn signature_verdicts() {
    let ok: Result<ActorRecord, ResolveError> = Ok(record(3, 0));
    assert_eq!(verify_signature(&ok, 300, true), Ok(()));
    assert_eq!(verify_signature(&ok, 301, true), Err(SignatureError::SignatureMismatch));
    assert_eq!(verify_signature(&ok, 300, false), Err(SignatureError::SignatureMismatch));
    let gone: Result<ActorRecord, ResolveError> = Err(ResolveError::DeletedActor);
    assert_eq!(verify_signature(&gone, 300, true), Err(SignatureError::UnknownActor));
}

#[test]
fn cache_lookup_and_refresh() {
    let mut cache = ActorCache::new();
    assert_eq!(cache.lookup(3, 100, 50), CacheLookup::Missing);
    assert_eq!(cache.resolve_cached(3, 100, 50), None);
    cache.upsert(record(3, 100));
    assert_eq!(cache.lookup(3, 150, 50), CacheLookup::Fresh(record(3, 100)));
    assert_eq!(cache.lookup(3, 151, 50), CacheLookup::Stale(record(3, 100)));
    assert_eq!(cache.resolve_cached(3, 150, 50), Some(Ok(record(3, 100))));
    assert_eq!(cache.mark_as_updated(3, 200), Some(record(3, 200)));
    assert_eq!(cache.lookup(3, 240, 50), CacheLookup::Fresh(record(3, 200)));
    assert_eq!(cache.mark_as_updated(4, 200), None);
}

#[test]
fn fetch_completion() {
    let mut cache = ActorCache::new();
    let r = cache.complete_fetch(3, Err(ResolveError::FetchError), 10);
    assert_eq!(r, Err(ResolveError::FetchError));
    assert_eq!(cache.lookup(3, 10, 5), CacheLookup::Missing);
    let r = cache.complete_fetch(3, Ok(record(99, 0)), 10);
    assert_eq!(r, Ok(record(3, 10)).map(|a| ActorRecord { key_id: 9900, inbox: 7099, ..a }));
    assert_eq!(cache.read_from_apub_id(3).map(|a| a.refreshed_at), Some(10));
}

#[test]
fn banned_and_deleted_actors_do_not_resolve() {
    let mut cache = ActorCache::new();
    cache.upsert(record(3, 100));
    let banned = cache.ban_person(3, true).unwrap();
    assert!(banned.banned);
    assert_eq!(cache.resolve_cached(3, 100, 50), Some(Err(ResolveError::DeletedActor)));
    cache.ban_person(3, false);
    assert_eq!(cache.resolve_cached(3, 100, 50), Some(Ok(record(3, 100))));
    assert!(cache.delete_account(3).unwrap().deleted);
    assert_eq!(cache.read_from_apub_id(3), None);
    assert_eq!(check_live(ActorRecord { deleted: true, ..record(5, 0) }), Err(ResolveError::DeletedActor));
    assert_eq!(cache.ban_person(8, true), None);
}

#[test]
fn retry_delays_double_with_jitter_below_base() {
    assert_eq!(retry_delay_for(1, 0), 60);
    assert_eq!(retry_delay_for(1, 61), 61);
    assert_eq!(retry_delay_for(2, 0), 120);
    assert_eq!(retry_delay_for(3, 130), 370);
    assert_eq!(retry_delay_for(7, 0), 3840);
    let mut prev = 0;
    for n in 1..MAX_ATTEMPTS {
        let d = retry_delay_for(n, u64::MAX);
        assert!(d > prev);
        prev = d;
    }
}

#[test]
fn transient_failures_back_off_then_abandon_at_cap() {
    let mut q = DeliveryQueue::new();
    q.enqueue(1, &vec![Recipient { inbox: 70, shared_inbox: None }], 0);
    let mut last_delay = 0;
    for n in 1..MAX_ATTEMPTS {
        let now = 1000 * n as u64;
        let abandoned = q.record_failure(0, FailureKind::Transient, now, 0);
        assert!(!abandoned);
        let t = q.task(0);
        assert_eq!(t.state, TaskState::Pending);
        assert_eq!(t.attempts, n);
        let delay = t.next_attempt_at - now;
        assert!(delay > last_delay);
        last_delay = delay;
    }
    assert!(q.record_failure(0, FailureKind::Transient, 99_000, 0));
    assert_eq!(q.task(0).state, TaskState::Abandoned);
    assert_eq!(q.task(0).attempts, MAX_ATTEMPTS);
    assert!(!q.record_failure(0, FailureKind::Transient, 99_000, 0));
}

#[test]
fn permanent_failure_abandons_at_once() {
    let mut q = DeliveryQueue::new();
    q.enqueue(1, &vec![Recipient { inbox: 70, shared_inbox: None }], 0);
    assert!(q.record_failure(0, FailureKind::Permanent, 5, 0));
    assert_eq!(q.task(0).state, TaskState::Abandoned);
    assert_eq!(q.next_due(1000), None);
}

#[test]
fn success_cancel_and_due_order() {
    let mut q = DeliveryQueue::new();
    let rs = vec![
        Recipient { inbox: 70, shared_inbox: None },
        Recipient { inbox: 71, shared_inbox: None },
        Recipient { inbox: 72, shared_inbox: None },
    ];
    q.enqueue(1, &rs, 0);
    assert_eq!(q.next_due(0), Some(0));
    q.record_failure(0, FailureKind::Transient, 0, 0);
    assert_eq!(q.task(0).next_attempt_at, 60);
    assert_eq!(q.next_due(10), Some(1));
    q.record_success(1);
    assert_eq!(q.task(1).state, TaskState::Delivered);
    q.cancel(2);
    assert_eq!(q.task(2).state, TaskState::Cancelled);
    assert_eq!(q.next_due(59), None);
    assert_eq!(q.next_due(60), Some(0));
    q.record_success(2);
    assert_eq!(q.task(2).state, TaskState::Cancelled);
}

#[test]
fn shared_inboxes_collapse() {
    let rs = vec![
        Recipient { inbox: 1, shared_inbox: Some(900) },
        Recipient { inbox: 2, shared_inbox: Some(900) },
        Recipient { inbox: 3, shared_inbox: None },
        Recipient { inbox: 3, shared_inbox: None },
        Recipient { inbox: 4, shared_inbox: Some(901) },
    ];
    assert_eq!(delivery_targets(&rs), vec![900, 3, 901]);
    assert_eq!(delivery_targets(&vec![]), Vec::<u64>::new());
}

#[test]
fn purge_queues_one_task_per_follower_inbox() {
    let mut inbox = Inbox::new();
    let mut q = DeliveryQueue::new();
    run(&mut inbox, &act(1, ActivityKind::Create, MEMBER, 77, 5)).unwrap();
    let post = PostInfo { id: 77, creator_id: MEMBER, community_id: COMMUNITY };
    let followers = vec![
        Recipient { inbox: 1, shared_inbox: Some(900) },
        Recipient { inbox: 2, shared_inbox: Some(900) },
        Recipient { inbox: 3, shared_inbox: None },
        Recipient { inbox: 4, shared_inbox: Some(901) },
    ];
    let out = purge_post(&mut inbox, &mut q, &admins(), ADMIN, &post, 555, &followers, 42).unwrap();
    assert_eq!(out.log, AdminPurgePost { admin_person_id: ADMIN, community_id: COMMUNITY });
    assert_eq!(out.removal.kind, ActivityKind::Remove);
    assert_eq!(out.removal.object, 77);
    assert_eq!(out.delivery.first, 0);
    assert_eq!(out.delivery.count, 3);
    assert_eq!(q.len(), 3);
    let mut inboxes = Vec::new();
    for i in 0..q.len() {
        let t = q.task(i);
        assert_eq!(t.state, TaskState::Pending);
        assert_eq!(t.activity, 555);
        assert_eq!(t.attempts, 0);
        inboxes.push(t.inbox);
    }
    inboxes.sort();
    assert_eq!(inboxes, vec![3, 900, 901]);
    assert_eq!(inbox.object_state(77), Some(ObjectState::Deleted));
}

#[test]
fn purge_is_refused_to_non_admins_and_junior_admins() {
    let mut inbox = Inbox::new();
    let mut q = DeliveryQueue::new();
    let post = PostInfo { id: 77, creator_id: 20, community_id: COMMUNITY };
    let followers = vec![Recipient { inbox: 3, shared_inbox: None }];
    let r = purge_post(&mut inbox, &mut q, &vec![20, 21], MEMBER, &post, 555, &followers, 42);
    assert_eq!(r, Err(PurgeError::NotAnAdmin));
    let r = purge_post(&mut inbox, &mut q, &vec![20, 21], 21, &post, 555, &followers, 42);
    assert_eq!(r, Err(PurgeError::NotHigherAdmin));
    assert_eq!(q.len(), 0);
    assert_eq!(inbox.object_state(77), None);
    assert_eq!(check_purge(&vec![21, 20], 21, 20), Ok(()));
    assert_eq!(check_purge(&vec![21], 21, 21), Ok(()));
    assert_eq!(check_purge(&vec![21], 21, 5), Ok(()));
}

#[test]
fn ledger_forgets_entries_past_retention() {
    let mut l = Ledger::new();
    l.record_if_new(1, 5);
    l.record_if_new(2, 10);
    l.record_if_new(3, 15);
    l.evict_before(10);
    assert!(!l.has_seen(1));
    assert!(l.has_seen(2));
    assert!(l.has_seen(3));
    assert!(l.record_if_new(1, 20));
    l.evict_before(0);
    assert!(l.has_seen(1) && l.has_seen(2) && l.has_seen(3));
    l.evict_before(u64::MAX);
    assert!(!l.has_seen(1) && !l.has_seen(2) && !l.has_seen(3));
}

#[test]
fn evicted_identifier_is_accepted_again_without_duplicating() {
    let mut inbox = Inbox::new();
    let a = act(1, ActivityKind::Create, MEMBER, 77, 5);
    assert_eq!(run(&mut inbox, &a), Ok(Dispatched::Applied));
    inbox.evict_seen_before(2000);
    assert!(!inbox.has_seen(1));
    assert_eq!(run(&mut inbox, &a), Err(DispatchError::ApplicationFailed));
    assert_eq!(inbox.object_state(77), Some(ObjectState::Live { content: 5 }));
}

#[test]
fn receive_checks_the_signature_first() {
    let mut inbox = Inbox::new();
    let ctx = community();
    let a = act(1, ActivityKind::Create, MEMBER, 77, 5);
    let resolved: Result<ActorRecord, ResolveError> = Ok(record(MEMBER, 0));
    let r = inbox.receive(&a, &resolved, 999, true, Some(&ctx), &admins(), 1000);
    assert_eq!(r, Err(DispatchError::SignatureRejected(SignatureError::SignatureMismatch)));
    assert!(!inbox.has_seen(1));
    let unknown: Result<ActorRecord, ResolveError> = Err(ResolveError::FetchError);
    let r = inbox.receive(&a, &unknown, MEMBER * 100, true, Some(&ctx), &admins(), 1000);
    assert_eq!(r, Err(DispatchError::SignatureRejected(SignatureError::UnknownActor)));
    let r = inbox.receive(&a, &resolved, MEMBER * 100, true, Some(&ctx), &admins(), 1000);
    assert_eq!(r, Ok(Dispatched::Applied));
    assert_eq!(inbox.object_state(77), Some(ObjectState::Live { content: 5 }));
}

#[test]
fn due_tasks_on_a_tie_go_in_submission_order() {
    let mut q = DeliveryQueue::new();
    q.enqueue(1, &vec![Recipient { inbox: 70, shared_inbox: None }], 5);
    q.enqueue(2, &vec![Recipient { inbox: 70, shared_inbox: None }], 5);
    assert_eq!(q.next_due(5), Some(0));
    q.record_success(0);
    assert_eq!(q.next_due(5), Some(1));
    assert_eq!(q.next_due(4), None);
}

#[test]
fn one_fetch_per_actor_at_a_time() {
    let mut cache = ActorCache::new();
    assert_eq!(cache.start_resolution(3, 100, 50), Resolution::Fetch);
    assert_eq!(cache.start_resolution(3, 100, 50), Resolution::Await);
    assert_eq!(cache.start_resolution(4, 100, 50), Resolution::Fetch);
    assert_eq!(cache.complete_fetch(3, Ok(record(3, 0)), 100), Ok(record(3, 100)));
    assert_eq!(cache.start_resolution(3, 120, 50), Resolution::Ready(Ok(record(3, 100))));
    // A failed fetch clears the mark, so a later resolution fetches again.
    assert_eq!(cache.complete_fetch(4, Err(ResolveError::FetchError), 100), Err(ResolveError::FetchError));
    assert_eq!(cache.start_resolution(4, 120, 50), Resolution::Fetch);
    // A stale entry is fetched again.
    assert_eq!(cache.start_resolution(3, 151, 50), Resolution::Fetch);
}

#[test]
fn rejected_activity_can_be_retried_by_its_sender() {
    let mut inbox = Inbox::new();
    let u = act(2, ActivityKind::Update, MEMBER, 77, 6);
    assert_eq!(run(&mut inbox, &u), Err(DispatchError::ApplicationFailed));
    assert!(!inbox.has_seen(2));
    run(&mut inbox, &act(1, ActivityKind::Create, MEMBER, 77, 5)).unwrap();
    assert_eq!(run(&mut inbox, &u), Ok(Dispatched::Applied));
    assert_eq!(inbox.object_state(77), Some(ObjectState::Live { content: 6 }));
    let r = run(&mut inbox, &act(3, ActivityKind::Remove, MEMBER, 77, 0));
    assert_eq!(r, Err(DispatchError::Unauthorized));
    assert!(!inbox.has_seen(3));
}

#[test]
fn type_tags_decode_to_the_closed_set() {
    assert_eq!(decode_kind(b"Create"), Ok(ActivityKind::Create));
    assert_eq!(decode_kind(b"Update"), Ok(ActivityKind::Update));
    assert_eq!(decode_kind(b"Delete"), Ok(ActivityKind::Delete));
    assert_eq!(decode_kind(b"Remove"), Ok(ActivityKind::Remove));
    assert_eq!(decode_kind(b"Follow"), Ok(ActivityKind::Follow));
    assert_eq!(decode_kind(b"Undo"), Ok(ActivityKind::Undo));
    assert_eq!(decode_kind(b"Announce"), Err(DispatchError::UnsupportedType));
    assert_eq!(decode_kind(b"create"), Err(DispatchError::UnsupportedType));
    assert_eq!(decode_kind(b""), Err(DispatchError::UnsupportedType));
}
