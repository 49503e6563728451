use crate::authority::ActivityKind;
use crate::delivery::{fresh_task, inboxes_of, is_destination_set, DeliveryHandle, DeliveryQueue, Recipient};
use crate::dispatch::{Activity, Inbox, InboxModel, LocalModel, ObjectState};
use vstd::prelude::*;

verus! {

/// What a purge needs to know of a post.
#[derive(Clone, Copy, Debug, PartialEq, Eq, Structural)]
pub struct PostInfo {
    pub id: u64,
    pub creator_id: u64,
    pub community_id: u64,
}

/// Why a purge was refused.
#[derive(Clone, Copy, Debug, PartialEq, Eq, Structural)]
pub enum PurgeError {
    /// Only an admin may purge.
    NotAnAdmin,
    /// The post's creator is an admin of longer standing than the requester.
    NotHigherAdmin,
}

/// The moderation-log entry of a purge.
#[derive(Clone, Copy, Debug, PartialEq, Eq, Structural)]
pub struct AdminPurgePost {
    pub admin_person_id: u64,
    pub community_id: u64,
}

/// What a purge did: its log entry, the removal it announced and the
/// deliveries queued for it.
#[derive(Clone, Copy, Debug, PartialEq, Eq, Structural)]
pub struct PurgeOutcome {
    pub log: AdminPurgePost,
    pub removal: Activity,
    pub delivery: DeliveryHandle,
}

/// In `admins`, listed by seniority, `a` comes no later than the first
/// occurrence of `b`: `a` outranks `b`, or `b` is no admin at all, or `b` is `a`.
pub open spec fn outranks(admins: Seq<u64>, a: u64, b: u64) -> bool {
    exists|i: int| 0 <= i < admins.len() && admins[i] == a && forall|j: int| 0 <= j < i ==> admins[j] != b
}

/// The decision on a purge of a post by `creator` requested by `requester`.
pub open spec fn purge_decision(admins: Seq<u64>, requester: u64, creator: u64) -> Result<(), PurgeError> {
    if !admins.contains(requester) {
        Err(PurgeError::NotAnAdmin)
    } else if !outranks(admins, requester, creator) {
        Err(PurgeError::NotHigherAdmin)
    } else {
        Ok(())
    }
}

/// The removal announced for a purged post.
pub open spec fn removal_of(activity_id: u64, moderator: u64, post: u64) -> Activity {
    Activity { id: activity_id, kind: ActivityKind::Remove, actor: moderator, object: post, content: 0 }
}

/// Decides whether `requester` may purge a post created by `creator`;
/// `admins` lists the instance's admins by seniority.
pub fn check_purge(admins: &Vec<u64>, requester: u64, creator: u64) -> (r: Result<(), PurgeError>)
    ensures
        r == purge_decision(admins@, requester, creator),
{
    let mut k: usize = 0;
    while k < admins.len()
        invariant
            0 <= k <= admins@.len(),
            forall|j: int| 0 <= j < k ==> admins@[j] != requester && admins@[j] != creator,
        decreases admins@.len() - k,
    {
        let x = admins[k];
        if x == requester {
            assert(admins@.contains(requester));
            assert(outranks(admins@, requester, creator));
            return Ok(());
        }
        if x == creator {
            if crate::authority::contains_id(admins, requester) {
                assert forall|i: int| 0 <= i < admins@.len() && admins@[i] == requester implies !(forall|j: int|
                    0 <= j < i ==> admins@[j] != creator) by {
                    assert(i > k);
                    assert(admins@[k as int] == creator);
                }
                return Err(PurgeError::NotHigherAdmin);
            } else {
                return Err(PurgeError::NotAnAdmin);
            }
        }
        k = k + 1;
    }
    Err(PurgeError::NotAnAdmin)
}

/// An admin purges a post: the post is deleted locally, a log entry is made,
/// and a `Remove` of it (identified by `activity_id`) is queued for delivery
/// to `followers`, one task per distinct inbox. When refused, nothing changes.
pub fn purge_post(
    inbox: &mut Inbox,
    queue: &mut DeliveryQueue,
    admins: &Vec<u64>,
    requester: u64,
    post: &PostInfo,
    activity_id: u64,
    followers: &Vec<Recipient>,
    now: u64,
) -> (r: Result<PurgeOutcome, PurgeError>)
    requires
        old(inbox).wf(),
        old(queue).wf(),
    ensures
        final(inbox).wf(),
        final(queue).wf(),
        match purge_decision(admins@, requester, post.creator_id) {
            Err(e) => r == Err::<PurgeOutcome, PurgeError>(e) && *final(inbox) == *old(inbox) && *final(queue)
                == *old(queue),
            Ok(_) => r is Ok && {
                let out = r->Ok_0;
                let added = final(queue)@.subrange(old(queue)@.len() as int, final(queue)@.len() as int);
                &&& out.log == (AdminPurgePost { admin_person_id: requester, community_id: post.community_id })
                &&& out.removal == removal_of(activity_id, requester, post.id)
                &&& final(inbox)@ == (InboxModel {
                    local: LocalModel {
                        objects: old(inbox)@.local.objects.insert(post.id, ObjectState::Deleted),
                        ..old(inbox)@.local
                    },
                    ..old(inbox)@
                })
                &&& out.delivery.first == old(queue)@.len()
                &&& final(queue)@.len() == old(queue)@.len() + out.delivery.count
                &&& final(queue)@.subrange(0, old(queue)@.len() as int) == old(queue)@
                &&& forall|i: int|
                    old(queue)@.len() <= i < final(queue)@.len() ==> #[trigger] final(queue)@[i] == fresh_task(
                        activity_id,
                        final(queue)@[i].inbox,
                        now,
                    )
                &&& is_destination_set(inboxes_of(added), followers@)
            },
        },
{
    match check_purge(admins, requester, post.creator_id) {
        Err(e) => Err(e),
        Ok(()) => {
            inbox.delete_local(post.id);
            let log = AdminPurgePost { admin_person_id: requester, community_id: post.community_id };
            let removal = Activity {
                id: activity_id,
                kind: ActivityKind::Remove,
                actor: requester,
                object: post.id,
                content: 0,
            };
            let delivery = queue.enqueue(activity_id, followers, now);
            Ok(PurgeOutcome { log, removal, delivery })
        },
    }
}

} // verus!
