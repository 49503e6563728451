use crate::authority::{
    authority_of, authorize, ActivityKind, AuthorityError, CommunityContext, ContextModel,
    Standing,
};
use crate::ledger::{retained, Ledger};
use crate::resolver::{signature_verdict, verify_signature, ActorRecord, ResolveError};
use vstd::hash_map::HashMapWithView;
use vstd::prelude::*;

verus! {

/// An inbound activity, with its identifiers interned.
#[derive(Clone, Copy, Debug, PartialEq, Eq, Structural)]
pub struct Activity {
    pub id: u64,
    pub kind: ActivityKind,
    pub actor: u64,
    /// The content entity acted on; for `Follow` the community followed, for
    /// `Undo` the identifier of the activity undone.
    pub object: u64,
    /// The content carried by `Create` and `Update`.
    pub content: u64,
}

/// What the local store holds for a content entity. A deletion leaves a
/// tombstone, so that a late `Create` cannot bring the entity back.
#[derive(Clone, Copy, Debug, PartialEq, Eq, Structural)]
pub enum ObjectState {
    Live { content: u64 },
    Removed,
    Deleted,
}

/// A follow relation, recorded under the identifier of its `Follow` activity.
#[derive(Clone, Copy, Debug, PartialEq, Eq, Structural)]
pub struct FollowEdge {
    pub follower: u64,
    pub community: u64,
}

/// Why signature verification failed.
#[derive(Clone, Copy, Debug, PartialEq, Eq, Structural)]
pub enum SignatureError {
    SignatureMismatch,
    UnknownActor,
}

/// Why an inbound activity was rejected.
#[derive(Clone, Copy, Debug, PartialEq, Eq, Structural)]
pub enum DispatchError {
    SignatureRejected(SignatureError),
    Unauthorized,
    UnknownCommunity,
    /// The type tag names no supported kind of activity.
    UnsupportedType,
    ApplicationFailed,
}

/// How an accepted activity was handled.
#[derive(Clone, Copy, Debug, PartialEq, Eq, Structural)]
pub enum Dispatched {
    Applied,
    /// Already accepted before: success, with nothing changed.
    Duplicate,
}

/// The local state that inbound activities change.
pub ghost struct LocalModel {
    pub objects: Map<u64, ObjectState>,
    pub follows: Map<u64, FollowEdge>,
}

/// The whole inbound state: the ledger of accepted identifiers and the local state.
pub ghost struct InboxModel {
    pub ledger: Map<u64, u64>,
    pub local: LocalModel,
}

/// The effect of a type-specific handler, or `None` where it cannot apply.
pub open spec fn apply_effect(m: LocalModel, a: Activity) -> Option<LocalModel> {
    let o = a.object;
    match a.kind {
        ActivityKind::Create => if m.objects.contains_key(o) {
            None
        } else {
            Some(LocalModel { objects: m.objects.insert(o, ObjectState::Live { content: a.content }), ..m })
        },
        ActivityKind::Update => if m.objects.contains_key(o) && m.objects[o] is Live {
            Some(LocalModel { objects: m.objects.insert(o, ObjectState::Live { content: a.content }), ..m })
        } else {
            None
        },
        ActivityKind::Delete => Some(LocalModel { objects: m.objects.insert(o, ObjectState::Deleted), ..m }),
        ActivityKind::Remove => if m.objects.contains_key(o) && m.objects[o] != ObjectState::Deleted {
            Some(LocalModel { objects: m.objects.insert(o, ObjectState::Removed), ..m })
        } else {
            None
        },
        ActivityKind::Follow => Some(
            LocalModel { follows: m.follows.insert(a.id, FollowEdge { follower: a.actor, community: o }), ..m },
        ),
        ActivityKind::Undo => if m.follows.contains_key(o) && m.follows[o].follower == a.actor {
            Some(LocalModel { follows: m.follows.remove(o), ..m })
        } else {
            None
        },
    }
}

/// The inbound pipeline on models: signature, then the ledger, then
/// authority, then the handler. Returns the next state and the outcome.
/// Only an applied activity is recorded in the ledger: a rejected one leaves
/// the whole state as it was, so that the sender's own retry can succeed.
pub open spec fn dispatch_model(
    m: InboxModel,
    a: Activity,
    signature: Result<(), SignatureError>,
    authority: Result<Standing, AuthorityError>,
    now: u64,
) -> (InboxModel, Result<Dispatched, DispatchError>) {
    match signature {
        Err(e) => (m, Err(DispatchError::SignatureRejected(e))),
        Ok(_) => if m.ledger.contains_key(a.id) {
            (m, Ok(Dispatched::Duplicate))
        } else {
            match authority {
                Err(AuthorityError::Unauthorized) => (m, Err(DispatchError::Unauthorized)),
                Err(AuthorityError::UnknownCommunity) => (m, Err(DispatchError::UnknownCommunity)),
                Ok(_) => match apply_effect(m.local, a) {
                    Some(l) => (InboxModel { ledger: m.ledger.insert(a.id, now), local: l }, Ok(Dispatched::Applied)),
                    None => (m, Err(DispatchError::ApplicationFailed)),
                },
            }
        },
    }
}

/// The inbound side of a server: the ledger, the content store and the follows.
pub struct Inbox {
    ledger: Ledger,
    objects: HashMapWithView<u64, ObjectState>,
    follows: HashMapWithView<u64, FollowEdge>,
}

impl View for Inbox {
    type V = InboxModel;

    closed spec fn view(&self) -> InboxModel {
        InboxModel {
            ledger: self.ledger@,
            local: LocalModel { objects: self.objects@, follows: self.follows@ },
        }
    }
}

impl Inbox {
    /// The ledger keeps its bookkeeping consistent.
    pub closed spec fn wf(&self) -> bool {
        self.ledger.wf()
    }

    /// An inbox with nothing accepted and nothing stored.
    pub fn new() -> (r: Inbox)
        ensures
            r.wf(),
            r@.ledger == Map::<u64, u64>::empty(),
            r@.local.objects == Map::<u64, ObjectState>::empty(),
            r@.local.follows == Map::<u64, FollowEdge>::empty(),
    {
        Inbox { ledger: Ledger::new(), objects: HashMapWithView::new(), follows: HashMapWithView::new() }
    }

    /// What the store holds for `object`.
    pub fn object_state(&self, object: u64) -> (r: Option<ObjectState>)
        ensures
            r == (if self@.local.objects.contains_key(object) {
                Some(self@.local.objects[object])
            } else {
                None
            }),
    {
        match self.objects.get(&object) {
            Some(s) => Some(*s),
            None => None,
        }
    }

    /// The follow recorded under the `Follow` activity `follow_id`.
    pub fn follow(&self, follow_id: u64) -> (r: Option<FollowEdge>)
        ensures
            r == (if self@.local.follows.contains_key(follow_id) {
                Some(self@.local.follows[follow_id])
            } else {
                None
            }),
    {
        match self.follows.get(&follow_id) {
            Some(e) => Some(*e),
            None => None,
        }
    }

    /// Whether the activity `id` was already accepted.
    pub fn has_seen(&self, id: u64) -> (r: bool)
        ensures
            r == self@.ledger.contains_key(id),
    {
        self.ledger.has_seen(id)
    }

    /// Forgets the accepted identifiers first seen before `cutoff`; the local state is kept.
    pub fn evict_seen_before(&mut self, cutoff: u64)
        requires
            old(self).wf(),
        ensures
            final(self).wf(),
            final(self)@ == (InboxModel { ledger: retained(old(self)@.ledger, cutoff), ..old(self)@ }),
    {
        self.ledger.evict_before(cutoff);
    }

    /// Deletes `object` locally, leaving a tombstone; the ledger and the follows are kept.
    pub fn delete_local(&mut self, object: u64)
        requires
            old(self).wf(),
        ensures
            final(self).wf(),
            final(self)@ == (InboxModel {
                local: LocalModel { objects: old(self)@.local.objects.insert(object, ObjectState::Deleted), ..old(self)@.local },
                ..old(self)@
            }),
    {
        self.objects.insert(object, ObjectState::Deleted);
    }

    /// Runs the type-specific handler of `a`; on `false` nothing changed.
    fn apply(&mut self, a: &Activity) -> (r: bool)
        requires
            old(self).wf(),
        ensures
            final(self).wf(),
            r == apply_effect(old(self)@.local, *a) is Some,
            final(self)@.ledger == old(self)@.ledger,
            final(self)@.local == (match apply_effect(old(self)@.local, *a) {
                Some(l) => l,
                None => old(self)@.local,
            }),
    {
        let o = a.object;
        match a.kind {
            ActivityKind::Create => {
                if self.objects.contains_key(&o) {
                    false
                } else {
                    self.objects.insert(o, ObjectState::Live { content: a.content });
                    true
                }
            },
            ActivityKind::Update => {
                match self.objects.get(&o) {
                    Some(ObjectState::Live { .. }) => {
                        self.objects.insert(o, ObjectState::Live { content: a.content });
                        true
                    },
                    _ => false,
                }
            },
            ActivityKind::Delete => {
                self.objects.insert(o, ObjectState::Deleted);
                true
            },
            ActivityKind::Remove => {
                match self.objects.get(&o) {
                    Some(ObjectState::Live { .. }) | Some(ObjectState::Removed) => {
                        self.objects.insert(o, ObjectState::Removed);
                        true
                    },
                    _ => false,
                }
            },
            ActivityKind::Follow => {
                self.follows.insert(a.id, FollowEdge { follower: a.actor, community: o });
                true
            },
            ActivityKind::Undo => {
                let owned = match self.follows.get(&o) {
                    Some(e) => e.follower == a.actor,
                    None => false,
                };
                if owned {
                    self.follows.remove(&o);
                }
                owned
            },
        }
    }

    /// Handles one inbound activity signed with the key `signed_key`:
    /// `resolved` is the resolution of its actor and `crypto_ok` whether the
    /// signature checks out against that actor's key. The signature verdict
    /// then decides as in `dispatch`.
    pub fn receive(
        &mut self,
        a: &Activity,
        resolved: &Result<ActorRecord, ResolveError>,
        signed_key: u64,
        crypto_ok: bool,
        ctx: Option<&CommunityContext>,
        admins: &Vec<u64>,
        now: u64,
    ) -> (r: Result<Dispatched, DispatchError>)
        requires
            old(self).wf(),
        ensures
            final(self).wf(),
            (final(self)@, r) == dispatch_model(
                old(self)@,
                *a,
                signature_verdict(*resolved, signed_key, crypto_ok),
                authority_of(a.kind, a.actor, context_model(ctx), admins@),
                now,
            ),
    {
        let signature = verify_signature(resolved, signed_key, crypto_ok);
        self.dispatch(a, signature, ctx, admins, now)
    }

    /// Handles one inbound activity: `signature` is the verifier's verdict,
    /// `ctx` the community the activity pertains to (absent when it could not
    /// be derived), `admins` the instance's admins. A rejected signature stops
    /// the pipeline before the ledger, the authority decision or any handler;
    /// an identifier already accepted is a success that changes nothing; a
    /// rejection changes nothing either.
    pub fn dispatch(
        &mut self,
        a: &Activity,
        signature: Result<(), SignatureError>,
        ctx: Option<&CommunityContext>,
        admins: &Vec<u64>,
        now: u64,
    ) -> (r: Result<Dispatched, DispatchError>)
        requires
            old(self).wf(),
        ensures
            final(self).wf(),
            (final(self)@, r) == dispatch_model(
                old(self)@,
                *a,
                signature,
                authority_of(a.kind, a.actor, context_model(ctx), admins@),
                now,
            ),
    {
        match signature {
            Err(e) => Err(DispatchError::SignatureRejected(e)),
            Ok(()) => {
                if self.ledger.has_seen(a.id) {
                    return Ok(Dispatched::Duplicate);
                }
                match authorize(a.kind, a.actor, ctx, admins) {
                    Err(AuthorityError::Unauthorized) => Err(DispatchError::Unauthorized),
                    Err(AuthorityError::UnknownCommunity) => Err(DispatchError::UnknownCommunity),
                    Ok(_) => {
                        if self.apply(a) {
                            self.ledger.record_if_new(a.id, now);
                            Ok(Dispatched::Applied)
                        } else {
                            Err(DispatchError::ApplicationFailed)
                        }
                    },
                }
            },
        }
    }
}

/// The model of an optional community context.
pub open spec fn context_model(ctx: Option<&CommunityContext>) -> Option<ContextModel> {
    match ctx {
        Some(c) => Some(c@),
        None => None,
    }
}

/// The kind that a type tag names: the ASCII bytes of `Create`, `Update`,
/// `Delete`, `Remove`, `Follow` or `Undo`.
pub open spec fn kind_of_tag(tag: Seq<u8>) -> Option<ActivityKind> {
    if tag == seq![67u8, 114u8, 101u8, 97u8, 116u8, 101u8] {
        Some(ActivityKind::Create)
    } else if tag == seq![85u8, 112u8, 100u8, 97u8, 116u8, 101u8] {
        Some(ActivityKind::Update)
    } else if tag == seq![68u8, 101u8, 108u8, 101u8, 116u8, 101u8] {
        Some(ActivityKind::Delete)
    } else if tag == seq![82u8, 101u8, 109u8, 111u8, 118u8, 101u8] {
        Some(ActivityKind::Remove)
    } else if tag == seq![70u8, 111u8, 108u8, 108u8, 111u8, 119u8] {
        Some(ActivityKind::Follow)
    } else if tag == seq![85u8, 110u8, 100u8, 111u8] {
        Some(ActivityKind::Undo)
    } else {
        None
    }
}

/// Whether two byte strings are equal.
fn bytes_equal(a: &[u8], b: &[u8]) -> (r: bool)
    ensures
        r == (a@ == b@),
{
    if a.len() != b.len() {
        return false;
    }
    let mut i: usize = 0;
    while i < a.len()
        invariant
            0 <= i <= a@.len(),
            a@.len() == b@.len(),
            forall|j: int| 0 <= j < i ==> a@[j] == b@[j],
        decreases a@.len() - i,
    {
        if a[i] != b[i] {
            return false;
        }
        i = i + 1;
    }
    assert(a@ =~= b@);
    true
}

/// The kind named by an activity's type tag; a tag outside the supported
/// set is an `UnsupportedType`.
pub fn decode_kind(tag: &[u8]) -> (r: Result<ActivityKind, DispatchError>)
    ensures
        r == (match kind_of_tag(tag@) {
            Some(k) => Ok(k),
            None => Err(DispatchError::UnsupportedType),
        }),
{
    let create: [u8; 6] = [67u8, 114u8, 101u8, 97u8, 116u8, 101u8];
    let update: [u8; 6] = [85u8, 112u8, 100u8, 97u8, 116u8, 101u8];
    let delete: [u8; 6] = [68u8, 101u8, 108u8, 101u8, 116u8, 101u8];
    let remove: [u8; 6] = [82u8, 101u8, 109u8, 111u8, 118u8, 101u8];
    let follow: [u8; 6] = [70u8, 111u8, 108u8, 108u8, 111u8, 119u8];
    let undo: [u8; 4] = [85u8, 110u8, 100u8, 111u8];
    assert(create@ =~= seq![67u8, 114u8, 101u8, 97u8, 116u8, 101u8]);
    assert(update@ =~= seq![85u8, 112u8, 100u8, 97u8, 116u8, 101u8]);
    assert(delete@ =~= seq![68u8, 101u8, 108u8, 101u8, 116u8, 101u8]);
    assert(remove@ =~= seq![82u8, 101u8, 109u8, 111u8, 118u8, 101u8]);
    assert(follow@ =~= seq![70u8, 111u8, 108u8, 108u8, 111u8, 119u8]);
    assert(undo@ =~= seq![85u8, 110u8, 100u8, 111u8]);
    if bytes_equal(tag, create.as_slice()) {
        Ok(ActivityKind::Create)
    } else if bytes_equal(tag, update.as_slice()) {
        Ok(ActivityKind::Update)
    } else if bytes_equal(tag, delete.as_slice()) {
        Ok(ActivityKind::Delete)
    } else if bytes_equal(tag, remove.as_slice()) {
        Ok(ActivityKind::Remove)
    } else if bytes_equal(tag, follow.as_slice()) {
        Ok(ActivityKind::Follow)
    } else if bytes_equal(tag, undo.as_slice()) {
        Ok(ActivityKind::Undo)
    } else {
        Err(DispatchError::UnsupportedType)
    }
}

} // verus!
