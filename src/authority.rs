use vstd::prelude::*;

verus! {

/// The type tag of an activity: a closed set of supported kinds.
#[derive(Clone, Copy, Debug, PartialEq, Eq, Structural)]
pub enum ActivityKind {
    Create,
    Update,
    Delete,
    Remove,
    Follow,
    Undo,
}

/// How an actor stands towards a community.
#[derive(Clone, Copy, Debug, PartialEq, Eq, Structural)]
pub enum Standing {
    Outsider,
    Member,
    Moderator,
    Admin,
}

/// Why an activity could not be authorized.
#[derive(Clone, Copy, Debug, PartialEq, Eq, Structural)]
pub enum AuthorityError {
    Unauthorized,
    UnknownCommunity,
}

/// The community an activity pertains to, with the actors that hold a
/// standing in it at the time of resolution.
pub struct CommunityContext {
    pub id: u64,
    pub moderators: Vec<u64>,
    pub members: Vec<u64>,
}

/// Plain-value model of a community context.
pub ghost struct ContextModel {
    pub id: u64,
    pub moderators: Seq<u64>,
    pub members: Seq<u64>,
}

impl View for CommunityContext {
    type V = ContextModel;

    open spec fn view(&self) -> ContextModel {
        ContextModel { id: self.id, moderators: self.moderators@, members: self.members@ }
    }
}

/// Order of standings: outsider < member < moderator < admin.
pub open spec fn rank(s: Standing) -> int {
    match s {
        Standing::Outsider => 0,
        Standing::Member => 1,
        Standing::Moderator => 2,
        Standing::Admin => 3,
    }
}

/// The least standing that each kind of activity asks for in its community.
pub open spec fn required_standing(kind: ActivityKind) -> Standing {
    match kind {
        ActivityKind::Create => Standing::Member,
        ActivityKind::Update => Standing::Member,
        ActivityKind::Delete => Standing::Member,
        ActivityKind::Remove => Standing::Moderator,
        ActivityKind::Follow => Standing::Outsider,
        ActivityKind::Undo => Standing::Outsider,
    }
}

/// An instance admin acts across communities; otherwise the community's own
/// moderator and member lists decide.
pub open spec fn standing_of(actor: u64, ctx: ContextModel, admins: Seq<u64>) -> Standing {
    if admins.contains(actor) {
        Standing::Admin
    } else if ctx.moderators.contains(actor) {
        Standing::Moderator
    } else if ctx.members.contains(actor) {
        Standing::Member
    } else {
        Standing::Outsider
    }
}

/// The authority decision for an activity of `kind` by `actor`.
pub open spec fn authority_of(
    kind: ActivityKind,
    actor: u64,
    ctx: Option<ContextModel>,
    admins: Seq<u64>,
) -> Result<Standing, AuthorityError> {
    match ctx {
        None => Err(AuthorityError::UnknownCommunity),
        Some(c) => {
            let s = standing_of(actor, c, admins);
            if rank(s) < rank(required_standing(kind)) {
                Err(AuthorityError::Unauthorized)
            } else {
                Ok(s)
            }
        },
    }
}

/// Whether `ids` holds `x`.
pub fn contains_id(ids: &Vec<u64>, x: u64) -> (r: bool)
    ensures
        r == ids@.contains(x),
{
    let mut i: usize = 0;
    while i < ids.len()
        invariant
            0 <= i <= ids@.len(),
            forall|j: int| 0 <= j < i ==> ids@[j] != x,
        decreases ids@.len() - i,
    {
        if ids[i] == x {
            return true;
        }
        i = i + 1;
    }
    false
}

/// The standing of `actor` in `ctx`, given the instance's admins.
pub fn classify(actor: u64, ctx: &CommunityContext, admins: &Vec<u64>) -> (r: Standing)
    ensures
        r == standing_of(actor, ctx@, admins@),
{
    if contains_id(admins, actor) {
        Standing::Admin
    } else if contains_id(&ctx.moderators, actor) {
        Standing::Moderator
    } else if contains_id(&ctx.members, actor) {
        Standing::Member
    } else {
        Standing::Outsider
    }
}

/// The least standing that an activity of `kind` asks for.
pub fn required_for(kind: ActivityKind) -> (r: Standing)
    ensures
        r == required_standing(kind),
{
    match kind {
        ActivityKind::Create => Standing::Member,
        ActivityKind::Update => Standing::Member,
        ActivityKind::Delete => Standing::Member,
        ActivityKind::Remove => Standing::Moderator,
        ActivityKind::Follow => Standing::Outsider,
        ActivityKind::Undo => Standing::Outsider,
    }
}

fn rank_of(s: Standing) -> (r: u8)
    ensures
        r as int == rank(s),
{
    match s {
        Standing::Outsider => 0,
        Standing::Member => 1,
        Standing::Moderator => 2,
        Standing::Admin => 3,
    }
}

/// Decides whether `actor` may perform an activity of `kind` in the community
/// `ctx` (absent when it could not be derived). Returns the actor's standing.
pub fn authorize(
    kind: ActivityKind,
    actor: u64,
    ctx: Option<&CommunityContext>,
    admins: &Vec<u64>,
) -> (r: Result<Standing, AuthorityError>)
    ensures
        r == authority_of(
            kind,
            actor,
            match ctx {
                Some(c) => Some(c@),
                None => None,
            },
            admins@,
        ),
{
    match ctx {
        None => Err(AuthorityError::UnknownCommunity),
        Some(c) => {
            let s = classify(actor, c, admins);
            if rank_of(s) < rank_of(required_for(kind)) {
                Err(AuthorityError::Unauthorized)
            } else {
                Ok(s)
            }
        },
    }
}

} // verus!
