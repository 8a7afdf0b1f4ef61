use crate::checks::{activity_well_formed, verify_activity};
use crate::context::{activity_id, generate_activity_id, Settings, VerificationContext};
use crate::error::ApubError;
use crate::ids::verify_urls_match;
use crate::relations::{accepted_row, has_accepted_follow, has_follow, is_follow_of, CommunityFollower};
use crate::resolver::{dereference_community, dereference_person, fetch_outcome, Resolution};
use crate::store::{key_index, Store, Table};
use vstd::prelude::*;

verus! {

/// A person asks to follow a community.
#[derive(Clone, Debug)]
pub struct FollowCommunity {
    /// The person.
    pub actor: String,
    /// The community, as addressee.
    pub to: String,
    /// The community that is followed.
    pub object: String,
    pub id: String,
}

/// A community accepts a follow; actor and addressee are those of the follow, swapped.
#[derive(Clone, Debug)]
pub struct AcceptFollowCommunity {
    /// The community.
    pub actor: String,
    /// The person whose follow is accepted.
    pub to: String,
    pub object: FollowCommunity,
    pub id: String,
}

/// The follow is sound and addressed to the community it follows.
pub open spec fn follow_well_formed(f: FollowCommunity, settings: Settings) -> bool {
    activity_well_formed(f.id@, f.actor@, settings) && f.to@ == f.object@
}

/// The accept is sound and answers its follow with the roles swapped.
pub open spec fn accept_well_formed(a: AcceptFollowCommunity, settings: Settings) -> bool {
    &&& activity_well_formed(a.id@, a.actor@, settings)
    &&& a.to@ == a.object.actor@
    &&& a.actor@ == a.object.to@
    &&& follow_well_formed(a.object, settings)
}

/// The outcome owed by an accept of the follow of `p` to `c`: `NotFound` where none
/// was requested, else the follow turns accepted.
pub open spec fn accept_outcome(
    before: Seq<CommunityFollower>,
    after: Seq<CommunityFollower>,
    c: u64,
    p: u64,
    r: Result<Resolution<()>, ApubError>,
) -> bool {
    if has_follow(before, c, p) {
        &&& r == Ok::<Resolution<()>, ApubError>(Resolution::Ready(()))
        &&& after == before.map_values(|row: CommunityFollower| accepted_row(row, c, p))
        &&& has_accepted_follow(after, c, p)
    } else {
        r == Err::<Resolution<()>, ApubError>(ApubError::NotFound) && after == before
    }
}

impl FollowCommunity {
    /// Records a pending follow of the stored community by the stored person and
    /// returns the activity to send.
    pub fn send(store: &mut Store, person: usize, community: usize, settings: &Settings, part: &str) -> (r: FollowCommunity)
        requires
            old(store).wf(),
            person < old(store).persons@.len(),
            community < old(store).communities@.len(),
        ensures
            final(store).agrees_outside(old(store), Table::Followers),
            final(store).wf(),
            has_follow(old(store).followers@, community as u64, person as u64) ==> final(store).followers@
                == old(store).followers@.map_values(
                |row: CommunityFollower|
                    if is_follow_of(row, community as u64, person as u64) {
                        CommunityFollower { pending: true, ..row }
                    } else {
                        row
                    },
            ),
            !has_follow(old(store).followers@, community as u64, person as u64) ==> final(store).followers@
                == old(store).followers@.push(
                CommunityFollower {
                    community_id: community as u64,
                    person_id: person as u64,
                    pending: true,
                },
            ),
            r.actor == old(store).persons@[person as int].actor_id,
            r.to == old(store).communities@[community as int].actor_id,
            r.object == old(store).communities@[community as int].actor_id,
            r.id@ == activity_id(settings.hostname@, "follow"@, part@),
    {
        store.followers.follow(community as u64, person as u64, true);
        let c = store.communities[community].actor_id.clone();
        let id = generate_activity_id(settings, "follow", part);
        FollowCommunity { actor: store.persons[person].actor_id.clone(), to: c.clone(), object: c, id }
    }

    /// Checks the envelope of a follow and that it is addressed to the community it follows.
    pub fn verify(&self, settings: &Settings) -> (r: Result<(), ApubError>)
        ensures
            r is Ok <==> follow_well_formed(*self, *settings),
            r is Err ==> r == Err::<(), ApubError>(ApubError::ProtocolViolation) || r == Err::<
                (),
                ApubError,
            >(ApubError::ValidationError),
    {
        verify_activity(&self.id, &self.actor, settings)?;
        verify_urls_match(&self.to, &self.object)
    }
}

impl AcceptFollowCommunity {
    /// The accept of a follow, from the followed community back to the person, with an
    /// identifier on this instance's host made unique by `part`.
    pub fn new(follow: FollowCommunity, settings: &Settings, part: &str) -> (r: AcceptFollowCommunity)
        ensures
            r.actor == follow.object,
            r.to == follow.actor,
            r.object == follow,
            r.id@ == activity_id(settings.hostname@, "accept"@, part@),
    {
        let actor = follow.object.clone();
        let to = follow.actor.clone();
        AcceptFollowCommunity { actor, to, object: follow, id: generate_activity_id(settings, "accept", part) }
    }

    /// The accept to send for a follow of a local community, and the inbox of the
    /// follower: `NotFound` where the community is not a stored local one; where the
    /// follower is not stored, the identifier to fetch.
    pub fn send(
        follow: FollowCommunity,
        store: &Store,
        ctx: &mut VerificationContext,
        settings: &Settings,
        part: &str,
        now: i64,
    ) -> (r: Result<Resolution<(AcceptFollowCommunity, String)>, ApubError>)
        requires
            store.wf(),
        ensures
            match key_index(store.community_keys(), follow.object@) {
                Some(c) if store.communities@[c].local => match store.fresh_person(follow.actor@, now) {
                    Some(p) => final(ctx).remaining == old(ctx).remaining && (r matches Ok(
                        Resolution::Ready((a, inbox)),
                    ) && a.actor == follow.object && a.to == follow.actor && a.object == follow
                        && a.id@ == activity_id(settings.hostname@, "accept"@, part@) && inbox
                        == store.persons@[p as int].inbox_url),
                    None => fetch_outcome(r, follow.actor@, old(ctx).remaining, final(ctx).remaining),
                },
                _ => r == Err::<Resolution<(AcceptFollowCommunity, String)>, ApubError>(ApubError::NotFound)
                    && final(ctx).remaining == old(ctx).remaining,
            },
    {
        proof {
            store.lemma_lengths_fit();
        }
        let c = match store.find_community(&follow.object) {
            Some(c) => c,
            None => return Err(ApubError::NotFound),
        };
        if !store.communities[c].local {
            return Err(ApubError::NotFound);
        }
        let p = match dereference_person(store, ctx, &follow.actor, now)? {
            Resolution::Ready(p) => p,
            Resolution::Fetch(u) => return Ok(Resolution::Fetch(u)),
        };
        let inbox = store.persons[p].inbox_url.clone();
        Ok(Resolution::Ready((AcceptFollowCommunity::new(follow, settings, part), inbox)))
    }

    /// Checks an accept: its envelope, that it answers its follow with the roles
    /// swapped, and the follow itself; `ProtocolViolation` or `ValidationError` else.
    pub fn verify(&self, settings: &Settings) -> (r: Result<(), ApubError>)
        ensures
            r is Ok <==> accept_well_formed(*self, *settings),
            r is Err ==> r == Err::<(), ApubError>(ApubError::ProtocolViolation) || r == Err::<
                (),
                ApubError,
            >(ApubError::ValidationError),
            activity_well_formed(self.id@, self.actor@, *settings) && (self.to@ != self.object.actor@
                || self.actor@ != self.object.to@) ==> r == Err::<(), ApubError>(ApubError::ProtocolViolation),
    {
        verify_activity(&self.id, &self.actor, settings)?;
        verify_urls_match(&self.to, &self.object.actor)?;
        verify_urls_match(&self.actor, &self.object.to)?;
        self.object.verify(settings)
    }

    /// Marks the follow accepted; `NotFound` where no follow was requested. The community
    /// and the person must be stored, else the identifier to fetch comes back.
    pub fn receive(&self, store: &mut Store, ctx: &mut VerificationContext, now: i64) -> (r: Result<Resolution<()>, ApubError>)
        requires
            old(store).wf(),
        ensures
            final(store).wf(),
            final(store).agrees_outside(old(store), Table::Followers),
            !(r matches Ok(Resolution::Ready(_))) ==> final(store).followers@ == old(store).followers@,
            match (key_index(old(store).community_keys(), self.actor@), old(store).fresh_person(self.to@, now)) {
                (Some(c), Some(p)) => final(ctx).remaining == old(ctx).remaining && accept_outcome(
                    old(store).followers@,
                    final(store).followers@,
                    c as u64,
                    p as u64,
                    r,
                ),
                (Some(_), None) => fetch_outcome(r, self.to@, old(ctx).remaining, final(ctx).remaining),
                (None, _) => fetch_outcome(r, self.actor@, old(ctx).remaining, final(ctx).remaining),
            },
    {
        proof {
            store.lemma_lengths_fit();
        }
        let c = match dereference_community(store, ctx, &self.actor)? {
            Resolution::Ready(c) => c,
            Resolution::Fetch(u) => return Ok(Resolution::Fetch(u)),
        };
        let p = match dereference_person(store, ctx, &self.to, now)? {
            Resolution::Ready(p) => p,
            Resolution::Fetch(u) => return Ok(Resolution::Fetch(u)),
        };
        let ghost before = store.followers@;
        store.followers.follow_accepted(c as u64, p as u64)?;
        proof {
            let k = choose|i: int| 0 <= i < before.len() && is_follow_of(
                #[trigger] before[i],
                c as u64,
                p as u64,
            );
            assert(store.followers@[k] == accepted_row(before[k], c as u64, p as u64));
        }
        Ok(Resolution::Ready(()))
    }
}

/// An accept with no requested follow is `NotFound` and changes nothing; an accept of
/// a requested follow makes it accepted, and a second accept changes nothing more.
pub proof fn lemma_accept_once(
    before: Seq<CommunityFollower>,
    middle: Seq<CommunityFollower>,
    after: Seq<CommunityFollower>,
    c: u64,
    p: u64,
    r1: Result<Resolution<()>, ApubError>,
    r2: Result<Resolution<()>, ApubError>,
)
    requires
        accept_outcome(before, middle, c, p, r1),
        accept_outcome(middle, after, c, p, r2),
    ensures
        !has_follow(before, c, p) ==> r1 == Err::<Resolution<()>, ApubError>(ApubError::NotFound) && middle
            == before,
        has_follow(before, c, p) ==> r1 is Ok && r2 is Ok && has_accepted_follow(middle, c, p) && after
            == middle,
{
    if has_follow(before, c, p) {
        let k = choose|i: int| 0 <= i < before.len() && is_follow_of(#[trigger] before[i], c, p);
        assert(is_follow_of(middle[k], c, p));
        assert(after =~= middle);
    }
}

} // verus!
