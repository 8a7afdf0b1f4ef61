use crate::context::{apub_id_valid, check_is_apub_id_valid, Settings, VerificationContext};
use crate::error::ApubError;
use crate::ids::{domains_match, verify_domains_match};
use crate::relations::has_ban;
use crate::resolver::{dereference_person, dereferenced, Resolution};
use crate::store::{has_moderator, Store};
use vstd::prelude::*;

verus! {

/// The envelope of an activity is sound: its actor is an identifier this instance
/// accepts, and the activity's identifier is on the actor's domain.
pub open spec fn activity_well_formed(id: Seq<char>, actor: Seq<char>, settings: Settings) -> bool {
    apub_id_valid(actor, settings) && domains_match(id, actor)
}

/// Checks the envelope of an activity.
pub fn verify_activity(id: &String, actor: &String, settings: &Settings) -> (r: Result<(), ApubError>)
    ensures
        r is Ok <==> activity_well_formed(id@, actor@, *settings),
        !apub_id_valid(actor@, *settings) ==> r == Err::<(), ApubError>(ApubError::ValidationError),
        apub_id_valid(actor@, *settings) && !domains_match(id@, actor@) ==> r == Err::<(), ApubError>(
            ApubError::ProtocolViolation,
        ),
{
    check_is_apub_id_valid(actor, settings)?;
    verify_domains_match(id, actor)
}

/// The outcome that a check of a person's standing in a community owes: the person's
/// dereference, and `Forbidden` where the person is banned there.
pub open spec fn person_in_community(
    store: Store,
    actor: Seq<char>,
    community_id: u64,
    now: i64,
    r: Result<Resolution<usize>, ApubError>,
    before: u32,
    after: u32,
) -> bool {
    match store.fresh_person(actor, now) {
        Some(p) => after == before && if has_ban(store.bans@, community_id, p as u64) {
            r == Err::<Resolution<usize>, ApubError>(ApubError::Forbidden)
        } else {
            r == Ok::<Resolution<usize>, ApubError>(Resolution::Ready(p))
        },
        None => dereferenced(r, None::<usize>, actor, before, after),
    }
}

/// Dereferences the actor and fails with `Forbidden` where the actor is banned from the
/// community.
pub fn verify_person_in_community(
    store: &Store,
    ctx: &mut VerificationContext,
    actor: &String,
    community_id: u64,
    now: i64,
) -> (r: Result<Resolution<usize>, ApubError>)
    requires
        store.wf(),
    ensures
        person_in_community(*store, actor@, community_id, now, r, old(ctx).remaining, final(ctx).remaining),
        r matches Ok(Resolution::Ready(p)) ==> p < store.persons@.len(),
{
    match dereference_person(store, ctx, actor, now)? {
        Resolution::Ready(p) => {
            if store.bans.contains(community_id, p as u64) {
                Err(ApubError::Forbidden)
            } else {
                Ok(Resolution::Ready(p))
            }
        },
        Resolution::Fetch(u) => Ok(Resolution::Fetch(u)),
    }
}

/// Fails with `Forbidden` unless the person moderates the community.
pub fn verify_mod_action(store: &Store, person_id: usize, community_id: usize) -> (r: Result<(), ApubError>)
    ensures
        r is Ok <==> has_moderator(store.moderators@, community_id as u64, person_id as u64),
        r is Err ==> r == Err::<(), ApubError>(ApubError::Forbidden),
{
    if store.is_moderator(community_id as u64, person_id as u64) {
        Ok(())
    } else {
        Err(ApubError::Forbidden)
    }
}

} // verus!
