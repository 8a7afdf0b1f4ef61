use crate::checks::{activity_well_formed, verify_activity};
use crate::context::{activity_id, generate_activity_id, Settings, VerificationContext};
use crate::error::ApubError;
use crate::ids::{domains_match, verify_domains_match, verify_urls_match};
use crate::resolver::{dereference_person, fetch_outcome, Resolution};
use crate::store::{key_index, PrivateMessage, Store, Table};
use vstd::prelude::*;

verus! {

/// A person deletes a private message they sent.
#[derive(Clone, Debug)]
pub struct DeletePrivateMessage {
    pub actor: String,
    pub to: String,
    /// The private message.
    pub object: String,
    pub id: String,
}

/// A person takes back the deletion of a private message.
#[derive(Clone, Debug)]
pub struct UndoDeletePrivateMessage {
    pub actor: String,
    pub to: String,
    pub object: DeletePrivateMessage,
    pub id: String,
}

/// The outcome owed by the checks of a deletion: a sound envelope, a stored actor, and
/// a message on the actor's domain.
pub open spec fn delete_verified(
    store: Store,
    d: DeletePrivateMessage,
    settings: Settings,
    now: i64,
    r: Result<Resolution<()>, ApubError>,
    before: u32,
    after: u32,
) -> bool {
    if !activity_well_formed(d.id@, d.actor@, settings) {
        r is Err && after == before
    } else {
        match store.fresh_person(d.actor@, now) {
            None => fetch_outcome(r, d.actor@, before, after),
            Some(_) => after == before && if domains_match(d.actor@, d.object@) {
                r == Ok::<Resolution<()>, ApubError>(Resolution::Ready(()))
            } else {
                r == Err::<Resolution<()>, ApubError>(ApubError::ProtocolViolation)
            },
        }
    }
}

/// The outcome owed by the checks of an undo: a sound envelope and stored actor, the same
/// actor as the deletion, a message on its domain, and a deletion that passes its checks.
pub open spec fn undo_verified(
    store: Store,
    u: UndoDeletePrivateMessage,
    settings: Settings,
    now: i64,
    r: Result<Resolution<()>, ApubError>,
    before: u32,
    after: u32,
) -> bool {
    if !activity_well_formed(u.id@, u.actor@, settings) {
        r is Err && after == before
    } else {
        match store.fresh_person(u.actor@, now) {
            None => fetch_outcome(r, u.actor@, before, after),
            Some(_) => after == before && if u.actor@ != u.object.actor@ || !domains_match(u.actor@, u.object.object@) {
                r == Err::<Resolution<()>, ApubError>(ApubError::ProtocolViolation)
            } else {
                delete_verified(store, u.object, settings, now, r, before, after)
            },
        }
    }
}

impl DeletePrivateMessage {
    pub fn verify(&self, store: &Store, ctx: &mut VerificationContext, settings: &Settings, now: i64) -> (r: Result<Resolution<()>, ApubError>)
        requires
            store.wf(),
        ensures
            delete_verified(*store, *self, *settings, now, r, old(ctx).remaining, final(ctx).remaining),
    {
        verify_activity(&self.id, &self.actor, settings)?;
        match dereference_person(store, ctx, &self.actor, now)? {
            Resolution::Ready(_) => {},
            Resolution::Fetch(u) => return Ok(Resolution::Fetch(u)),
        }
        verify_domains_match(&self.actor, &self.object)?;
        Ok(Resolution::Ready(()))
    }
}

impl UndoDeletePrivateMessage {
    /// The undo of a deletion of a stored private message by its sender, and the inbox
    /// of its recipient; both activities get identifiers on this instance's host, made
    /// unique by `delete_part` and `undo_part`.
    pub fn send(store: &Store, pm: usize, settings: &Settings, delete_part: &str, undo_part: &str) -> (r: (UndoDeletePrivateMessage, String))
        requires
            store.wf(),
            pm < store.private_messages@.len(),
        ensures
            ({
                let m = store.private_messages@[pm as int];
                let sender = store.persons@[m.creator_id as int];
                let recipient = store.persons@[m.recipient_id as int];
                &&& r.0.actor == sender.actor_id
                &&& r.0.to == recipient.actor_id
                &&& r.0.object.actor == sender.actor_id
                &&& r.0.object.to == recipient.actor_id
                &&& r.0.object.object == m.ap_id
                &&& r.0.object.id@ == activity_id(settings.hostname@, "delete"@, delete_part@)
                &&& r.0.id@ == activity_id(settings.hostname@, "undo"@, undo_part@)
                &&& r.1 == (match recipient.shared_inbox_url {
                    Some(s) => s,
                    None => recipient.inbox_url,
                })
            }),
    {
        proof {
            store.lemma_lengths_fit();
        }
        let m = &store.private_messages[pm];
        let sender = &store.persons[m.creator_id as usize];
        let recipient = &store.persons[m.recipient_id as usize];
        let delete = DeletePrivateMessage {
            actor: sender.actor_id.clone(),
            to: recipient.actor_id.clone(),
            object: m.ap_id.clone(),
            id: generate_activity_id(settings, "delete", delete_part),
        };
        let undo = UndoDeletePrivateMessage {
            actor: sender.actor_id.clone(),
            to: recipient.actor_id.clone(),
            object: delete,
            id: generate_activity_id(settings, "undo", undo_part),
        };
        (undo, recipient.shared_inbox_or_inbox_url())
    }

    pub fn verify(&self, store: &Store, ctx: &mut VerificationContext, settings: &Settings, now: i64) -> (r: Result<Resolution<()>, ApubError>)
        requires
            store.wf(),
        ensures
            undo_verified(*store, *self, *settings, now, r, old(ctx).remaining, final(ctx).remaining),
    {
        verify_activity(&self.id, &self.actor, settings)?;
        match dereference_person(store, ctx, &self.actor, now)? {
            Resolution::Ready(_) => {},
            Resolution::Fetch(u) => return Ok(Resolution::Fetch(u)),
        }
        verify_urls_match(&self.actor, &self.object.actor)?;
        verify_domains_match(&self.actor, &self.object.object)?;
        self.object.verify(store, ctx, settings, now)
    }

    /// Marks the message not deleted; `NotFound` where it is not stored.
    pub fn receive(&self, store: &mut Store) -> (r: Result<(), ApubError>)
        requires
            old(store).wf(),
        ensures
            final(store).wf(),
            final(store).agrees_outside(old(store), Table::PrivateMessages),
            match key_index(old(store).message_keys(), self.object.object@) {
                Some(i) => r is Ok && final(store).private_messages@ == old(store).private_messages@.update(
                    i,
                    PrivateMessage { deleted: false, ..old(store).private_messages@[i] },
                ),
                None => r == Err::<(), ApubError>(ApubError::NotFound) && final(store).private_messages@
                    == old(store).private_messages@,
            },
    {
        match store.find_private_message(&self.object.object) {
            Some(i) => {
                store.set_private_message_deleted(i, false);
                Ok(())
            },
            None => Err(ApubError::NotFound),
        }
    }
}

/// An undo of a deletion applied a second time changes nothing more.
pub proof fn lemma_undo_delete_idempotent(rows: Seq<PrivateMessage>, i: int)
    requires
        0 <= i < rows.len(),
    ensures
        ({
            let once = rows.update(i, PrivateMessage { deleted: false, ..rows[i] });
            once.update(i, PrivateMessage { deleted: false, ..once[i] }) == once
        }),
{
    let once = rows.update(i, PrivateMessage { deleted: false, ..rows[i] });
    assert(once.update(i, PrivateMessage { deleted: false, ..once[i] }) =~= once);
}

} // verus!
