use crate::content::{check_slurs, text_allowed};
use crate::community::{public_url, public_url_text};
use crate::context::{apub_id_valid, check_is_apub_id_valid, Settings, VerificationContext};
use crate::error::ApubError;
use crate::ids::{domains_match, verify_domains_match};
use crate::resolver::{
    dereference_comment, dereference_person, dereference_post, dereference_post_or_comment,
    dereferenced, fetch_outcome, PostOrComment, Resolution,
};
use crate::checks::verify_person_in_community;
use crate::relations::has_ban;
use crate::store::{copy_text, key_index, lemma_key_index, Store, Table};
use vstd::prelude::*;

verus! {

/// A comment as this instance stores it; `post_id`, `parent_id` and `creator_id` are
/// row numbers in the store.
#[derive(Clone, Debug)]
pub struct ApubComment {
    pub ap_id: String,
    pub creator_id: u64,
    pub post_id: u64,
    pub parent_id: Option<u64>,
    pub content: String,
    pub published: Option<i64>,
    pub updated: Option<i64>,
    pub local: bool,
    pub deleted: bool,
}

/// The reply target of a comment on the wire, in either of its two shapes.
#[derive(Clone, Debug)]
pub enum CommentInReplyToMigration {
    /// The older shape: the post, then optionally the parent comment.
    Old(Vec<String>),
    /// The current shape: the immediate parent, a post or a comment.
    New(String),
}

/// A comment on the wire.
#[derive(Clone, Debug)]
pub struct Note {
    pub id: String,
    pub attributed_to: String,
    /// The public addressee: a comment is readable by anyone.
    pub to: String,
    /// Rendered content.
    pub content: String,
    /// Markdown source of the content.
    pub source: String,
    pub in_reply_to: CommentInReplyToMigration,
    pub published: Option<i64>,
    pub updated: Option<i64>,
}

/// The post and parent comment that a reply target names, where every identifier it
/// holds is stored. A comment target gives the post that the comment itself is on.
pub open spec fn stored_parents(store: Store, irt: CommentInReplyToMigration) -> Option<(usize, Option<usize>)> {
    match irt {
        CommentInReplyToMigration::Old(v) => if v@.len() == 0 {
            None
        } else {
            match key_index(store.post_keys(), v@[0]@) {
                None => None,
                Some(p) => if v@.len() == 1 {
                    Some((p as usize, None))
                } else {
                    match key_index(store.comment_keys(), v@[1]@) {
                        Some(c) => Some((p as usize, Some(c as usize))),
                        None => None,
                    }
                },
            }
        },
        CommentInReplyToMigration::New(u) => match store.post_or_comment_index(u@) {
            Some(PostOrComment::Post(p)) => Some((p, None)),
            Some(PostOrComment::Comment(c)) => Some((store.comments@[c as int].post_id as usize, Some(c))),
            None => None,
        },
    }
}

/// The outcome owed where a reply target names something not stored: `ProtocolViolation`
/// for an empty legacy chain, else the fetch of the first identifier that is missing.
pub open spec fn missing_parents<T>(
    store: Store,
    irt: CommentInReplyToMigration,
    r: Result<Resolution<T>, ApubError>,
    before: u32,
    after: u32,
) -> bool {
    match irt {
        CommentInReplyToMigration::Old(v) => if v@.len() == 0 {
            r == Err::<Resolution<T>, ApubError>(ApubError::ProtocolViolation) && after == before
        } else if key_index(store.post_keys(), v@[0]@) is None {
            fetch_outcome(r, v@[0]@, before, after)
        } else {
            fetch_outcome(r, v@[1]@, before, after)
        },
        CommentInReplyToMigration::New(u) => fetch_outcome(r, u@, before, after),
    }
}

/// The row that a decoded note becomes.
pub open spec fn comment_form(note: Note, creator_id: usize, post_id: usize, parent_id: Option<usize>) -> ApubComment {
    ApubComment {
        ap_id: note.id,
        creator_id: creator_id as u64,
        post_id: post_id as u64,
        parent_id: match parent_id {
            Some(c) => Some(c as u64),
            None => None,
        },
        content: note.source,
        published: note.published,
        updated: note.updated,
        local: false,
        deleted: false,
    }
}

/// The note that a stored comment is sent as, with addressee `comment_to`; its reply
/// target is the immediate parent.
pub open spec fn comment_to_note(store: Store, c: ApubComment, comment_to: String) -> Note {
    Note {
        id: c.ap_id,
        attributed_to: store.persons@[c.creator_id as int].actor_id,
        to: comment_to,
        content: c.content,
        source: c.content,
        in_reply_to: CommentInReplyToMigration::New(
            match c.parent_id {
                Some(p) => store.comments@[p as int].ap_id,
                None => store.posts@[c.post_id as int].ap_id,
            },
        ),
        published: c.published,
        updated: c.updated,
    }
}

impl Note {
    pub fn id_unchecked(&self) -> (r: &String)
        ensures
            r == &self.id,
    {
        &self.id
    }

    /// The note's identifier, where it is on the expected domain.
    pub fn id(&self, expected_domain: &String) -> (r: Result<&String, ApubError>)
        ensures
            r is Ok <==> domains_match(self.id@, expected_domain@),
            r matches Ok(i) ==> i == &self.id,
            r is Err ==> r == Err::<&String, ApubError>(ApubError::ProtocolViolation),
    {
        verify_domains_match(&self.id, expected_domain)?;
        Ok(&self.id)
    }

    /// The post and parent comment of this note, or the identifier to fetch first.
    pub fn get_parents(&self, store: &Store, ctx: &mut VerificationContext) -> (r: Result<Resolution<(usize, Option<usize>)>, ApubError>)
        requires
            store.wf(),
        ensures
            match stored_parents(*store, self.in_reply_to) {
                Some(x) => r == Ok::<Resolution<(usize, Option<usize>)>, ApubError>(Resolution::Ready(x))
                    && final(ctx).remaining == old(ctx).remaining,
                None => missing_parents(*store, self.in_reply_to, r, old(ctx).remaining, final(ctx).remaining),
            },
            r matches Ok(Resolution::Ready((p, c))) ==> p < store.posts@.len() && (c matches Some(
                ci,
            ) ==> ci < store.comments@.len()),
    {
        match &self.in_reply_to {
            CommentInReplyToMigration::Old(v) => {
                if v.len() == 0 {
                    return Err(ApubError::ProtocolViolation);
                }
                let post = match dereference_post(store, ctx, &v[0])? {
                    Resolution::Ready(p) => p,
                    Resolution::Fetch(u) => return Ok(Resolution::Fetch(u)),
                };
                if v.len() > 1 {
                    match dereference_comment(store, ctx, &v[1])? {
                        Resolution::Ready(c) => Ok(Resolution::Ready((post, Some(c)))),
                        Resolution::Fetch(u) => Ok(Resolution::Fetch(u)),
                    }
                } else {
                    Ok(Resolution::Ready((post, None)))
                }
            },
            CommentInReplyToMigration::New(u) => {
                match dereference_post_or_comment(store, ctx, u)? {
                    Resolution::Ready(PostOrComment::Post(p)) => Ok(Resolution::Ready((p, None))),
                    Resolution::Ready(PostOrComment::Comment(c)) => {
                        Ok(Resolution::Ready((store.comments[c].post_id as usize, Some(c))))
                    },
                    Resolution::Fetch(f) => Ok(Resolution::Fetch(f)),
                }
            },
        }
    }
}

/// Row `i` of `after` holds the comment with identifier `ap_id`, upserted into `before`.
pub open spec fn comment_upserted(before: Store, after: Store, ap_id: Seq<char>, i: usize) -> bool {
    match key_index(before.comment_keys(), ap_id) {
        Some(j) => i == j && after.comments@ == before.comments@.update(j, after.comments@[j]),
        None => i == before.comments@.len() && after.comments@ == before.comments@.push(after.comments@[i as int]),
    }
}

/// The outcome owed by decoding a note into the store.
pub open spec fn comment_decoded(
    before: Store,
    after: Store,
    note: Note,
    settings: Settings,
    expected_domain: Seq<char>,
    now: i64,
    r: Result<Resolution<usize>, ApubError>,
    budget_before: u32,
    budget_after: u32,
) -> bool {
    if !domains_match(note.id@, expected_domain) {
        r == Err::<Resolution<usize>, ApubError>(ApubError::ProtocolViolation) && budget_after == budget_before
    } else if !apub_id_valid(note.id@, settings) || !text_allowed(settings, note.source@) {
        r == Err::<Resolution<usize>, ApubError>(ApubError::ValidationError) && budget_after == budget_before
    } else {
        match before.fresh_person(note.attributed_to@, now) {
            None => dereferenced(r, None::<usize>, note.attributed_to@, budget_before, budget_after),
            Some(creator) => match stored_parents(before, note.in_reply_to) {
                None => missing_parents(before, note.in_reply_to, r, budget_before, budget_after),
                Some((p, parent)) => budget_after == budget_before && if before.posts@[p as int].locked {
                    r == Err::<Resolution<usize>, ApubError>(ApubError::ProtocolViolation)
                } else if key_index(before.post_keys(), note.id@) is Some {
                    r == Err::<Resolution<usize>, ApubError>(ApubError::ProtocolViolation)
                } else {
                    r matches Ok(Resolution::Ready(i)) && comment_upserted(before, after, note.id@, i)
                        && after.comments@[i as int] == comment_form(note, creator, p, parent)
                },
            },
        }
    }
}

/// The outcome owed by the checks of an inbound note.
pub open spec fn note_verified(
    store: Store,
    note: Note,
    now: i64,
    r: Result<Resolution<()>, ApubError>,
    before: u32,
    after: u32,
) -> bool {
    match stored_parents(store, note.in_reply_to) {
        None => missing_parents(store, note.in_reply_to, r, before, after),
        Some((p, _)) => if store.posts@[p as int].locked {
            r == Err::<Resolution<()>, ApubError>(ApubError::ProtocolViolation) && after == before
        } else if !domains_match(note.attributed_to@, note.id@) {
            r == Err::<Resolution<()>, ApubError>(ApubError::ProtocolViolation) && after == before
        } else {
            match store.fresh_person(note.attributed_to@, now) {
                Some(x) => after == before && if has_ban(store.bans@, store.posts@[p as int].community_id, x as u64) {
                    r == Err::<Resolution<()>, ApubError>(ApubError::Forbidden)
                } else {
                    r == Ok::<Resolution<()>, ApubError>(Resolution::Ready(()))
                },
                None => fetch_outcome(r, note.attributed_to@, before, after),
            }
        },
    }
}

/// A deleted object on the wire.
#[derive(Clone, Debug)]
pub struct Tombstone {
    pub id: String,
    /// When the object was deleted, where known.
    pub deleted: Option<i64>,
}

impl Note {
    /// Checks an inbound note: its post is not locked, its author is on the note's
    /// domain and not banned from the post's community.
    pub fn verify(&self, store: &Store, ctx: &mut VerificationContext, now: i64) -> (r: Result<Resolution<()>, ApubError>)
        requires
            store.wf(),
        ensures
            note_verified(*store, *self, now, r, old(ctx).remaining, final(ctx).remaining),
    {
        let (post, _parent) = match self.get_parents(store, ctx)? {
            Resolution::Ready(x) => x,
            Resolution::Fetch(u) => return Ok(Resolution::Fetch(u)),
        };
        let community_id = store.posts[post].community_id;
        if store.posts[post].locked {
            return Err(ApubError::ProtocolViolation);
        }
        verify_domains_match(&self.attributed_to, &self.id)?;
        match verify_person_in_community(store, ctx, &self.attributed_to, community_id, now)? {
            Resolution::Ready(_) => Ok(Resolution::Ready(())),
            Resolution::Fetch(u) => Ok(Resolution::Fetch(u)),
        }
    }
}

impl ApubComment {
    pub fn read_from_apub_id(store: &Store, object_id: &String) -> (r: Option<usize>)
        requires
            store.wf(),
        ensures
            crate::store::opt_int(r) == key_index(store.comment_keys(), object_id@),
    {
        store.find_comment(object_id)
    }

    /// Marks a comment deleted.
    pub fn delete(store: &mut Store, i: usize)
        requires
            old(store).wf(),
            i < old(store).comments@.len(),
        ensures
            final(store).wf(),
            final(store).agrees_outside(old(store), Table::Comments),
            final(store).comments@ == old(store).comments@.update(
                i as int,
                ApubComment { deleted: true, ..old(store).comments@[i as int] },
            ),
    {
        store.set_comment_deleted(i, true);
    }

    /// The note that a stored comment is sent as.
    pub fn to_apub(store: &Store, i: usize) -> (r: Note)
        requires
            store.wf(),
            i < store.comments@.len(),
        ensures
            r == comment_to_note(*store, store.comments@[i as int], r.to),
            r.to@ == public_url_text(),
    {
        let c = &store.comments[i];
        proof {
            store.lemma_lengths_fit();
        }
        assert(store.comment_row_wf(store.comments@[i as int]));
        let target = match c.parent_id {
            Some(p) => store.comments[p as usize].ap_id.clone(),
            None => store.posts[c.post_id as usize].ap_id.clone(),
        };
        Note {
            id: c.ap_id.clone(),
            attributed_to: store.persons[c.creator_id as usize].actor_id.clone(),
            to: public_url(),
            content: c.content.clone(),
            source: c.content.clone(),
            in_reply_to: CommentInReplyToMigration::New(target),
            published: c.published,
            updated: c.updated,
        }
    }

    /// A tombstone for a deleted comment; `ProtocolViolation` for one not deleted.
    pub fn to_tombstone(&self) -> (r: Result<Tombstone, ApubError>)
        ensures
            self.deleted ==> (r matches Ok(t) && t.id == self.ap_id && t.deleted == self.updated),
            !self.deleted ==> r == Err::<Tombstone, ApubError>(ApubError::ProtocolViolation),
    {
        if self.deleted {
            Ok(Tombstone { id: self.ap_id.clone(), deleted: self.updated })
        } else {
            Err(ApubError::ProtocolViolation)
        }
    }

    /// Decodes a note into the store: its author, post and parent comment must be stored
    /// (else the identifier to fetch first comes back), and it is upserted by identifier.
    pub fn from_apub(
        note: &Note,
        store: &mut Store,
        ctx: &mut VerificationContext,
        settings: &Settings,
        expected_domain: &String,
        now: i64,
    ) -> (r: Result<Resolution<usize>, ApubError>)
        requires
            old(store).wf(),
        ensures
            final(store).wf(),
            final(store).agrees_outside(old(store), Table::Comments),
            !(r matches Ok(Resolution::Ready(_))) ==> final(store).comments@ == old(store).comments@,
            comment_decoded(
                *old(store),
                *final(store),
                *note,
                *settings,
                expected_domain@,
                now,
                r,
                old(ctx).remaining,
                final(ctx).remaining,
            ),
    {
        proof {
            store.lemma_lengths_fit();
        }
        let ap_id = note.id(expected_domain)?;
        check_is_apub_id_valid(ap_id, settings)?;
        check_slurs(&note.source, settings)?;
        let creator = match dereference_person(store, ctx, &note.attributed_to, now)? {
            Resolution::Ready(p) => p,
            Resolution::Fetch(u) => return Ok(Resolution::Fetch(u)),
        };
        let (post, parent) = match note.get_parents(store, ctx)? {
            Resolution::Ready(x) => x,
            Resolution::Fetch(u) => return Ok(Resolution::Fetch(u)),
        };
        if store.posts[post].locked {
            return Err(ApubError::ProtocolViolation);
        }
        let parent_id: Option<u64> = match parent {
            Some(c) => Some(c as u64),
            None => None,
        };
        let form = ApubComment {
            ap_id: ap_id.clone(),
            creator_id: creator as u64,
            post_id: post as u64,
            parent_id,
            content: note.source.clone(),
            published: note.published,
            updated: note.updated,
            local: false,
            deleted: false,
        };
        let ghost form_view = form;
        let i = store.upsert_comment(form)?;
        proof {
            if key_index(old(store).comment_keys(), note.id@) is None {
                assert(store.comments@[i as int] == form_view);
            }
        }
        Ok(Resolution::Ready(i))
    }
}

/// The legacy reply chain `[post, parent comment]` and the current reply pointer to that
/// parent comment decode to the same post and parent comment.
pub proof fn lemma_reply_shapes_agree(store: Store, chain: Vec<String>, pointer: String, c: int)
    requires
        store.wf(),
        0 <= c < store.comments@.len(),
        chain@.len() == 2,
        chain@[0]@ == store.posts@[store.comments@[c].post_id as int].ap_id@,
        chain@[1]@ == store.comments@[c].ap_id@,
        pointer@ == store.comments@[c].ap_id@,
    ensures
        stored_parents(store, CommentInReplyToMigration::Old(chain)) == stored_parents(
            store,
            CommentInReplyToMigration::New(pointer),
        ),
        stored_parents(store, CommentInReplyToMigration::New(pointer)) == Some(
            (store.comments@[c].post_id as usize, Some(c as usize)),
        ),
{
    let p = store.comments@[c].post_id as int;
    store.lemma_lengths_fit();
    assert(store.comment_row_wf(store.comments@[c]));
    lemma_key_index(store.post_keys(), chain@[0]@, p);
    lemma_key_index(store.comment_keys(), chain@[1]@, c);
    assert forall|i: int| 0 <= i < store.posts@.len() implies store.post_keys()[i] != pointer@ by {
        assert(store.posts@[i].ap_id@ != store.comments@[c].ap_id@);
    }
    assert(key_index(store.post_keys(), pointer@) is None);
    assert(key_index(store.comment_keys(), pointer@) == Some(c));
    assert(store.post_or_comment_index(pointer@) == Some(PostOrComment::Comment(c as usize)));
    assert(key_index(store.post_keys(), chain@[0]@) == Some(p));
    assert(key_index(store.comment_keys(), chain@[1]@) == Some(c));
}

/// A legacy reply chain that holds only a post and the current reply pointer to that
/// post decode to the same post and no parent comment.
pub proof fn lemma_top_level_shapes_agree(store: Store, chain: Vec<String>, pointer: String, p: int)
    requires
        store.wf(),
        0 <= p < store.posts@.len(),
        chain@.len() == 1,
        chain@[0]@ == store.posts@[p].ap_id@,
        pointer@ == store.posts@[p].ap_id@,
    ensures
        stored_parents(store, CommentInReplyToMigration::Old(chain)) == stored_parents(
            store,
            CommentInReplyToMigration::New(pointer),
        ),
        stored_parents(store, CommentInReplyToMigration::New(pointer)) == Some((p as usize, None::<usize>)),
{
    store.lemma_lengths_fit();
    lemma_key_index(store.post_keys(), chain@[0]@, p);
}

/// Decoding the note that a stored comment is sent as gives back the same post, parent
/// and content, where its parent is on the same post: the row differs from the stored
/// comment only in being a remote, undeleted copy.
pub proof fn lemma_comment_round_trip(store: Store, i: int, public_to: String)
    requires
        store.wf(),
        0 <= i < store.comments@.len(),
        store.comments@[i].parent_id matches Some(par) ==> store.comments@[par as int].post_id
            == store.comments@[i].post_id,
    ensures
        ({
            let c = store.comments@[i];
            let note = comment_to_note(store, c, public_to);
            &&& stored_parents(store, note.in_reply_to) == Some(
                (
                    c.post_id as usize,
                    match c.parent_id {
                        Some(par) => Some(par as usize),
                        None => None,
                    },
                ),
            )
            &&& comment_form(
                note,
                c.creator_id as usize,
                c.post_id as usize,
                match c.parent_id {
                    Some(par) => Some(par as usize),
                    None => None,
                },
            ) == ApubComment { local: false, deleted: false, ..c }
        }),
{
    let c = store.comments@[i];
    store.lemma_lengths_fit();
    assert(store.comment_row_wf(c));
    match c.parent_id {
        Some(par) => {
            assert(store.comment_row_wf(store.comments@[par as int]));
            lemma_key_index(store.comment_keys(), store.comments@[par as int].ap_id@, par as int);
            assert forall|k: int| 0 <= k < store.posts@.len() implies store.post_keys()[k]
                != store.comments@[par as int].ap_id@ by {
                assert(store.posts@[k].ap_id@ != store.comments@[par as int].ap_id@);
            }
        },
        None => {
            lemma_key_index(store.post_keys(), store.posts@[c.post_id as int].ap_id@, c.post_id as int);
        },
    }
}

/// A lookup that succeeded before a comment upsert finds the same row after it.
proof fn lemma_upsert_keeps_lookup(s0: Store, s1: Store, ap_id: Seq<char>, i: usize, x: Seq<char>)
    requires
        s1.wf(),
        comment_upserted(s0, s1, ap_id, i),
        s1.comments@[i as int].ap_id@ == ap_id,
        key_index(s0.comment_keys(), x) is Some,
    ensures
        key_index(s1.comment_keys(), x) == key_index(s0.comment_keys(), x),
{
    let c = key_index(s0.comment_keys(), x)->Some_0;
    assert(0 <= c < s0.comments@.len() && s0.comment_keys()[c] == x);
    match key_index(s0.comment_keys(), ap_id) {
        Some(j) => {
            assert(s0.comment_keys()[j] == ap_id);
            if c == j {
                assert(s1.comment_keys()[c] == x);
            } else {
                assert(s1.comments@[c] == s0.comments@[c]);
                assert(s1.comment_keys()[c] == x);
            }
        },
        None => {
            assert(s1.comments@[c] == s0.comments@[c]);
            assert(s1.comment_keys()[c] == x);
        },
    }
    lemma_key_index(s1.comment_keys(), x, c);
}

/// Decoding the same note a second time, into the store that the first decode left,
/// gives the same row and changes no comment and no budget.
pub proof fn lemma_comment_replay(
    s0: Store,
    s1: Store,
    s2: Store,
    note: Note,
    settings: Settings,
    expected_domain: Seq<char>,
    now: i64,
    r1: Result<Resolution<usize>, ApubError>,
    r2: Result<Resolution<usize>, ApubError>,
    b0: u32,
    b1: u32,
    b2: u32,
    i: usize,
)
    requires
        s0.wf(),
        s1.wf(),
        s1.agrees_outside(&s0, Table::Comments),
        comment_decoded(s0, s1, note, settings, expected_domain, now, r1, b0, b1),
        r1 == Ok::<Resolution<usize>, ApubError>(Resolution::Ready(i)),
        comment_decoded(s1, s2, note, settings, expected_domain, now, r2, b1, b2),
    ensures
        r2 == r1,
        s2.comments@ == s1.comments@,
        b2 == b1,
{
    s0.lemma_lengths_fit();
    s1.lemma_lengths_fit();
    assert(s1.person_keys() == s0.person_keys());
    assert(s1.post_keys() == s0.post_keys());
    assert(s1.fresh_person(note.attributed_to@, now) == s0.fresh_person(note.attributed_to@, now));
    let (p, parent) = stored_parents(s0, note.in_reply_to)->Some_0;
    let creator = s0.fresh_person(note.attributed_to@, now)->Some_0;
    let form = comment_form(note, creator, p, parent);
    assert(s1.comments@[i as int] == form);
    match note.in_reply_to {
        CommentInReplyToMigration::Old(v) => {
            if v@.len() > 1 {
                lemma_upsert_keeps_lookup(s0, s1, note.id@, i, v@[1]@);
            }
        },
        CommentInReplyToMigration::New(u) => {
            if key_index(s0.post_keys(), u@) is None {
                lemma_upsert_keeps_lookup(s0, s1, note.id@, i, u@);
                let c = key_index(s0.comment_keys(), u@)->Some_0;
                if c != i as int {
                    assert(s1.comments@[c] == s0.comments@[c]);
                }
            }
        },
    }
    assert(stored_parents(s1, note.in_reply_to) == stored_parents(s0, note.in_reply_to));
    lemma_key_index(s1.comment_keys(), note.id@, i as int);
    assert(s2.comments@ =~= s1.comments@);
}

} // verus!
