use crate::comment::{ApubComment, Note};
use crate::context::{apub_id_valid, check_is_apub_id_valid, Settings, VerificationContext};
use crate::error::ApubError;
use crate::ids::{domains_match, verify_domains_match};
use crate::resolver::{dereference_community, dereference_person, dereferenced, PostOrComment, Resolution};
use crate::store::{key_index, Post, Store, Table};
use vstd::prelude::*;

verus! {

/// A post on the wire.
#[derive(Clone, Debug)]
pub struct Page {
    pub id: String,
    pub attributed_to: String,
    /// The community the post is in.
    pub to: String,
    pub name: String,
    pub comments_enabled: Option<bool>,
}

/// A post or a comment on the wire.
#[derive(Clone, Debug)]
pub enum PageOrNote {
    Page(Page),
    Note(Note),
}

/// The row that a decoded page becomes.
pub open spec fn post_form(page: Page, creator_id: usize, community_id: usize) -> Post {
    Post {
        ap_id: page.id,
        name: page.name,
        creator_id: creator_id as u64,
        community_id: community_id as u64,
        locked: page.comments_enabled == Some(false),
        deleted: false,
        local: false,
    }
}

/// The outcome owed by decoding a page into the store.
pub open spec fn post_decoded(
    before: Store,
    after: Store,
    page: Page,
    settings: Settings,
    expected_domain: Seq<char>,
    now: i64,
    r: Result<Resolution<usize>, ApubError>,
    budget_before: u32,
    budget_after: u32,
) -> bool {
    if !domains_match(page.id@, expected_domain) {
        r == Err::<Resolution<usize>, ApubError>(ApubError::ProtocolViolation) && budget_after == budget_before
    } else if !apub_id_valid(page.id@, settings) {
        r == Err::<Resolution<usize>, ApubError>(ApubError::ValidationError) && budget_after == budget_before
    } else {
        match before.fresh_person(page.attributed_to@, now) {
            None => dereferenced(r, None::<usize>, page.attributed_to@, budget_before, budget_after),
            Some(creator) => match key_index(before.community_keys(), page.to@) {
                None => crate::resolver::fetch_outcome(r, page.to@, budget_before, budget_after),
                Some(c) => budget_after == budget_before && if key_index(before.comment_keys(), page.id@) is Some {
                    r == Err::<Resolution<usize>, ApubError>(ApubError::ProtocolViolation)
                } else {
                    let form = post_form(page, creator, c as usize);
                    r matches Ok(Resolution::Ready(i)) && match key_index(before.post_keys(), page.id@) {
                        Some(j) => i == j && after.posts@ == before.posts@.update(j, form),
                        None => i == before.posts@.len() && after.posts@ == before.posts@.push(form),
                    }
                },
            },
        }
    }
}

/// Decodes a page into the store: its author and community must be stored (else the
/// identifier to fetch first comes back), and it is upserted by identifier.
pub fn post_from_apub(
    page: &Page,
    store: &mut Store,
    ctx: &mut VerificationContext,
    settings: &Settings,
    expected_domain: &String,
    now: i64,
) -> (r: Result<Resolution<usize>, ApubError>)
    requires
        old(store).wf(),
    ensures
        final(store).wf(),
        final(store).agrees_outside(old(store), Table::Posts),
        !(r matches Ok(Resolution::Ready(_))) ==> final(store).posts@ == old(store).posts@,
        post_decoded(*old(store), *final(store), *page, *settings, expected_domain@, now, r, old(ctx).remaining, final(ctx).remaining),
{
    proof {
        store.lemma_lengths_fit();
    }
    verify_domains_match(&page.id, expected_domain)?;
    check_is_apub_id_valid(&page.id, settings)?;
    let creator = match dereference_person(store, ctx, &page.attributed_to, now)? {
        Resolution::Ready(p) => p,
        Resolution::Fetch(u) => return Ok(Resolution::Fetch(u)),
    };
    let community = match dereference_community(store, ctx, &page.to)? {
        Resolution::Ready(c) => c,
        Resolution::Fetch(u) => return Ok(Resolution::Fetch(u)),
    };
    let locked = match page.comments_enabled {
        Some(enabled) => !enabled,
        None => false,
    };
    let form = Post {
        ap_id: page.id.clone(),
        name: page.name.clone(),
        creator_id: creator as u64,
        community_id: community as u64,
        locked,
        deleted: false,
        local: false,
    };
    let i = store.upsert_post(form)?;
    Ok(Resolution::Ready(i))
}

impl PostOrComment {
    pub fn read_from_apub_id(store: &Store, object_id: &String) -> (r: Option<PostOrComment>)
        requires
            store.wf(),
        ensures
            r == store.post_or_comment_index(object_id@),
    {
        proof {
            store.lemma_lengths_fit();
        }
        match store.find_post(object_id) {
            Some(i) => Some(PostOrComment::Post(i)),
            None => match store.find_comment(object_id) {
                Some(i) => Some(PostOrComment::Comment(i)),
                None => None,
            },
        }
    }

    /// Marks the post or comment deleted.
    pub fn delete(self, store: &mut Store)
        requires
            old(store).wf(),
            self matches PostOrComment::Post(i) ==> i < old(store).posts@.len(),
            self matches PostOrComment::Comment(i) ==> i < old(store).comments@.len(),
        ensures
            final(store).wf(),
            self matches PostOrComment::Post(i) ==> final(store).agrees_outside(old(store), Table::Posts)
                && final(store).posts@ == old(store).posts@.update(i as int, Post { deleted: true, ..old(store).posts@[i as int] }),
            self matches PostOrComment::Comment(i) ==> final(store).agrees_outside(old(store), Table::Comments)
                && final(store).comments@ == old(store).comments@.update(
                i as int,
                ApubComment { deleted: true, ..old(store).comments@[i as int] },
            ),
    {
        match self {
            PostOrComment::Post(i) => store.set_post_deleted(i, true),
            PostOrComment::Comment(i) => ApubComment::delete(store, i),
        }
    }

    /// The identifier of the post or comment.
    pub fn ap_id(&self, store: &Store) -> (r: String)
        requires
            *self matches PostOrComment::Post(i) ==> i < store.posts@.len(),
            *self matches PostOrComment::Comment(i) ==> i < store.comments@.len(),
        ensures
            *self matches PostOrComment::Post(i) ==> r@ == store.posts@[i as int].ap_id@,
            *self matches PostOrComment::Comment(i) ==> r@ == store.comments@[i as int].ap_id@,
    {
        crate::resolver::post_or_comment_ap_id(store, *self)
    }

    /// Decodes a page or a note into the store.
    pub fn from_apub(
        apub: &PageOrNote,
        store: &mut Store,
        ctx: &mut VerificationContext,
        settings: &Settings,
        expected_domain: &String,
        now: i64,
    ) -> (r: Result<Resolution<PostOrComment>, ApubError>)
        requires
            old(store).wf(),
        ensures
            final(store).wf(),
            match *apub {
                PageOrNote::Page(p) => exists|x: Result<Resolution<usize>, ApubError>|
                    post_decoded(*old(store), *final(store), p, *settings, expected_domain@, now, x, old(ctx).remaining, final(ctx).remaining)
                    && lifted(x, r, true),
                PageOrNote::Note(n) => exists|x: Result<Resolution<usize>, ApubError>|
                    crate::comment::comment_decoded(*old(store), *final(store), n, *settings, expected_domain@, now, x, old(ctx).remaining, final(ctx).remaining)
                    && lifted(x, r, false),
            },
    {
        match apub {
            PageOrNote::Page(p) => {
                let x = post_from_apub(p, store, ctx, settings, expected_domain, now);
                lift(x, true)
            },
            PageOrNote::Note(n) => {
                let x = ApubComment::from_apub(n, store, ctx, settings, expected_domain, now);
                lift(x, false)
            },
        }
    }
}

/// Continues a resolution after the fetch it asked for: `NotFound` where the fetch
/// failed, with the store unchanged; else the fetched object is decoded into the store.
pub fn resolve_fetched(
    fetched: Option<PageOrNote>,
    store: &mut Store,
    ctx: &mut VerificationContext,
    settings: &Settings,
    expected_domain: &String,
    now: i64,
) -> (r: Result<Resolution<PostOrComment>, ApubError>)
    requires
        old(store).wf(),
    ensures
        final(store).wf(),
        fetched is None ==> r == Err::<Resolution<PostOrComment>, ApubError>(ApubError::NotFound)
            && final(store).same_state(old(store)) && final(ctx).remaining == old(ctx).remaining,
        fetched matches Some(a) ==> match a {
            PageOrNote::Page(p) => exists|x: Result<Resolution<usize>, ApubError>|
                post_decoded(*old(store), *final(store), p, *settings, expected_domain@, now, x, old(ctx).remaining, final(ctx).remaining)
                && lifted(x, r, true),
            PageOrNote::Note(n) => exists|x: Result<Resolution<usize>, ApubError>|
                crate::comment::comment_decoded(*old(store), *final(store), n, *settings, expected_domain@, now, x, old(ctx).remaining, final(ctx).remaining)
                && lifted(x, r, false),
        },
{
    match fetched {
        None => Err(ApubError::NotFound),
        Some(a) => PostOrComment::from_apub(&a, store, ctx, settings, expected_domain, now),
    }
}

/// `r` is `x` with a ready row number turned into a post or a comment.
pub open spec fn lifted(x: Result<Resolution<usize>, ApubError>, r: Result<Resolution<PostOrComment>, ApubError>, is_post: bool) -> bool {
    match x {
        Ok(Resolution::Ready(i)) => r == Ok::<Resolution<PostOrComment>, ApubError>(
            Resolution::Ready(if is_post { PostOrComment::Post(i) } else { PostOrComment::Comment(i) }),
        ),
        Ok(Resolution::Fetch(u)) => r matches Ok(Resolution::Fetch(v)) && v == u,
        Err(e) => r == Err::<Resolution<PostOrComment>, ApubError>(e),
    }
}

fn lift(x: Result<Resolution<usize>, ApubError>, is_post: bool) -> (r: Result<Resolution<PostOrComment>, ApubError>)
    ensures
        lifted(x, r, is_post),
{
    match x {
        Ok(Resolution::Ready(i)) => Ok(Resolution::Ready(if is_post { PostOrComment::Post(i) } else { PostOrComment::Comment(i) })),
        Ok(Resolution::Fetch(u)) => Ok(Resolution::Fetch(u)),
        Err(e) => Err(e),
    }
}

} // verus!
