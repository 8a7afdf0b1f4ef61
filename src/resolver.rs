use crate::context::VerificationContext;
use crate::error::ApubError;
use crate::store::{key_index, opt_int, Store};
use vstd::prelude::*;

verus! {

/// How long a remote person's copy stays fresh, in seconds.
pub const ACTOR_REFETCH_INTERVAL_SECONDS: i64 = 86400;

/// What a dereference needs next: the stored row, or a fetch of the identifier.
#[derive(Debug, PartialEq, Eq)]
pub enum Resolution<T> {
    Ready(T),
    Fetch(String),
}

/// A post or a comment, by row number.
#[derive(Clone, Copy, Debug, PartialEq, Eq, Structural)]
pub enum PostOrComment {
    Post(usize),
    Comment(usize),
}

/// The outcome that a dereference owes: the stored row where `found` names one,
/// else one unit of budget for a fetch, or `FetchBudgetExceeded` with none left.
pub open spec fn dereferenced<T>(
    r: Result<Resolution<T>, ApubError>,
    found: Option<T>,
    url: Seq<char>,
    before: u32,
    after: u32,
) -> bool {
    match found {
        Some(x) => r == Ok::<Resolution<T>, ApubError>(Resolution::Ready(x)) && after == before,
        None => fetch_outcome(r, url, before, after),
    }
}

/// The outcome owed where `url` is not stored: a fetch of it for one unit of budget,
/// or `FetchBudgetExceeded` with none left.
pub open spec fn fetch_outcome<T>(r: Result<Resolution<T>, ApubError>, url: Seq<char>, before: u32, after: u32) -> bool {
    if before == 0 {
        r == Err::<Resolution<T>, ApubError>(ApubError::FetchBudgetExceeded) && after == 0
    } else {
        r matches Ok(Resolution::Fetch(u)) && u@ == url && after == before - 1
    }
}

pub open spec fn opt_row(o: Option<int>) -> Option<usize> {
    match o {
        Some(i) => Some(i as usize),
        None => None,
    }
}

/// Turns a store lookup into a dereference outcome.
pub fn settle<T>(found: Option<T>, url: &String, ctx: &mut VerificationContext) -> (r: Result<Resolution<T>, ApubError>)
    ensures
        dereferenced(r, found, url@, old(ctx).remaining, final(ctx).remaining),
{
    match found {
        Some(x) => Ok(Resolution::Ready(x)),
        None => {
            ctx.consume_fetch()?;
            Ok(Resolution::Fetch(url.clone()))
        },
    }
}

impl Store {
    /// The row of a stored, fresh person: local, or fetched less than the refetch
    /// interval before `now`.
    pub open spec fn fresh_person(&self, actor_id: Seq<char>, now: i64) -> Option<usize> {
        match key_index(self.person_keys(), actor_id) {
            Some(i) => if self.persons@[i].local || (self.persons@[i].last_refreshed_at matches Some(t)
                && now - t < ACTOR_REFETCH_INTERVAL_SECONDS) {
                Some(i as usize)
            } else {
                None
            },
            None => None,
        }
    }

    pub open spec fn post_or_comment_index(&self, ap_id: Seq<char>) -> Option<PostOrComment> {
        match key_index(self.post_keys(), ap_id) {
            Some(i) => Some(PostOrComment::Post(i as usize)),
            None => match key_index(self.comment_keys(), ap_id) {
                Some(i) => Some(PostOrComment::Comment(i as usize)),
                None => None,
            },
        }
    }
}

/// Dereferences a person: a stale remote copy is fetched again.
pub fn dereference_person(store: &Store, ctx: &mut VerificationContext, actor_id: &String, now: i64) -> (r: Result<Resolution<usize>, ApubError>)
    requires
        store.wf(),
    ensures
        dereferenced(r, store.fresh_person(actor_id@, now), actor_id@, old(ctx).remaining, final(ctx).remaining),
        r matches Ok(Resolution::Ready(i)) ==> i < store.persons@.len(),
{
    let found = match store.find_person(actor_id) {
        Some(i) => {
            let p = &store.persons[i];
            let fresh = match p.last_refreshed_at {
                Some(t) => (now as i128) - (t as i128) < ACTOR_REFETCH_INTERVAL_SECONDS as i128,
                None => false,
            };
            if p.local || fresh {
                Some(i)
            } else {
                None
            }
        },
        None => None,
    };
    settle(found, actor_id, ctx)
}

/// Dereferences a community.
pub fn dereference_community(store: &Store, ctx: &mut VerificationContext, actor_id: &String) -> (r: Result<Resolution<usize>, ApubError>)
    requires
        store.wf(),
    ensures
        dereferenced(r, opt_row(key_index(store.community_keys(), actor_id@)), actor_id@, old(ctx).remaining, final(ctx).remaining),
        r matches Ok(Resolution::Ready(i)) ==> i < store.communities@.len(),
{
    let found = store.find_community(actor_id);
    settle(found, actor_id, ctx)
}

/// Dereferences a post.
pub fn dereference_post(store: &Store, ctx: &mut VerificationContext, ap_id: &String) -> (r: Result<Resolution<usize>, ApubError>)
    requires
        store.wf(),
    ensures
        dereferenced(r, opt_row(key_index(store.post_keys(), ap_id@)), ap_id@, old(ctx).remaining, final(ctx).remaining),
        r matches Ok(Resolution::Ready(i)) ==> i < store.posts@.len(),
{
    let found = store.find_post(ap_id);
    settle(found, ap_id, ctx)
}

/// Dereferences a comment.
pub fn dereference_comment(store: &Store, ctx: &mut VerificationContext, ap_id: &String) -> (r: Result<Resolution<usize>, ApubError>)
    requires
        store.wf(),
    ensures
        dereferenced(r, opt_row(key_index(store.comment_keys(), ap_id@)), ap_id@, old(ctx).remaining, final(ctx).remaining),
        r matches Ok(Resolution::Ready(i)) ==> i < store.comments@.len(),
{
    let found = store.find_comment(ap_id);
    settle(found, ap_id, ctx)
}

/// Dereferences an identifier that names a post or a comment; posts are looked up first.
pub fn dereference_post_or_comment(store: &Store, ctx: &mut VerificationContext, ap_id: &String) -> (r: Result<Resolution<PostOrComment>, ApubError>)
    requires
        store.wf(),
    ensures
        dereferenced(r, store.post_or_comment_index(ap_id@), ap_id@, old(ctx).remaining, final(ctx).remaining),
        r matches Ok(Resolution::Ready(PostOrComment::Post(i))) ==> i < store.posts@.len(),
        r matches Ok(Resolution::Ready(PostOrComment::Comment(i))) ==> i < store.comments@.len(),
{
    let found = match store.find_post(ap_id) {
        Some(i) => Some(PostOrComment::Post(i)),
        None => match store.find_comment(ap_id) {
            Some(i) => Some(PostOrComment::Comment(i)),
            None => None,
        },
    };
    settle(found, ap_id, ctx)
}

/// The identifier of a post or a comment.
pub fn post_or_comment_ap_id(store: &Store, target: PostOrComment) -> (r: String)
    requires
        target matches PostOrComment::Post(i) ==> i < store.posts@.len(),
        target matches PostOrComment::Comment(i) ==> i < store.comments@.len(),
    ensures
        target matches PostOrComment::Post(i) ==> r@ == store.posts@[i as int].ap_id@,
        target matches PostOrComment::Comment(i) ==> r@ == store.comments@[i as int].ap_id@,
{
    match target {
        PostOrComment::Post(i) => store.posts[i].ap_id.clone(),
        PostOrComment::Comment(i) => store.comments[i].ap_id.clone(),
    }
}

/// Dereferences, one after another, of identifiers that are not stored: step `i` turns
/// budget `budgets[i]` into `budgets[i + 1]` with outcome `results[i]`.
pub open spec fn missing_chain_steps(
    urls: Seq<Seq<char>>,
    results: Seq<Result<Resolution<usize>, ApubError>>,
    budgets: Seq<u32>,
) -> bool {
    &&& results.len() == urls.len()
    &&& budgets.len() == urls.len() + 1
    &&& forall|i: int|
        0 <= i < urls.len() ==> dereferenced(#[trigger] results[i], None::<usize>, urls[i], budgets[i], budgets[i + 1])
}

/// A chain of identifiers deeper than the fetch budget `k`, none of them stored: the
/// first `k` dereferences each fetch and spend one unit, and the next one fails with
/// `FetchBudgetExceeded`; so the chain fails after exactly `k` fetches.
pub proof fn lemma_chain_exceeds_budget(
    urls: Seq<Seq<char>>,
    results: Seq<Result<Resolution<usize>, ApubError>>,
    budgets: Seq<u32>,
    k: u32,
)
    requires
        missing_chain_steps(urls, results, budgets),
        budgets[0] == k,
        urls.len() > k,
    ensures
        forall|i: int| 0 <= i < k ==> (#[trigger] results[i] matches Ok(Resolution::Fetch(u)) && u@ == urls[i]),
        forall|i: int| 0 <= i <= k ==> #[trigger] budgets[i] == k - i,
        results[k as int] == Err::<Resolution<usize>, ApubError>(ApubError::FetchBudgetExceeded),
{
    lemma_chain_budget(urls, results, budgets, k, k as int);
}

proof fn lemma_chain_budget(
    urls: Seq<Seq<char>>,
    results: Seq<Result<Resolution<usize>, ApubError>>,
    budgets: Seq<u32>,
    k: u32,
    n: int,
)
    requires
        missing_chain_steps(urls, results, budgets),
        budgets[0] == k,
        0 <= n <= k,
        urls.len() > k,
    ensures
        forall|i: int| 0 <= i < n ==> (#[trigger] results[i] matches Ok(Resolution::Fetch(u)) && u@ == urls[i]),
        forall|i: int| 0 <= i <= n ==> #[trigger] budgets[i] == k - i,
    decreases n,
{
    if n > 0 {
        lemma_chain_budget(urls, results, budgets, k, n - 1);
        assert(dereferenced(results[n - 1], None::<usize>, urls[n - 1], budgets[n - 1], budgets[n]));
    }
}

} // verus!
