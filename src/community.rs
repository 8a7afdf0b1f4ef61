use crate::checks::{activity_well_formed, verify_activity, verify_mod_action, verify_person_in_community};
use crate::content::{check_slurs, check_slurs_opt, opt_text_allowed, text_allowed};
use crate::context::{apub_id_valid, check_is_apub_id_valid, activity_id, generate_activity_id, Settings, VerificationContext};
use crate::error::ApubError;
use crate::ids::{domains_match, verify_domains_match};
use crate::relations::{
    has_ban, has_follow, is_follow_of, keeps_other_follows, CommunityFollower, CommunityPersonBan,
};
use crate::resolver::{dereference_community, dereference_person, Resolution};
use crate::store::{copy_text, has_moderator, key_index, Community, Store, Table};
use vstd::prelude::*;
use vstd::string::StringExecFns;

verus! {

broadcast use vstd::seq_lib::group_filter_ensures;

/// A community on the wire.
#[derive(Clone, Debug)]
pub struct Group {
    pub id: String,
    /// The community's name.
    pub preferred_username: String,
    /// The community's title.
    pub name: String,
    pub summary: Option<String>,
    /// Markdown source of the summary.
    pub source: Option<String>,
    pub sensitive: bool,
    pub icon: Option<String>,
    pub image: Option<String>,
    pub inbox: String,
    pub shared_inbox: Option<String>,
}

/// The description of a community on the wire: the markdown source where given, else
/// the summary.
pub open spec fn group_description(g: Group) -> Option<String> {
    match g.source {
        Some(s) => Some(s),
        None => g.summary,
    }
}

/// A community after an update from `g`: the descriptive fields change, no other.
pub open spec fn community_updated(c: Community, g: Group) -> Community {
    Community {
        name: g.preferred_username,
        title: g.name,
        description: group_description(g),
        nsfw: g.sensitive,
        icon: g.icon,
        banner: g.image,
        ..c
    }
}

/// `g` is the wire form of the stored community `c`.
pub open spec fn group_sent_as(c: Community, g: Group) -> bool {
    &&& g.id == c.actor_id
    &&& g.preferred_username == c.name
    &&& g.name == c.title
    &&& g.summary == c.description
    &&& g.source == c.description
    &&& g.sensitive == c.nsfw
    &&& g.icon == c.icon
    &&& g.image == c.banner
    &&& g.inbox == c.inbox_url
    &&& g.shared_inbox == c.shared_inbox_url
}

/// The name, title and description of a community on the wire pass the content filter.
pub open spec fn group_text_allowed(settings: Settings, g: Group) -> bool {
    &&& text_allowed(settings, g.preferred_username@)
    &&& text_allowed(settings, g.name@)
    &&& opt_text_allowed(settings, group_description(g))
}

/// The row that a decoded community becomes.
pub open spec fn community_form(g: Group) -> Community {
    Community {
        actor_id: g.id,
        name: g.preferred_username,
        title: g.name,
        description: group_description(g),
        nsfw: g.sensitive,
        icon: g.icon,
        banner: g.image,
        inbox_url: g.inbox,
        shared_inbox_url: g.shared_inbox,
        local: false,
        deleted: false,
    }
}

/// Decodes a community into the store, upserted by identifier: its identifier must be on
/// the expected domain and admitted by federation policy, and its name, title and
/// description must pass the content filter.
pub fn community_from_apub(group: &Group, store: &mut Store, settings: &Settings, expected_domain: &String) -> (r: Result<usize, ApubError>)
    requires
        old(store).wf(),
    ensures
        final(store).wf(),
        final(store).agrees_outside(old(store), Table::Communities),
        !domains_match(group.id@, expected_domain@) ==> r == Err::<usize, ApubError>(ApubError::ProtocolViolation)
            && final(store).communities@ == old(store).communities@,
        domains_match(group.id@, expected_domain@) && (!group_text_allowed(*settings, *group) || !apub_id_valid(
            group.id@,
            *settings,
        )) ==> r == Err::<usize, ApubError>(ApubError::ValidationError) && final(store).communities@
            == old(store).communities@,
        domains_match(group.id@, expected_domain@) && group_text_allowed(*settings, *group) && apub_id_valid(
            group.id@,
            *settings,
        ) ==> (r matches Ok(i) && match key_index(old(store).community_keys(), group.id@) {
            Some(j) => i == j && final(store).communities@ == old(store).communities@.update(j, community_form(*group)),
            None => i == old(store).communities@.len() && final(store).communities@ == old(store).communities@.push(
                community_form(*group),
            ),
        }),
{
    verify_domains_match(&group.id, expected_domain)?;
    let description = match &group.source {
        Some(s) => Some(s.clone()),
        None => copy_text(&group.summary),
    };
    check_slurs(&group.preferred_username, settings)?;
    check_slurs(&group.name, settings)?;
    check_slurs_opt(&description, settings)?;
    check_is_apub_id_valid(&group.id, settings)?;
    let row = Community {
        actor_id: group.id.clone(),
        name: group.preferred_username.clone(),
        title: group.name.clone(),
        description,
        nsfw: group.sensitive,
        icon: copy_text(&group.icon),
        banner: copy_text(&group.image),
        inbox_url: group.inbox.clone(),
        shared_inbox_url: copy_text(&group.shared_inbox),
        local: false,
        deleted: false,
    };
    Ok(store.upsert_community(row))
}

/// The wire form of a stored community.
pub fn group_of(c: &Community) -> (r: Group)
    ensures
        group_sent_as(*c, r),
{
    Group {
        id: c.actor_id.clone(),
        preferred_username: c.name.clone(),
        name: c.title.clone(),
        summary: copy_text(&c.description),
        source: copy_text(&c.description),
        sensitive: c.nsfw,
        icon: copy_text(&c.icon),
        image: copy_text(&c.banner),
        inbox: c.inbox_url.clone(),
        shared_inbox: copy_text(&c.shared_inbox_url),
    }
}

pub open spec fn texts(v: Seq<String>) -> Seq<Seq<char>> {
    v.map_values(|s: String| s@)
}

/// Where activities for a person go: its instance's shared inbox, else its own.
pub open spec fn person_inbox(store: Store, p: int) -> Seq<char> {
    match store.persons@[p].shared_inbox_url {
        Some(s) => s@,
        None => store.persons@[p].inbox_url@,
    }
}

/// The inbox that follower row `j` adds for community `c`: that of an accepted,
/// remote follower.
pub open spec fn follower_inbox(store: Store, c: u64, j: int) -> Option<Seq<char>> {
    let row = store.followers@[j];
    if row.community_id == c && !row.pending && row.person_id < store.persons@.len()
        && !store.persons@[row.person_id as int].local {
        Some(person_inbox(store, row.person_id as int))
    } else {
        None
    }
}

proof fn lemma_push_contains(s: Seq<Seq<char>>, a: Seq<char>)
    ensures
        forall|x: Seq<char>| #[trigger] s.push(a).contains(x) <==> (s.contains(x) || x == a),
{
    assert forall|x: Seq<char>| #[trigger] s.push(a).contains(x) <==> (s.contains(x) || x == a) by {
        if s.push(a).contains(x) {
            let k = choose|k: int| 0 <= k < s.push(a).len() && s.push(a)[k] == x;
            if k < s.len() {
                assert(s[k] == x);
            }
        }
        if s.contains(x) {
            let k = choose|k: int| 0 <= k < s.len() && s[k] == x;
            assert(s.push(a)[k] == x);
        }
        if x == a {
            assert(s.push(a)[s.len() as int] == x);
        }
    }
}

/// Adds `s` where no equal text is there yet.
fn push_unique(v: &mut Vec<String>, s: String)
    ensures
        texts(old(v)@).contains(s@) ==> final(v)@ == old(v)@,
        !texts(old(v)@).contains(s@) ==> final(v)@ == old(v)@.push(s),
{
    let mut i: usize = 0;
    while i < v.len()
        invariant
            i <= v@.len(),
            forall|j: int| 0 <= j < i ==> v@[j]@ != s@,
        decreases v@.len() - i,
    {
        if v[i] == s {
            assert(texts(v@)[i as int] == s@);
            return;
        }
        i += 1;
    }
    assert(!texts(v@).contains(s@)) by {
        assert forall|j: int| 0 <= j < v@.len() implies texts(v@)[j] != s@ by {}
    }
    v.push(s);
}

/// The inboxes that an activity of community `community` goes to: the explicit ones and
/// those of its accepted remote followers, each endpoint once.
pub fn send_to_community(store: &Store, community: usize, explicit: Vec<String>) -> (r: Vec<String>)
    ensures
        texts(r@).no_duplicates(),
        forall|x: Seq<char>|
            texts(r@).contains(x) <==> (texts(explicit@).contains(x) || exists|j: int|
                0 <= j < store.followers@.len() && #[trigger] follower_inbox(*store, community as u64, j) == Some(x)),
{
    let mut out: Vec<String> = Vec::new();
    let mut i: usize = 0;
    while i < explicit.len()
        invariant
            i <= explicit@.len(),
            texts(out@).no_duplicates(),
            forall|x: Seq<char>| texts(out@).contains(x) <==> texts(explicit@.subrange(0, i as int)).contains(x),
        decreases explicit@.len() - i,
    {
        let ghost before = out@;
        push_unique(&mut out, explicit[i].clone());
        proof {
            let e = explicit@[i as int]@;
            assert(texts(explicit@.subrange(0, i + 1)) =~= texts(explicit@.subrange(0, i as int)).push(e));
            lemma_push_contains(texts(explicit@.subrange(0, i as int)), e);
            lemma_push_contains(texts(before), e);
            if texts(before).contains(e) {
            } else {
                assert(texts(out@) =~= texts(before).push(e));
            }
        }
        i += 1;
    }
    assert(explicit@.subrange(0, explicit@.len() as int) =~= explicit@);
    let rows = &store.followers.rows;
    let mut k: usize = 0;
    while k < rows.len()
        invariant
            k <= rows@.len(),
            rows@ == store.followers@,
            texts(out@).no_duplicates(),
            forall|x: Seq<char>|
                texts(out@).contains(x) <==> (texts(explicit@).contains(x) || exists|j: int|
                    0 <= j < k && #[trigger] follower_inbox(*store, community as u64, j) == Some(x)),
        decreases rows@.len() - k,
    {
        let row = rows[k];
        let ghost before = out@;
        if row.community_id == community as u64 && !row.pending && row.person_id < store.persons.len() as u64 {
            let p = &store.persons[row.person_id as usize];
            if !p.local {
                push_unique(&mut out, p.shared_inbox_or_inbox_url());
                proof {
                    let e = person_inbox(*store, row.person_id as int);
                    lemma_push_contains(texts(before), e);
                    if !texts(before).contains(e) {
                        assert(texts(out@) =~= texts(before).push(e));
                    }
                    assert(follower_inbox(*store, community as u64, k as int) == Some(e));
                }
            }
        }
        proof {
            assert forall|x: Seq<char>|
                texts(out@).contains(x) <==> (texts(explicit@).contains(x) || exists|j: int|
                    0 <= j < k + 1 && #[trigger] follower_inbox(*store, community as u64, j) == Some(x)) by {
                if exists|j: int| 0 <= j < k + 1 && #[trigger] follower_inbox(*store, community as u64, j) == Some(x) {
                    let j = choose|j: int| 0 <= j < k + 1 && #[trigger] follower_inbox(*store, community as u64, j) == Some(x);
                    if j < k {
                        assert(texts(before).contains(x));
                    }
                }
            }
        }
        k += 1;
    }
    out
}

/// The public addressee of activities that anyone may read.
pub open spec fn public_url_text() -> Seq<char> {
    "https://www.w3.org/ns/activitystreams#Public"@
}

pub fn public_url() -> (r: String)
    ensures
        r@ == public_url_text(),
{
    <String as StringExecFns>::from_str("https://www.w3.org/ns/activitystreams#Public")
}

/// The outcome owed by the checks of a moderator activity: a sound envelope, a stored
/// community and actor, and an actor that is not banned there and moderates it.
pub open spec fn mod_action_verified(
    store: Store,
    id: Seq<char>,
    actor: Seq<char>,
    community: Seq<char>,
    settings: Settings,
    now: i64,
    r: Result<Resolution<()>, ApubError>,
    before: u32,
    after: u32,
) -> bool {
    if !activity_well_formed(id, actor, settings) {
        (r == Err::<Resolution<()>, ApubError>(ApubError::ValidationError) || r == Err::<
            Resolution<()>,
            ApubError,
        >(ApubError::ProtocolViolation)) && after == before
    } else {
        match key_index(store.community_keys(), community) {
            None => crate::resolver::fetch_outcome(r, community, before, after),
            Some(c) => match store.fresh_person(actor, now) {
                None => crate::resolver::fetch_outcome(r, actor, before, after),
                Some(p) => after == before && if has_ban(store.bans@, c as u64, p as u64) || !has_moderator(
                    store.moderators@,
                    c as u64,
                    p as u64,
                ) {
                    r == Err::<Resolution<()>, ApubError>(ApubError::Forbidden)
                } else {
                    r == Ok::<Resolution<()>, ApubError>(Resolution::Ready(()))
                },
            },
        }
    }
}

/// Runs the checks of a moderator activity.
fn verify_mod_activity(
    store: &Store,
    ctx: &mut VerificationContext,
    settings: &Settings,
    id: &String,
    actor: &String,
    community: &String,
    now: i64,
) -> (r: Result<Resolution<()>, ApubError>)
    requires
        store.wf(),
    ensures
        mod_action_verified(*store, id@, actor@, community@, *settings, now, r, old(ctx).remaining, final(ctx).remaining),
{
    proof {
        store.lemma_lengths_fit();
    }
    verify_activity(id, actor, settings)?;
    let c = match dereference_community(store, ctx, community)? {
        Resolution::Ready(c) => c,
        Resolution::Fetch(u) => return Ok(Resolution::Fetch(u)),
    };
    let p = match verify_person_in_community(store, ctx, actor, c as u64, now)? {
        Resolution::Ready(p) => p,
        Resolution::Fetch(u) => return Ok(Resolution::Fetch(u)),
    };
    verify_mod_action(store, p, c)?;
    Ok(Resolution::Ready(()))
}

/// Bans after a ban of `p` from `c`.
pub open spec fn banned(rows: Seq<CommunityPersonBan>, c: u64, p: u64) -> Seq<CommunityPersonBan> {
    if has_ban(rows, c, p) {
        rows
    } else {
        rows.push(CommunityPersonBan { community_id: c, person_id: p })
    }
}

/// Follows after the follow of `p` to `c`, if any, is removed.
pub open spec fn unfollowed(rows: Seq<CommunityFollower>, c: u64, p: u64) -> Seq<CommunityFollower> {
    if has_follow(rows, c, p) {
        rows.filter(keeps_other_follows(c, p))
    } else {
        rows
    }
}

/// A moderator bans a person from a community.
#[derive(Clone, Debug)]
pub struct BlockUserFromCommunity {
    /// The moderator.
    pub actor: String,
    pub to: String,
    /// The person who is banned.
    pub object: String,
    /// The community.
    pub cc: String,
    pub id: String,
}

impl BlockUserFromCommunity {
    /// A ban by `actor` of `target` from `community`, with an identifier on this
    /// instance's host made unique by `part`.
    pub fn new(
        community: &Community,
        target: &crate::person::ApubPerson,
        actor: &crate::person::ApubPerson,
        settings: &Settings,
        part: &str,
    ) -> (r: BlockUserFromCommunity)
        ensures
            r.actor == actor.actor_id,
            r.to@ == public_url_text(),
            r.object == target.actor_id,
            r.cc == community.actor_id,
            r.id@ == activity_id(settings.hostname@, "block"@, part@),
    {
        BlockUserFromCommunity {
            actor: actor.actor_id.clone(),
            to: public_url(),
            object: target.actor_id.clone(),
            cc: community.actor_id.clone(),
            id: generate_activity_id(settings, "block", part),
        }
    }

    /// The ban to send, and its inboxes: the banned person's and those of the
    /// community's followers.
    pub fn send(store: &Store, community: usize, target: usize, actor: usize, settings: &Settings, part: &str) -> (r: (BlockUserFromCommunity, Vec<String>))
        requires
            community < store.communities@.len(),
            target < store.persons@.len(),
            actor < store.persons@.len(),
        ensures
            r.0.actor == store.persons@[actor as int].actor_id,
            r.0.object == store.persons@[target as int].actor_id,
            r.0.cc == store.communities@[community as int].actor_id,
            r.0.to@ == public_url_text(),
            r.0.id@ == activity_id(settings.hostname@, "block"@, part@),
            texts(r.1@).no_duplicates(),
            forall|x: Seq<char>|
                texts(r.1@).contains(x) <==> (x == person_inbox(*store, target as int) || exists|j: int|
                    0 <= j < store.followers@.len() && #[trigger] follower_inbox(*store, community as u64, j) == Some(x)),
    {
        let block = BlockUserFromCommunity::new(&store.communities[community], &store.persons[target], &store.persons[actor], settings, part);
        let first = store.persons[target].shared_inbox_or_inbox_url();
        let explicit = vec![first];
        proof {
            assert(texts(explicit@) =~= seq![person_inbox(*store, target as int)]);
            assert forall|x: Seq<char>| texts(explicit@).contains(x) <==> x == person_inbox(*store, target as int) by {
                if x == person_inbox(*store, target as int) {
                    assert(texts(explicit@)[0] == x);
                }
            }
        }
        let inboxes = send_to_community(store, community, explicit);
        (block, inboxes)
    }

    /// The checks of a ban: a sound envelope, and an actor that moderates the community.
    pub fn verify(&self, store: &Store, ctx: &mut VerificationContext, settings: &Settings, now: i64) -> (r: Result<Resolution<()>, ApubError>)
        requires
            store.wf(),
        ensures
            mod_action_verified(*store, self.id@, self.actor@, self.cc@, *settings, now, r, old(ctx).remaining, final(ctx).remaining),
    {
        verify_mod_activity(store, ctx, settings, &self.id, &self.actor, &self.cc, now)
    }

    /// Bans the person from the community and ends their follow of it, if any.
    pub fn receive(&self, store: &mut Store, ctx: &mut VerificationContext, now: i64) -> (r: Result<Resolution<()>, ApubError>)
        requires
            old(store).wf(),
        ensures
            final(store).wf(),
            final(store).same_entities(old(store)),
            match (key_index(old(store).community_keys(), self.cc@), old(store).fresh_person(self.object@, now)) {
                (Some(c), Some(t)) => r == Ok::<Resolution<()>, ApubError>(Resolution::Ready(()))
                    && final(ctx).remaining == old(ctx).remaining
                    && final(store).bans@ == banned(old(store).bans@, c as u64, t as u64)
                    && final(store).followers@ == unfollowed(old(store).followers@, c as u64, t as u64),
                (None, _) => crate::resolver::fetch_outcome(r, self.cc@, old(ctx).remaining, final(ctx).remaining)
                    && final(store).bans@ == old(store).bans@ && final(store).followers@ == old(store).followers@,
                (Some(_), None) => crate::resolver::fetch_outcome(r, self.object@, old(ctx).remaining, final(ctx).remaining)
                    && final(store).bans@ == old(store).bans@ && final(store).followers@ == old(store).followers@,
            },
    {
        proof {
            store.lemma_lengths_fit();
        }
        let c = match dereference_community(store, ctx, &self.cc)? {
            Resolution::Ready(c) => c,
            Resolution::Fetch(u) => return Ok(Resolution::Fetch(u)),
        };
        let t = match dereference_person(store, ctx, &self.object, now)? {
            Resolution::Ready(t) => t,
            Resolution::Fetch(u) => return Ok(Resolution::Fetch(u)),
        };
        store.bans.ban(c as u64, t as u64);
        let _ = store.followers.unfollow(c as u64, t as u64);
        Ok(Resolution::Ready(()))
    }
}

/// A ban applied a second time changes nothing: the person stays banned and no follow
/// of theirs is left to remove.
pub proof fn lemma_block_idempotent(bans: Seq<CommunityPersonBan>, follows: Seq<CommunityFollower>, c: u64, p: u64)
    ensures
        banned(banned(bans, c, p), c, p) == banned(bans, c, p),
        unfollowed(unfollowed(follows, c, p), c, p) == unfollowed(follows, c, p),
        has_ban(banned(bans, c, p), c, p),
        !has_follow(unfollowed(follows, c, p), c, p),
{
    if !has_ban(bans, c, p) {
        let b = banned(bans, c, p);
        assert(b[b.len() - 1] == CommunityPersonBan { community_id: c, person_id: p });
    }
    let f = unfollowed(follows, c, p);
    if has_follow(follows, c, p) {
        assert forall|i: int| 0 <= i < f.len() implies !is_follow_of(#[trigger] f[i], c, p) by {
            assert(keeps_other_follows(c, p)(f[i]));
        }
    }
}

/// An update applied a second time changes nothing more.
pub proof fn lemma_update_idempotent(c: Community, g: Group)
    ensures
        community_updated(community_updated(c, g), g) == community_updated(c, g),
{
}

/// The outcome owed by the checks of an update: where the community itself acts, a
/// sound envelope and a stored community; else those of a moderator activity.
pub open spec fn update_verified(
    store: Store,
    u: UpdateCommunity,
    settings: Settings,
    now: i64,
    r: Result<Resolution<()>, ApubError>,
    before: u32,
    after: u32,
) -> bool {
    if u.actor@ == u.cc@ {
        if !activity_well_formed(u.id@, u.actor@, settings) {
            (r == Err::<Resolution<()>, ApubError>(ApubError::ValidationError) || r == Err::<
                Resolution<()>,
                ApubError,
            >(ApubError::ProtocolViolation)) && after == before
        } else {
            match key_index(store.community_keys(), u.cc@) {
                Some(_) => r == Ok::<Resolution<()>, ApubError>(Resolution::Ready(())) && after == before,
                None => crate::resolver::fetch_outcome(r, u.cc@, before, after),
            }
        }
    } else {
        mod_action_verified(store, u.id@, u.actor@, u.cc@, settings, now, r, before, after)
    }
}

/// The community itself, or one of its moderators, updates its descriptive fields.
#[derive(Clone, Debug)]
pub struct UpdateCommunity {
    /// The moderator.
    pub actor: String,
    pub to: String,
    /// The community's new wire form.
    pub object: Group,
    /// The community.
    pub cc: String,
    pub id: String,
}

impl UpdateCommunity {
    /// The update to send for a stored community, and the inboxes of its followers.
    pub fn send(store: &Store, community: usize, actor: usize, settings: &Settings, part: &str) -> (r: (UpdateCommunity, Vec<String>))
        requires
            community < store.communities@.len(),
            actor < store.persons@.len(),
        ensures
            r.0.actor == store.persons@[actor as int].actor_id,
            r.0.to@ == public_url_text(),
            group_sent_as(store.communities@[community as int], r.0.object),
            r.0.cc == store.communities@[community as int].actor_id,
            r.0.id@ == activity_id(settings.hostname@, "update"@, part@),
            texts(r.1@).no_duplicates(),
            forall|x: Seq<char>|
                texts(r.1@).contains(x) <==> exists|j: int|
                    0 <= j < store.followers@.len() && #[trigger] follower_inbox(*store, community as u64, j) == Some(x),
    {
        let c = &store.communities[community];
        let update = UpdateCommunity {
            actor: store.persons[actor].actor_id.clone(),
            to: public_url(),
            object: group_of(c),
            cc: c.actor_id.clone(),
            id: generate_activity_id(settings, "update", part),
        };
        let explicit: Vec<String> = Vec::new();
        assert(texts(explicit@) =~= Seq::<Seq<char>>::empty());
        let inboxes = send_to_community(store, community, explicit);
        (update, inboxes)
    }

    /// The checks of an update: a sound envelope, and an actor that is the community
    /// itself or moderates it.
    pub fn verify(&self, store: &Store, ctx: &mut VerificationContext, settings: &Settings, now: i64) -> (r: Result<Resolution<()>, ApubError>)
        requires
            store.wf(),
        ensures
            update_verified(*store, *self, *settings, now, r, old(ctx).remaining, final(ctx).remaining),
    {
        if self.actor == self.cc {
            verify_activity(&self.id, &self.actor, settings)?;
            match dereference_community(store, ctx, &self.cc)? {
                Resolution::Ready(_) => Ok(Resolution::Ready(())),
                Resolution::Fetch(u) => Ok(Resolution::Fetch(u)),
            }
        } else {
            verify_mod_activity(store, ctx, settings, &self.id, &self.actor, &self.cc, now)
        }
    }

    /// Applies the descriptive fields of the update to the stored community; the new
    /// form must be on the community's domain and pass the content filter.
    pub fn receive(&self, store: &mut Store, ctx: &mut VerificationContext, settings: &Settings) -> (r: Result<Resolution<()>, ApubError>)
        requires
            old(store).wf(),
        ensures
            final(store).wf(),
            final(store).agrees_outside(old(store), Table::Communities),
            !(r matches Ok(Resolution::Ready(_))) ==> final(store).communities@ == old(store).communities@,
            match key_index(old(store).community_keys(), self.cc@) {
                Some(c) => final(ctx).remaining == old(ctx).remaining && if !domains_match(
                    self.object.id@,
                    old(store).communities@[c].actor_id@,
                ) {
                    r == Err::<Resolution<()>, ApubError>(ApubError::ProtocolViolation)
                } else if !group_text_allowed(*settings, self.object) {
                    r == Err::<Resolution<()>, ApubError>(ApubError::ValidationError)
                } else {
                    r == Ok::<Resolution<()>, ApubError>(Resolution::Ready(())) && final(store).communities@
                        == old(store).communities@.update(c, community_updated(old(store).communities@[c], self.object))
                },
                None => crate::resolver::fetch_outcome(r, self.cc@, old(ctx).remaining, final(ctx).remaining),
            },
    {
        proof {
            store.lemma_lengths_fit();
        }
        let c = match dereference_community(store, ctx, &self.cc)? {
            Resolution::Ready(c) => c,
            Resolution::Fetch(u) => return Ok(Resolution::Fetch(u)),
        };
        let old_row = &store.communities[c];
        verify_domains_match(&self.object.id, &old_row.actor_id)?;
        let g = &self.object;
        let description = match &g.source {
            Some(s) => Some(s.clone()),
            None => copy_text(&g.summary),
        };
        check_slurs(&g.preferred_username, settings)?;
        check_slurs(&g.name, settings)?;
        check_slurs_opt(&description, settings)?;
        let row = Community {
            actor_id: old_row.actor_id.clone(),
            name: g.preferred_username.clone(),
            title: g.name.clone(),
            description,
            nsfw: g.sensitive,
            icon: copy_text(&g.icon),
            banner: copy_text(&g.image),
            inbox_url: old_row.inbox_url.clone(),
            shared_inbox_url: copy_text(&old_row.shared_inbox_url),
            local: old_row.local,
            deleted: old_row.deleted,
        };
        store.set_community(c, row);
        Ok(Resolution::Ready(()))
    }
}

/// A ban, or a community update by a person, from an actor who does not moderate the
/// community (or is banned there) fails with `Forbidden` once its envelope is sound and
/// both are stored, whatever else the activity holds.
pub proof fn lemma_mod_gate(
    store: Store,
    id: Seq<char>,
    actor: Seq<char>,
    community: Seq<char>,
    settings: Settings,
    now: i64,
    r: Result<Resolution<()>, ApubError>,
    before: u32,
    after: u32,
    c: int,
    p: usize,
)
    requires
        mod_action_verified(store, id, actor, community, settings, now, r, before, after),
        activity_well_formed(id, actor, settings),
        key_index(store.community_keys(), community) == Some(c),
        store.fresh_person(actor, now) == Some(p),
        !has_moderator(store.moderators@, c as u64, p as u64),
    ensures
        r == Err::<Resolution<()>, ApubError>(ApubError::Forbidden),
        after == before,
{
}

} // verus!
