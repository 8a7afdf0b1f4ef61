use lemmy_apub::comment::{ApubComment, CommentInReplyToMigration, Note};
use lemmy_apub::community::{community_from_apub, send_to_community, BlockUserFromCommunity, Group, UpdateCommunity};
use lemmy_apub::context::{check_is_apub_id_valid, Settings, VerificationContext};
use lemmy_apub::error::ApubError;
use lemmy_apub::following::{AcceptFollowCommunity, FollowCommunity};
use lemmy_apub::ids::{verify_domains_match, verify_urls_match};
use lemmy_apub::person::{ApubPerson, Person, UserTypes};
use lemmy_apub::post::{post_from_apub, resolve_fetched, Page, PageOrNote};
use lemmy_apub::private_message::{DeletePrivateMessage, UndoDeletePrivateMessage};
use lemmy_apub::resolver::{dereference_community, dereference_person, PostOrComment, Resolution};
use lemmy_apub::store::{Community, Post, PrivateMessage, Store};

const NOW: i64 = 1_700_000_000;

fn settings() -> Settings {
    Settings {
        hostname: "lemmy.ml".to_string(),
        federation_enabled: true,
        allowed_instances: vec![],
        blocked_instances: vec![],
        slur_filter: None,
    }
}

fn settings_on(hostname: &str) -> Settings {
    let mut s = settings();
    s.hostname = hostname.to_string();
    s
}

fn person(actor_id: &str, local: bool) -> ApubPerson {
    ApubPerson {
        actor_id: actor_id.to_string(),
        name: actor_id.rsplit('/').next().unwrap().to_string(),
        display_name: None,
        bio: None,
        avatar: None,
        banner: None,
        inbox_url: format!("{}/inbox", actor_id),
        shared_inbox_url: None,
        public_key: Some("PUBLIC KEY".to_string()),
        private_key: None,
        bot_account: false,
        local,
        deleted: false,
        matrix_user_id: None,
        published: Some(NOW - 1000),
        updated: None,
        last_refreshed_at: if local { None } else { Some(NOW - 10) },
    }
}

fn community(actor_id: &str, local: bool) -> Community {
    Community {
        actor_id: actor_id.to_string(),
        name: "rust".to_string(),
        title: "Rust".to_string(),
        description: Some("about rust".to_string()),
        nsfw: false,
        icon: None,
        banner: None,
        inbox_url: format!("{}/inbox", actor_id),
        shared_inbox_url: None,
        local,
        deleted: false,
    }
}

fn post(ap_id: &str, creator_id: u64, community_id: u64, locked: bool) -> Post {
    Post {
        ap_id: ap_id.to_string(),
        name: "A post".to_string(),
        creator_id,
        community_id,
        locked,
        deleted: false,
        local: false,
    }
}

fn note(id: &str, author: &str, in_reply_to: CommentInReplyToMigration) -> Note {
    Note {
        id: id.to_string(),
        attributed_to: author.to_string(),
        to: "https://www.w3.org/ns/activitystreams#Public".to_string(),
        content: "<p>hello</p>".to_string(),
        source: "hello".to_string(),
        in_reply_to,
        published: Some(NOW - 5),
        updated: None,
    }
}

/// A store with a remote person, a remote community and a post in it.
fn store_with_post(locked: bool) -> Store {
    let mut store = Store::new();
    store.upsert_person(person("https://remote.org/u/bob", false));
    store.upsert_community(community("https://remote.org/c/rust", false));
    store.upsert_post(post("https://remote.org/post/1", 0, 0, locked)).unwrap();
    store
}

#[test]
fn follow_then_accept_makes_the_follow_accepted() {
    let mut store = Store::new();
    let alice = store.upsert_person(person("https://lemmy.ml/u/alice", true));
    let c = store.upsert_community(community("https://remote.org/c/rust", false));
    let follow = FollowCommunity::send(&mut store, alice, c, &settings(), "1");
    assert_eq!(follow.id, "https://lemmy.ml/activities/follow/1");
    assert!(store.followers.rows[0].pending);
    assert!(follow.verify(&settings()).is_ok());

    let accept = AcceptFollowCommunity::new(follow, &settings_on("remote.org"), "1");
    assert_eq!(accept.actor, "https://remote.org/c/rust");
    assert_eq!(accept.to, "https://lemmy.ml/u/alice");
    assert_eq!(accept.id, "https://remote.org/activities/accept/1");
    assert!(accept.verify(&settings()).is_ok());
    let mut ctx = VerificationContext::new(5);
    let r = accept.receive(&mut store, &mut ctx, NOW).unwrap();
    assert!(matches!(r, Resolution::Ready(())));
    assert_eq!(store.followers.rows.len(), 1);
    assert!(!store.followers.rows[0].pending);
    assert_eq!(ctx.remaining, 5);
}

#[test]
fn accept_without_follow_is_not_found() {
    let mut store = Store::new();
    store.upsert_person(person("https://lemmy.ml/u/alice", true));
    store.upsert_community(community("https://remote.org/c/rust", false));
    let follow = FollowCommunity {
        actor: "https://lemmy.ml/u/alice".to_string(),
        to: "https://remote.org/c/rust".to_string(),
        object: "https://remote.org/c/rust".to_string(),
        id: "https://lemmy.ml/activities/follow/1".to_string(),
    };
    let accept = AcceptFollowCommunity::new(follow, &settings_on("remote.org"), "1");
    let mut ctx = VerificationContext::new(5);
    assert_eq!(accept.receive(&mut store, &mut ctx, NOW).unwrap_err(), ApubError::NotFound);
    assert!(store.followers.rows.is_empty());
}

#[test]
fn accept_twice_changes_nothing_more() {
    let mut store = Store::new();
    let alice = store.upsert_person(person("https://lemmy.ml/u/alice", true));
    let c = store.upsert_community(community("https://remote.org/c/rust", false));
    let follow = FollowCommunity::send(&mut store, alice, c, &settings(), "2");
    let accept = AcceptFollowCommunity::new(follow, &settings_on("remote.org"), "2");
    let mut ctx = VerificationContext::new(5);
    accept.receive(&mut store, &mut ctx, NOW).unwrap();
    let after_once = store.followers.rows.clone();
    accept.receive(&mut store, &mut ctx, NOW).unwrap();
    assert_eq!(store.followers.rows, after_once);
    assert!(!store.followers.rows[0].pending);
}

#[test]
fn accept_with_swapped_roles_mismatch_is_rejected() {
    let follow = FollowCommunity {
        actor: "https://lemmy.ml/u/alice".to_string(),
        to: "https://remote.org/c/rust".to_string(),
        object: "https://remote.org/c/rust".to_string(),
        id: "https://lemmy.ml/activities/follow/1".to_string(),
    };
    let mut accept = AcceptFollowCommunity::new(follow, &settings_on("remote.org"), "1");
    accept.to = "https://lemmy.ml/u/mallory".to_string();
    assert_eq!(accept.verify(&settings()).unwrap_err(), ApubError::ProtocolViolation);
}

/// A store where `mod` moderates the community and `target` follows it.
fn store_for_block() -> (Store, usize, usize, usize) {
    let mut store = Store::new();
    let m = store.upsert_person(person("https://remote.org/u/mod", false));
    let t = store.upsert_person(person("https://other.net/u/troll", false));
    let c = store.upsert_community(community("https://remote.org/c/rust", false));
    store.add_moderator(c as u64, m as u64);
    store.followers.follow(c as u64, t as u64, false);
    (store, m, t, c)
}

#[test]
fn block_bans_and_unfollows_and_replay_changes_nothing() {
    let (mut store, m, t, c) = store_for_block();
    let block = BlockUserFromCommunity::new(
        &store.communities[c],
        &store.persons[t],
        &store.persons[m],
        &settings_on("remote.org"),
        "1",
    );
    assert_eq!(block.id, "https://remote.org/activities/block/1");
    let mut ctx = VerificationContext::new(5);
    assert!(matches!(block.verify(&store, &mut ctx, &settings(), NOW), Ok(Resolution::Ready(()))));
    assert!(matches!(block.receive(&mut store, &mut ctx, NOW), Ok(Resolution::Ready(()))));
    assert!(store.bans.contains(c as u64, t as u64));
    assert!(!store.followers.contains(c as u64, t as u64));
    let bans = store.bans.rows.clone();
    let follows = store.followers.rows.clone();

    assert!(matches!(block.receive(&mut store, &mut ctx, NOW), Ok(Resolution::Ready(()))));
    assert_eq!(store.bans.rows, bans);
    assert_eq!(store.followers.rows, follows);
    assert_eq!(store.bans.rows.len(), 1);
}

#[test]
fn block_from_non_moderator_is_forbidden() {
    let (store, _m, t, c) = store_for_block();
    let block = BlockUserFromCommunity::new(
        &store.communities[c],
        &store.persons[t],
        &store.persons[t],
        &settings_on("other.net"),
        "1",
    );
    let mut ctx = VerificationContext::new(5);
    assert_eq!(block.verify(&store, &mut ctx, &settings(), NOW).unwrap_err(), ApubError::Forbidden);
}

#[test]
fn block_send_goes_to_target_and_followers_once_each() {
    let (mut store, m, t, c) = store_for_block();
    let f = store.upsert_person(person("https://other.net/u/fan", false));
    store.persons[t].shared_inbox_url = Some("https://other.net/inbox".to_string());
    store.persons[f].shared_inbox_url = Some("https://other.net/inbox".to_string());
    store.followers.follow(c as u64, f as u64, false);
    let (block, inboxes) = BlockUserFromCommunity::send(&store, c, t, m, &settings_on("remote.org"), "2");
    assert_eq!(block.object, "https://other.net/u/troll");
    assert_eq!(inboxes, vec!["https://other.net/inbox".to_string()]);
}

#[test]
fn fan_out_skips_pending_and_local_followers() {
    let mut store = Store::new();
    let c = store.upsert_community(community("https://lemmy.ml/c/rust", true));
    let a = store.upsert_person(person("https://a.org/u/a", false));
    let b = store.upsert_person(person("https://b.org/u/b", false));
    let l = store.upsert_person(person("https://lemmy.ml/u/l", true));
    store.followers.follow(c as u64, a as u64, false);
    store.followers.follow(c as u64, b as u64, true);
    store.followers.follow(c as u64, l as u64, false);
    let inboxes = send_to_community(&store, c, vec!["https://x.org/inbox".to_string(), "https://x.org/inbox".to_string()]);
    assert_eq!(inboxes, vec!["https://x.org/inbox".to_string(), "https://a.org/u/a/inbox".to_string()]);
}

fn new_group() -> Group {
    Group {
        id: "https://remote.org/c/rust".to_string(),
        preferred_username: "rust".to_string(),
        name: "Rust, renamed".to_string(),
        summary: Some("<p>new</p>".to_string()),
        source: Some("new".to_string()),
        sensitive: true,
        icon: Some("https://remote.org/pictrs/icon.png".to_string()),
        image: None,
        inbox: "https://remote.org/c/rust/inbox".to_string(),
        shared_inbox: None,
    }
}

#[test]
fn update_community_from_stranger_is_forbidden() {
    let mut store = Store::new();
    let creator = store.upsert_person(person("https://remote.org/u/creator", false));
    store.upsert_person(person("https://remote.org/u/stranger", false));
    let c = store.upsert_community(community("https://remote.org/c/rust", false));
    store.add_moderator(c as u64, creator as u64);
    let update = UpdateCommunity {
        actor: "https://remote.org/u/stranger".to_string(),
        to: "https://www.w3.org/ns/activitystreams#Public".to_string(),
        object: new_group(),
        cc: "https://remote.org/c/rust".to_string(),
        id: "https://remote.org/activities/update/1".to_string(),
    };
    let mut ctx = VerificationContext::new(5);
    assert_eq!(update.verify(&store, &mut ctx, &settings(), NOW).unwrap_err(), ApubError::Forbidden);
}

#[test]
fn update_community_from_creator_changes_descriptive_fields_only() {
    let mut store = Store::new();
    let creator = store.upsert_person(person("https://remote.org/u/creator", false));
    let c = store.upsert_community(community("https://remote.org/c/rust", false));
    store.add_moderator(c as u64, creator as u64);
    let update = UpdateCommunity {
        actor: "https://remote.org/u/creator".to_string(),
        to: "https://www.w3.org/ns/activitystreams#Public".to_string(),
        object: new_group(),
        cc: "https://remote.org/c/rust".to_string(),
        id: "https://remote.org/activities/update/2".to_string(),
    };
    let mut ctx = VerificationContext::new(5);
    assert!(matches!(update.verify(&store, &mut ctx, &settings(), NOW), Ok(Resolution::Ready(()))));
    assert!(matches!(update.receive(&mut store, &mut ctx, &settings()), Ok(Resolution::Ready(()))));
    let row = &store.communities[c];
    assert_eq!(row.title, "Rust, renamed");
    assert_eq!(row.description, Some("new".to_string()));
    assert!(row.nsfw);
    assert_eq!(row.icon, Some("https://remote.org/pictrs/icon.png".to_string()));
    assert_eq!(row.actor_id, "https://remote.org/c/rust");
    assert_eq!(row.inbox_url, "https://remote.org/c/rust/inbox");
    assert!(!row.local);
}

#[test]
fn update_community_from_other_domain_is_a_protocol_violation() {
    let mut store = Store::new();
    store.upsert_community(community("https://remote.org/c/rust", false));
    let mut group = new_group();
    group.id = "https://evil.org/c/rust".to_string();
    let update = UpdateCommunity {
        actor: "https://remote.org/u/creator".to_string(),
        to: "https://www.w3.org/ns/activitystreams#Public".to_string(),
        object: group,
        cc: "https://remote.org/c/rust".to_string(),
        id: "https://remote.org/activities/update/3".to_string(),
    };
    let mut ctx = VerificationContext::new(5);
    assert_eq!(update.receive(&mut store, &mut ctx, &settings()).unwrap_err(), ApubError::ProtocolViolation);
    assert_eq!(store.communities[0].title, "Rust");
}

#[test]
fn comment_on_unknown_post_fetches_it_first() {
    let mut store = Store::new();
    store.upsert_person(person("https://remote.org/u/bob", false));
    store.upsert_community(community("https://remote.org/c/rust", false));
    let n = note(
        "https://remote.org/comment/1",
        "https://remote.org/u/bob",
        CommentInReplyToMigration::New("https://remote.org/post/1".to_string()),
    );
    let expected = "https://remote.org/comment/1".to_string();
    let mut ctx = VerificationContext::new(3);
    let r = ApubComment::from_apub(&n, &mut store, &mut ctx, &settings(), &expected, NOW).unwrap();
    match r {
        Resolution::Fetch(u) => assert_eq!(u, "https://remote.org/post/1"),
        Resolution::Ready(_) => panic!("the post is not stored"),
    }
    assert_eq!(ctx.remaining, 2);
    assert!(store.comments.is_empty());

    let page = Page {
        id: "https://remote.org/post/1".to_string(),
        attributed_to: "https://remote.org/u/bob".to_string(),
        to: "https://remote.org/c/rust".to_string(),
        name: "A post".to_string(),
        comments_enabled: Some(true),
    };
    let post_domain = "https://remote.org/post/1".to_string();
    let got = resolve_fetched(Some(PageOrNote::Page(page)), &mut store, &mut ctx, &settings(), &post_domain, NOW).unwrap();
    assert!(matches!(got, Resolution::Ready(PostOrComment::Post(0))));
    let r = ApubComment::from_apub(&n, &mut store, &mut ctx, &settings(), &expected, NOW).unwrap();
    assert!(matches!(r, Resolution::Ready(0)));
    assert_eq!(store.comments[0].post_id, 0);
    assert_eq!(store.comments[0].parent_id, None);
    assert_eq!(store.comments[0].content, "hello");
    assert!(!store.comments[0].local);
    assert_eq!(ctx.remaining, 2);
}

#[test]
fn failed_fetch_of_post_leaves_comment_unstored() {
    let mut store = Store::new();
    store.upsert_person(person("https://remote.org/u/bob", false));
    let n = note(
        "https://remote.org/comment/1",
        "https://remote.org/u/bob",
        CommentInReplyToMigration::New("https://remote.org/post/1".to_string()),
    );
    let expected = "https://remote.org/comment/1".to_string();
    let mut ctx = VerificationContext::new(3);
    let r = ApubComment::from_apub(&n, &mut store, &mut ctx, &settings(), &expected, NOW).unwrap();
    assert!(matches!(r, Resolution::Fetch(_)));
    let failed = resolve_fetched(None, &mut store, &mut ctx, &settings(), &expected, NOW);
    assert_eq!(failed.unwrap_err(), ApubError::NotFound);
    assert!(store.comments.is_empty());
    assert!(store.posts.is_empty());
}

#[test]
fn legacy_chain_and_reply_pointer_give_the_same_parents() {
    let mut store = store_with_post(false);
    let parent = ApubComment {
        ap_id: "https://remote.org/comment/7".to_string(),
        creator_id: 0,
        post_id: 0,
        parent_id: None,
        content: "parent".to_string(),
        published: None,
        updated: None,
        local: false,
        deleted: false,
    };
    store.upsert_comment(parent).unwrap();
    let legacy = note(
        "https://remote.org/comment/8",
        "https://remote.org/u/bob",
        CommentInReplyToMigration::Old(vec![
            "https://remote.org/post/1".to_string(),
            "https://remote.org/comment/7".to_string(),
        ]),
    );
    let current = note(
        "https://remote.org/comment/9",
        "https://remote.org/u/bob",
        CommentInReplyToMigration::New("https://remote.org/comment/7".to_string()),
    );
    let mut ctx = VerificationContext::new(0);
    let a = legacy.get_parents(&store, &mut ctx).unwrap();
    let b = current.get_parents(&store, &mut ctx).unwrap();
    assert_eq!(a, Resolution::Ready((0, Some(0))));
    assert_eq!(b, Resolution::Ready((0, Some(0))));
}

#[test]
fn legacy_chain_and_pointer_to_post_give_no_parent_comment() {
    let store = store_with_post(false);
    let legacy = note("https://remote.org/comment/8", "https://remote.org/u/bob",
        CommentInReplyToMigration::Old(vec!["https://remote.org/post/1".to_string()]));
    let current = note("https://remote.org/comment/9", "https://remote.org/u/bob",
        CommentInReplyToMigration::New("https://remote.org/post/1".to_string()));
    let mut ctx = VerificationContext::new(0);
    assert_eq!(legacy.get_parents(&store, &mut ctx).unwrap(), Resolution::Ready((0, None)));
    assert_eq!(current.get_parents(&store, &mut ctx).unwrap(), Resolution::Ready((0, None)));
}

#[test]
fn empty_legacy_chain_is_a_protocol_violation() {
    let store = store_with_post(false);
    let n = note("https://remote.org/comment/8", "https://remote.org/u/bob", CommentInReplyToMigration::Old(vec![]));
    let mut ctx = VerificationContext::new(2);
    assert_eq!(n.get_parents(&store, &mut ctx).unwrap_err(), ApubError::ProtocolViolation);
}

#[test]
fn chain_deeper_than_budget_exceeds_it_after_budget_fetches() {
    let store = Store::new();
    let mut ctx = VerificationContext::new(2);
    let mut fetches = 0;
    let mut outcome = Ok(());
    for depth in 0..5 {
        let url = format!("https://remote.org/c/{}", depth);
        match dereference_community(&store, &mut ctx, &url) {
            Ok(Resolution::Fetch(u)) => {
                assert_eq!(u, url);
                fetches += 1;
            }
            Ok(Resolution::Ready(_)) => panic!("nothing is stored"),
            Err(e) => {
                outcome = Err(e);
                break;
            }
        }
    }
    assert_eq!(outcome, Err(ApubError::FetchBudgetExceeded));
    assert_eq!(fetches, 2);
    assert_eq!(ctx.remaining, 0);
}

#[test]
fn stale_remote_person_is_fetched_again() {
    let mut store = Store::new();
    let mut p = person("https://remote.org/u/old", false);
    p.last_refreshed_at = Some(NOW - 2 * 86400);
    store.upsert_person(p);
    store.upsert_person(person("https://lemmy.ml/u/here", true));
    let mut ctx = VerificationContext::new(1);
    let stale = dereference_person(&store, &mut ctx, &"https://remote.org/u/old".to_string(), NOW).unwrap();
    assert_eq!(stale, Resolution::Fetch("https://remote.org/u/old".to_string()));
    let local = dereference_person(&store, &mut ctx, &"https://lemmy.ml/u/here".to_string(), NOW).unwrap();
    assert_eq!(local, Resolution::Ready(1));
}

#[test]
fn comment_on_locked_post_is_a_protocol_violation() {
    let mut store = store_with_post(true);
    let n = note("https://remote.org/comment/1", "https://remote.org/u/bob",
        CommentInReplyToMigration::New("https://remote.org/post/1".to_string()));
    let mut ctx = VerificationContext::new(3);
    let expected = "https://remote.org/comment/1".to_string();
    let r = ApubComment::from_apub(&n, &mut store, &mut ctx, &settings(), &expected, NOW);
    assert_eq!(r.unwrap_err(), ApubError::ProtocolViolation);
    assert!(store.comments.is_empty());
}

#[test]
fn note_from_other_domain_is_a_protocol_violation() {
    let mut store = store_with_post(false);
    let n = note("https://remote.org/comment/1", "https://remote.org/u/bob",
        CommentInReplyToMigration::New("https://remote.org/post/1".to_string()));
    let mut ctx = VerificationContext::new(3);
    let expected = "https://elsewhere.org/comment/1".to_string();
    let r = ApubComment::from_apub(&n, &mut store, &mut ctx, &settings(), &expected, NOW);
    assert_eq!(r.unwrap_err(), ApubError::ProtocolViolation);
}

#[test]
fn note_from_blocked_instance_is_a_validation_error() {
    let mut store = store_with_post(false);
    let n = note("https://remote.org/comment/1", "https://remote.org/u/bob",
        CommentInReplyToMigration::New("https://remote.org/post/1".to_string()));
    let mut ctx = VerificationContext::new(3);
    let mut s = settings();
    s.blocked_instances = vec!["remote.org".to_string()];
    let expected = "https://remote.org/comment/1".to_string();
    let r = ApubComment::from_apub(&n, &mut store, &mut ctx, &s, &expected, NOW);
    assert_eq!(r.unwrap_err(), ApubError::ValidationError);
}

#[test]
fn note_verify_rejects_banned_author() {
    let mut store = store_with_post(false);
    store.bans.ban(0, 0);
    let n = note("https://remote.org/comment/1", "https://remote.org/u/bob",
        CommentInReplyToMigration::New("https://remote.org/post/1".to_string()));
    let mut ctx = VerificationContext::new(3);
    assert_eq!(n.verify(&store, &mut ctx, NOW).unwrap_err(), ApubError::Forbidden);
}

#[test]
fn comment_round_trip_keeps_post_and_parent() {
    let mut store = store_with_post(false);
    let parent = ApubComment {
        ap_id: "https://remote.org/comment/7".to_string(),
        creator_id: 0,
        post_id: 0,
        parent_id: None,
        content: "parent".to_string(),
        published: Some(NOW - 100),
        updated: None,
        local: true,
        deleted: false,
    };
    store.upsert_comment(parent).unwrap();
    let child = ApubComment {
        ap_id: "https://remote.org/comment/8".to_string(),
        creator_id: 0,
        post_id: 0,
        parent_id: Some(0),
        content: "child".to_string(),
        published: Some(NOW - 50),
        updated: Some(NOW - 40),
        local: true,
        deleted: false,
    };
    let i = store.upsert_comment(child).unwrap();
    let n = ApubComment::to_apub(&store, i);
    match &n.in_reply_to {
        CommentInReplyToMigration::New(u) => assert_eq!(u, "https://remote.org/comment/7"),
        CommentInReplyToMigration::Old(_) => panic!("the current shape is sent"),
    }
    let mut ctx = VerificationContext::new(0);
    let expected = "https://remote.org/comment/8".to_string();
    let r = ApubComment::from_apub(&n, &mut store, &mut ctx, &settings(), &expected, NOW).unwrap();
    assert_eq!(r, Resolution::Ready(i));
    let back = &store.comments[i];
    assert_eq!(back.post_id, 0);
    assert_eq!(back.parent_id, Some(0));
    assert_eq!(back.content, "child");
    assert_eq!(back.published, Some(NOW - 50));
    assert_eq!(back.updated, Some(NOW - 40));
}

#[test]
fn person_round_trip_keeps_profile() {
    let mut p = person("https://remote.org/u/picard", false);
    p.display_name = Some("Jean-Luc Picard".to_string());
    p.bio = Some("Captain of the USS Enterprise.".to_string());
    p.avatar = Some("https://remote.org/pictrs/avatar.png".to_string());
    p.shared_inbox_url = Some("https://remote.org/inbox".to_string());
    p.bot_account = true;
    let wire: Person = p.to_apub().unwrap();
    assert_eq!(wire.kind, UserTypes::Service);
    assert_eq!(wire.outbox, "https://remote.org/u/picard/outbox");
    assert_eq!(wire.summary, Some("<p>Captain of the USS Enterprise.</p>\n".to_string()));
    assert_eq!(wire.source, Some("Captain of the USS Enterprise.".to_string()));
    let mut store = Store::new();
    let expected = "https://remote.org/u/picard".to_string();
    let i = ApubPerson::from_apub(&wire, &mut store, &settings(), &expected, NOW).unwrap();
    let back = &store.persons[i];
    assert_eq!(back.actor_id, p.actor_id);
    assert_eq!(back.display_name, p.display_name);
    assert_eq!(back.bio, p.bio);
    assert_eq!(back.avatar, p.avatar);
    assert_eq!(back.shared_inbox_url, p.shared_inbox_url);
    assert_eq!(back.public_key, p.public_key);
    assert!(back.bot_account);
    assert!(!back.local);
    assert_eq!(back.last_refreshed_at, Some(NOW));
}

#[test]
fn person_summary_falls_back_when_source_is_absent() {
    let wire = Person {
        kind: UserTypes::Person,
        id: "https://queer.hacktivis.me/users/lanodan".to_string(),
        preferred_username: "lanodan".to_string(),
        name: None,
        summary: Some("plain summary".to_string()),
        source: None,
        icon: None,
        image: None,
        matrix_user_id: None,
        inbox: "https://queer.hacktivis.me/users/lanodan/inbox".to_string(),
        outbox: "https://queer.hacktivis.me/users/lanodan/outbox".to_string(),
        shared_inbox: None,
        public_key_pem: "KEY".to_string(),
        published: None,
        updated: None,
    };
    let mut store = Store::new();
    let expected = "https://queer.hacktivis.me/users/lanodan".to_string();
    let i = ApubPerson::from_apub(&wire, &mut store, &settings(), &expected, NOW).unwrap();
    assert_eq!(store.persons[i].name, "lanodan");
    assert_eq!(store.persons[i].bio, Some("plain summary".to_string()));
    assert!(store.persons[i].public_key.is_some());
}

#[test]
fn person_without_public_key_cannot_be_sent() {
    let mut p = person("https://lemmy.ml/u/nokey", true);
    p.public_key = None;
    assert_eq!(p.to_apub().unwrap_err(), ApubError::ValidationError);
}

#[test]
fn domains_are_compared_by_host() {
    let a = "https://lemmy.ml/u/a".to_string();
    assert!(verify_domains_match(&a, &"https://lemmy.ml/post/3".to_string()).is_ok());
    assert_eq!(verify_domains_match(&a, &"https://lemmy.ca/u/a".to_string()), Err(ApubError::ProtocolViolation));
    assert_eq!(verify_domains_match(&"not a url".to_string(), &"not a url".to_string()), Err(ApubError::ProtocolViolation));
    assert!(verify_urls_match(&a, &a.clone()).is_ok());
    assert!(verify_urls_match(&a, &"https://lemmy.ml/u/b".to_string()).is_err());
}

#[test]
fn federation_policy_decides_validity() {
    let mut s = settings();
    assert!(check_is_apub_id_valid(&"https://lemmy.ml/u/a".to_string(), &s).is_ok());
    assert!(check_is_apub_id_valid(&"https://b.org/u/a".to_string(), &s).is_ok());
    s.allowed_instances = vec!["c.org".to_string()];
    assert_eq!(check_is_apub_id_valid(&"https://b.org/u/a".to_string(), &s), Err(ApubError::ValidationError));
    assert!(check_is_apub_id_valid(&"https://c.org/u/a".to_string(), &s).is_ok());
    s.federation_enabled = false;
    assert_eq!(check_is_apub_id_valid(&"https://c.org/u/a".to_string(), &s), Err(ApubError::ValidationError));
    assert!(check_is_apub_id_valid(&"https://lemmy.ml/u/a".to_string(), &s).is_ok());
}

#[test]
fn undo_delete_restores_the_message() {
    let mut store = Store::new();
    let a = store.upsert_person(person("https://remote.org/u/a", false));
    let b = store.upsert_person(person("https://lemmy.ml/u/b", true));
    store.upsert_private_message(PrivateMessage {
        ap_id: "https://remote.org/private_message/1".to_string(),
        creator_id: a as u64,
        recipient_id: b as u64,
        content: "hi".to_string(),
        deleted: true,
        local: false,
    });
    let (undo, inbox) = UndoDeletePrivateMessage::send(&store, 0, &settings_on("remote.org"), "d1", "u1");
    assert_eq!(undo.id, "https://remote.org/activities/undo/u1");
    assert_eq!(undo.object.id, "https://remote.org/activities/delete/d1");
    assert_eq!(inbox, "https://lemmy.ml/u/b/inbox");
    let mut ctx = VerificationContext::new(2);
    assert!(matches!(undo.verify(&store, &mut ctx, &settings(), NOW), Ok(Resolution::Ready(()))));
    undo.receive(&mut store).unwrap();
    assert!(!store.private_messages[0].deleted);
    assert_eq!(store.private_messages[0].content, "hi");
}

#[test]
fn undo_delete_of_unknown_message_is_not_found() {
    let mut store = Store::new();
    let undo = UndoDeletePrivateMessage {
        actor: "https://remote.org/u/a".to_string(),
        to: "https://lemmy.ml/u/b".to_string(),
        object: DeletePrivateMessage {
            actor: "https://remote.org/u/a".to_string(),
            to: "https://lemmy.ml/u/b".to_string(),
            object: "https://remote.org/private_message/9".to_string(),
            id: "https://remote.org/activities/delete/9".to_string(),
        },
        id: "https://remote.org/activities/undo/9".to_string(),
    };
    assert_eq!(undo.receive(&mut store), Err(ApubError::NotFound));
}

#[test]
fn undo_delete_by_another_actor_is_rejected() {
    let mut store = Store::new();
    store.upsert_person(person("https://remote.org/u/a", false));
    let undo = UndoDeletePrivateMessage {
        actor: "https://remote.org/u/a".to_string(),
        to: "https://lemmy.ml/u/b".to_string(),
        object: DeletePrivateMessage {
            actor: "https://remote.org/u/z".to_string(),
            to: "https://lemmy.ml/u/b".to_string(),
            object: "https://remote.org/private_message/9".to_string(),
            id: "https://remote.org/activities/delete/9".to_string(),
        },
        id: "https://remote.org/activities/undo/9".to_string(),
    };
    let mut ctx = VerificationContext::new(2);
    assert_eq!(undo.verify(&store, &mut ctx, &settings(), NOW).unwrap_err(), ApubError::ProtocolViolation);
}

#[test]
fn post_with_comments_disabled_is_locked() {
    let mut store = Store::new();
    store.upsert_person(person("https://remote.org/u/bob", false));
    store.upsert_community(community("https://remote.org/c/rust", false));
    let page = Page {
        id: "https://remote.org/post/5".to_string(),
        attributed_to: "https://remote.org/u/bob".to_string(),
        to: "https://remote.org/c/rust".to_string(),
        name: "Locked".to_string(),
        comments_enabled: Some(false),
    };
    let mut ctx = VerificationContext::new(1);
    let r = post_from_apub(&page, &mut store, &mut ctx, &settings(), &"https://remote.org/".to_string(), NOW).unwrap();
    assert_eq!(r, Resolution::Ready(0));
    assert!(store.posts[0].locked);
    assert_eq!(PostOrComment::read_from_apub_id(&store, &"https://remote.org/post/5".to_string()), Some(PostOrComment::Post(0)));
    PostOrComment::Post(0).delete(&mut store);
    assert!(store.posts[0].deleted);
}

#[test]
fn comment_tombstone_needs_deletion() {
    let mut c = ApubComment {
        ap_id: "https://lemmy.ml/comment/1".to_string(),
        creator_id: 0,
        post_id: 0,
        parent_id: None,
        content: "x".to_string(),
        published: None,
        updated: Some(NOW),
        local: true,
        deleted: false,
    };
    assert_eq!(c.to_tombstone().unwrap_err(), ApubError::ProtocolViolation);
    c.deleted = true;
    let t = c.to_tombstone().unwrap();
    assert_eq!(t.id, "https://lemmy.ml/comment/1");
    assert_eq!(t.deleted, Some(NOW));
}

#[test]
fn person_with_disallowed_name_is_rejected() {
    let mut p = person("https://remote.org/u/x", false);
    p.name = "BadWord_fan".to_string();
    let wire = p.to_apub().unwrap();
    let mut s = settings();
    s.slur_filter = Some("badword".to_string());
    let mut store = Store::new();
    let expected = "https://remote.org/u/x".to_string();
    assert_eq!(ApubPerson::from_apub(&wire, &mut store, &s, &expected, NOW), Err(ApubError::ValidationError));
    assert!(store.persons.is_empty());
    s.slur_filter = Some("nothing-like-it".to_string());
    assert!(ApubPerson::from_apub(&wire, &mut store, &s, &expected, NOW).is_ok());
}

#[test]
fn comment_with_disallowed_terms_is_rejected() {
    let mut store = store_with_post(false);
    let mut n = note("https://remote.org/comment/1", "https://remote.org/u/bob",
        CommentInReplyToMigration::New("https://remote.org/post/1".to_string()));
    n.source = "you are a BADWORD, really".to_string();
    let mut s = settings();
    s.slur_filter = Some("badword".to_string());
    let mut ctx = VerificationContext::new(1);
    let expected = "https://remote.org/comment/1".to_string();
    let r = ApubComment::from_apub(&n, &mut store, &mut ctx, &s, &expected, NOW);
    assert_eq!(r, Err(ApubError::ValidationError));
    assert!(store.comments.is_empty());
    assert_eq!(ctx.remaining, 1);
    s.slur_filter = Some("(unclosed".to_string());
    n.source = "harmless".to_string();
    assert_eq!(ApubComment::from_apub(&n, &mut store, &mut ctx, &s, &expected, NOW), Err(ApubError::ValidationError));
}

#[test]
fn update_with_disallowed_title_is_rejected() {
    let mut store = Store::new();
    let c = store.upsert_community(community("https://remote.org/c/rust", false));
    let mut group = new_group();
    group.name = "Rust badword".to_string();
    let update = UpdateCommunity {
        actor: "https://remote.org/c/rust".to_string(),
        to: "https://www.w3.org/ns/activitystreams#Public".to_string(),
        object: group,
        cc: "https://remote.org/c/rust".to_string(),
        id: "https://remote.org/activities/update/5".to_string(),
    };
    let mut s = settings();
    s.slur_filter = Some("badword".to_string());
    let mut ctx = VerificationContext::new(1);
    assert_eq!(update.receive(&mut store, &mut ctx, &s).unwrap_err(), ApubError::ValidationError);
    assert_eq!(store.communities[c].title, "Rust");
}

#[test]
fn community_may_update_itself() {
    let mut store = Store::new();
    store.upsert_community(community("https://remote.org/c/rust", false));
    let update = UpdateCommunity {
        actor: "https://remote.org/c/rust".to_string(),
        to: "https://www.w3.org/ns/activitystreams#Public".to_string(),
        object: new_group(),
        cc: "https://remote.org/c/rust".to_string(),
        id: "https://remote.org/activities/update/6".to_string(),
    };
    let mut ctx = VerificationContext::new(0);
    assert_eq!(update.verify(&store, &mut ctx, &settings(), NOW), Ok(Resolution::Ready(())));
}

#[test]
fn block_of_unknown_community_asks_for_a_fetch() {
    let mut store = Store::new();
    store.upsert_person(person("https://other.net/u/troll", false));
    let block = BlockUserFromCommunity {
        actor: "https://remote.org/u/mod".to_string(),
        to: "https://www.w3.org/ns/activitystreams#Public".to_string(),
        object: "https://other.net/u/troll".to_string(),
        cc: "https://remote.org/c/rust".to_string(),
        id: "https://remote.org/activities/block/3".to_string(),
    };
    let mut ctx = VerificationContext::new(0);
    assert_eq!(block.receive(&mut store, &mut ctx, NOW), Err(ApubError::FetchBudgetExceeded));
    assert!(store.bans.rows.is_empty());
}

#[test]
fn update_community_replay_changes_nothing_more() {
    let mut store = Store::new();
    let creator = store.upsert_person(person("https://remote.org/u/creator", false));
    let c = store.upsert_community(community("https://remote.org/c/rust", false));
    store.add_moderator(c as u64, creator as u64);
    let update = UpdateCommunity {
        actor: "https://remote.org/u/creator".to_string(),
        to: "https://www.w3.org/ns/activitystreams#Public".to_string(),
        object: new_group(),
        cc: "https://remote.org/c/rust".to_string(),
        id: "https://remote.org/activities/update/4".to_string(),
    };
    let mut ctx = VerificationContext::new(5);
    update.receive(&mut store, &mut ctx, &settings()).unwrap();
    let once = (store.communities[c].title.clone(), store.communities[c].description.clone(), store.communities[c].nsfw);
    update.receive(&mut store, &mut ctx, &settings()).unwrap();
    let twice = (store.communities[c].title.clone(), store.communities[c].description.clone(), store.communities[c].nsfw);
    assert_eq!(once, twice);
    assert_eq!(store.communities.len(), 1);
}

#[test]
fn update_community_send_reaches_remote_followers() {
    let mut store = Store::new();
    let creator = store.upsert_person(person("https://lemmy.ml/u/creator", true));
    let f = store.upsert_person(person("https://far.org/u/f", false));
    let c = store.upsert_community(community("https://lemmy.ml/c/rust", true));
    store.followers.follow(c as u64, f as u64, false);
    let (update, inboxes) = UpdateCommunity::send(&store, c, creator, &settings(), "1");
    assert_eq!(update.id, "https://lemmy.ml/activities/update/1");
    assert_eq!(update.object.summary, Some("about rust".to_string()));
    assert_eq!(update.object.source, Some("about rust".to_string()));
    assert_eq!(update.object.inbox, "https://lemmy.ml/c/rust/inbox");
    assert_eq!(update.object.name, "Rust");
    assert_eq!(update.cc, "https://lemmy.ml/c/rust");
    assert_eq!(inboxes, vec!["https://far.org/u/f/inbox".to_string()]);
}

#[test]
fn accept_send_needs_local_community() {
    let mut store = Store::new();
    store.upsert_person(person("https://far.org/u/f", false));
    store.upsert_community(community("https://lemmy.ml/c/rust", true));
    store.upsert_community(community("https://other.org/c/go", false));
    let follow = FollowCommunity {
        actor: "https://far.org/u/f".to_string(),
        to: "https://lemmy.ml/c/rust".to_string(),
        object: "https://lemmy.ml/c/rust".to_string(),
        id: "https://far.org/activities/follow/1".to_string(),
    };
    let mut ctx = VerificationContext::new(1);
    let (accept, inbox) = match AcceptFollowCommunity::send(follow.clone(), &store, &mut ctx, &settings(), "1", NOW).unwrap() {
        Resolution::Ready(x) => x,
        Resolution::Fetch(_) => panic!("the follower is stored"),
    };
    assert_eq!(accept.actor, "https://lemmy.ml/c/rust");
    assert_eq!(accept.to, "https://far.org/u/f");
    assert_eq!(inbox, "https://far.org/u/f/inbox");
    let mut remote = follow;
    remote.object = "https://other.org/c/go".to_string();
    assert_eq!(AcceptFollowCommunity::send(remote, &store, &mut ctx, &settings(), "2", NOW).unwrap_err(), ApubError::NotFound);
    let mut unknown = accept.object.clone();
    unknown.actor = "https://far.org/u/new".to_string();
    let r = AcceptFollowCommunity::send(unknown, &store, &mut ctx, &settings(), "3", NOW).unwrap();
    assert!(matches!(r, Resolution::Fetch(ref u) if u == "https://far.org/u/new"));
    assert_eq!(ctx.remaining, 0);
}

#[test]
fn community_decodes_and_checks_its_texts() {
    let mut store = Store::new();
    let expected = "https://remote.org/c/rust".to_string();
    let i = community_from_apub(&new_group(), &mut store, &settings(), &expected).unwrap();
    assert_eq!(store.communities[i].title, "Rust, renamed");
    assert_eq!(store.communities[i].description, Some("new".to_string()));
    assert!(!store.communities[i].local);
    let mut bad = new_group();
    bad.preferred_username = "BadWord".to_string();
    let mut s = settings();
    s.slur_filter = Some("badword".to_string());
    assert_eq!(community_from_apub(&bad, &mut store, &s, &expected), Err(ApubError::ValidationError));
    assert_eq!(community_from_apub(&new_group(), &mut store, &settings(), &"https://x.org/".to_string()), Err(ApubError::ProtocolViolation));
    assert_eq!(store.communities.len(), 1);
}

#[test]
fn comment_replay_keeps_one_row() {
    let mut store = store_with_post(false);
    let n = note("https://remote.org/comment/1", "https://remote.org/u/bob",
        CommentInReplyToMigration::New("https://remote.org/post/1".to_string()));
    let expected = "https://remote.org/comment/1".to_string();
    let mut ctx = VerificationContext::new(1);
    let first = ApubComment::from_apub(&n, &mut store, &mut ctx, &settings(), &expected, NOW).unwrap();
    let second = ApubComment::from_apub(&n, &mut store, &mut ctx, &settings(), &expected, NOW).unwrap();
    assert_eq!(first, second);
    assert_eq!(store.comments.len(), 1);
    assert_eq!(ctx.remaining, 1);
}
