use crate::comment::ApubComment;
use crate::error::ApubError;
use crate::person::ApubPerson;
use crate::relations::{BanTable, FollowerTable};
use vstd::prelude::*;

verus! {

/// A community as this instance stores it; its moderators are in the store's
/// moderator table.
#[derive(Clone, Debug)]
pub struct Community {
    pub actor_id: String,
    pub name: String,
    pub title: String,
    pub description: Option<String>,
    pub nsfw: bool,
    pub icon: Option<String>,
    pub banner: Option<String>,
    pub inbox_url: String,
    pub shared_inbox_url: Option<String>,
    pub local: bool,
    pub deleted: bool,
}

/// A post; `community_id` and `creator_id` are row numbers in the store.
#[derive(Clone, Debug)]
pub struct Post {
    pub ap_id: String,
    pub name: String,
    pub creator_id: u64,
    pub community_id: u64,
    pub locked: bool,
    pub deleted: bool,
    pub local: bool,
}

/// A private message between two people, by row number.
#[derive(Clone, Debug)]
pub struct PrivateMessage {
    pub ap_id: String,
    pub creator_id: u64,
    pub recipient_id: u64,
    pub content: String,
    pub deleted: bool,
    pub local: bool,
}

/// A moderator of a community, by row numbers.
#[derive(Clone, Copy, Debug, PartialEq, Eq, Structural)]
pub struct CommunityModerator {
    pub community_id: u64,
    pub person_id: u64,
}

/// Which table of the store an operation writes.
#[derive(Clone, Copy, Debug, PartialEq, Eq, Structural)]
pub enum Table {
    Persons,
    Communities,
    Posts,
    Comments,
    PrivateMessages,
    Followers,
    Bans,
    Moderators,
}

/// A copy of an optional text.
pub fn copy_text(o: &Option<String>) -> (r: Option<String>)
    ensures
        r == *o,
{
    match o {
        Some(t) => Some(t.clone()),
        None => None,
    }
}

pub open spec fn unique_keys(keys: Seq<Seq<char>>) -> bool {
    forall|i: int, j: int| 0 <= i < keys.len() && 0 <= j < keys.len() && i != j ==> keys[i] != keys[j]
}

/// The row that holds identifier `k`, if any.
pub open spec fn key_index(keys: Seq<Seq<char>>, k: Seq<char>) -> Option<int> {
    if exists|i: int| 0 <= i < keys.len() && keys[i] == k {
        Some(choose|i: int| 0 <= i < keys.len() && keys[i] == k)
    } else {
        None
    }
}

pub open spec fn opt_int(o: Option<usize>) -> Option<int> {
    match o {
        Some(i) => Some(i as int),
        None => None,
    }
}

pub proof fn lemma_key_index(keys: Seq<Seq<char>>, k: Seq<char>, i: int)
    requires
        unique_keys(keys),
        0 <= i < keys.len(),
        keys[i] == k,
    ensures
        key_index(keys, k) == Some(i),
{
}

pub open spec fn has_moderator(rows: Seq<CommunityModerator>, community_id: u64, person_id: u64) -> bool {
    rows.contains(CommunityModerator { community_id, person_id })
}

/// The local copy of every entity and relation this instance knows of.
pub struct Store {
    pub persons: Vec<ApubPerson>,
    pub communities: Vec<Community>,
    pub posts: Vec<Post>,
    pub comments: Vec<ApubComment>,
    pub private_messages: Vec<PrivateMessage>,
    pub followers: FollowerTable,
    pub bans: BanTable,
    pub moderators: Vec<CommunityModerator>,
}

impl Store {
    /// Every table's row count fits in `usize`.
    pub proof fn lemma_lengths_fit(&self)
        ensures
            self.persons@.len() <= usize::MAX,
            self.communities@.len() <= usize::MAX,
            self.posts@.len() <= usize::MAX,
            self.comments@.len() <= usize::MAX,
            self.private_messages@.len() <= usize::MAX,
    {
        assert(self.persons@.len() == self.persons.len());
        assert(self.communities@.len() == self.communities.len());
        assert(self.posts@.len() == self.posts.len());
        assert(self.comments@.len() == self.comments.len());
        assert(self.private_messages@.len() == self.private_messages.len());
    }

    pub open spec fn person_keys(&self) -> Seq<Seq<char>> {
        self.persons@.map_values(|p: ApubPerson| p.actor_id@)
    }

    pub open spec fn community_keys(&self) -> Seq<Seq<char>> {
        self.communities@.map_values(|c: Community| c.actor_id@)
    }

    pub open spec fn post_keys(&self) -> Seq<Seq<char>> {
        self.posts@.map_values(|p: Post| p.ap_id@)
    }

    pub open spec fn comment_keys(&self) -> Seq<Seq<char>> {
        self.comments@.map_values(|c: ApubComment| c.ap_id@)
    }

    pub open spec fn message_keys(&self) -> Seq<Seq<char>> {
        self.private_messages@.map_values(|m: PrivateMessage| m.ap_id@)
    }

    /// Identifiers are unique, no post shares one with a comment, and every row
    /// number that a row holds names an existing row.
    pub open spec fn wf(&self) -> bool {
        &&& unique_keys(self.person_keys())
        &&& unique_keys(self.community_keys())
        &&& unique_keys(self.post_keys())
        &&& unique_keys(self.comment_keys())
        &&& unique_keys(self.message_keys())
        &&& forall|i: int, j: int|
            0 <= i < self.posts@.len() && 0 <= j < self.comments@.len() ==> (#[trigger] self.posts@[i]).ap_id@
                != (#[trigger] self.comments@[j]).ap_id@
        &&& forall|i: int|
            0 <= i < self.posts@.len() ==> (#[trigger] self.posts@[i]).community_id < self.communities@.len()
                && self.posts@[i].creator_id < self.persons@.len()
        &&& forall|i: int|
            0 <= i < self.comments@.len() ==> self.comment_row_wf(#[trigger] self.comments@[i])
        &&& forall|i: int|
            0 <= i < self.private_messages@.len() ==> (#[trigger] self.private_messages@[i]).creator_id
                < self.persons@.len() && self.private_messages@[i].recipient_id < self.persons@.len()
    }

    pub open spec fn comment_row_wf(&self, c: ApubComment) -> bool {
        &&& c.post_id < self.posts@.len()
        &&& c.creator_id < self.persons@.len()
        &&& c.parent_id matches Some(p) ==> p < self.comments@.len()
    }

    /// The two stores agree on every table but `t`.
    pub open spec fn agrees_outside(&self, other: &Store, t: Table) -> bool {
        &&& t != Table::Persons ==> self.persons@ == other.persons@
        &&& t != Table::Communities ==> self.communities@ == other.communities@
        &&& t != Table::Posts ==> self.posts@ == other.posts@
        &&& t != Table::Comments ==> self.comments@ == other.comments@
        &&& t != Table::PrivateMessages ==> self.private_messages@ == other.private_messages@
        &&& t != Table::Followers ==> self.followers@ == other.followers@
        &&& t != Table::Bans ==> self.bans@ == other.bans@
        &&& t != Table::Moderators ==> self.moderators@ == other.moderators@
    }

    /// The two stores hold the same entities and moderators; relations may differ.
    pub open spec fn same_entities(&self, other: &Store) -> bool {
        &&& self.persons@ == other.persons@
        &&& self.communities@ == other.communities@
        &&& self.posts@ == other.posts@
        &&& self.comments@ == other.comments@
        &&& self.private_messages@ == other.private_messages@
        &&& self.moderators@ == other.moderators@
    }

    /// Every table is the same.
    pub open spec fn same_state(&self, other: &Store) -> bool {
        self.agrees_outside(other, Table::Persons) && self.persons@ == other.persons@
    }

    pub fn new() -> (r: Store)
        ensures
            r.wf(),
            r.persons@.len() == 0,
            r.communities@.len() == 0,
            r.posts@.len() == 0,
            r.comments@.len() == 0,
            r.private_messages@.len() == 0,
            r.followers@.len() == 0,
            r.bans@.len() == 0,
            r.moderators@.len() == 0,
    {
        Store {
            persons: Vec::new(),
            communities: Vec::new(),
            posts: Vec::new(),
            comments: Vec::new(),
            private_messages: Vec::new(),
            followers: FollowerTable::new(),
            bans: BanTable::new(),
            moderators: Vec::new(),
        }
    }

    pub fn find_person(&self, actor_id: &String) -> (r: Option<usize>)
        requires
            self.wf(),
        ensures
            opt_int(r) == key_index(self.person_keys(), actor_id@),
    {
        let mut i: usize = 0;
        while i < self.persons.len()
            invariant
                i <= self.persons@.len(),
                self.wf(),
                forall|j: int| 0 <= j < i ==> self.person_keys()[j] != actor_id@,
            decreases self.persons@.len() - i,
        {
            if self.persons[i].actor_id == *actor_id {
                proof { lemma_key_index(self.person_keys(), actor_id@, i as int); }
                return Some(i);
            }
            i += 1;
        }
        None
    }

    pub fn find_community(&self, actor_id: &String) -> (r: Option<usize>)
        requires
            self.wf(),
        ensures
            opt_int(r) == key_index(self.community_keys(), actor_id@),
    {
        let mut i: usize = 0;
        while i < self.communities.len()
            invariant
                i <= self.communities@.len(),
                self.wf(),
                forall|j: int| 0 <= j < i ==> self.community_keys()[j] != actor_id@,
            decreases self.communities@.len() - i,
        {
            if self.communities[i].actor_id == *actor_id {
                proof { lemma_key_index(self.community_keys(), actor_id@, i as int); }
                return Some(i);
            }
            i += 1;
        }
        None
    }

    pub fn find_post(&self, ap_id: &String) -> (r: Option<usize>)
        requires
            self.wf(),
        ensures
            opt_int(r) == key_index(self.post_keys(), ap_id@),
    {
        let mut i: usize = 0;
        while i < self.posts.len()
            invariant
                i <= self.posts@.len(),
                self.wf(),
                forall|j: int| 0 <= j < i ==> self.post_keys()[j] != ap_id@,
            decreases self.posts@.len() - i,
        {
            if self.posts[i].ap_id == *ap_id {
                proof { lemma_key_index(self.post_keys(), ap_id@, i as int); }
                return Some(i);
            }
            i += 1;
        }
        None
    }

    pub fn find_comment(&self, ap_id: &String) -> (r: Option<usize>)
        requires
            self.wf(),
        ensures
            opt_int(r) == key_index(self.comment_keys(), ap_id@),
    {
        let mut i: usize = 0;
        while i < self.comments.len()
            invariant
                i <= self.comments@.len(),
                self.wf(),
                forall|j: int| 0 <= j < i ==> self.comment_keys()[j] != ap_id@,
            decreases self.comments@.len() - i,
        {
            if self.comments[i].ap_id == *ap_id {
                proof { lemma_key_index(self.comment_keys(), ap_id@, i as int); }
                return Some(i);
            }
            i += 1;
        }
        None
    }

    pub fn find_private_message(&self, ap_id: &String) -> (r: Option<usize>)
        requires
            self.wf(),
        ensures
            opt_int(r) == key_index(self.message_keys(), ap_id@),
    {
        let mut i: usize = 0;
        while i < self.private_messages.len()
            invariant
                i <= self.private_messages@.len(),
                self.wf(),
                forall|j: int| 0 <= j < i ==> self.message_keys()[j] != ap_id@,
            decreases self.private_messages@.len() - i,
        {
            if self.private_messages[i].ap_id == *ap_id {
                proof { lemma_key_index(self.message_keys(), ap_id@, i as int); }
                return Some(i);
            }
            i += 1;
        }
        None
    }

    /// Inserts a person, or replaces the row with the same actor identifier.
    pub fn upsert_person(&mut self, form: ApubPerson) -> (r: usize)
        requires
            old(self).wf(),
        ensures
            final(self).wf(),
            final(self).agrees_outside(old(self), Table::Persons),
            match key_index(old(self).person_keys(), form.actor_id@) {
                Some(j) => r == j && final(self).persons@ == old(self).persons@.update(j, form),
                None => r == old(self).persons@.len() && final(self).persons@ == old(self).persons@.push(form),
            },
    {
        let ghost before = self.person_keys();
        match self.find_person(&form.actor_id) {
            Some(j) => {
                self.persons.set(j, form);
                assert(self.person_keys() =~= before);
                j
            },
            None => {
                let n = self.persons.len();
                self.persons.push(form);
                assert(self.person_keys() =~= before.push(form.actor_id@));
                n
            },
        }
    }

    /// Inserts a community, or replaces the row with the same actor identifier.
    pub fn upsert_community(&mut self, form: Community) -> (r: usize)
        requires
            old(self).wf(),
        ensures
            final(self).wf(),
            final(self).agrees_outside(old(self), Table::Communities),
            match key_index(old(self).community_keys(), form.actor_id@) {
                Some(j) => r == j && final(self).communities@ == old(self).communities@.update(j, form),
                None => r == old(self).communities@.len() && final(self).communities@
                    == old(self).communities@.push(form),
            },
    {
        let ghost before = self.community_keys();
        match self.find_community(&form.actor_id) {
            Some(j) => {
                self.communities.set(j, form);
                assert(self.community_keys() =~= before);
                j
            },
            None => {
                let n = self.communities.len();
                self.communities.push(form);
                assert(self.community_keys() =~= before.push(form.actor_id@));
                n
            },
        }
    }

    /// Inserts a post, or replaces the row with the same identifier; refuses an
    /// identifier that a comment holds.
    pub fn upsert_post(&mut self, form: Post) -> (r: Result<usize, ApubError>)
        requires
            old(self).wf(),
            form.community_id < old(self).communities@.len(),
            form.creator_id < old(self).persons@.len(),
        ensures
            final(self).wf(),
            final(self).agrees_outside(old(self), Table::Posts),
            key_index(old(self).comment_keys(), form.ap_id@) is Some ==> r == Err::<usize, ApubError>(
                ApubError::ProtocolViolation,
            ) && final(self).posts@ == old(self).posts@,
            key_index(old(self).comment_keys(), form.ap_id@) is None ==> match key_index(
                old(self).post_keys(),
                form.ap_id@,
            ) {
                Some(j) => r == Ok::<usize, ApubError>(j as usize) && final(self).posts@ == old(self).posts@.update(j, form),
                None => r == Ok::<usize, ApubError>(old(self).posts@.len() as usize) && final(self).posts@
                    == old(self).posts@.push(form),
            },
    {
        if self.find_comment(&form.ap_id).is_some() {
            return Err(ApubError::ProtocolViolation);
        }
        assert(forall|j: int| 0 <= j < self.comments@.len() ==> self.comment_keys()[j] != form.ap_id@);
        let ghost before = self.post_keys();
        let ghost old_store = *self;
        let r = match self.find_post(&form.ap_id) {
            Some(j) => {
                self.posts.set(j, form);
                assert(self.post_keys() =~= before);
                j
            },
            None => {
                let n = self.posts.len();
                self.posts.push(form);
                assert(self.post_keys() =~= before.push(form.ap_id@));
                n
            },
        };
        assert forall|a: int, b: int|
            0 <= a < self.posts@.len() && 0 <= b < self.comments@.len() implies (
            #[trigger] self.posts@[a]).ap_id@ != (#[trigger] self.comments@[b]).ap_id@ by {
            if self.posts@[a] != form {
                assert(old_store.posts@.contains(self.posts@[a]));
                let k = choose|k: int| 0 <= k < old_store.posts@.len() && old_store.posts@[k] == self.posts@[a];
                assert(old_store.posts@[k].ap_id@ != old_store.comments@[b].ap_id@);
            } else {
                assert(self.comment_keys()[b] != form.ap_id@);
            }
        }
        Ok(r)
    }

    /// Inserts a comment, or replaces the row with the same identifier; refuses an
    /// identifier that a post holds.
    pub fn upsert_comment(&mut self, form: ApubComment) -> (r: Result<usize, ApubError>)
        requires
            old(self).wf(),
            old(self).comment_row_wf(form),
        ensures
            final(self).wf(),
            final(self).agrees_outside(old(self), Table::Comments),
            key_index(old(self).post_keys(), form.ap_id@) is Some ==> r == Err::<usize, ApubError>(
                ApubError::ProtocolViolation,
            ) && final(self).comments@ == old(self).comments@,
            key_index(old(self).post_keys(), form.ap_id@) is None ==> match key_index(
                old(self).comment_keys(),
                form.ap_id@,
            ) {
                Some(j) => r == Ok::<usize, ApubError>(j as usize) && final(self).comments@
                    == old(self).comments@.update(j, form),
                None => r == Ok::<usize, ApubError>(old(self).comments@.len() as usize)
                    && final(self).comments@ == old(self).comments@.push(form),
            },
    {
        if self.find_post(&form.ap_id).is_some() {
            return Err(ApubError::ProtocolViolation);
        }
        assert(forall|j: int| 0 <= j < self.posts@.len() ==> self.post_keys()[j] != form.ap_id@);
        let ghost before = self.comment_keys();
        let ghost old_store = *self;
        let r = match self.find_comment(&form.ap_id) {
            Some(j) => {
                self.comments.set(j, form);
                assert(self.comment_keys() =~= before);
                assert forall|i: int| 0 <= i < self.comments@.len() implies self.comment_row_wf(
                    #[trigger] self.comments@[i],
                ) by {
                    if i != j {
                        assert(old_store.comment_row_wf(old_store.comments@[i]));
                    }
                }
                j
            },
            None => {
                let n = self.comments.len();
                self.comments.push(form);
                assert(self.comment_keys() =~= before.push(form.ap_id@));
                assert forall|i: int| 0 <= i < self.comments@.len() implies self.comment_row_wf(
                    #[trigger] self.comments@[i],
                ) by {
                    if i < n {
                        assert(old_store.comment_row_wf(old_store.comments@[i]));
                    }
                }
                n
            },
        };
        assert forall|a: int, b: int|
            0 <= a < self.posts@.len() && 0 <= b < self.comments@.len() implies (
            #[trigger] self.posts@[a]).ap_id@ != (#[trigger] self.comments@[b]).ap_id@ by {
            if self.comments@[b] != form {
                assert(old_store.comments@.contains(self.comments@[b]));
                let k = choose|k: int| 0 <= k < old_store.comments@.len() && old_store.comments@[k] == self.comments@[b];
                assert(old_store.posts@[a].ap_id@ != old_store.comments@[k].ap_id@);
            } else {
                assert(self.post_keys()[a] != form.ap_id@);
            }
        }
        Ok(r)
    }

    /// Inserts a private message, or replaces the row with the same identifier.
    pub fn upsert_private_message(&mut self, form: PrivateMessage) -> (r: usize)
        requires
            old(self).wf(),
            form.creator_id < old(self).persons@.len(),
            form.recipient_id < old(self).persons@.len(),
        ensures
            final(self).wf(),
            final(self).agrees_outside(old(self), Table::PrivateMessages),
            match key_index(old(self).message_keys(), form.ap_id@) {
                Some(j) => r == j && final(self).private_messages@ == old(self).private_messages@.update(j, form),
                None => r == old(self).private_messages@.len() && final(self).private_messages@
                    == old(self).private_messages@.push(form),
            },
    {
        let ghost before = self.message_keys();
        match self.find_private_message(&form.ap_id) {
            Some(j) => {
                self.private_messages.set(j, form);
                assert(self.message_keys() =~= before);
                j
            },
            None => {
                let n = self.private_messages.len();
                self.private_messages.push(form);
                assert(self.message_keys() =~= before.push(form.ap_id@));
                n
            },
        }
    }

    /// Sets the deleted flag of one private message, leaving its other fields.
    pub fn set_private_message_deleted(&mut self, i: usize, deleted: bool)
        requires
            old(self).wf(),
            i < old(self).private_messages@.len(),
        ensures
            final(self).wf(),
            final(self).agrees_outside(old(self), Table::PrivateMessages),
            final(self).private_messages@ == old(self).private_messages@.update(
                i as int,
                PrivateMessage { deleted, ..old(self).private_messages@[i as int] },
            ),
    {
        let ghost before = self.message_keys();
        let m = &self.private_messages[i];
        let row = PrivateMessage {
            ap_id: m.ap_id.clone(),
            creator_id: m.creator_id,
            recipient_id: m.recipient_id,
            content: m.content.clone(),
            deleted,
            local: m.local,
        };
        self.private_messages.set(i, row);
        assert(self.message_keys() =~= before);
    }

    /// Sets the deleted flag of one comment, leaving its other fields.
    pub fn set_comment_deleted(&mut self, i: usize, deleted: bool)
        requires
            old(self).wf(),
            i < old(self).comments@.len(),
        ensures
            final(self).wf(),
            final(self).agrees_outside(old(self), Table::Comments),
            final(self).comments@ == old(self).comments@.update(
                i as int,
                ApubComment { deleted, ..old(self).comments@[i as int] },
            ),
    {
        let ghost before = self.comment_keys();
        let ghost old_store = *self;
        let c = &self.comments[i];
        let row = ApubComment {
            ap_id: c.ap_id.clone(),
            creator_id: c.creator_id,
            post_id: c.post_id,
            parent_id: c.parent_id,
            content: c.content.clone(),
            published: c.published,
            updated: c.updated,
            local: c.local,
            deleted,
        };
        self.comments.set(i, row);
        assert(self.comment_keys() =~= before);
        assert forall|k: int| 0 <= k < self.comments@.len() implies self.comment_row_wf(
            #[trigger] self.comments@[k],
        ) by {
            assert(old_store.comment_row_wf(old_store.comments@[k]));
        }
        assert forall|a: int, b: int|
            0 <= a < self.posts@.len() && 0 <= b < self.comments@.len() implies (
            #[trigger] self.posts@[a]).ap_id@ != (#[trigger] self.comments@[b]).ap_id@ by {
            assert(old_store.posts@[a].ap_id@ != old_store.comments@[b].ap_id@);
        }
    }

    /// Replaces a community's row with one of the same identifier.
    pub fn set_community(&mut self, i: usize, row: Community)
        requires
            old(self).wf(),
            i < old(self).communities@.len(),
            row.actor_id@ == old(self).communities@[i as int].actor_id@,
        ensures
            final(self).wf(),
            final(self).agrees_outside(old(self), Table::Communities),
            final(self).communities@ == old(self).communities@.update(i as int, row),
    {
        let ghost before = self.community_keys();
        self.communities.set(i, row);
        assert(self.community_keys() =~= before);
    }

    /// Sets the deleted flag of one post, leaving its other fields.
    pub fn set_post_deleted(&mut self, i: usize, deleted: bool)
        requires
            old(self).wf(),
            i < old(self).posts@.len(),
        ensures
            final(self).wf(),
            final(self).agrees_outside(old(self), Table::Posts),
            final(self).posts@ == old(self).posts@.update(i as int, Post { deleted, ..old(self).posts@[i as int] }),
    {
        let ghost before = self.post_keys();
        let ghost old_store = *self;
        let p = &self.posts[i];
        let row = Post {
            ap_id: p.ap_id.clone(),
            name: p.name.clone(),
            creator_id: p.creator_id,
            community_id: p.community_id,
            locked: p.locked,
            deleted,
            local: p.local,
        };
        self.posts.set(i, row);
        assert(self.post_keys() =~= before);
        assert forall|a: int, b: int|
            0 <= a < self.posts@.len() && 0 <= b < self.comments@.len() implies (
            #[trigger] self.posts@[a]).ap_id@ != (#[trigger] self.comments@[b]).ap_id@ by {
            assert(old_store.posts@[a].ap_id@ != old_store.comments@[b].ap_id@);
        }
        assert forall|k: int| 0 <= k < self.comments@.len() implies self.comment_row_wf(
            #[trigger] self.comments@[k],
        ) by {
            assert(old_store.comment_row_wf(old_store.comments@[k]));
        }
    }

    pub fn is_moderator(&self, community_id: u64, person_id: u64) -> (r: bool)
        ensures
            r == has_moderator(self.moderators@, community_id, person_id),
    {
        let mut i: usize = 0;
        while i < self.moderators.len()
            invariant
                i <= self.moderators@.len(),
                forall|j: int|
                    0 <= j < i ==> self.moderators@[j] != (CommunityModerator { community_id, person_id }),
            decreases self.moderators@.len() - i,
        {
            let m = self.moderators[i];
            if m.community_id == community_id && m.person_id == person_id {
                assert(self.moderators@[i as int] == CommunityModerator { community_id, person_id });
                return true;
            }
            i += 1;
        }
        false
    }

    /// Records `person_id` as a moderator of `community_id`, once.
    pub fn add_moderator(&mut self, community_id: u64, person_id: u64)
        requires
            old(self).wf(),
        ensures
            final(self).wf(),
            has_moderator(final(self).moderators@, community_id, person_id),
            final(self).agrees_outside(old(self), Table::Moderators),
    {
        if !self.is_moderator(community_id, person_id) {
            self.moderators.push(CommunityModerator { community_id, person_id });
            assert(self.moderators@.last() == CommunityModerator { community_id, person_id });
        }
    }
}

} // verus!
