use crate::content::{check_slurs, check_slurs_opt, opt_text_allowed, text_allowed};
use crate::context::{apub_id_valid, check_is_apub_id_valid, Settings};
use crate::error::ApubError;
use crate::ids::{domains_match, verify_domains_match};
use crate::store::{copy_text, key_index, lemma_key_index, Store, Table};
use vstd::prelude::*;
use vstd::string::StringExecFns;

verus! {

/// The HTML that comrak renders from the markdown `md` with its default options.
pub uninterp spec fn markdown_html(md: Seq<char>) -> Seq<char>;

/// Relies on `comrak::markdown_to_html` with `comrak::Options::default()`.
#[verifier::external_body]
fn render_markdown(md: &str) -> (r: String)
    ensures
        r@ == markdown_html(md@),
{
    comrak::markdown_to_html(md, &comrak::Options::default())
}

/// Whether a person on the wire is a human or an automated account.
#[derive(Clone, Copy, Debug, PartialEq, Eq, Structural)]
pub enum UserTypes {
    Person,
    Service,
}

/// A person as this instance stores it.
#[derive(Clone, Debug)]
pub struct ApubPerson {
    pub actor_id: String,
    /// Username, set at account creation and never changed.
    pub name: String,
    pub display_name: Option<String>,
    pub bio: Option<String>,
    pub avatar: Option<String>,
    pub banner: Option<String>,
    pub inbox_url: String,
    pub shared_inbox_url: Option<String>,
    pub public_key: Option<String>,
    pub private_key: Option<String>,
    pub bot_account: bool,
    pub local: bool,
    pub deleted: bool,
    pub matrix_user_id: Option<String>,
    pub published: Option<i64>,
    pub updated: Option<i64>,
    /// When a remote copy was last fetched; absent for local people.
    pub last_refreshed_at: Option<i64>,
}

/// A person on the wire.
#[derive(Clone, Debug)]
pub struct Person {
    pub kind: UserTypes,
    pub id: String,
    /// Username, set at account creation and never changed.
    pub preferred_username: String,
    /// Display name.
    pub name: Option<String>,
    /// The biography rendered as HTML.
    pub summary: Option<String>,
    /// Markdown source of the summary.
    pub source: Option<String>,
    /// Avatar.
    pub icon: Option<String>,
    /// Banner.
    pub image: Option<String>,
    pub matrix_user_id: Option<String>,
    pub inbox: String,
    pub outbox: String,
    pub shared_inbox: Option<String>,
    pub public_key_pem: String,
    pub published: Option<i64>,
    pub updated: Option<i64>,
}

/// The biography of a person on the wire: the markdown source where given, else the
/// summary.
pub open spec fn summary_of(w: Person) -> Option<String> {
    match w.source {
        Some(s) => Some(s),
        None => w.summary,
    }
}

/// The row that a decoded person becomes, fetched at `now`.
pub open spec fn person_form(w: Person, now: i64) -> ApubPerson {
    ApubPerson {
        actor_id: w.id,
        name: w.preferred_username,
        display_name: w.name,
        bio: summary_of(w),
        avatar: w.icon,
        banner: w.image,
        inbox_url: w.inbox,
        shared_inbox_url: w.shared_inbox,
        public_key: Some(w.public_key_pem),
        private_key: None,
        bot_account: w.kind == UserTypes::Service,
        local: false,
        deleted: false,
        matrix_user_id: w.matrix_user_id,
        published: w.published,
        updated: w.updated,
        last_refreshed_at: Some(now),
    }
}

/// `w` is the wire form of the stored person `p`.
pub open spec fn person_sent_as(p: ApubPerson, w: Person) -> bool {
    &&& w.kind == (if p.bot_account { UserTypes::Service } else { UserTypes::Person })
    &&& w.id == p.actor_id
    &&& w.preferred_username == p.name
    &&& w.name == p.display_name
    &&& match (p.bio, w.summary) {
        (Some(b), Some(h)) => h@ == markdown_html(b@),
        (None, None) => true,
        _ => false,
    }
    &&& w.source == p.bio
    &&& w.icon == p.avatar
    &&& w.image == p.banner
    &&& w.matrix_user_id == p.matrix_user_id
    &&& w.inbox == p.inbox_url
    &&& w.outbox@ == p.actor_id@ + "/outbox"@
    &&& w.shared_inbox == p.shared_inbox_url
    &&& p.public_key == Some(w.public_key_pem)
    &&& w.published == p.published
    &&& w.updated == p.updated
}

/// The username, display name and biography pass the content filter.
pub open spec fn person_text_allowed(w: Person, settings: Settings) -> bool {
    &&& text_allowed(settings, w.preferred_username@)
    &&& opt_text_allowed(settings, w.name)
    &&& opt_text_allowed(settings, summary_of(w))
}

/// The outcome owed by decoding a person into the store.
pub open spec fn person_decoded(
    before: Store,
    after: Store,
    w: Person,
    settings: Settings,
    expected_domain: Seq<char>,
    now: i64,
    r: Result<usize, ApubError>,
) -> bool {
    if !domains_match(w.id@, expected_domain) {
        r == Err::<usize, ApubError>(ApubError::ProtocolViolation) && after.persons@ == before.persons@
    } else if !person_text_allowed(w, settings) || !apub_id_valid(w.id@, settings) {
        r == Err::<usize, ApubError>(ApubError::ValidationError) && after.persons@ == before.persons@
    } else {
        r matches Ok(i) && match key_index(before.person_keys(), w.id@) {
            Some(j) => i == j && after.persons@ == before.persons@.update(j, person_form(w, now)),
            None => i == before.persons@.len() && after.persons@ == before.persons@.push(person_form(w, now)),
        }
    }
}

impl Person {
    /// The person's identifier, where it is on the expected domain.
    pub fn id(&self, expected_domain: &String) -> (r: Result<&String, ApubError>)
        ensures
            r is Ok <==> domains_match(self.id@, expected_domain@),
            r matches Ok(i) ==> i == &self.id,
            r is Err ==> r == Err::<&String, ApubError>(ApubError::ProtocolViolation),
    {
        verify_domains_match(&self.id, expected_domain)?;
        Ok(&self.id)
    }
}

/// The biography of a person on the wire.
pub fn get_summary_from_string_or_source(summary: &Option<String>, source: &Option<String>) -> (r: Option<String>)
    ensures
        r == (match *source {
            Some(s) => Some(s),
            None => *summary,
        }),
{
    match source {
        Some(s) => Some(s.clone()),
        None => copy_text(summary),
    }
}

impl ApubPerson {
    pub open spec fn fresh_at(&self, now: i64) -> bool {
        self.local || (self.last_refreshed_at matches Some(t) && now - t
            < crate::resolver::ACTOR_REFETCH_INTERVAL_SECONDS)
    }

    pub fn last_refreshed_at(&self) -> (r: Option<i64>)
        ensures
            r == self.last_refreshed_at,
    {
        self.last_refreshed_at
    }

    pub fn read_from_apub_id(store: &Store, object_id: &String) -> (r: Option<usize>)
        requires
            store.wf(),
        ensures
            crate::store::opt_int(r) == key_index(store.person_keys(), object_id@),
    {
        store.find_person(object_id)
    }

    /// The wire form of this person; `ValidationError` where it has no public key.
    pub fn to_apub(&self) -> (r: Result<Person, ApubError>)
        ensures
            self.public_key is None ==> r == Err::<Person, ApubError>(ApubError::ValidationError),
            self.public_key is Some ==> (r matches Ok(w) && person_sent_as(*self, w)),
    {
        let public_key_pem = match &self.public_key {
            Some(k) => k.clone(),
            None => return Err(ApubError::ValidationError),
        };
        let kind = if self.bot_account {
            UserTypes::Service
        } else {
            UserTypes::Person
        };
        Ok(Person {
            kind,
            id: self.actor_id.clone(),
            preferred_username: self.name.clone(),
            name: copy_text(&self.display_name),
            summary: match &self.bio {
                Some(b) => Some(render_markdown(b.as_str())),
                None => None,
            },
            source: copy_text(&self.bio),
            icon: copy_text(&self.avatar),
            image: copy_text(&self.banner),
            matrix_user_id: copy_text(&self.matrix_user_id),
            inbox: self.inbox_url.clone(),
            outbox: self.actor_id.clone().concat("/outbox"),
            shared_inbox: copy_text(&self.shared_inbox_url),
            public_key_pem,
            published: self.published,
            updated: self.updated,
        })
    }

    /// Decodes a person into the store, upserted by identifier and marked fetched at `now`.
    pub fn from_apub(
        person: &Person,
        store: &mut Store,
        settings: &Settings,
        expected_domain: &String,
        now: i64,
    ) -> (r: Result<usize, ApubError>)
        requires
            old(store).wf(),
        ensures
            final(store).wf(),
            final(store).agrees_outside(old(store), Table::Persons),
            person_decoded(*old(store), *final(store), *person, *settings, expected_domain@, now, r),
    {
        let actor_id = person.id(expected_domain)?;
        let bio = get_summary_from_string_or_source(&person.summary, &person.source);
        check_slurs(&person.preferred_username, settings)?;
        check_slurs_opt(&person.name, settings)?;
        check_slurs_opt(&bio, settings)?;
        check_is_apub_id_valid(actor_id, settings)?;
        let form = ApubPerson {
            actor_id: actor_id.clone(),
            name: person.preferred_username.clone(),
            display_name: copy_text(&person.name),
            bio,
            avatar: copy_text(&person.icon),
            banner: copy_text(&person.image),
            inbox_url: person.inbox.clone(),
            shared_inbox_url: copy_text(&person.shared_inbox),
            public_key: Some(person.public_key_pem.clone()),
            private_key: None,
            bot_account: person.kind == UserTypes::Service,
            local: false,
            deleted: false,
            matrix_user_id: copy_text(&person.matrix_user_id),
            published: person.published,
            updated: person.updated,
            last_refreshed_at: Some(now),
        };
        Ok(store.upsert_person(form))
    }

    /// Marks a person deleted.
    pub fn delete(store: &mut Store, i: usize)
        requires
            old(store).wf(),
            i < old(store).persons@.len(),
        ensures
            final(store).wf(),
            final(store).agrees_outside(old(store), Table::Persons),
            final(store).persons@ == old(store).persons@.update(
                i as int,
                ApubPerson { deleted: true, ..old(store).persons@[i as int] },
            ),
    {
        let p = &store.persons[i];
        let row = ApubPerson {
            actor_id: p.actor_id.clone(),
            name: p.name.clone(),
            display_name: copy_text(&p.display_name),
            bio: copy_text(&p.bio),
            avatar: copy_text(&p.avatar),
            banner: copy_text(&p.banner),
            inbox_url: p.inbox_url.clone(),
            shared_inbox_url: copy_text(&p.shared_inbox_url),
            public_key: copy_text(&p.public_key),
            private_key: copy_text(&p.private_key),
            bot_account: p.bot_account,
            local: p.local,
            deleted: true,
            matrix_user_id: copy_text(&p.matrix_user_id),
            published: p.published,
            updated: p.updated,
            last_refreshed_at: p.last_refreshed_at,
        };
        proof {
            lemma_key_index(store.person_keys(), store.persons@[i as int].actor_id@, i as int);
        }
        store.upsert_person(row);
    }

    pub fn is_local(&self) -> (r: bool)
        ensures
            r == self.local,
    {
        self.local
    }

    pub fn actor_id(&self) -> (r: String)
        ensures
            r == self.actor_id,
    {
        self.actor_id.clone()
    }

    pub fn name(&self) -> (r: String)
        ensures
            r == self.name,
    {
        self.name.clone()
    }

    pub fn public_key(&self) -> (r: Option<String>)
        ensures
            r == self.public_key,
    {
        copy_text(&self.public_key)
    }

    pub fn private_key(&self) -> (r: Option<String>)
        ensures
            r == self.private_key,
    {
        copy_text(&self.private_key)
    }

    pub fn inbox_url(&self) -> (r: String)
        ensures
            r == self.inbox_url,
    {
        self.inbox_url.clone()
    }

    pub fn shared_inbox_url(&self) -> (r: Option<String>)
        ensures
            r == self.shared_inbox_url,
    {
        copy_text(&self.shared_inbox_url)
    }

    /// Where activities for this person go: the shared inbox of its instance where
    /// there is one, else its own inbox.
    pub fn shared_inbox_or_inbox_url(&self) -> (r: String)
        ensures
            r == (match self.shared_inbox_url {
                Some(s) => s,
                None => self.inbox_url,
            }),
    {
        match &self.shared_inbox_url {
            Some(s) => s.clone(),
            None => self.inbox_url.clone(),
        }
    }
}

/// Decoding the wire form of a stored person gives back the same person: the row differs
/// only in what belongs to this instance's copy (the private key, the local and deleted
/// flags, and the time of the fetch).
pub proof fn lemma_person_round_trip(p: ApubPerson, w: Person, now: i64)
    requires
        person_sent_as(p, w),
    ensures
        person_form(w, now) == (ApubPerson {
            private_key: None,
            local: false,
            deleted: false,
            last_refreshed_at: Some(now),
            ..p
        }),
{
}

} // verus!
