use crate::error::ApubError;
use crate::ids::{parse_domain, url_domain};
use vstd::prelude::*;
use vstd::string::StringExecFns;

verus! {

/// Instance settings that the federation checks read.
pub struct Settings {
    /// The domain of this instance.
    pub hostname: String,
    pub federation_enabled: bool,
    /// Where non-empty, the only remote domains that are accepted.
    pub allowed_instances: Vec<String>,
    pub blocked_instances: Vec<String>,
    /// A case-insensitive regular expression of disallowed terms, if any.
    pub slur_filter: Option<String>,
}

pub open spec fn lists_domain(list: Seq<String>, d: Seq<char>) -> bool {
    exists|i: int| 0 <= i < list.len() && (#[trigger] list[i])@ == d
}

/// An identifier that this instance accepts: a URL with a domain that is this
/// instance's, or a remote one that federation policy admits.
pub open spec fn apub_id_valid(id: Seq<char>, settings: Settings) -> bool {
    match url_domain(id) {
        None => false,
        Some(d) => d == settings.hostname@ || (settings.federation_enabled && !lists_domain(
            settings.blocked_instances@,
            d,
        ) && (settings.allowed_instances@.len() == 0 || lists_domain(
            settings.allowed_instances@,
            d,
        ))),
    }
}

fn list_contains(list: &Vec<String>, d: &String) -> (r: bool)
    ensures
        r == lists_domain(list@, d@),
{
    let mut i: usize = 0;
    while i < list.len()
        invariant
            i <= list@.len(),
            forall|j: int| 0 <= j < i ==> (#[trigger] list@[j])@ != d@,
        decreases list@.len() - i,
    {
        if list[i] == *d {
            return true;
        }
        i += 1;
    }
    false
}

/// Fails with `ValidationError` where the identifier is no URL with a domain, or
/// federation policy refuses its domain.
pub fn check_is_apub_id_valid(id: &String, settings: &Settings) -> (r: Result<(), ApubError>)
    ensures
        r is Ok <==> apub_id_valid(id@, *settings),
        r is Err ==> r == Err::<(), ApubError>(ApubError::ValidationError),
{
    let d = match parse_domain(id.as_str()) {
        Some(d) => d,
        None => return Err(ApubError::ValidationError),
    };
    if d == settings.hostname {
        return Ok(());
    }
    if !settings.federation_enabled || list_contains(&settings.blocked_instances, &d) {
        return Err(ApubError::ValidationError);
    }
    if settings.allowed_instances.len() > 0 && !list_contains(&settings.allowed_instances, &d) {
        return Err(ApubError::ValidationError);
    }
    Ok(())
}

/// The identifier of a new activity of this instance: `kind` is the activity's kind in
/// lower case, `part` a unique part drawn by the caller.
pub open spec fn activity_id(hostname: Seq<char>, kind: Seq<char>, part: Seq<char>) -> Seq<char> {
    "https://"@ + hostname + "/activities/"@ + kind + "/"@ + part
}

/// Builds the identifier of a new activity on this instance's host.
pub fn generate_activity_id(settings: &Settings, kind: &str, part: &str) -> (r: String)
    ensures
        r@ == activity_id(settings.hostname@, kind@, part@),
{
    let s = <String as StringExecFns>::from_str("https://");
    let s = s.concat(settings.hostname.as_str());
    let s = s.concat("/activities/");
    let s = s.concat(kind);
    let s = s.concat("/");
    s.concat(part)
}

/// Per-activity state: how many remote fetches are still allowed.
pub struct VerificationContext {
    pub remaining: u32,
}

impl VerificationContext {
    pub fn new(budget: u32) -> (r: VerificationContext)
        ensures
            r.remaining == budget,
    {
        VerificationContext { remaining: budget }
    }

    /// Takes one unit of the fetch budget; `FetchBudgetExceeded` when none is left.
    pub fn consume_fetch(&mut self) -> (r: Result<(), ApubError>)
        ensures
            old(self).remaining == 0 ==> r == Err::<(), ApubError>(ApubError::FetchBudgetExceeded)
                && final(self).remaining == 0,
            old(self).remaining > 0 ==> r is Ok && final(self).remaining == old(self).remaining - 1,
    {
        if self.remaining == 0 {
            Err(ApubError::FetchBudgetExceeded)
        } else {
            self.remaining = self.remaining - 1;
            Ok(())
        }
    }
}

} // verus!
