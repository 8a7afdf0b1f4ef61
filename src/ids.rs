use crate::error::ApubError;
use vstd::prelude::*;

verus! {

/// The host domain of an absolute URL; `None` where the text is no URL or its host is
/// no domain (an IP address, or no host at all).
pub uninterp spec fn url_domain(s: Seq<char>) -> Option<Seq<char>>;

/// Relies on `url::Url::parse` and `url::Url::domain`: the domain of the parsed URL, if
/// the text parses and its host is a domain.
#[verifier::external_body]
pub(crate) fn parse_domain(s: &str) -> (r: Option<String>)
    ensures
        r matches Some(d) ==> url_domain(s@) == Some(d@),
        r is None ==> url_domain(s@) is None,
{
    match url::Url::parse(s) {
        Ok(u) => u.domain().map(|d| d.to_string()),
        Err(_) => None,
    }
}

/// Both identifiers are URLs on one and the same domain.
pub open spec fn domains_match(a: Seq<char>, b: Seq<char>) -> bool {
    url_domain(a) is Some && url_domain(a) == url_domain(b)
}

/// Fails with `ProtocolViolation` unless both identifiers are URLs on the same domain.
pub fn verify_domains_match(a: &String, b: &String) -> (r: Result<(), ApubError>)
    ensures
        r is Ok <==> domains_match(a@, b@),
        r is Err ==> r == Err::<(), ApubError>(ApubError::ProtocolViolation),
{
    let da = parse_domain(a.as_str());
    let db = parse_domain(b.as_str());
    match (da, db) {
        (Some(x), Some(y)) => {
            if x == y {
                Ok(())
            } else {
                Err(ApubError::ProtocolViolation)
            }
        },
        _ => Err(ApubError::ProtocolViolation),
    }
}

/// Fails with `ProtocolViolation` unless both identifiers are the same text.
pub fn verify_urls_match(a: &String, b: &String) -> (r: Result<(), ApubError>)
    ensures
        r is Ok <==> a@ == b@,
        r is Err ==> r == Err::<(), ApubError>(ApubError::ProtocolViolation),
{
    if *a == *b {
        Ok(())
    } else {
        Err(ApubError::ProtocolViolation)
    }
}

} // verus!
