use vstd::prelude::*;

verus! {

/// The address probed to learn whether a domain forces HTTPS: plain HTTP.
pub fn probe_url(domain: &str) -> (u: String)
    ensures
        u@ == "http://"@ + domain@,
{
    let mut u = String::from_str("http://");
    u.append(domain);
    u
}

/// Whether the probe saw a forced HTTPS redirection: the plain HTTP request
/// ended, after its redirections, at an `https` address (`ended_on_https`)
/// that answered with a success status (`status`, `None` when the request
/// failed).
pub fn forces_https(status: Option<u16>, ended_on_https: bool) -> (r: bool)
    ensures
        r == (ended_on_https && (status matches Some(code) && 200 <= code <= 299)),
{
    match status {
        Some(code) => ended_on_https && 200 <= code && code <= 299,
        None => false,
    }
}

} // verus!
