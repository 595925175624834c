use vstd::prelude::*;

verus! {

/// The addresses scanned for a domain that a client resolved through the
/// proxy hijacker: first over HTTP, then over HTTPS.
pub fn proxy_scan_targets(name: &str) -> (t: Vec<String>)
    ensures
        t@.len() == 2,
        t@[0]@ == "http://"@ + name@,
        t@[1]@ == "https://"@ + name@,
{
    let mut http = String::from_str("http://");
    http.append(name);
    let mut https = String::from_str("https://");
    https.append(name);
    let mut t: Vec<String> = Vec::new();
    t.push(http);
    t.push(https);
    t
}

} // verus!
