use vstd::prelude::*;
use vstd::string::StringSliceAdditionalSpecFns;

verus! {

#[verifier::external_type_specification]
#[verifier::external_body]
pub struct ExUrlParseError(url::ParseError);

/// Why a scanner could not build the address it fetches.
#[derive(Debug, Clone, Copy, PartialEq, Eq)]
pub enum ScanError {
    /// The target, or the address made from it, is not a valid URL; the url
    /// crate's reason is kept.
    InvalidUrl(url::ParseError),
}

/// The text of the URL that `url::Url::join` makes of `input` against the
/// base URL read from `base`, or `None` when either does not parse.
pub uninterp spec fn url_join_text(base: Seq<char>, input: Seq<char>) -> Option<Seq<char>>;

/// `url::Url::join` of the url crate, on the base URL that `url::Url::parse`
/// reads from `base`; the result is handed back as its text. Stated: the
/// result is the one named by `url_join_text` for these two texts, and an
/// error exactly when that name is `None`. How URLs are resolved is not stated.
#[verifier::external_body]
fn join_url(base: &str, input: &str) -> (r: Result<String, url::ParseError>)
    ensures
        match r {
            Ok(s) => url_join_text(base@, input@) == Some(s@),
            Err(_) => url_join_text(base@, input@) is None,
        },
{
    match url::Url::parse(base) {
        Ok(b) => match b.join(input) {
            Ok(u) => Ok(u.into()),
            Err(e) => Err(e),
        },
        Err(e) => Err(e),
    }
}

/// The address of the git configuration of the site at `target`: the path
/// `/.git/config` resolved against the target URL.
pub fn git_config_url(target: &str) -> (r: Result<String, ScanError>)
    ensures
        match url_join_text(target@, "/.git/config"@) {
            Some(u) => r matches Ok(s) && s@ == u,
            None => r matches Err(ScanError::InvalidUrl(_)),
        },
{
    match join_url(target, "/.git/config") {
        Ok(u) => Ok(u),
        Err(e) => Err(ScanError::InvalidUrl(e)),
    }
}

/// A finding of one of the built-in scanners.
#[derive(Debug, Clone)]
pub struct ScanAnswer {
    pub full_url: String,
    pub detection_name: String,
}

/// Looks for a readable git configuration that starts like one.
pub struct GitCredsScanner {}

/// Looks for a readable git configuration anywhere in the answer.
pub struct GitDirectoryScanner {}

/// The bytes a git configuration file starts with.
pub open spec fn git_core_marker() -> Seq<u8> {
    seq![0x5Bu8, 0x63u8, 0x6Fu8, 0x72u8, 0x65u8, 0x5Du8]
}

/// Whether `text` starts with `pat`.
pub open spec fn has_prefix(text: Seq<u8>, pat: Seq<u8>) -> bool {
    pat.len() <= text.len() && text.subrange(0, pat.len() as int) == pat
}

/// Whether `pat` occurs somewhere in `text`.
pub open spec fn has_infix(text: Seq<u8>, pat: Seq<u8>) -> bool {
    exists|k: int| 0 <= k && k + pat.len() <= text.len() && #[trigger] text.subrange(k, k + pat.len()) == pat
}

/// Whether `pat` occurs at position `k` of `text`.
fn matches_at(text: &[u8], pat: &[u8], k: usize) -> (r: bool)
    requires
        k + pat@.len() <= text@.len(),
    ensures
        r == (text@.subrange(k as int, k + pat@.len()) == pat@),
{
    let tl = text.len();
    let mut j: usize = 0;
    while j < pat.len()
        invariant
            tl == text@.len(),
            j <= pat@.len(),
            k + pat@.len() <= text@.len(),
            forall|m: int| 0 <= m < j ==> text@[k + m] == pat@[m],
        decreases pat.len() - j,
    {
        if text[k + j] != pat[j] {
            assert(text@.subrange(k as int, k + pat@.len())[j as int] != pat@[j as int]);
            return false;
        }
        j = j + 1;
    }
    assert(text@.subrange(k as int, k + pat@.len()) =~= pat@);
    true
}

/// Whether `pat` occurs somewhere in `text`.
fn find_infix(text: &[u8], pat: &[u8]) -> (r: bool)
    ensures
        r == has_infix(text@, pat@),
{
    if pat.len() > text.len() {
        return false;
    }
    let last = text.len() - pat.len();
    let mut k: usize = 0;
    while k < last
        invariant
            k <= last,
            last + pat@.len() == text@.len(),
            forall|m: int| 0 <= m < k ==> #[trigger] text@.subrange(m, m + pat@.len()) != pat@,
        decreases last - k,
    {
        if matches_at(text, pat, k) {
            return true;
        }
        k = k + 1;
    }
    matches_at(text, pat, last)
}

/// The single answer of a scanner named `name`, found at `url`.
fn single_answer(url: String, name: String) -> (r: Vec<ScanAnswer>)
    ensures
        r@.len() == 1,
        r@[0].full_url == url,
        r@[0].detection_name == name,
{
    let mut r: Vec<ScanAnswer> = Vec::new();
    r.push(ScanAnswer { full_url: url, detection_name: name });
    r
}

impl GitCredsScanner {
    /// The name of the finding.
    pub fn name(&self) -> (n: String)
        ensures
            n@ == "Git Credentials Leak"@,
    {
        String::from_str("Git Credentials Leak")
    }

    /// The findings for the answer `body` that was fetched from `url`: one,
    /// when the answer starts like a git configuration; none otherwise.
    pub fn answers(&self, url: String, body: &str) -> (r: Vec<ScanAnswer>)
        ensures
            has_prefix(body.spec_bytes(), git_core_marker()) ==> r@.len() == 1 && r@[0].full_url == url
                && r@[0].detection_name@ == "Git Credentials Leak"@,
            !has_prefix(body.spec_bytes(), git_core_marker()) ==> r@.len() == 0,
    {
        let bytes = body.as_bytes();
        let marker: [u8; 6] = [0x5Bu8, 0x63u8, 0x6Fu8, 0x72u8, 0x65u8, 0x5Du8];
        assert(marker@ =~= git_core_marker());
        if marker.len() <= bytes.len() && matches_at(bytes, &marker, 0) {
            single_answer(url, self.name())
        } else {
            Vec::new()
        }
    }
}

impl GitDirectoryScanner {
    /// The name of the finding.
    pub fn name(&self) -> (n: String)
        ensures
            n@ == "Git Directory Leak"@,
    {
        String::from_str("Git Directory Leak")
    }

    /// The findings for the answer `body` that was fetched from `url`: one,
    /// when a git configuration header occurs anywhere in it; none otherwise.
    pub fn answers(&self, url: String, body: &str) -> (r: Vec<ScanAnswer>)
        ensures
            has_infix(body.spec_bytes(), git_core_marker()) ==> r@.len() == 1 && r@[0].full_url == url
                && r@[0].detection_name@ == "Git Directory Leak"@,
            !has_infix(body.spec_bytes(), git_core_marker()) ==> r@.len() == 0,
    {
        let bytes = body.as_bytes();
        let marker: [u8; 6] = [0x5Bu8, 0x63u8, 0x6Fu8, 0x72u8, 0x65u8, 0x5Du8];
        assert(marker@ =~= git_core_marker());
        if find_infix(bytes, &marker) {
            single_answer(url, self.name())
        } else {
            Vec::new()
        }
    }
}

} // verus!
