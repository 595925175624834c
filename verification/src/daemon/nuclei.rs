use vstd::prelude::*;
use vstd::std_specs::cmp::PartialEqSpec;

use crate::cli::{get_database_dir, join_relative};
use crate::common::config::ScannerNucleiConfig;
use crate::common::strings::{opt_text, opt_text_equal, opt_texts, opt_texts_equal, texts, texts_equal};

verus! {

/// Name of the detection database file, beside the configuration file.
pub const DATABASE_FILENAME: &'static str = ".hoggdb.json";

/// Where the components of the path `p` begin: after a leading `/` (the
/// root), or after a leading `.` that stands alone as the first component,
/// or at the start.
pub open spec fn body_start(p: Seq<char>) -> int {
    if p.len() > 0 && p[0] == '/' {
        1
    } else if p.len() > 0 && p[0] == '.' && (p.len() == 1 || p[1] == '/') {
        1
    } else {
        0
    }
}

/// Position of the last `/` in `p` between `b` (included) and `e`
/// (excluded), or -1 when there is none.
pub open spec fn last_sep_in(p: Seq<char>, b: int, e: int) -> int
    decreases e - b,
{
    if e <= b {
        -1
    } else if p[e - 1] == '/' {
        e - 1
    } else {
        last_sep_in(p, b, e - 1)
    }
}

/// The last separator found lies in the range searched, if there is one.
pub proof fn lemma_last_sep_bounds(p: Seq<char>, b: int, e: int)
    ensures
        last_sep_in(p, b, e) == -1 || (b <= last_sep_in(p, b, e) < e),
    decreases e - b,
{
    if e > b && p[e - 1] != '/' {
        lemma_last_sep_bounds(p, b, e - 1);
    }
}

/// Where the last component of `p[..e]` starts, with the body beginning at `b`.
pub open spec fn component_start(p: Seq<char>, b: int, e: int) -> int {
    let k = last_sep_in(p, b, e);
    if k >= 0 {
        k + 1
    } else {
        b
    }
}

/// Where `p[..e]` ends once its last component, and the `/` before it, are taken off.
pub open spec fn component_cut(p: Seq<char>, b: int, e: int) -> int {
    let k = last_sep_in(p, b, e);
    if k >= 0 {
        k
    } else {
        b
    }
}

/// `e` moved back over the trailing components of `p[..e]` that are empty
/// or `.`, which a path does not count as components.
pub open spec fn trim_back(p: Seq<char>, b: int, e: int) -> int
    decreases e - b,
{
    if e <= b {
        e
    } else {
        let st = component_start(p, b, e);
        if st == e || (e - st == 1 && p[st] == '.') {
            proof {
                lemma_last_sep_bounds(p, b, e);
            }
            trim_back(p, b, component_cut(p, b, e))
        } else {
            e
        }
    }
}

/// The parent of the path `p` by the component rules of a Unix path: `None`
/// when `p` is empty or only the root; else `p` without its last component
/// and without the separators, empty and `.` components that then end it.
pub open spec fn path_parent(p: Seq<char>) -> Option<Seq<char>> {
    let b = body_start(p);
    let e = trim_back(p, b, p.len() as int);
    if e <= b {
        if p.len() > 0 && p[0] == '/' {
            None
        } else if b == 1 {
            Some(seq![])
        } else {
            None
        }
    } else {
        Some(p.subrange(0, trim_back(p, b, component_cut(p, b, e))))
    }
}

/// Position of the last `/` in `p` between `b` and `e`, if any.
fn last_sep(p: &str, b: usize, e: usize) -> (k: Option<usize>)
    requires
        b <= e <= p@.len(),
    ensures
        match k {
            Some(k) => last_sep_in(p@, b as int, e as int) == k && b <= k < e,
            None => last_sep_in(p@, b as int, e as int) == -1,
        },
{
    let mut j = e;
    while j > b
        invariant
            b <= j <= e <= p@.len(),
            last_sep_in(p@, b as int, e as int) == last_sep_in(p@, b as int, j as int),
        decreases j - b,
    {
        if p.get_char(j - 1) == '/' {
            return Some(j - 1);
        }
        j = j - 1;
    }
    None
}

/// `e` moved back over the trailing empty and `.` components of `p[..e]`.
fn trim_back_exec(p: &str, b: usize, e: usize) -> (r: usize)
    requires
        b <= e <= p@.len(),
    ensures
        r == trim_back(p@, b as int, e as int),
        b <= r <= e,
{
    let mut e2 = e;
    while e2 > b
        invariant
            b <= e2 <= e <= p@.len(),
            trim_back(p@, b as int, e as int) == trim_back(p@, b as int, e2 as int),
        decreases e2 - b,
    {
        let k = last_sep(p, b, e2);
        let (st, cut) = match k {
            Some(k) => (k + 1, k),
            None => (b, b),
        };
        if st == e2 || (e2 - st == 1 && p.get_char(st) == '.') {
            e2 = cut;
        } else {
            return e2;
        }
    }
    e2
}

/// The parent directory of the path `p`, by the component rules of a Unix
/// path; `None` when `p` is empty or only the root.
pub fn parent_path(p: &str) -> (r: Option<String>)
    ensures
        match path_parent(p@) {
            Some(d) => r matches Some(s) && s@ == d,
            None => r is None,
        },
{
    let n = p.unicode_len();
    let root = n > 0 && p.get_char(0) == '/';
    let b: usize = if root {
        1
    } else if n > 0 && p.get_char(0) == '.' && (n == 1 || p.get_char(1) == '/') {
        1
    } else {
        0
    };
    let e = trim_back_exec(p, b, n);
    if e <= b {
        if root {
            None
        } else if b == 1 {
            Some(String::new())
        } else {
            None
        }
    } else {
        let cut = match last_sep(p, b, e) {
            Some(k) => k,
            None => b,
        };
        let end = trim_back_exec(p, b, cut);
        Some(String::from_str(p.substring_char(0, end)))
    }
}

/// Path of the detection database beside the configuration file
/// `config_file`: the file name joined to the file's parent directory;
/// `None` when the path has no parent.
pub fn database_path(config_file: &str) -> (p: Option<String>)
    ensures
        match path_parent(config_file@) {
            Some(d) => p matches Some(s) && s@ == join_relative(d, DATABASE_FILENAME@),
            None => p is None,
        },
{
    match parent_path(config_file) {
        Some(parent) => Some(get_database_dir(parent.as_str())),
        None => None,
    }
}

/// What nuclei reports about the template that matched.
#[derive(Debug, Clone)]
pub struct NucleiTreeInfo {
    pub name: String,
    pub author: Vec<String>,
    pub tags: Vec<String>,
    pub severity: String,
    pub description: Option<String>,
    pub reference: Option<Vec<String>>,
}

/// One finding, as nuclei prints it in its JSON output.
#[derive(Debug, Clone)]
pub struct NucleiJsonOutput {
    pub template: String,
    pub template_id: String,
    pub info: NucleiTreeInfo,
    pub host: String,
    pub matched_at: Option<String>,
    pub type_: String,
    pub ip: Option<String>,
    pub timestamp: String,
    pub curl_command: Option<String>,
    pub matcher_status: bool,
    pub matched_line: Option<String>,
}

impl PartialEq for NucleiTreeInfo {
    fn eq(&self, other: &Self) -> (r: bool) {
        self.name == other.name && texts_equal(&self.author, &other.author) && texts_equal(
            &self.tags,
            &other.tags,
        ) && self.severity == other.severity && opt_text_equal(
            &self.description,
            &other.description,
        ) && opt_texts_equal(&self.reference, &other.reference)
    }
}

impl vstd::std_specs::cmp::PartialEqSpecImpl for NucleiTreeInfo {
    open spec fn obeys_eq_spec() -> bool {
        true
    }

    /// Field by field, by the texts that the fields hold.
    open spec fn eq_spec(&self, other: &Self) -> bool {
        &&& self.name@ == other.name@
        &&& texts(self.author@) == texts(other.author@)
        &&& texts(self.tags@) == texts(other.tags@)
        &&& self.severity@ == other.severity@
        &&& opt_text(self.description) == opt_text(other.description)
        &&& opt_texts(self.reference) == opt_texts(other.reference)
    }
}

impl Eq for NucleiTreeInfo {}

impl PartialEq for NucleiJsonOutput {
    fn eq(&self, other: &Self) -> (r: bool) {
        self.template_id == other.template_id && opt_text_equal(&self.matched_at, &other.matched_at)
            && self.host == other.host && self.info == other.info
    }
}

impl vstd::std_specs::cmp::PartialEqSpecImpl for NucleiJsonOutput {
    open spec fn obeys_eq_spec() -> bool {
        true
    }

    /// Two findings are the same when the template, the place where it
    /// matched, the host and the template's description agree; the other
    /// fields (time, address, command line, ...) do not count.
    open spec fn eq_spec(&self, other: &Self) -> bool {
        &&& self.template_id@ == other.template_id@
        &&& opt_text(self.matched_at) == opt_text(other.matched_at)
        &&& self.host@ == other.host@
        &&& PartialEqSpec::eq_spec(&self.info, &other.info)
    }
}

impl Eq for NucleiJsonOutput {}

/// Two template descriptions are equal exactly when every field holds the
/// same text: name, authors, tags, severity, description and references.
pub proof fn law_tree_info_equal_iff_every_field(a: NucleiTreeInfo, b: NucleiTreeInfo)
    ensures
        a.eq_spec(&b) <==> (a.name@ == b.name@ && texts(a.author@) == texts(b.author@) && texts(a.tags@)
            == texts(b.tags@) && a.severity@ == b.severity@ && opt_text(a.description) == opt_text(
            b.description,
        ) && opt_texts(a.reference) == opt_texts(b.reference)),
        a.severity@ != b.severity@ ==> !a.eq_spec(&b),
{
}

/// Two findings are the same exactly when the template, the place where it
/// matched, the host and every field of the template's description agree;
/// findings on different hosts are never the same.
pub proof fn law_same_finding_iff_template_place_host_info(a: NucleiJsonOutput, b: NucleiJsonOutput)
    ensures
        a.eq_spec(&b) <==> (a.template_id@ == b.template_id@ && opt_text(a.matched_at) == opt_text(
            b.matched_at,
        ) && a.host@ == b.host@ && a.info.name@ == b.info.name@ && texts(a.info.author@) == texts(
            b.info.author@,
        ) && texts(a.info.tags@) == texts(b.info.tags@) && a.info.severity@ == b.info.severity@
            && opt_text(a.info.description) == opt_text(b.info.description) && opt_texts(a.info.reference)
            == opt_texts(b.info.reference)),
        a.host@ != b.host@ ==> !a.eq_spec(&b),
{
}

/// Sameness of findings is an equivalence: every finding is the same as
/// itself, in both directions, and through a third one.
pub proof fn law_same_finding_is_equivalence(a: NucleiJsonOutput, b: NucleiJsonOutput, c: NucleiJsonOutput)
    ensures
        a.eq_spec(&a),
        a.eq_spec(&b) ==> b.eq_spec(&a),
        a.eq_spec(&b) && b.eq_spec(&c) ==> a.eq_spec(&c),
{
}

/// The address nuclei is pointed at: `https://` when the scanner checks for a
/// forced redirection to HTTPS and one was seen, `http://` otherwise.
pub open spec fn target_for(domain: Seq<char>, check_force_ssl: bool, forced_https: bool) -> Seq<char> {
    if check_force_ssl && forced_https {
        "https://"@ + domain
    } else {
        "http://"@ + domain
    }
}

/// The address nuclei scans for `domain`; `forced_https` tells whether the
/// domain was seen to force HTTPS (it only counts when `check_force_ssl` holds).
pub fn scan_target(domain: &str, check_force_ssl: bool, forced_https: bool) -> (t: String)
    ensures
        t@ == target_for(domain@, check_force_ssl, forced_https),
{
    let mut t = if check_force_ssl && forced_https {
        String::from_str("https://")
    } else {
        String::from_str("http://")
    };
    t.append(domain);
    t
}

/// `-t` and the template, for every template.
pub open spec fn template_args(templates: Seq<Seq<char>>) -> Seq<Seq<char>>
    decreases templates.len(),
{
    if templates.len() == 0 {
        seq![]
    } else {
        template_args(templates.drop_last()) + seq!["-t"@, templates.last()]
    }
}

/// The arguments nuclei is started with: the configured ones, then JSON
/// output and the target, then each community template.
pub open spec fn nuclei_args_for(cli_args: Seq<Seq<char>>, target: Seq<char>, templates: Seq<Seq<char>>) -> Seq<Seq<char>> {
    cli_args + seq!["--json"@, "-u"@, target] + template_args(templates)
}

/// The arguments that nuclei is started with to scan `target`.
pub fn nuclei_args(config: &ScannerNucleiConfig, target: &str) -> (args: Vec<String>)
    ensures
        texts(args@) == nuclei_args_for(
            texts(config.cli_args@),
            target@,
            texts(config.using_community_templates@),
        ),
{
    let mut args: Vec<String> = Vec::new();
    let mut i: usize = 0;
    while i < config.cli_args.len()
        invariant
            i <= config.cli_args@.len(),
            texts(args@) == texts(config.cli_args@).take(i as int),
        decreases config.cli_args.len() - i,
    {
        args.push(config.cli_args[i].clone());
        assert(texts(config.cli_args@).take(i + 1) =~= texts(config.cli_args@).take(i as int).push(
            config.cli_args@[i as int]@,
        ));
        assert(texts(args@) =~= texts(config.cli_args@).take(i + 1));
        i = i + 1;
    }
    assert(texts(config.cli_args@).take(config.cli_args@.len() as int) =~= texts(config.cli_args@));
    args.push(String::from_str("--json"));
    args.push(String::from_str("-u"));
    args.push(String::from_str(target));
    let ghost head = texts(args@);
    assert(head =~= texts(config.cli_args@) + seq!["--json"@, "-u"@, target@]);
    let ghost ts = texts(config.using_community_templates@);
    let mut k: usize = 0;
    while k < config.using_community_templates.len()
        invariant
            k <= ts.len(),
            ts == texts(config.using_community_templates@),
            texts(args@) == head + template_args(ts.take(k as int)),
        decreases config.using_community_templates.len() - k,
    {
        let ghost before = args@;
        let flag = String::from_str("-t");
        let t = config.using_community_templates[k].clone();
        args.push(flag);
        args.push(t);
        assert(ts.take(k + 1).drop_last() =~= ts.take(k as int));
        assert(ts.take(k + 1).last() == t@);
        assert(texts(args@) =~= texts(before) + seq![flag@, t@]);
        assert(texts(args@) =~= head + template_args(ts.take(k + 1)));
        k = k + 1;
    }
    assert(ts.take(ts.len() as int) =~= ts);
    args
}

/// The text of the desktop notification about findings on `domain`.
pub fn detections_notification_body(domain: &str) -> (b: String)
    ensures
        b@ == "New vulnerability detected @ "@ + domain@ + "\nCheck CLI for more information"@,
{
    let mut b = String::from_str("New vulnerability detected @ ");
    b.append(domain);
    b.append("\nCheck CLI for more information");
    b
}

} // verus!
