pub mod scanners;

use vstd::prelude::*;

use crate::common::strings::{join_sep, texts};
use crate::config::{Config, NucleiConfig};

verus! {

/// What nuclei reports about the template that matched.
#[derive(Debug)]
pub struct NucleiTreeInfo {
    pub name: String,
    pub author: Vec<String>,
    pub tags: Vec<String>,
    pub severity: String,
    pub description: Option<String>,
    pub reference: Option<Vec<String>>,
}

/// One finding, as nuclei prints it in its JSON output.
#[derive(Debug)]
pub struct NucleiJsonOutput {
    pub template: String,
    pub template_id: String,
    pub info: NucleiTreeInfo,
    pub host: String,
    pub matched_at: Option<String>,
    pub type_: String,
    pub ip: Option<String>,
    pub timestamp: String,
    pub curl_command: Option<String>,
    pub matcher_status: bool,
    pub matched_line: Option<String>,
}

/// Runs nuclei on the targets it is given.
pub struct ServicesScanner {
    pub nuclei_config: NucleiConfig,
}

/// The strings written one after the other with a space between two of them.
pub open spec fn join_spaced(parts: Seq<Seq<char>>) -> Seq<char> {
    join_sep(parts, seq![' '])
}

/// `parts` are the pieces of `s` between its spaces: written with a space
/// between two of them they give `s`, and none holds a space.
pub open spec fn is_space_split(s: Seq<char>, parts: Seq<Seq<char>>) -> bool {
    &&& parts.len() >= 1
    &&& join_spaced(parts) == s
    &&& forall|i: int| 0 <= i < parts.len() ==> !(#[trigger] parts[i]).contains(' ')
}

/// A string has only one split at its spaces: the pieces are determined by
/// the string, so the arguments built from a configured argument line are too.
pub proof fn law_space_split_is_unique(s: Seq<char>, a: Seq<Seq<char>>, b: Seq<Seq<char>>)
    requires
        is_space_split(s, a),
        is_space_split(s, b),
    ensures
        a == b,
    decreases a.len(),
{
    if a.len() == 1 && b.len() == 1 {
        assert(a =~= b);
    } else if a.len() == 1 || b.len() == 1 {
        let (one, many) = if a.len() == 1 { (a, b) } else { (b, a) };
        let x = join_spaced(many.drop_last());
        assert(s == x + seq![' '] + many.last());
        assert(s[x.len() as int] == ' ');
        assert(one[0] == s);
        assert(one[0].contains(' '));
    } else {
        let la = a.last();
        let lb = b.last();
        let xa = join_spaced(a.drop_last());
        let xb = join_spaced(b.drop_last());
        assert(s == xa + seq![' '] + la);
        assert(s == xb + seq![' '] + lb);
        assert(!la.contains(' ')) by {
            assert(a[a.len() - 1] == la);
        }
        assert(!lb.contains(' ')) by {
            assert(b[b.len() - 1] == lb);
        }
        if la.len() < lb.len() {
            let p = s.len() - la.len() - 1;
            assert(s[p] == ' ');
            assert(lb[p - (s.len() - lb.len())] == s[p]);
            assert(false);
        } else if lb.len() < la.len() {
            let p = s.len() - lb.len() - 1;
            assert(s[p] == ' ');
            assert(la[p - (s.len() - la.len())] == s[p]);
            assert(false);
        }
        assert(la =~= s.subrange(s.len() - la.len(), s.len() as int));
        assert(lb =~= s.subrange(s.len() - lb.len(), s.len() as int));
        assert(xa =~= s.subrange(0, xa.len() as int));
        assert(xb =~= s.subrange(0, xb.len() as int));
        let da = a.drop_last();
        let db = b.drop_last();
        assert forall|i: int| 0 <= i < da.len() implies !(#[trigger] da[i]).contains(' ') by {
            assert(da[i] == a[i]);
        }
        assert forall|i: int| 0 <= i < db.len() implies !(#[trigger] db[i]).contains(' ') by {
            assert(db[i] == b[i]);
        }
        law_space_split_is_unique(xa, da, db);
        assert(a =~= da.push(la));
        assert(b =~= db.push(lb));
    }
}

/// The pieces of `s` between its spaces; two spaces in a row give an empty
/// piece, and a string without spaces is its own only piece.
pub fn split_spaces(s: &str) -> (parts: Vec<String>)
    ensures
        is_space_split(s@, texts(parts@)),
{
    let n = s.unicode_len();
    let mut parts: Vec<String> = Vec::new();
    let mut start: usize = 0;
    let mut i: usize = 0;
    while i < n
        invariant
            n == s@.len(),
            start <= i <= n,
            texts(parts@).len() == 0 ==> start == 0,
            texts(parts@).len() > 0 ==> s@.subrange(0, start as int) == join_spaced(texts(parts@)).push(' '),
            forall|j: int| 0 <= j < texts(parts@).len() ==> !(#[trigger] texts(parts@)[j]).contains(' '),
            forall|j: int| start <= j < i ==> s@[j] != ' ',
        decreases n - i,
    {
        if s.get_char(i) == ' ' {
            let piece = String::from_str(s.substring_char(start, i));
            let ghost old_parts = texts(parts@);
            parts.push(piece);
            proof {
                let np = texts(parts@);
                assert(np =~= old_parts.push(s@.subrange(start as int, i as int)));
                assert(np.drop_last() =~= old_parts);
                assert(!s@.subrange(start as int, i as int).contains(' '));
                if old_parts.len() == 0 {
                    assert(s@.subrange(0, i + 1) =~= s@.subrange(start as int, i as int).push(' '));
                } else {
                    assert(s@.subrange(0, i + 1) =~= s@.subrange(0, start as int) + s@.subrange(
                        start as int,
                        i as int,
                    ).push(' '));
                }
                assert(s@.subrange(0, i + 1) =~= join_spaced(np).push(' '));
                assert forall|j: int| 0 <= j < np.len() implies !(#[trigger] np[j]).contains(' ') by {
                    if j < old_parts.len() {
                        assert(np[j] == old_parts[j]);
                    }
                }
            }
            start = i + 1;
        }
        i = i + 1;
    }
    let last = String::from_str(s.substring_char(start, n));
    let ghost old_parts = texts(parts@);
    parts.push(last);
    proof {
        let np = texts(parts@);
        assert(np =~= old_parts.push(s@.subrange(start as int, n as int)));
        assert(np.drop_last() =~= old_parts);
        assert(!s@.subrange(start as int, n as int).contains(' '));
        if old_parts.len() == 0 {
            assert(s@.subrange(start as int, n as int) =~= s@);
        } else {
            assert(s@ =~= s@.subrange(0, start as int) + s@.subrange(start as int, n as int));
        }
        assert(join_spaced(np) == s@);
        assert forall|j: int| 0 <= j < np.len() implies !(#[trigger] np[j]).contains(' ') by {
            if j < old_parts.len() {
                assert(np[j] == old_parts[j]);
            }
        }
    }
    parts
}

/// The arguments nuclei is started with to scan `target`: the target, the
/// nuclei configuration file, JSON output, then the configured arguments
/// split at their spaces.
pub open spec fn scan_args_for(target: Seq<char>, config_file: Seq<char>, extra: Seq<Seq<char>>) -> Seq<Seq<char>> {
    seq!["-u"@, target, "-config"@, config_file, "--json"@] + extra
}

impl ServicesScanner {
    /// A scanner that runs nuclei as `config_ctx` says.
    pub fn new(config_ctx: &Config) -> (s: Self)
        ensures
            s.nuclei_config == config_ctx.nuclei,
    {
        Self {
            nuclei_config: NucleiConfig {
                nuclei_path: config_ctx.nuclei.nuclei_path.clone(),
                config_file: config_ctx.nuclei.config_file.clone(),
                cli_args: config_ctx.nuclei.cli_args.clone(),
            },
        }
    }

    /// The arguments nuclei is started with to scan `target`.
    pub fn scan_args(&self, target: &str) -> (args: Vec<String>)
        ensures
            exists|extra: Seq<Seq<char>>|
                is_space_split(self.nuclei_config.cli_args@, extra) && texts(args@) == scan_args_for(
                    target@,
                    self.nuclei_config.config_file@,
                    extra,
                ),
    {
        let mut args: Vec<String> = Vec::new();
        args.push(String::from_str("-u"));
        args.push(String::from_str(target));
        args.push(String::from_str("-config"));
        args.push(self.nuclei_config.config_file.clone());
        args.push(String::from_str("--json"));
        let ghost head = texts(args@);
        let mut extra = split_spaces(self.nuclei_config.cli_args.as_str());
        let ghost ex = texts(extra@);
        args.append(&mut extra);
        assert(texts(args@) =~= head + ex);
        args
    }
}

} // verus!
