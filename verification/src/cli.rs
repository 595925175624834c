use vstd::prelude::*;

use crate::common::strings::{
    is_outer_trim, join_sep, join_texts, law_trim_takes_only_outer_whitespace, opt_text, opt_texts, texts,
    trim_text, trimmed,
};
use crate::daemon::nuclei::{NucleiJsonOutput, DATABASE_FILENAME};

verus! {

/// `dir` with the relative path `name` adjoined, as a path join does it:
/// a `/` goes between them unless `dir` is empty or already ends with one.
pub open spec fn join_relative(dir: Seq<char>, name: Seq<char>) -> Seq<char> {
    if dir.len() == 0 || dir.last() == '/' {
        dir + name
    } else {
        dir + seq!['/'] + name
    }
}

/// Path of the detection database inside the configuration directory `hogg_dir`.
pub fn get_database_dir(hogg_dir: &str) -> (p: String)
    ensures
        p@ == join_relative(hogg_dir@, DATABASE_FILENAME@),
{
    let n = hogg_dir.unicode_len();
    let mut p = String::from_str(hogg_dir);
    if n > 0 && hogg_dir.get_char(n - 1) != '/' {
        p.append("/");
        proof {
            reveal_strlit("/");
        }
    }
    p.append(DATABASE_FILENAME);
    p
}

/// The text of an optional string, or `default` when there is none.
pub open spec fn text_or(o: Option<String>, default: Seq<char>) -> Seq<char> {
    match opt_text(o) {
        Some(t) => t,
        None => default,
    }
}

/// The lines that describe a finding to the user; the description (or
/// `No description`) is shown without the whitespace around it.
pub open spec fn report_lines(d: NucleiJsonOutput) -> Seq<Seq<char>> {
    seq![
        "Vulnerability "@ + d.info.name@ + " - "@ + d.info.severity@,
        " - Host: "@ + d.host@,
        " - Matched at: "@ + text_or(d.matched_at, seq![]),
        " - Description: "@ + trimmed(text_or(d.info.description, "No description"@)),
        " - References: "@ + join_sep(
            match opt_texts(d.info.reference) {
                Some(rs) => rs,
                None => seq!["None"@],
            },
            ", "@,
        ),
        " - Timestamp: "@ + d.timestamp@,
    ]
}

/// The description line of a report shows the whole description (or
/// `No description`) with only the whitespace at its two ends taken off:
/// every inner character, line breaks included, stays, in order.
pub proof fn law_report_shows_the_whole_description(d: NucleiJsonOutput)
    ensures
        report_lines(d).len() == 6,
        report_lines(d)[0] == "Vulnerability "@ + d.info.name@ + " - "@ + d.info.severity@,
        report_lines(d)[1] == " - Host: "@ + d.host@,
        d.matched_at matches Some(m) ==> report_lines(d)[2] == " - Matched at: "@ + m@,
        d.matched_at is None ==> report_lines(d)[2] == " - Matched at: "@,
        d.info.reference is None ==> report_lines(d)[4] == " - References: None"@,
        report_lines(d)[5] == " - Timestamp: "@ + d.timestamp@,
        exists|a: int, b: int|
            #[trigger] is_outer_trim(
                text_or(d.info.description, "No description"@),
                text_or(d.info.description, "No description"@).subrange(a, b),
                a,
                b,
            ) && report_lines(d)[3] == " - Description: "@ + text_or(
                d.info.description,
                "No description"@,
            ).subrange(a, b),
{
    let desc = text_or(d.info.description, "No description"@);
    law_trim_takes_only_outer_whitespace(desc);
    let (a, b) = choose|a: int, b: int| is_outer_trim(desc, trimmed(desc), a, b);
    assert(is_outer_trim(desc, desc.subrange(a, b), a, b));
    assert(report_lines(d)[3] == " - Description: "@ + desc.subrange(a, b));
    assert(" - Matched at: "@ + seq![] =~= " - Matched at: "@);
    reveal_strlit("None");
    reveal_strlit(" - References: ");
    reveal_strlit(" - References: None");
    assert(join_sep(seq!["None"@], ", "@) == "None"@);
    assert(" - References: "@ + "None"@ =~= " - References: None"@);
}

/// The text of `o`, or `default` when there is none.
fn text_or_default(o: &Option<String>, default: &str) -> (r: String)
    ensures
        r@ == text_or(*o, default@),
{
    match o {
        Some(t) => t.clone(),
        None => String::from_str(default),
    }
}

/// The lines that describe the finding `d` to the user.
pub fn detection_report(d: &NucleiJsonOutput) -> (lines: Vec<String>)
    ensures
        texts(lines@) == report_lines(*d),
{
    let mut lines: Vec<String> = Vec::new();

    let mut l1 = String::from_str("Vulnerability ");
    l1.append(d.info.name.as_str());
    l1.append(" - ");
    l1.append(d.info.severity.as_str());
    lines.push(l1);

    let mut l2 = String::from_str(" - Host: ");
    l2.append(d.host.as_str());
    lines.push(l2);

    let matched = text_or_default(&d.matched_at, "");
    proof {
        reveal_strlit("");
    }
    let mut l3 = String::from_str(" - Matched at: ");
    l3.append(matched.as_str());
    lines.push(l3);

    let description = text_or_default(&d.info.description, "No description");
    let trimmed = trim_text(description.as_str());
    let mut l4 = String::from_str(" - Description: ");
    l4.append(trimmed.as_str());
    lines.push(l4);

    let refs = match &d.info.reference {
        Some(rs) => join_texts(rs, ", "),
        None => String::from_str("None"),
    };
    proof {
        reveal_strlit("None");
        if d.info.reference is None {
            assert(join_sep(seq!["None"@], ", "@) == "None"@);
        }
    }
    let mut l5 = String::from_str(" - References: ");
    l5.append(refs.as_str());
    lines.push(l5);

    let mut l6 = String::from_str(" - Timestamp: ");
    l6.append(d.timestamp.as_str());
    lines.push(l6);

    assert(texts(lines@) =~= report_lines(*d));
    lines
}

} // verus!
