//! The lines of the report: a header for each equality key, and one line for
//! each member of its group.

use vstd::prelude::*;
use vstd::string::StringExecFns;
use crate::check::{CheckOptions, CheckView, Timestamp};
use crate::group::Group;
use crate::scan::FileRecord;
use crate::text::{decimal_digits, u64_to_decimal};

verus! {

/// A point in time written as `YYYY-MM-DD HH:MM:SS` in UTC, if the calendar
/// in use can hold it.
pub uninterp spec fn utc_text(secs: i64, nanos: u32) -> Option<Seq<char>>;

/// Trusted: chrono's `DateTime::from_timestamp`, which gives nothing for a
/// time outside its calendar, followed by `format` with the pattern
/// `%Y-%m-%d %H:%M:%S`. The text depends on the seconds and nanoseconds alone.
#[verifier::external_body]
fn utc_text_of(secs: i64, nanos: u32) -> (r: Option<String>)
    ensures
        r matches Some(s) ==> utc_text(secs, nanos) == Some(s@),
        r is None ==> utc_text(secs, nanos) is None,
{
    match chrono::DateTime::from_timestamp(secs, nanos) {
        Some(t) => Some(t.format("%Y-%m-%d %H:%M:%S").to_string()),
        None => None,
    }
}

/// A header under construction: the text so far, and whether no segment has
/// been written yet.
pub struct Partial {
    pub text: Seq<char>,
    pub first: bool,
}

/// Appends a segment if it is present; every segment but the first is led by
/// its separator.
pub open spec fn with_part(so_far: Partial, separator: Seq<char>, part: Option<Seq<char>>) -> Partial {
    match part {
        None => so_far,
        Some(body) => Partial {
            text: if so_far.first {
                so_far.text + body
            } else {
                so_far.text + separator + body
            },
            first: false,
        },
    }
}

/// A label in front of a text, if the text is present.
pub open spec fn labelled(label: Seq<char>, body: Option<Seq<char>>) -> Option<Seq<char>> {
    match body {
        Some(b) => Some(label + b),
        None => None,
    }
}

/// The written form of an optional point in time; `None` inside if it cannot
/// be written.
pub open spec fn time_text(at: Option<Timestamp>) -> Option<Option<Seq<char>>> {
    match at {
        None => Some(None),
        Some(t) => match utc_text(t.secs, t.nanos) {
            Some(s) => Some(Some(s)),
            None => None,
        },
    }
}

/// The size in decimal, if there is one.
pub open spec fn size_text(size: Option<u64>) -> Option<Seq<char>> {
    match size {
        Some(n) => Some(decimal_digits(n as nat)),
        None => None,
    }
}

/// The header of a key: its present fields in the order name, size, creation
/// time, modification time, MD5, SHA-512. The size is led by ` - `, the
/// others by `, ` and their label; the first segment written has no
/// separator. There is no header if a time cannot be written.
pub open spec fn header_view(key: CheckView) -> Option<Seq<char>> {
    match (time_text(key.created), time_text(key.modified)) {
        (Some(created), Some(modified)) => {
            let start = Partial { text: Seq::empty(), first: true };
            let named = with_part(start, Seq::empty(), key.name);
            let sized = with_part(named, " - "@, size_text(key.size));
            let born = with_part(sized, ", "@, labelled("created: "@, created));
            let changed = with_part(born, ", "@, labelled("modified: "@, modified));
            let summed = with_part(changed, ", "@, labelled("MD5: "@, key.md5));
            let done = with_part(summed, ", "@, labelled("SHA512: "@, key.sha512));
            Some(done.text)
        },
        _ => None,
    }
}

fn write_time(at: &Option<Timestamp>) -> (r: Option<Option<String>>)
    ensures
        match r {
            Some(Some(s)) => time_text(*at) == Some(Some(s@)),
            Some(None) => time_text(*at) == Some(None::<Seq<char>>),
            None => time_text(*at) is None,
        },
{
    match at {
        None => Some(None),
        Some(t) => match utc_text_of(t.secs, t.nanos) {
            Some(s) => Some(Some(s)),
            None => None,
        },
    }
}

fn push_part(text: &mut String, first: &mut bool, separator: &str, label: &str, body: &str)
    ensures
        (Partial { text: final(text)@, first: *final(first) }) == with_part(
            Partial { text: old(text)@, first: *old(first) },
            separator@,
            Some(label@ + body@),
        ),
{
    if !*first {
        text.append(separator);
    }
    text.append(label);
    text.append(body);
    *first = false;
    proof {
        assert(old(text)@ + separator@ + label@ + body@ == old(text)@ + separator@ + (label@
            + body@));
        assert(old(text)@ + label@ + body@ == old(text)@ + (label@ + body@));
    }
}

/// Writes the header line of an equality key. The SHA-512 segment shows the
/// SHA-512 digest. Returns `None` exactly if a time of the key lies outside
/// the calendar and cannot be written.
pub fn header(key: &CheckOptions) -> (r: Option<String>)
    ensures
        match r {
            Some(s) => header_view(key@) == Some(s@),
            None => header_view(key@) is None,
        },
{
    let created = match write_time(&key.created) {
        Some(c) => c,
        None => {
            return None;
        },
    };
    let modified = match write_time(&key.modified) {
        Some(m) => m,
        None => {
            return None;
        },
    };
    let mut text = String::new();
    let mut first = true;
    proof {
        reveal_strlit("");
        assert(""@ == Seq::<char>::empty());
    }
    match &key.name {
        Some(name) => {
            push_part(&mut text, &mut first, "", "", name.as_str());
            assert(""@ + name@ == name@);
        },
        None => {},
    }
    match key.size {
        Some(size) => {
            let digits = u64_to_decimal(size);
            push_part(&mut text, &mut first, " - ", "", digits.as_str());
            assert(""@ + digits@ == digits@);
        },
        None => {},
    }
    match &created {
        Some(at) => {
            push_part(&mut text, &mut first, ", ", "created: ", at.as_str());
        },
        None => {},
    }
    match &modified {
        Some(at) => {
            push_part(&mut text, &mut first, ", ", "modified: ", at.as_str());
        },
        None => {},
    }
    match &key.md5 {
        Some(digest) => {
            push_part(&mut text, &mut first, ", ", "MD5: ", digest.as_str());
        },
        None => {},
    }
    match &key.sha512 {
        Some(digest) => {
            push_part(&mut text, &mut first, ", ", "SHA512: ", digest.as_str());
        },
        None => {},
    }
    Some(text)
}

/// The report line of a group member: its path behind four spaces.
pub fn member_line(path: &str) -> (r: String)
    ensures
        r@ == "    "@ + path@,
{
    String::from_str("    ").concat(path)
}

/// The report lines of a group's members: each path behind four spaces.
pub open spec fn member_lines(files: Seq<FileRecord>) -> Seq<Seq<char>> {
    files.map_values(|f: FileRecord| "    "@ + f.path@)
}

/// The report lines of a group: its header, then its members. There are
/// none if the header cannot be written.
pub open spec fn group_lines(group: Group) -> Option<Seq<Seq<char>>> {
    match header_view(group.key@) {
        Some(h) => Some(seq![h] + member_lines(group.files@)),
        None => None,
    }
}

/// The report: the lines of each group, in the order of the groups. There is
/// none if some header cannot be written.
pub open spec fn report_view(groups: Seq<Group>) -> Option<Seq<Seq<char>>>
    decreases groups.len(),
{
    if groups.len() == 0 {
        Some(Seq::empty())
    } else {
        match (report_view(groups.drop_last()), group_lines(groups.last())) {
            (Some(before), Some(lines)) => Some(before + lines),
            _ => None,
        }
    }
}

/// The characters of each line.
pub open spec fn texts(lines: Seq<String>) -> Seq<Seq<char>> {
    lines.map_values(|s: String| s@)
}

proof fn lemma_report_fails(groups: Seq<Group>, upto: int)
    requires
        0 <= upto <= groups.len(),
        report_view(groups.take(upto)) is None,
    ensures
        report_view(groups) is None,
    decreases groups.len() - upto,
{
    if upto == groups.len() {
        assert(groups.take(upto) == groups);
    } else {
        assert(groups.take(upto + 1).drop_last() == groups.take(upto));
        lemma_report_fails(groups, upto + 1);
    }
}

/// Writes the report of the groups: for each group its header line, then
/// one line for each member. Returns `None` exactly if the header of some
/// group cannot be written.
pub fn report_lines(groups: &Vec<Group>) -> (r: Option<Vec<String>>)
    ensures
        match r {
            Some(lines) => report_view(groups@) == Some(texts(lines@)),
            None => report_view(groups@) is None,
        },
{
    let mut lines: Vec<String> = Vec::new();
    let mut i: usize = 0;
    assert(texts(lines@) == Seq::<Seq<char>>::empty());
    while i < groups.len()
        invariant
            i <= groups.len(),
            report_view(groups@.take(i as int)) == Some(texts(lines@)),
        decreases groups.len() - i,
    {
        let group = &groups[i];
        proof {
            assert(groups@.take(i + 1).drop_last() == groups@.take(i as int));
            assert(groups@.take(i + 1).last() == groups@[i as int]);
        }
        let ghost before = texts(lines@);
        match header(&group.key) {
            None => {
                proof {
                    lemma_report_fails(groups@, i + 1);
                }
                return None;
            },
            Some(h) => {
                lines.push(h);
                assert(texts(lines@) == before + seq![h@]);
                let mut j: usize = 0;
                while j < group.files.len()
                    invariant
                        j <= group.files.len(),
                        texts(lines@) == before + (seq![h@] + member_lines(
                            group.files@.take(j as int),
                        )),
                    decreases group.files.len() - j,
                {
                    let line = member_line(group.files[j].path.as_str());
                    let ghost had = texts(lines@);
                    lines.push(line);
                    proof {
                        assert(texts(lines@) == had.push(line@));
                        assert(group.files@.take(j + 1) == group.files@.take(j as int).push(
                            group.files@[j as int],
                        ));
                        assert(member_lines(group.files@.take(j + 1)) == member_lines(
                            group.files@.take(j as int),
                        ).push(line@));
                    }
                    j += 1;
                }
                assert(group.files@.take(group.files.len() as int) == group.files@);
            },
        }
        i += 1;
    }
    assert(groups@.take(groups.len() as int) == groups@);
    Some(lines)
}

} // verus!
