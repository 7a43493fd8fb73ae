//! File attributes, their ordering under the configured sort keys, and the
//! header line that describes an equality key.

use std::cmp::Ordering;
use vstd::prelude::*;
use crate::config::ConfigFile;
use crate::text::code_point;

verus! {

/// A point in time: whole seconds since 1970-01-01T00:00:00Z, which may be
/// negative, and the nanoseconds into that second.
#[derive(Clone, Copy, Debug, PartialEq, Eq, Hash, PartialOrd, Ord)]
pub struct Timestamp {
    pub secs: i64,
    pub nanos: u32,
}

/// The attributes of a file that take part in equality and ordering. A field
/// that is `None` was not asked for and takes part in nothing.
#[derive(Clone, Debug, PartialEq, Eq, Hash, PartialOrd, Ord)]
pub struct CheckOptions {
    pub name: Option<String>,
    pub size: Option<u64>,
    pub created: Option<Timestamp>,
    pub modified: Option<Timestamp>,
    pub md5: Option<String>,
    pub sha512: Option<String>,
}

/// The mathematical value of a `CheckOptions`: texts as character sequences.
pub struct CheckView {
    pub name: Option<Seq<char>>,
    pub size: Option<u64>,
    pub created: Option<Timestamp>,
    pub modified: Option<Timestamp>,
    pub md5: Option<Seq<char>>,
    pub sha512: Option<Seq<char>>,
}

/// The characters of an optional text.
pub open spec fn text_view(t: Option<String>) -> Option<Seq<char>> {
    match t {
        Some(s) => Some(s@),
        None => None,
    }
}

impl View for CheckOptions {
    type V = CheckView;

    open spec fn view(&self) -> CheckView {
        CheckView {
            name: text_view(self.name),
            size: self.size,
            created: self.created,
            modified: self.modified,
            md5: text_view(self.md5),
            sha512: text_view(self.sha512),
        }
    }
}

/// The fields of a set of attributes as plain values, in the order name,
/// size, creation time, modification time, MD5, SHA-512; a time is its
/// seconds and nanoseconds.
pub type KeyParts = (
    Option<String>,
    Option<u64>,
    Option<(i64, u32)>,
    Option<(i64, u32)>,
    Option<String>,
    Option<String>,
);

/// The point in time that a pair of seconds and nanoseconds stands for.
pub open spec fn stamp_view(t: Option<(i64, u32)>) -> Option<Timestamp> {
    match t {
        Some((secs, nanos)) => Some(Timestamp { secs, nanos }),
        None => None,
    }
}

/// The attributes that plain values stand for.
pub open spec fn parts_view(parts: KeyParts) -> CheckView {
    CheckView {
        name: text_view(parts.0),
        size: parts.1,
        created: stamp_view(parts.2),
        modified: stamp_view(parts.3),
        md5: text_view(parts.4),
        sha512: text_view(parts.5),
    }
}

fn stamp_parts(t: Option<Timestamp>) -> (r: Option<(i64, u32)>)
    ensures
        stamp_view(r) == t,
{
    match t {
        Some(at) => Some((at.secs, at.nanos)),
        None => None,
    }
}

fn stamp_of(t: Option<(i64, u32)>) -> (r: Option<Timestamp>)
    ensures
        r == stamp_view(t),
{
    match t {
        Some((secs, nanos)) => Some(Timestamp { secs, nanos }),
        None => None,
    }
}

/// A copy of an optional text.
pub fn copy_text(t: &Option<String>) -> (r: Option<String>)
    ensures
        r == *t,
{
    match t {
        Some(s) => Some(s.clone()),
        None => None,
    }
}

impl CheckOptions {
    /// Attributes with nothing set.
    pub fn new() -> (r: CheckOptions)
        ensures
            r@ == (CheckView {
                name: None,
                size: None,
                created: None,
                modified: None,
                md5: None,
                sha512: None,
            }),
    {
        CheckOptions { name: None, size: None, created: None, modified: None, md5: None, sha512: None }
    }

    /// Takes the attributes apart into plain values.
    pub fn into_parts(self) -> (r: KeyParts)
        ensures
            parts_view(r) == self@,
    {
        (
            self.name,
            self.size,
            stamp_parts(self.created),
            stamp_parts(self.modified),
            self.md5,
            self.sha512,
        )
    }

    /// Puts attributes together from plain values.
    pub fn from_parts(parts: KeyParts) -> (r: CheckOptions)
        ensures
            r@ == parts_view(parts),
    {
        CheckOptions {
            name: parts.0,
            size: parts.1,
            created: stamp_of(parts.2),
            modified: stamp_of(parts.3),
            md5: parts.4,
            sha512: parts.5,
        }
    }

    /// A copy with the same fields.
    pub fn duplicate(&self) -> (r: CheckOptions)
        ensures
            r == *self,
    {
        CheckOptions {
            name: copy_text(&self.name),
            size: self.size,
            created: self.created,
            modified: self.modified,
            md5: copy_text(&self.md5),
            sha512: copy_text(&self.sha512),
        }
    }
}

/// The opposite order.
pub open spec fn reversed(o: Ordering) -> Ordering {
    match o {
        Ordering::Less => Ordering::Greater,
        Ordering::Equal => Ordering::Equal,
        Ordering::Greater => Ordering::Less,
    }
}

/// Texts in dictionary order by Unicode scalar value; a proper prefix comes
/// first.
pub open spec fn text_order(a: Seq<char>, b: Seq<char>) -> Ordering
    decreases a.len(),
{
    if a.len() == 0 {
        if b.len() == 0 {
            Ordering::Equal
        } else {
            Ordering::Less
        }
    } else if b.len() == 0 {
        Ordering::Greater
    } else if code_point(a[0]) < code_point(b[0]) {
        Ordering::Less
    } else if code_point(a[0]) > code_point(b[0]) {
        Ordering::Greater
    } else {
        text_order(a.skip(1), b.skip(1))
    }
}

/// Optional names: an absent name comes before every present one.
pub open spec fn name_order(a: Option<Seq<char>>, b: Option<Seq<char>>) -> Ordering {
    match (a, b) {
        (None, None) => Ordering::Equal,
        (None, Some(_)) => Ordering::Less,
        (Some(_), None) => Ordering::Greater,
        (Some(x), Some(y)) => text_order(x, y),
    }
}

/// Optional sizes: an absent size comes before every present one.
pub open spec fn size_order(a: Option<u64>, b: Option<u64>) -> Ordering {
    match (a, b) {
        (None, None) => Ordering::Equal,
        (None, Some(_)) => Ordering::Less,
        (Some(_), None) => Ordering::Greater,
        (Some(x), Some(y)) => if x < y {
            Ordering::Less
        } else if x == y {
            Ordering::Equal
        } else {
            Ordering::Greater
        },
    }
}

/// Points in time: by seconds, then by nanoseconds.
pub open spec fn instant_order(x: Timestamp, y: Timestamp) -> Ordering {
    if x.secs < y.secs {
        Ordering::Less
    } else if x.secs > y.secs {
        Ordering::Greater
    } else if x.nanos < y.nanos {
        Ordering::Less
    } else if x.nanos > y.nanos {
        Ordering::Greater
    } else {
        Ordering::Equal
    }
}

/// Optional points in time: an absent one comes before every present one.
pub open spec fn time_order(a: Option<Timestamp>, b: Option<Timestamp>) -> Ordering {
    match (a, b) {
        (None, None) => Ordering::Equal,
        (None, Some(_)) => Ordering::Less,
        (Some(_), None) => Ordering::Greater,
        (Some(x), Some(y)) => instant_order(x, y),
    }
}

/// What one sort key contributes: nothing (`Equal`) when the key is off, the
/// field's order when it is sorted ascending, and the order of the swapped
/// pair when it is sorted descending only.
pub open spec fn keyed(asc: bool, desc: bool, forward: Ordering, backward: Ordering) -> Ordering {
    if asc {
        forward
    } else if desc {
        backward
    } else {
        Ordering::Equal
    }
}

/// The first of two results that decides.
pub open spec fn first_decided(first: Ordering, rest: Ordering) -> Ordering {
    if first is Equal {
        rest
    } else {
        first
    }
}

/// The configured multi-key order: name, size, creation time, modification
/// time, each only if switched on; the first key that tells the two apart
/// decides, and if none does they are equal.
pub open spec fn compare_views(cfg: &ConfigFile, a: CheckView, b: CheckView) -> Ordering {
    first_decided(
        keyed(
            cfg.sort_res_name_asc,
            cfg.sort_res_name_desc,
            name_order(a.name, b.name),
            name_order(b.name, a.name),
        ),
        first_decided(
            keyed(
                cfg.sort_res_size_asc,
                cfg.sort_res_size_desc,
                size_order(a.size, b.size),
                size_order(b.size, a.size),
            ),
            first_decided(
                keyed(
                    cfg.sort_res_cdate_asc,
                    cfg.sort_res_cdate_desc,
                    time_order(a.created, b.created),
                    time_order(b.created, a.created),
                ),
                keyed(
                    cfg.sort_res_mdate_asc,
                    cfg.sort_res_mdate_desc,
                    time_order(a.modified, b.modified),
                    time_order(b.modified, a.modified),
                ),
            ),
        ),
    )
}

/// Swapping two texts reverses their order.
pub proof fn lemma_text_order_reversed(a: Seq<char>, b: Seq<char>)
    ensures
        text_order(b, a) == reversed(text_order(a, b)),
    decreases a.len(),
{
    if a.len() > 0 && b.len() > 0 && code_point(a[0]) == code_point(b[0]) {
        lemma_text_order_reversed(a.skip(1), b.skip(1));
    }
}

/// The order of texts is transitive, and strictly so where one step is
/// strict.
pub proof fn lemma_text_order_chain(a: Seq<char>, b: Seq<char>, c: Seq<char>)
    ensures
        !(text_order(a, b) is Greater) && !(text_order(b, c) is Greater) ==> {
            &&& !(text_order(a, c) is Greater)
            &&& (text_order(a, b) is Less || text_order(b, c) is Less) ==> text_order(a, c) is Less
        },
    decreases a.len(),
{
    if a.len() > 0 && b.len() > 0 && c.len() > 0 && code_point(a[0]) == code_point(b[0])
        && code_point(b[0]) == code_point(c[0]) {
        lemma_text_order_chain(a.skip(1), b.skip(1), c.skip(1));
    }
}

proof fn lemma_name_order_chain(a: Option<Seq<char>>, b: Option<Seq<char>>, c: Option<Seq<char>>)
    ensures
        name_order(b, a) == reversed(name_order(a, b)),
        !(name_order(a, b) is Greater) && !(name_order(b, c) is Greater) ==> {
            &&& !(name_order(a, c) is Greater)
            &&& (name_order(a, b) is Less || name_order(b, c) is Less) ==> name_order(a, c) is Less
        },
{
    if let (Some(x), Some(y)) = (a, b) {
        lemma_text_order_reversed(x, y);
        if let Some(z) = c {
            lemma_text_order_chain(x, y, z);
        }
    }
}

/// Swapping the two sides reverses the configured order.
pub proof fn lemma_compare_reversed(cfg: &ConfigFile, a: CheckView, b: CheckView)
    ensures
        compare_views(cfg, b, a) == reversed(compare_views(cfg, a, b)),
{
    lemma_name_order_chain(a.name, b.name, a.name);
    lemma_name_order_chain(b.name, a.name, b.name);
}

/// The configured order is transitive: if `a` does not come after `b`, nor
/// `b` after `c`, then `a` does not come after `c`.
pub proof fn lemma_compare_transitive(cfg: &ConfigFile, a: CheckView, b: CheckView, c: CheckView)
    requires
        !(compare_views(cfg, a, b) is Greater),
        !(compare_views(cfg, b, c) is Greater),
    ensures
        !(compare_views(cfg, a, c) is Greater),
{
    lemma_name_order_chain(a.name, b.name, c.name);
    lemma_name_order_chain(c.name, b.name, a.name);
    lemma_name_order_chain(a.name, c.name, a.name);
    lemma_name_order_chain(b.name, c.name, b.name);
}

/// Trusted: `str::cmp` from std, which orders strings by their bytes, and so
/// by the Unicode scalar values of their characters, a proper prefix first.
#[verifier::external_body]
fn order_texts(a: &str, b: &str) -> (r: Ordering)
    ensures
        r == text_order(a@, b@),
{
    a.cmp(b)
}

fn order_names(a: &Option<String>, b: &Option<String>) -> (r: Ordering)
    ensures
        r == name_order(text_view(*a), text_view(*b)),
{
    match (a, b) {
        (None, None) => Ordering::Equal,
        (None, Some(_)) => Ordering::Less,
        (Some(_), None) => Ordering::Greater,
        (Some(x), Some(y)) => order_texts(x.as_str(), y.as_str()),
    }
}

fn order_sizes(a: &Option<u64>, b: &Option<u64>) -> (r: Ordering)
    ensures
        r == size_order(*a, *b),
{
    match (a, b) {
        (None, None) => Ordering::Equal,
        (None, Some(_)) => Ordering::Less,
        (Some(_), None) => Ordering::Greater,
        (Some(x), Some(y)) => if *x < *y {
            Ordering::Less
        } else if *x == *y {
            Ordering::Equal
        } else {
            Ordering::Greater
        },
    }
}

/// Orders two points in time by seconds, then nanoseconds.
pub fn order_instants(x: &Timestamp, y: &Timestamp) -> (r: Ordering)
    ensures
        r == instant_order(*x, *y),
{
    if x.secs < y.secs {
        Ordering::Less
    } else if x.secs > y.secs {
        Ordering::Greater
    } else if x.nanos < y.nanos {
        Ordering::Less
    } else if x.nanos > y.nanos {
        Ordering::Greater
    } else {
        Ordering::Equal
    }
}

fn order_times(a: &Option<Timestamp>, b: &Option<Timestamp>) -> (r: Ordering)
    ensures
        r == time_order(*a, *b),
{
    match (a, b) {
        (None, None) => Ordering::Equal,
        (None, Some(_)) => Ordering::Less,
        (Some(_), None) => Ordering::Greater,
        (Some(x), Some(y)) => order_instants(x, y),
    }
}

fn decided(o: &Ordering) -> (r: bool)
    ensures
        r == !(*o is Equal),
{
    match o {
        Ordering::Equal => false,
        _ => true,
    }
}

/// Orders two sets of attributes by the configured sort keys, in the fixed
/// priority name, size, creation time, modification time. A key that is
/// switched on in both directions counts as ascending.
pub fn compare(cfg: &ConfigFile, opt0: &CheckOptions, opt1: &CheckOptions) -> (r: Ordering)
    ensures
        r == compare_views(cfg, opt0@, opt1@),
{
    if cfg.sort_res_name_asc || cfg.sort_res_name_desc {
        let by_name = if cfg.sort_res_name_asc {
            order_names(&opt0.name, &opt1.name)
        } else {
            order_names(&opt1.name, &opt0.name)
        };
        if decided(&by_name) {
            return by_name;
        }
    }
    if cfg.sort_res_size_asc || cfg.sort_res_size_desc {
        let by_size = if cfg.sort_res_size_asc {
            order_sizes(&opt0.size, &opt1.size)
        } else {
            order_sizes(&opt1.size, &opt0.size)
        };
        if decided(&by_size) {
            return by_size;
        }
    }
    if cfg.sort_res_cdate_asc || cfg.sort_res_cdate_desc {
        let by_created = if cfg.sort_res_cdate_asc {
            order_times(&opt0.created, &opt1.created)
        } else {
            order_times(&opt1.created, &opt0.created)
        };
        if decided(&by_created) {
            return by_created;
        }
    }
    if cfg.sort_res_mdate_asc || cfg.sort_res_mdate_desc {
        let by_modified = if cfg.sort_res_mdate_asc {
            order_times(&opt0.modified, &opt1.modified)
        } else {
            order_times(&opt1.modified, &opt0.modified)
        };
        if decided(&by_modified) {
            return by_modified;
        }
    }
    Ordering::Equal
}

} // verus!
