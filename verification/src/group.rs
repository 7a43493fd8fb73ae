//! Grouping records by equality key, ordering the groups and their members,
//! and cutting the result to the first groups.

use itertools::Itertools;
use multimap::MultiMap;
use vstd::prelude::*;
use vstd::seq_lib::to_multiset_contains;
use crate::check::{compare, compare_views, parts_view, CheckOptions, CheckView, KeyParts};
use crate::config::ConfigFile;
use crate::scan::{equality_key, key_view, FileRecord};

verus! {

/// The multimap crate's `MultiMap`; nothing inside it is visible here.
#[verifier::external_type_specification]
#[verifier::external_body]
#[verifier::reject_recursive_types(K)]
#[verifier::reject_recursive_types(V)]
#[verifier::reject_recursive_types(S)]
pub struct ExMultiMap<K, V, S>(MultiMap<K, V, S>);

/// The grouping table: from the plain values of an equality key to the
/// records that have it.
pub type Table = MultiMap<KeyParts, FileRecord>;

/// A bucket as the table hands it out: the plain values of its key, and its
/// records.
pub type Bucket = (KeyParts, Vec<FileRecord>);

/// The files that share one equality key.
#[derive(Clone, Debug, PartialEq, Eq)]
pub struct Group {
    pub key: CheckOptions,
    pub files: Vec<FileRecord>,
}

/// Something that is ordered by a set of attributes.
pub trait Attributed {
    /// The attributes that the thing is ordered by.
    spec fn attrs_view(&self) -> CheckView;

    /// The attributes that the thing is ordered by.
    fn attrs(&self) -> (r: &CheckOptions)
        ensures
            r@ == self.attrs_view(),
    ;
}

impl Attributed for FileRecord {
    open spec fn attrs_view(&self) -> CheckView {
        self.attrs@
    }

    fn attrs(&self) -> (r: &CheckOptions) {
        &self.attrs
    }
}

impl Attributed for Group {
    open spec fn attrs_view(&self) -> CheckView {
        self.key@
    }

    fn attrs(&self) -> (r: &CheckOptions) {
        &self.key
    }
}

/// No item comes after a later one under the configured order.
pub open spec fn ordered<T: Attributed>(cfg: &ConfigFile, items: Seq<T>) -> bool {
    forall|i: int, j: int|
        0 <= i < j < items.len() ==> !(#[trigger] compare_views(
            cfg,
            items[i].attrs_view(),
            items[j].attrs_view(),
        ) is Greater)
}

/// Trusted: `Itertools::sorted_by` of the itertools crate, handed the
/// configured comparison. It returns the same items, rearranged so that none
/// comes after a later one.
#[verifier::external_body]
fn sort_by_attrs<T: Attributed>(cfg: &ConfigFile, items: Vec<T>) -> (r: Vec<T>)
    ensures
        r@.len() == items@.len(),
        r@.to_multiset() == items@.to_multiset(),
        ordered(cfg, r@),
{
    items.into_iter().sorted_by(|a, b| compare(cfg, a.attrs(), b.attrs())).collect()
}

/// What a grouping table holds: for each key that was inserted, the records
/// inserted under it, in the order of insertion.
pub uninterp spec fn buckets(table: Table) -> Map<CheckView, Seq<FileRecord>>;

/// A table after one more record: appended to the bucket of its key, which is
/// created if the key is new.
pub open spec fn with_entry(
    table: Map<CheckView, Seq<FileRecord>>,
    key: CheckView,
    file: FileRecord,
) -> Map<CheckView, Seq<FileRecord>> {
    if table.dom().contains(key) {
        table.insert(key, table[key].push(file))
    } else {
        table.insert(key, seq![file])
    }
}

/// Trusted: `MultiMap::new` of the multimap crate: a table without keys.
#[verifier::external_body]
fn new_table() -> (table: Table)
    ensures
        buckets(table).dom() == Set::<CheckView>::empty(),
{
    MultiMap::new()
}

/// Trusted: `MultiMap::insert` of the multimap crate: the value is pushed to
/// the vector of its key, or starts that vector if the key is new. Keys are
/// tuples of std's options, integers and strings, which are the same
/// exactly if they hold the same values.
#[verifier::external_body]
fn table_insert(table: &mut Table, key: KeyParts, file: FileRecord)
    ensures
        buckets(*final(table)) == with_entry(buckets(*old(table)), parts_view(key), file),
{
    table.insert(key, file)
}

/// Trusted: `MultiMap::into_iter` of the multimap crate: each key once, with
/// its vector, in no particular order.
#[verifier::external_body]
fn table_buckets(table: Table) -> (r: Vec<Bucket>)
    ensures
        forall|i: int|
            0 <= i < r@.len() ==> buckets(table).dom().contains(#[trigger] parts_view(r@[i].0))
                && r@[i].1@ == buckets(table)[parts_view(r@[i].0)],
        forall|i: int, j: int|
            0 <= i < j < r@.len() ==> #[trigger] parts_view(r@[i].0) != #[trigger] parts_view(
                r@[j].0,
            ),
        forall|k: CheckView| buckets(table).dom().contains(k) ==> holds_key(r@, k),
{
    table.into_iter().collect()
}

/// Some bucket has this key.
pub open spec fn holds_key(found: Seq<Bucket>, key: CheckView) -> bool {
    exists|i: int| 0 <= i < found.len() && #[trigger] parts_view(found[i].0) == key
}

/// Some group has this key.
pub open spec fn has_key(groups: Seq<Group>, key: CheckView) -> bool {
    exists|i: int| 0 <= i < groups.len() && #[trigger] groups[i].key@ == key
}

/// The buckets that records fall into: each record, in turn, joins the bucket
/// of its equality key.
pub open spec fn grouped(cfg: &ConfigFile, files: Seq<FileRecord>) -> Map<
    CheckView,
    Seq<FileRecord>,
>
    decreases files.len(),
{
    if files.len() == 0 {
        Map::empty()
    } else {
        with_entry(
            grouped(cfg, files.drop_last()),
            key_view(cfg, files.last().attrs@),
            files.last(),
        )
    }
}

/// A group that reports one bucket: it holds the bucket's records, at least
/// two of them, in the configured order.
pub open spec fn reports_bucket(
    cfg: &ConfigFile,
    table: Map<CheckView, Seq<FileRecord>>,
    group: Group,
) -> bool {
    &&& table.dom().contains(group.key@)
    &&& group.files@.to_multiset() == table[group.key@].to_multiset()
    &&& group.files@.len() >= 2
    &&& ordered(cfg, group.files@)
}

/// The keys of the groups differ from one another.
pub open spec fn distinct_keys(groups: Seq<Group>) -> bool {
    forall|i: int, j: int|
        0 <= i < j < groups.len() ==> #[trigger] groups[i].key@ != #[trigger] groups[j].key@
}

/// `groups` is a full report of the duplicates among `files`: every bucket of
/// two or more records is reported by exactly one group, nothing else is
/// reported, and groups and members stand in the configured order.
pub open spec fn duplicates_of(cfg: &ConfigFile, files: Seq<FileRecord>, groups: Seq<Group>) -> bool {
    let table = grouped(cfg, files);
    &&& forall|i: int| 0 <= i < groups.len() ==> reports_bucket(cfg, table, #[trigger] groups[i])
    &&& distinct_keys(groups)
    &&& forall|k: CheckView|
        table.dom().contains(k) && table[k].len() >= 2 ==> #[trigger] has_key(groups, k)
    &&& ordered(cfg, groups)
}

/// How many of `total` groups are shown under a limit, where zero is no
/// limit.
pub open spec fn shown(limit: usize, total: nat) -> nat {
    if limit > 0 && limit < total {
        limit as nat
    } else {
        total
    }
}

/// Cuts a report to its first `limit` groups; a limit of zero keeps all.
pub fn first_groups(groups: Vec<Group>, limit: usize) -> (r: Vec<Group>)
    ensures
        r@ == groups@.take(shown(limit, groups@.len()) as int),
{
    let mut groups = groups;
    if limit > 0 {
        groups.truncate(limit);
    }
    groups
}

fn fill_table(cfg: &ConfigFile, files: &Vec<FileRecord>) -> (r: Table)
    ensures
        buckets(r) == grouped(cfg, files@),
{
    let mut table = new_table();
    let mut i: usize = 0;
    while i < files.len()
        invariant
            i <= files.len(),
            buckets(table) == grouped(cfg, files@.take(i as int)),
        decreases files.len() - i,
    {
        let file = files[i].duplicate();
        let key = equality_key(cfg, &file.attrs);
        proof {
            let next = files@.take(i + 1);
            assert(next.drop_last() == files@.take(i as int));
            assert(next.last() == files@[i as int]);
        }
        table_insert(&mut table, key.into_parts(), file);
        i += 1;
    }
    proof {
        assert(files@.take(files.len() as int) == files@);
    }
    table
}

proof fn lemma_same_items<T>(a: Seq<T>, b: Seq<T>, i: int)
    requires
        a.to_multiset() == b.to_multiset(),
        0 <= i < a.len(),
    ensures
        exists|j: int| 0 <= j < b.len() && b[j] == a[i],
{
    broadcast use to_multiset_contains;

    assert(a.contains(a[i]));
    assert(a.to_multiset().count(a[i]) > 0);
    assert(b.contains(a[i]));
}

proof fn lemma_sorted_groups(
    cfg: &ConfigFile,
    table: Map<CheckView, Seq<FileRecord>>,
    kept: Seq<Group>,
    out: Seq<Group>,
)
    requires
        out.to_multiset() == kept.to_multiset(),
        forall|i: int| 0 <= i < kept.len() ==> reports_bucket(cfg, table, #[trigger] kept[i]),
        distinct_keys(kept),
    ensures
        forall|i: int| 0 <= i < out.len() ==> reports_bucket(cfg, table, #[trigger] out[i]),
        distinct_keys(out),
        forall|k: CheckView| has_key(kept, k) ==> has_key(out, k),
{
    assert forall|i: int| 0 <= i < out.len() implies reports_bucket(
        cfg,
        table,
        #[trigger] out[i],
    ) by {
        lemma_same_items(out, kept, i);
    }
    assert(kept.no_duplicates()) by {
        assert forall|i: int, j: int| 0 <= i < kept.len() && 0 <= j < kept.len() && i != j implies kept[i] != kept[j] by {
            if i < j {
                assert(kept[i].key@ != kept[j].key@);
            } else {
                assert(kept[j].key@ != kept[i].key@);
            }
        }
    }
    kept.lemma_multiset_has_no_duplicates();
    out.lemma_multiset_has_no_duplicates_conv();
    assert forall|i: int, j: int| 0 <= i < j < out.len() implies #[trigger] out[i].key@
        != #[trigger] out[j].key@ by {
        lemma_same_items(out, kept, i);
        lemma_same_items(out, kept, j);
        let a = choose|a: int| 0 <= a < kept.len() && kept[a] == out[i];
        let b = choose|b: int| 0 <= b < kept.len() && kept[b] == out[j];
        assert(out[i] != out[j]);
        if a < b {
            assert(kept[a].key@ != kept[b].key@);
        } else if b < a {
            assert(kept[b].key@ != kept[a].key@);
        }
    }
    assert forall|k: CheckView| has_key(kept, k) implies has_key(out, k) by {
        let a = choose|a: int| 0 <= a < kept.len() && #[trigger] kept[a].key@ == k;
        lemma_same_items(kept, out, a);
        let b = choose|b: int| 0 <= b < out.len() && out[b] == kept[a];
        assert(out[b].key@ == k);
    }
}

/// The records with a given equality key, in the order they came in.
pub open spec fn with_key(cfg: &ConfigFile, files: Seq<FileRecord>, key: CheckView) -> Seq<
    FileRecord,
> {
    files.filter(|f: FileRecord| key_view(cfg, f.attrs@) == key)
}

/// The buckets are the classes of the equality key: a key has a bucket
/// exactly if some record has that key, and the bucket holds exactly the
/// records with that key, in the order they came in.
pub proof fn lemma_buckets_are_key_classes(cfg: &ConfigFile, files: Seq<FileRecord>, key: CheckView)
    ensures
        grouped(cfg, files).dom().contains(key) <==> with_key(cfg, files, key).len() > 0,
        grouped(cfg, files).dom().contains(key) ==> grouped(cfg, files)[key] == with_key(
            cfg,
            files,
            key,
        ),
    decreases files.len(),
{
    let has = |f: FileRecord| key_view(cfg, f.attrs@) == key;
    if files.len() == 0 {
        assert(files.filter(has).len() == 0) by {
            files.lemma_filter_len(has);
        }
    } else {
        let rest = files.drop_last();
        lemma_buckets_are_key_classes(cfg, rest, key);
        assert(rest.push(files.last()) == files);
        rest.lemma_filter_push(files.last(), has);
    }
}

/// Every record lies in the bucket of its own equality key.
pub proof fn lemma_record_in_bucket(cfg: &ConfigFile, files: Seq<FileRecord>, i: int)
    requires
        0 <= i < files.len(),
    ensures
        grouped(cfg, files).dom().contains(key_view(cfg, files[i].attrs@)),
        grouped(cfg, files)[key_view(cfg, files[i].attrs@)].contains(files[i]),
    decreases files.len(),
{
    let rest = files.drop_last();
    let before = grouped(cfg, rest);
    let last_key = key_view(cfg, files.last().attrs@);
    let key = key_view(cfg, files[i].attrs@);
    if i == files.len() - 1 {
        let bucket = grouped(cfg, files)[key];
        assert(bucket[bucket.len() - 1] == files[i]);
    } else {
        lemma_record_in_bucket(cfg, rest, i);
        assert(rest[i] == files[i]);
        if last_key == key {
            let old_bucket = before[key];
            let at = choose|at: int| 0 <= at < old_bucket.len() && old_bucket[at] == files[i];
            assert(old_bucket.push(files.last())[at] == files[i]);
        }
    }
}

/// Two records with the same equality key lie in one bucket, which therefore
/// has at least two members.
pub proof fn lemma_shared_bucket(cfg: &ConfigFile, files: Seq<FileRecord>, i: int, j: int)
    requires
        0 <= i < j < files.len(),
        key_view(cfg, files[i].attrs@) == key_view(cfg, files[j].attrs@),
    ensures
        grouped(cfg, files).dom().contains(key_view(cfg, files[i].attrs@)),
        grouped(cfg, files)[key_view(cfg, files[i].attrs@)].len() >= 2,
        grouped(cfg, files)[key_view(cfg, files[i].attrs@)].contains(files[i]),
        grouped(cfg, files)[key_view(cfg, files[i].attrs@)].contains(files[j]),
    decreases files.len(),
{
    let rest = files.drop_last();
    let before = grouped(cfg, rest);
    let last_key = key_view(cfg, files.last().attrs@);
    let key = key_view(cfg, files[i].attrs@);
    lemma_record_in_bucket(cfg, files, i);
    lemma_record_in_bucket(cfg, files, j);
    if j == files.len() - 1 {
        lemma_record_in_bucket(cfg, rest, i);
        assert(rest[i] == files[i]);
        assert(before[key].len() >= 1);
    } else {
        assert(rest[i] == files[i]);
        assert(rest[j] == files[j]);
        lemma_shared_bucket(cfg, rest, i, j);
    }
}

/// Two records with the same equality key are reported in the same group by
/// every full report.
pub proof fn lemma_equal_keys_same_group(
    cfg: &ConfigFile,
    files: Seq<FileRecord>,
    groups: Seq<Group>,
    i: int,
    j: int,
)
    requires
        0 <= i < j < files.len(),
        key_view(cfg, files[i].attrs@) == key_view(cfg, files[j].attrs@),
        duplicates_of(cfg, files, groups),
    ensures
        exists|g: int|
            0 <= g < groups.len() && (#[trigger] groups[g]).files@.contains(files[i])
                && groups[g].files@.contains(files[j]),
{
    broadcast use to_multiset_contains;

    let key = key_view(cfg, files[i].attrs@);
    let table = grouped(cfg, files);
    lemma_shared_bucket(cfg, files, i, j);
    assert(has_key(groups, key));
    let g = choose|g: int| 0 <= g < groups.len() && #[trigger] groups[g].key@ == key;
    assert(reports_bucket(cfg, table, groups[g]));
    assert(table[key].to_multiset().count(files[i]) > 0);
    assert(table[key].to_multiset().count(files[j]) > 0);
    assert(groups[g].files@.contains(files[i]));
    assert(groups[g].files@.contains(files[j]));
}

/// Size is the only equality criterion that is switched on.
pub open spec fn size_only(cfg: &ConfigFile) -> bool {
    cfg.size && !cfg.name && !cfg.date_created && !cfg.date_modified && !cfg.hash_md5
        && !cfg.hash_sha512
}

/// With size as the only criterion, two files of the same size are reported
/// in the same group, whatever their names, times and content.
pub proof fn lemma_same_size_same_group(
    cfg: &ConfigFile,
    files: Seq<FileRecord>,
    groups: Seq<Group>,
    i: int,
    j: int,
)
    requires
        size_only(cfg),
        0 <= i < j < files.len(),
        files[i].attrs.size == files[j].attrs.size,
        duplicates_of(cfg, files, groups),
    ensures
        exists|g: int|
            0 <= g < groups.len() && (#[trigger] groups[g]).files@.contains(files[i])
                && groups[g].files@.contains(files[j]),
{
    lemma_equal_keys_same_group(cfg, files, groups, i, j);
}

/// Finds every group of duplicates among `files`: the records are grouped by
/// equality key, groups of fewer than two are dropped, and the groups and the
/// members of each are put in the configured order.
pub fn all_duplicates(cfg: &ConfigFile, files: &Vec<FileRecord>) -> (r: Vec<Group>)
    ensures
        duplicates_of(cfg, files@, r@),
{
    let table = fill_table(cfg, files);
    let ghost model = grouped(cfg, files@);
    let mut raw = table_buckets(table);
    let mut kept: Vec<Group> = Vec::new();
    while raw.len() > 0
        invariant
            forall|i: int|
                0 <= i < raw@.len() ==> model.dom().contains(#[trigger] parts_view(raw@[i].0))
                    && raw@[i].1@ == model[parts_view(raw@[i].0)],
            forall|i: int, j: int|
                0 <= i < j < raw@.len() ==> #[trigger] parts_view(raw@[i].0)
                    != #[trigger] parts_view(raw@[j].0),
            distinct_keys(kept@),
            forall|i: int, j: int|
                0 <= i < raw@.len() && 0 <= j < kept@.len() ==> #[trigger] parts_view(raw@[i].0)
                    != #[trigger] kept@[j].key@,
            forall|i: int| 0 <= i < kept@.len() ==> reports_bucket(cfg, model, #[trigger] kept@[i]),
            forall|k: CheckView|
                model.dom().contains(k) && model[k].len() >= 2 ==> holds_key(raw@, k) || has_key(
                    kept@,
                    k,
                ),
        decreases raw.len(),
    {
        let ghost before = raw@;
        let ghost had = kept@;
        let (parts, members) = raw.pop().unwrap();
        assert(forall|i: int| 0 <= i < raw@.len() ==> raw@[i] == before[i]);
        assert(parts_view(parts) == parts_view(before[before.len() - 1].0));
        if members.len() >= 2 {
            let sorted = sort_by_attrs(cfg, members);
            let key = CheckOptions::from_parts(parts);
            kept.push(Group { key, files: sorted });
            assert(forall|i: int| 0 <= i < had.len() ==> kept@[i] == had[i]);
            assert(kept@[had.len() as int].key@ == parts_view(parts));
            assert(reports_bucket(cfg, model, kept@[had.len() as int]));
        }
        proof {
            assert forall|k: CheckView|
                model.dom().contains(k) && model[k].len() >= 2 implies holds_key(raw@, k)
                || has_key(kept@, k) by {
                if has_key(had, k) {
                    let a = choose|a: int| 0 <= a < had.len() && #[trigger] had[a].key@ == k;
                    assert(kept@[a].key@ == k);
                } else {
                    let a = choose|a: int|
                        0 <= a < before.len() && #[trigger] parts_view(before[a].0) == k;
                    if a == before.len() - 1 {
                        assert(members@ == model[k]);
                        assert(kept@[had.len() as int].key@ == k);
                    } else {
                        assert(parts_view(raw@[a].0) == k);
                    }
                }
            }
        }
    }
    let out = sort_by_attrs(cfg, kept);
    proof {
        lemma_sorted_groups(cfg, model, kept@, out@);
        assert forall|k: CheckView|
            model.dom().contains(k) && model[k].len() >= 2 implies #[trigger] has_key(out@, k) by {
            assert(holds_key(raw@, k) || has_key(kept@, k));
        }
    }
    out
}

/// Finds the groups of duplicates among `files` and keeps the first
/// `cfg.first_n` of them in the configured order, or all if that is zero.
/// Which of several groups with equal keys under the order comes first is
/// left open.
pub fn find_duplicates(cfg: &ConfigFile, files: &Vec<FileRecord>) -> (r: Vec<Group>)
    ensures
        exists|full: Seq<Group>|
            duplicates_of(cfg, files@, full) && r@ == full.take(
                shown(cfg.first_n, full.len()) as int,
            ),
        forall|i: int|
            0 <= i < r@.len() ==> reports_bucket(cfg, grouped(cfg, files@), #[trigger] r@[i]),
        distinct_keys(r@),
        ordered(cfg, r@),
{
    let full = all_duplicates(cfg, files);
    let ghost whole = full@;
    let r = first_groups(full, cfg.first_n);
    proof {
        assert(duplicates_of(cfg, files@, whole) && r@ == whole.take(
            shown(cfg.first_n, whole.len()) as int,
        ));
        assert(forall|i: int| 0 <= i < r@.len() ==> r@[i] == whole[i]);
    }
    r
}

} // verus!
