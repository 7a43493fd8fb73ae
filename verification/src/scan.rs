//! From one file's metadata and bytes to its fingerprint: the filters that
//! exclude a file before it is read, the digests, and the equality key.

use regex::Regex;
use sha2::Digest;
use vstd::prelude::*;
use crate::check::{
    copy_text, instant_order, order_instants, text_view, CheckOptions, CheckView, Timestamp,
};
use crate::config::{ConfigError, ConfigFile};

verus! {

/// What the walk knows of a file before it is read: where it is, its base
/// name, and the metadata that could be had.
#[derive(Clone, Debug, PartialEq, Eq)]
pub struct FileMeta {
    pub path: String,
    pub name: String,
    pub size: Option<u64>,
    pub created: Option<Timestamp>,
    pub modified: Option<Timestamp>,
}

/// A file that takes part in the comparison: the path it is deleted by, and
/// its attributes.
#[derive(Clone, Debug, PartialEq, Eq)]
pub struct FileRecord {
    pub path: String,
    pub attrs: CheckOptions,
}

/// The filters of a configuration, with the bounds parsed and the name
/// pattern checked. A size bound of zero is no bound.
#[derive(Clone, Debug, PartialEq, Eq)]
pub struct Filters {
    pub min_size: u64,
    pub max_size: u64,
    pub min_created: Option<Timestamp>,
    pub max_created: Option<Timestamp>,
    pub min_modified: Option<Timestamp>,
    pub max_modified: Option<Timestamp>,
    pub name_filter: Option<String>,
}

/// The point in time that a text denotes, if it is a timestamp in the
/// RFC 3339 form or its variant with a space for the `T`.
pub uninterp spec fn parsed_timestamp(text: Seq<char>) -> Option<Timestamp>;

/// Whether a text is a regular expression that can be compiled.
pub uninterp spec fn pattern_compiles(pattern: Seq<char>) -> bool;

/// Whether a regular expression matches somewhere in a text.
pub uninterp spec fn pattern_found(pattern: Seq<char>, text: Seq<char>) -> bool;

/// The MD5 digest of some bytes, in lower-case hexadecimal.
pub uninterp spec fn md5_hex(data: Seq<u8>) -> Seq<char>;

/// The SHA-512 digest of some bytes, in lower-case hexadecimal.
pub uninterp spec fn sha512_hex(data: Seq<u8>) -> Seq<char>;

/// Trusted: humantime's `FromStr` for `Timestamp`, which parses the text with
/// `parse_rfc3339_weak` and depends on the text alone. A parsed time is never
/// before 1970, so it is handed back as seconds and nanoseconds since then.
#[verifier::external_body]
fn parse_timestamp(text: &str) -> (r: Option<Timestamp>)
    ensures
        r == parsed_timestamp(text@),
{
    match text.parse::<humantime::Timestamp>() {
        Ok(t) => match t.duration_since(std::time::UNIX_EPOCH) {
            Ok(d) => Some(Timestamp { secs: d.as_secs() as i64, nanos: d.subsec_nanos() }),
            Err(_) => None,
        },
        Err(_) => None,
    }
}

/// Trusted: `Regex::new` of the regex crate, then `Regex::is_match` on the
/// text. Whether the pattern compiles depends on the pattern alone, and
/// whether it matches somewhere in the text on pattern and text alone.
#[verifier::external_body]
fn match_pattern(pattern: &str, text: &str) -> (r: Option<bool>)
    ensures
        r is Some == pattern_compiles(pattern@),
        r matches Some(found) ==> found == pattern_found(pattern@, text@),
{
    match Regex::new(pattern) {
        Ok(compiled) => Some(compiled.is_match(text)),
        Err(_) => None,
    }
}

/// Trusted: `md5::compute`, written out with the digest's `LowerHex`.
#[verifier::external_body]
fn md5_of(data: &[u8]) -> (r: String)
    ensures
        r@ == md5_hex(data@),
{
    format!("{:x}", md5::compute(data))
}

/// Trusted: `Sha512::digest` of the sha2 crate, written out with the
/// output's `LowerHex`.
#[verifier::external_body]
fn sha512_of(data: &[u8]) -> (r: String)
    ensures
        r@ == sha512_hex(data@),
{
    format!("{:x}", sha2::Sha512::digest(data))
}

/// The bound that a configured text stands for: none if the text is empty.
pub open spec fn date_bound(text: Seq<char>) -> Option<Timestamp> {
    if text.len() == 0 {
        None
    } else {
        parsed_timestamp(text)
    }
}

/// Whether a configured bound is given and is no timestamp.
pub open spec fn bad_date(text: Seq<char>) -> bool {
    text.len() > 0 && parsed_timestamp(text) is None
}

/// The first thing wrong with the filters of a configuration, in the order
/// lower and upper creation bound, lower and upper modification bound, name
/// pattern.
pub open spec fn filter_fault(cfg: &ConfigFile) -> Option<ConfigError> {
    if bad_date(cfg.min_createdate@) {
        Some(ConfigError::BadMinCreateDate)
    } else if bad_date(cfg.max_createdate@) {
        Some(ConfigError::BadMaxCreateDate)
    } else if bad_date(cfg.min_moddate@) {
        Some(ConfigError::BadMinModDate)
    } else if bad_date(cfg.max_moddate@) {
        Some(ConfigError::BadMaxModDate)
    } else if cfg.name_filter@.len() > 0 && !pattern_compiles(cfg.name_filter@) {
        Some(ConfigError::BadNameFilter)
    } else {
        None
    }
}

/// Reads a point in time from a text in the RFC 3339 form, with `T` or a
/// space between date and time. Gives `None` exactly if the text is no such
/// timestamp.
pub fn convert_string_to_system_time(s: &String) -> (r: Option<Timestamp>)
    ensures
        r == parsed_timestamp(s@),
{
    parse_timestamp(s.as_str())
}

fn resolve_bound(text: &String, fault: ConfigError) -> (r: Result<Option<Timestamp>, ConfigError>)
    ensures
        r is Ok <==> !bad_date(text@),
        r matches Ok(b) ==> b == date_bound(text@),
        r matches Err(e) ==> e == fault,
{
    if text.as_str().is_empty() {
        Ok(None)
    } else {
        match convert_string_to_system_time(text) {
            Some(t) => Ok(Some(t)),
            None => Err(fault),
        }
    }
}

/// Parses the date bounds and compiles the name pattern of a configuration.
/// An empty text is no bound and no pattern. Fails on the first text that is
/// given and cannot be read.
pub fn resolve_filters(cfg: &ConfigFile) -> (r: Result<Filters, ConfigError>)
    ensures
        match r {
            Ok(f) => {
                &&& filter_fault(cfg) is None
                &&& f.min_size == cfg.min_size
                &&& f.max_size == cfg.max_size
                &&& f.min_created == date_bound(cfg.min_createdate@)
                &&& f.max_created == date_bound(cfg.max_createdate@)
                &&& f.min_modified == date_bound(cfg.min_moddate@)
                &&& f.max_modified == date_bound(cfg.max_moddate@)
                &&& text_view(f.name_filter) == (if cfg.name_filter@.len() == 0 {
                    None
                } else {
                    Some(cfg.name_filter@)
                })
            },
            Err(e) => filter_fault(cfg) == Some(e),
        },
{
    let min_created = match resolve_bound(&cfg.min_createdate, ConfigError::BadMinCreateDate) {
        Ok(b) => b,
        Err(e) => {
            return Err(e);
        },
    };
    let max_created = match resolve_bound(&cfg.max_createdate, ConfigError::BadMaxCreateDate) {
        Ok(b) => b,
        Err(e) => {
            return Err(e);
        },
    };
    let min_modified = match resolve_bound(&cfg.min_moddate, ConfigError::BadMinModDate) {
        Ok(b) => b,
        Err(e) => {
            return Err(e);
        },
    };
    let max_modified = match resolve_bound(&cfg.max_moddate, ConfigError::BadMaxModDate) {
        Ok(b) => b,
        Err(e) => {
            return Err(e);
        },
    };
    let name_filter = if cfg.name_filter.as_str().is_empty() {
        None
    } else {
        match match_pattern(cfg.name_filter.as_str(), "") {
            Some(_) => Some(cfg.name_filter.clone()),
            None => {
                return Err(ConfigError::BadNameFilter);
            },
        }
    };
    Ok(
        Filters {
            min_size: cfg.min_size,
            max_size: cfg.max_size,
            min_created,
            max_created,
            min_modified,
            max_modified,
            name_filter,
        },
    )
}

/// A known size lies under the lower bound or over the upper one.
pub open spec fn size_excluded(min_size: u64, max_size: u64, size: Option<u64>) -> bool {
    size matches Some(s) && ((min_size > 0 && s < min_size) || (max_size > 0 && s > max_size))
}

/// A known point in time lies before the lower bound or after the upper one.
pub open spec fn time_excluded(
    min: Option<Timestamp>,
    max: Option<Timestamp>,
    at: Option<Timestamp>,
) -> bool {
    at matches Some(t) && ((min matches Some(lo) && instant_order(t, lo) is Less) || (
    max matches Some(hi) && instant_order(t, hi) is Greater))
}

impl Filters {
    /// The file is excluded by its size or by one of its times.
    pub open spec fn excludes_metadata(&self, meta: FileMeta) -> bool {
        ||| size_excluded(self.min_size, self.max_size, meta.size)
        ||| time_excluded(self.min_created, self.max_created, meta.created)
        ||| time_excluded(self.min_modified, self.max_modified, meta.modified)
    }

    /// Whether the name pattern, if there is one, lets a base name through:
    /// it has to compile and to match somewhere in the name.
    pub open spec fn admits_name(&self, name: Seq<char>) -> bool {
        self.name_filter matches Some(p) ==> pattern_compiles(p@) && pattern_found(p@, name)
    }

    /// Whether a file stays: neither its size nor its times exclude it, and
    /// the name pattern lets its base name through.
    pub open spec fn keeps(&self, meta: FileMeta) -> bool {
        !self.excludes_metadata(meta) && self.admits_name(meta.name@)
    }

    /// Decides on the metadata alone: `true` if size and times let the file
    /// through.
    pub fn passes_metadata(&self, meta: &FileMeta) -> (r: bool)
        ensures
            r == !self.excludes_metadata(*meta),
    {
        if size_out(self.min_size, self.max_size, &meta.size) {
            return false;
        }
        if time_out(&self.min_created, &self.max_created, &meta.created) {
            return false;
        }
        !time_out(&self.min_modified, &self.max_modified, &meta.modified)
    }

    /// Decides whether a file stays. The filters apply in the order size,
    /// creation time, modification time, name; the name pattern is looked at
    /// only if size and times let the file through.
    pub fn accepts(&self, meta: &FileMeta) -> (r: bool)
        ensures
            r == self.keeps(*meta),
    {
        if !self.passes_metadata(meta) {
            return false;
        }
        match &self.name_filter {
            Some(pattern) => match match_pattern(pattern.as_str(), meta.name.as_str()) {
                Some(found) => found,
                None => false,
            },
            None => true,
        }
    }
}

fn size_out(min_size: u64, max_size: u64, size: &Option<u64>) -> (r: bool)
    ensures
        r == size_excluded(min_size, max_size, *size),
{
    match size {
        Some(s) => (min_size > 0 && *s < min_size) || (max_size > 0 && *s > max_size),
        None => false,
    }
}

fn before(t: &Timestamp, bound: &Option<Timestamp>) -> (r: bool)
    ensures
        r == (*bound matches Some(lo) && instant_order(*t, lo) is Less),
{
    match bound {
        Some(lo) => match order_instants(t, lo) {
            std::cmp::Ordering::Less => true,
            _ => false,
        },
        None => false,
    }
}

fn after(t: &Timestamp, bound: &Option<Timestamp>) -> (r: bool)
    ensures
        r == (*bound matches Some(hi) && instant_order(*t, hi) is Greater),
{
    match bound {
        Some(hi) => match order_instants(t, hi) {
            std::cmp::Ordering::Greater => true,
            _ => false,
        },
        None => false,
    }
}

fn time_out(min: &Option<Timestamp>, max: &Option<Timestamp>, at: &Option<Timestamp>) -> (r: bool)
    ensures
        r == time_excluded(*min, *max, *at),
{
    match at {
        Some(t) => before(t, min) || after(t, max),
        None => false,
    }
}

/// Whether any criterion, filter or sort key needs a file's metadata.
pub fn needs_metadata(cfg: &ConfigFile) -> (r: bool)
    ensures
        r == (cfg.size || cfg.date_created || cfg.date_modified || cfg.min_size > 0 || cfg.max_size
            > 0 || cfg.min_createdate@.len() > 0 || cfg.max_createdate@.len() > 0
            || cfg.min_moddate@.len() > 0 || cfg.max_moddate@.len() > 0 || cfg.sort_res_size_asc
            || cfg.sort_res_size_desc || cfg.sort_res_cdate_asc || cfg.sort_res_cdate_desc
            || cfg.sort_res_mdate_asc || cfg.sort_res_mdate_desc),
{
    cfg.size || cfg.date_created || cfg.date_modified || cfg.min_size > 0 || cfg.max_size > 0
        || !cfg.min_createdate.as_str().is_empty() || !cfg.max_createdate.as_str().is_empty()
        || !cfg.min_moddate.as_str().is_empty() || !cfg.max_moddate.as_str().is_empty()
        || cfg.sort_res_size_asc || cfg.sort_res_size_desc || cfg.sort_res_cdate_asc
        || cfg.sort_res_cdate_desc || cfg.sort_res_mdate_asc || cfg.sort_res_mdate_desc
}

/// Whether a file's bytes are needed: only for a digest.
pub fn needs_content(cfg: &ConfigFile) -> (r: bool)
    ensures
        r == (cfg.hash_md5 || cfg.hash_sha512),
{
    cfg.hash_md5 || cfg.hash_sha512
}

impl FileRecord {
    /// A copy with the same fields.
    pub fn duplicate(&self) -> (r: FileRecord)
        ensures
            r == *self,
    {
        FileRecord { path: self.path.clone(), attrs: self.attrs.duplicate() }
    }
}

/// Whether the size of a file is of any use: as a criterion or a sort key.
pub open spec fn uses_size(cfg: &ConfigFile) -> bool {
    cfg.size || cfg.sort_res_size_asc || cfg.sort_res_size_desc
}

/// Whether the creation time is of any use: as a criterion or a sort key.
pub open spec fn uses_created(cfg: &ConfigFile) -> bool {
    cfg.date_created || cfg.sort_res_cdate_asc || cfg.sort_res_cdate_desc
}

/// Whether the modification time is of any use: as a criterion or a sort
/// key.
pub open spec fn uses_modified(cfg: &ConfigFile) -> bool {
    cfg.date_modified || cfg.sort_res_mdate_asc || cfg.sort_res_mdate_desc
}

/// The attributes of a file under a configuration: its name; its size and
/// times, each only if it is a criterion or a sort key; and each digest that
/// is switched on, of the bytes given. Everything else is left unset.
pub open spec fn fingerprint_view(cfg: &ConfigFile, meta: FileMeta, data: Seq<u8>) -> CheckView {
    CheckView {
        name: Some(meta.name@),
        size: if uses_size(cfg) {
            meta.size
        } else {
            None
        },
        created: if uses_created(cfg) {
            meta.created
        } else {
            None
        },
        modified: if uses_modified(cfg) {
            meta.modified
        } else {
            None
        },
        md5: if cfg.hash_md5 {
            Some(md5_hex(data))
        } else {
            None
        },
        sha512: if cfg.hash_sha512 {
            Some(sha512_hex(data))
        } else {
            None
        },
    }
}

/// Builds the record of a file that passed the filters. `data` is the file's
/// whole content; it is looked at only for the digests that are switched on.
pub fn fingerprint(cfg: &ConfigFile, meta: FileMeta, data: &[u8]) -> (r: FileRecord)
    ensures
        r.path@ == meta.path@,
        r.attrs@ == fingerprint_view(cfg, meta, data@),
{
    let md5 = if cfg.hash_md5 {
        Some(md5_of(data))
    } else {
        None
    };
    let sha512 = if cfg.hash_sha512 {
        Some(sha512_of(data))
    } else {
        None
    };
    FileRecord {
        path: meta.path,
        attrs: CheckOptions {
            name: Some(meta.name),
            size: if cfg.size || cfg.sort_res_size_asc || cfg.sort_res_size_desc {
                meta.size
            } else {
                None
            },
            created: if cfg.date_created || cfg.sort_res_cdate_asc || cfg.sort_res_cdate_desc {
                meta.created
            } else {
                None
            },
            modified: if cfg.date_modified || cfg.sort_res_mdate_asc || cfg.sort_res_mdate_desc {
                meta.modified
            } else {
                None
            },
            md5,
            sha512,
        },
    }
}

/// The equality key of some attributes: the fields whose criterion is
/// switched on, and nothing else.
pub open spec fn key_view(cfg: &ConfigFile, a: CheckView) -> CheckView {
    CheckView {
        name: if cfg.name {
            a.name
        } else {
            None
        },
        size: if cfg.size {
            a.size
        } else {
            None
        },
        created: if cfg.date_created {
            a.created
        } else {
            None
        },
        modified: if cfg.date_modified {
            a.modified
        } else {
            None
        },
        md5: if cfg.hash_md5 {
            a.md5
        } else {
            None
        },
        sha512: if cfg.hash_sha512 {
            a.sha512
        } else {
            None
        },
    }
}

/// Projects attributes onto the enabled criteria. Two files are duplicates
/// exactly if their keys are equal.
pub fn equality_key(cfg: &ConfigFile, attrs: &CheckOptions) -> (r: CheckOptions)
    ensures
        r@ == key_view(cfg, attrs@),
{
    CheckOptions {
        name: if cfg.name {
            copy_text(&attrs.name)
        } else {
            None
        },
        size: if cfg.size {
            attrs.size
        } else {
            None
        },
        created: if cfg.date_created {
            attrs.created
        } else {
            None
        },
        modified: if cfg.date_modified {
            attrs.modified
        } else {
            None
        },
        md5: if cfg.hash_md5 {
            copy_text(&attrs.md5)
        } else {
            None
        },
        sha512: if cfg.hash_sha512 {
            copy_text(&attrs.sha512)
        } else {
            None
        },
    }
}

/// Files with the same bytes get the same digests, whatever else differs.
pub proof fn lemma_same_content_same_digests(
    cfg: &ConfigFile,
    first: FileMeta,
    second: FileMeta,
    data: Seq<u8>,
)
    ensures
        fingerprint_view(cfg, first, data).md5 == fingerprint_view(cfg, second, data).md5,
        fingerprint_view(cfg, first, data).sha512 == fingerprint_view(cfg, second, data).sha512,
{
}

} // verus!
