//! The resolved configuration and the command-line options it is merged from.

use vstd::prelude::*;
use vstd::string::StringExecFns;
use crate::text::{expand_date, replaced};

verus! {

/// The configuration that drives a run. Built once, then only read.
#[derive(Clone, Debug)]
pub struct ConfigFile {
    pub global_verbose: u8,
    pub hide_config: bool,
    pub debug: bool,
    pub debug_config: bool,
    pub show_options_only: bool,
    pub delete: bool,
    pub force_delete: bool,
    pub silent_mode: bool,
    pub size: bool,
    pub name: bool,
    pub date_created: bool,
    pub date_modified: bool,
    pub hash_md5: bool,
    pub hash_sha512: bool,
    pub content: bool,
    pub min_size: u64,
    pub max_size: u64,
    pub min_createdate: String,
    pub max_createdate: String,
    pub min_moddate: String,
    pub max_moddate: String,
    pub name_filter: String,
    pub first_n: usize,
    pub sort_res_name_asc: bool,
    pub sort_res_name_desc: bool,
    pub sort_res_size_asc: bool,
    pub sort_res_size_desc: bool,
    pub sort_res_cdate_asc: bool,
    pub sort_res_cdate_desc: bool,
    pub sort_res_mdate_asc: bool,
    pub sort_res_mdate_desc: bool,
    pub path_start: Option<String>,
    pub out_filename: Option<String>,
    pub log_filename: String,
}

/// What the command line gave. A flag that is off, a number that is zero and
/// a text that is empty all mean "not given".
#[derive(Clone, Debug)]
pub struct Options {
    pub verbose: u8,
    pub hide_config: bool,
    pub debug_config: bool,
    pub debug: bool,
    pub show_options_only: bool,
    pub configfile: String,
    pub delete: bool,
    pub force_delete: bool,
    pub silent_mode: bool,
    pub size: bool,
    pub name: bool,
    pub hash: bool,
    pub hash_md5: bool,
    pub hash_sha512: bool,
    pub content: bool,
    pub date_created: bool,
    pub date_modified: bool,
    pub min_size: u64,
    pub max_size: u64,
    pub min_createdate: String,
    pub max_createdate: String,
    pub min_moddate: String,
    pub max_moddate: String,
    pub name_filter: String,
    pub first_n: usize,
    pub sort_res_name_asc: bool,
    pub sort_res_name_desc: bool,
    pub sort_res_size_asc: bool,
    pub sort_res_size_desc: bool,
    pub sort_res_cdate_asc: bool,
    pub sort_res_cdate_desc: bool,
    pub sort_res_mdate_asc: bool,
    pub sort_res_mdate_desc: bool,
    pub log: String,
    pub path_start: Option<String>,
    pub out: Option<String>,
}

/// Why a configuration is refused before any file is looked at.
#[derive(Clone, Copy, Debug, PartialEq, Eq, Structural)]
pub enum ConfigError {
    /// Name is to be sorted both ascending and descending.
    SortNameConflict,
    /// Size is to be sorted both ascending and descending.
    SortSizeConflict,
    /// Creation time is to be sorted both ascending and descending.
    SortCreatedConflict,
    /// Modification time is to be sorted both ascending and descending.
    SortModifiedConflict,
    /// No equality criterion is switched on.
    NoCriterion,
    /// The lower bound on creation time is no timestamp.
    BadMinCreateDate,
    /// The upper bound on creation time is no timestamp.
    BadMaxCreateDate,
    /// The lower bound on modification time is no timestamp.
    BadMinModDate,
    /// The upper bound on modification time is no timestamp.
    BadMaxModDate,
    /// The name filter is no regular expression.
    BadNameFilter,
}

/// The number of groups shown when nothing else is configured.
pub const DEFAULT_FIRST_N: usize = 100;

impl Default for ConfigFile {
    fn default() -> (r: ConfigFile)
        ensures
            r.global_verbose == 0,
            !r.hide_config && !r.debug && !r.debug_config && !r.show_options_only,
            !r.delete && !r.force_delete && !r.silent_mode,
            !r.size && !r.name && !r.date_created && !r.date_modified,
            !r.hash_md5 && !r.hash_sha512 && !r.content,
            r.min_size == 0 && r.max_size == 0,
            r.min_createdate@.len() == 0 && r.max_createdate@.len() == 0,
            r.min_moddate@.len() == 0 && r.max_moddate@.len() == 0,
            r.name_filter@.len() == 0,
            r.first_n == DEFAULT_FIRST_N,
            !r.sort_res_name_asc && !r.sort_res_name_desc,
            !r.sort_res_size_asc && !r.sort_res_size_desc,
            !r.sort_res_cdate_asc && !r.sort_res_cdate_desc,
            !r.sort_res_mdate_asc && !r.sort_res_mdate_desc,
            r.path_start matches Some(p) && p@ == "."@,
            r.out_filename matches Some(p) && p@ == ".fundoubler%DATE%.res"@,
            r.log_filename@ == "./fundoubler%DATE%.log"@,
            r.sort_consistent(),
    {
        ConfigFile {
            global_verbose: 0,
            hide_config: false,
            debug: false,
            debug_config: false,
            show_options_only: false,
            delete: false,
            force_delete: false,
            silent_mode: false,
            size: false,
            name: false,
            date_created: false,
            date_modified: false,
            hash_md5: false,
            hash_sha512: false,
            content: false,
            min_size: 0,
            max_size: 0,
            min_createdate: String::new(),
            max_createdate: String::new(),
            min_moddate: String::new(),
            max_moddate: String::new(),
            name_filter: String::new(),
            first_n: DEFAULT_FIRST_N,
            sort_res_name_asc: false,
            sort_res_name_desc: false,
            sort_res_size_asc: false,
            sort_res_size_desc: false,
            sort_res_cdate_asc: false,
            sort_res_cdate_desc: false,
            sort_res_mdate_asc: false,
            sort_res_mdate_desc: false,
            path_start: Some(String::from_str(".")),
            out_filename: Some(String::from_str(".fundoubler%DATE%.res")),
            log_filename: String::from_str("./fundoubler%DATE%.log"),
        }
    }
}

impl ConfigFile {
    /// At least one equality criterion is switched on.
    pub open spec fn has_criterion(&self) -> bool {
        self.name || self.size || self.date_created || self.date_modified || self.hash_md5
            || self.hash_sha512
    }

    /// No field is to be sorted in both directions at once.
    pub open spec fn sort_consistent(&self) -> bool {
        &&& !(self.sort_res_name_asc && self.sort_res_name_desc)
        &&& !(self.sort_res_size_asc && self.sort_res_size_desc)
        &&& !(self.sort_res_cdate_asc && self.sort_res_cdate_desc)
        &&& !(self.sort_res_mdate_asc && self.sort_res_mdate_desc)
    }

    /// The first conflict between sort directions, in the order name, size,
    /// creation time, modification time.
    pub open spec fn sort_conflict(&self) -> Option<ConfigError> {
        if self.sort_res_name_asc && self.sort_res_name_desc {
            Some(ConfigError::SortNameConflict)
        } else if self.sort_res_size_asc && self.sort_res_size_desc {
            Some(ConfigError::SortSizeConflict)
        } else if self.sort_res_cdate_asc && self.sort_res_cdate_desc {
            Some(ConfigError::SortCreatedConflict)
        } else if self.sort_res_mdate_asc && self.sort_res_mdate_desc {
            Some(ConfigError::SortModifiedConflict)
        } else {
            None
        }
    }

    /// Refuses a configuration that cannot drive a run: one that sorts a field
    /// in both directions, or one without any equality criterion. Sort
    /// conflicts are reported first.
    pub fn validate(&self) -> (r: Result<(), ConfigError>)
        ensures
            r is Ok <==> self.sort_consistent() && self.has_criterion(),
            r matches Err(e) ==> e == (match self.sort_conflict() {
                Some(c) => c,
                None => ConfigError::NoCriterion,
            }),
    {
        if self.sort_res_name_asc && self.sort_res_name_desc {
            return Err(ConfigError::SortNameConflict);
        }
        if self.sort_res_size_asc && self.sort_res_size_desc {
            return Err(ConfigError::SortSizeConflict);
        }
        if self.sort_res_cdate_asc && self.sort_res_cdate_desc {
            return Err(ConfigError::SortCreatedConflict);
        }
        if self.sort_res_mdate_asc && self.sort_res_mdate_desc {
            return Err(ConfigError::SortModifiedConflict);
        }
        if !(self.name || self.size || self.date_created || self.date_modified || self.hash_md5
            || self.hash_sha512) {
            return Err(ConfigError::NoCriterion);
        }
        Ok(())
    }
}

/// The text that wins when the command line may override the file: the
/// command line's, unless it is empty.
pub open spec fn text_choice(given: Seq<char>, stored: Seq<char>) -> Seq<char> {
    if given.len() == 0 {
        stored
    } else {
        given
    }
}

fn choose_text(given: String, stored: String) -> (r: String)
    ensures
        r@ == text_choice(given@, stored@),
{
    if given.as_str().is_empty() {
        stored
    } else {
        given
    }
}

/// Resolves the configuration of a run: lays the command line over the
/// stored configuration. A flag is on when
/// either side switches it on; a number or text of the command line wins
/// unless it is zero or empty. Silence forces verbosity to zero, hiding the
/// configuration cancels showing it, a dry run cancels deletion, and forced
/// deletion needs deletion. `%DATE%` in the output path given on the command
/// line and in the log file name is replaced by `today`. A field that ends up
/// sorted in both directions is refused.
pub fn init(options: Options, cfg: ConfigFile, today: &str) -> (r: Result<ConfigFile, ConfigError>)
    ensures
        match r {
            Ok(m) => {
                &&& m.sort_conflict() is None
                &&& m.silent_mode == (options.silent_mode || cfg.silent_mode)
                &&& m.global_verbose == (if m.silent_mode {
                    0u8
                } else if cfg.global_verbose >= options.verbose {
                    cfg.global_verbose
                } else {
                    options.verbose
                })
                &&& m.hide_config == (options.hide_config || cfg.hide_config)
                &&& m.debug_config == ((options.debug_config || cfg.debug_config) && !m.hide_config)
                &&& m.debug == (options.debug || cfg.debug)
                &&& m.show_options_only == (options.show_options_only || cfg.show_options_only)
                &&& m.delete == ((options.delete || cfg.delete) && !m.debug)
                &&& m.force_delete == ((options.force_delete || cfg.force_delete) && m.delete)
                &&& m.name == (options.name || cfg.name)
                &&& m.size == (options.size || cfg.size)
                &&& m.date_created == (options.date_created || cfg.date_created)
                &&& m.date_modified == (options.date_modified || cfg.date_modified)
                &&& m.hash_md5 == (options.hash || options.hash_md5 || cfg.hash_md5)
                &&& m.hash_sha512 == (options.hash || options.hash_sha512 || cfg.hash_sha512)
                &&& m.content == (options.content || cfg.content)
                &&& m.min_size == (if options.min_size == 0 { cfg.min_size } else { options.min_size })
                &&& m.max_size == (if options.max_size == 0 { cfg.max_size } else { options.max_size })
                &&& m.min_createdate@ == text_choice(options.min_createdate@, cfg.min_createdate@)
                &&& m.max_createdate@ == text_choice(options.max_createdate@, cfg.max_createdate@)
                &&& m.min_moddate@ == text_choice(options.min_moddate@, cfg.min_moddate@)
                &&& m.max_moddate@ == text_choice(options.max_moddate@, cfg.max_moddate@)
                &&& m.name_filter@ == text_choice(options.name_filter@, cfg.name_filter@)
                &&& m.first_n == (if options.first_n == 0 { cfg.first_n } else { options.first_n })
                &&& m.sort_res_name_asc == (options.sort_res_name_asc || cfg.sort_res_name_asc)
                &&& m.sort_res_name_desc == (options.sort_res_name_desc || cfg.sort_res_name_desc)
                &&& m.sort_res_size_asc == (options.sort_res_size_asc || cfg.sort_res_size_asc)
                &&& m.sort_res_size_desc == (options.sort_res_size_desc || cfg.sort_res_size_desc)
                &&& m.sort_res_cdate_asc == (options.sort_res_cdate_asc || cfg.sort_res_cdate_asc)
                &&& m.sort_res_cdate_desc == (options.sort_res_cdate_desc || cfg.sort_res_cdate_desc)
                &&& m.sort_res_mdate_asc == (options.sort_res_mdate_asc || cfg.sort_res_mdate_asc)
                &&& m.sort_res_mdate_desc == (options.sort_res_mdate_desc || cfg.sort_res_mdate_desc)
                &&& match options.path_start {
                    Some(p) => m.path_start matches Some(q) && q@ == p@,
                    None => m.path_start == cfg.path_start,
                }
                &&& match options.out {
                    Some(p) => m.out_filename matches Some(q) && q@ == replaced(
                        p@,
                        "%DATE%"@,
                        today@,
                    ),
                    None => m.out_filename == cfg.out_filename,
                }
                &&& m.log_filename@ == replaced(
                    text_choice(options.log@, cfg.log_filename@),
                    "%DATE%"@,
                    today@,
                )
            },
            Err(e) => {
                let name = (options.sort_res_name_asc || cfg.sort_res_name_asc) && (
                options.sort_res_name_desc || cfg.sort_res_name_desc);
                let size = (options.sort_res_size_asc || cfg.sort_res_size_asc) && (
                options.sort_res_size_desc || cfg.sort_res_size_desc);
                let created = (options.sort_res_cdate_asc || cfg.sort_res_cdate_asc) && (
                options.sort_res_cdate_desc || cfg.sort_res_cdate_desc);
                let modified = (options.sort_res_mdate_asc || cfg.sort_res_mdate_asc) && (
                options.sort_res_mdate_desc || cfg.sort_res_mdate_desc);
                if name {
                    e == ConfigError::SortNameConflict
                } else if size {
                    e == ConfigError::SortSizeConflict
                } else if created {
                    e == ConfigError::SortCreatedConflict
                } else {
                    modified && e == ConfigError::SortModifiedConflict
                }
            },
        },
{
    let name_asc = options.sort_res_name_asc || cfg.sort_res_name_asc;
    let name_desc = options.sort_res_name_desc || cfg.sort_res_name_desc;
    let size_asc = options.sort_res_size_asc || cfg.sort_res_size_asc;
    let size_desc = options.sort_res_size_desc || cfg.sort_res_size_desc;
    let cdate_asc = options.sort_res_cdate_asc || cfg.sort_res_cdate_asc;
    let cdate_desc = options.sort_res_cdate_desc || cfg.sort_res_cdate_desc;
    let mdate_asc = options.sort_res_mdate_asc || cfg.sort_res_mdate_asc;
    let mdate_desc = options.sort_res_mdate_desc || cfg.sort_res_mdate_desc;
    if name_asc && name_desc {
        return Err(ConfigError::SortNameConflict);
    }
    if size_asc && size_desc {
        return Err(ConfigError::SortSizeConflict);
    }
    if cdate_asc && cdate_desc {
        return Err(ConfigError::SortCreatedConflict);
    }
    if mdate_asc && mdate_desc {
        return Err(ConfigError::SortModifiedConflict);
    }
    let silent_mode = options.silent_mode || cfg.silent_mode;
    let hide_config = options.hide_config || cfg.hide_config;
    let debug = options.debug || cfg.debug;
    let delete = (options.delete || cfg.delete) && !debug;
    let out_filename = match options.out {
        Some(p) => Some(expand_date(p.as_str(), today)),
        None => cfg.out_filename,
    };
    let path_start = match options.path_start {
        Some(p) => Some(p),
        None => cfg.path_start,
    };
    let log = choose_text(options.log, cfg.log_filename);
    Ok(
        ConfigFile {
            global_verbose: if silent_mode {
                0
            } else if cfg.global_verbose >= options.verbose {
                cfg.global_verbose
            } else {
                options.verbose
            },
            hide_config,
            debug,
            debug_config: (options.debug_config || cfg.debug_config) && !hide_config,
            show_options_only: options.show_options_only || cfg.show_options_only,
            delete,
            force_delete: (options.force_delete || cfg.force_delete) && delete,
            silent_mode,
            size: options.size || cfg.size,
            name: options.name || cfg.name,
            date_created: options.date_created || cfg.date_created,
            date_modified: options.date_modified || cfg.date_modified,
            hash_md5: options.hash || options.hash_md5 || cfg.hash_md5,
            hash_sha512: options.hash || options.hash_sha512 || cfg.hash_sha512,
            content: options.content || cfg.content,
            min_size: if options.min_size == 0 {
                cfg.min_size
            } else {
                options.min_size
            },
            max_size: if options.max_size == 0 {
                cfg.max_size
            } else {
                options.max_size
            },
            min_createdate: choose_text(options.min_createdate, cfg.min_createdate),
            max_createdate: choose_text(options.max_createdate, cfg.max_createdate),
            min_moddate: choose_text(options.min_moddate, cfg.min_moddate),
            max_moddate: choose_text(options.max_moddate, cfg.max_moddate),
            name_filter: choose_text(options.name_filter, cfg.name_filter),
            first_n: if options.first_n == 0 {
                cfg.first_n
            } else {
                options.first_n
            },
            sort_res_name_asc: name_asc,
            sort_res_name_desc: name_desc,
            sort_res_size_asc: size_asc,
            sort_res_size_desc: size_desc,
            sort_res_cdate_asc: cdate_asc,
            sort_res_cdate_desc: cdate_desc,
            sort_res_mdate_asc: mdate_asc,
            sort_res_mdate_desc: mdate_desc,
            path_start,
            out_filename,
            log_filename: expand_date(log.as_str(), today),
        },
    )
}

} // verus!
