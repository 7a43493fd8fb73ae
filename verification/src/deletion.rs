//! The keep/delete decisions for the members of one group, taken one file at
//! a time. The caller asks the user and removes files; this module decides
//! and keeps count.

use vstd::prelude::*;
use vstd::string::StringExecFns;
use crate::config::ConfigFile;

verus! {

/// What is to happen with the next member of a group.
#[derive(Clone, Copy, Debug, PartialEq, Eq, Structural)]
pub enum Step {
    /// Every member has been decided.
    Done,
    /// Keep the file without asking.
    Keep,
    /// Ask the user; the answer decides.
    Ask,
    /// Delete the file without asking.
    Delete,
}

/// The state of the decisions over one group.
#[derive(Clone, Copy, Debug, PartialEq, Eq, Structural)]
pub struct Progress {
    /// Forced mode: no questions, the first member stays, the rest goes.
    pub forced: bool,
    /// Dry run: decisions are taken and nothing is removed.
    pub dry_run: bool,
    /// The members of the group.
    pub total: usize,
    /// The members decided to stay.
    pub spared: usize,
    /// The members decided to go.
    pub condemned: usize,
    /// The members removed from disk; kept for the record only.
    pub removed: usize,
}

/// Whether the groups are gone through at all: only where deletion is
/// switched on.
pub fn deletion_enabled(cfg: &ConfigFile) -> (r: bool)
    ensures
        r == cfg.delete,
{
    cfg.delete
}

/// Whether the group header is announced on the console before a group is
/// gone through: always, except in forced mode when silent.
pub fn announces_group(cfg: &ConfigFile) -> (r: bool)
    ensures
        r == (!cfg.silent_mode || !cfg.force_delete),
{
    !cfg.silent_mode || !cfg.force_delete
}

impl Progress {
    /// The members decided so far.
    pub open spec fn seen(&self) -> int {
        self.spared + self.condemned
    }

    /// The most members that may go: all but one.
    pub open spec fn max_condemned(&self) -> int {
        if self.total == 0 {
            0
        } else {
            self.total - 1
        }
    }

    /// The counters fit together, and the mode's guarantee holds: in forced
    /// mode the first member was spared, in interactive mode no more than all
    /// but one were decided to go, and in a dry run nothing was removed.
    pub open spec fn wf(&self) -> bool {
        &&& self.seen() <= self.total
        &&& self.removed <= self.condemned
        &&& self.forced && self.seen() > 0 ==> self.spared >= 1
        &&& !self.forced ==> self.condemned <= self.max_condemned()
        &&& self.dry_run ==> self.removed == 0
    }

    /// The decision for the next member.
    pub open spec fn next(&self) -> Step {
        if self.seen() >= self.total {
            Step::Done
        } else if self.forced {
            if self.seen() == 0 {
                Step::Keep
            } else {
                Step::Delete
            }
        } else if self.condemned == self.max_condemned() {
            Step::Keep
        } else {
            Step::Ask
        }
    }

    /// Starts on a group of `total` members.
    pub fn start(cfg: &ConfigFile, total: usize) -> (r: Progress)
        ensures
            r == (Progress {
                forced: cfg.force_delete,
                dry_run: cfg.debug,
                total,
                spared: 0,
                condemned: 0,
                removed: 0,
            }),
            r.wf(),
    {
        Progress {
            forced: cfg.force_delete,
            dry_run: cfg.debug,
            total,
            spared: 0,
            condemned: 0,
            removed: 0,
        }
    }

    /// Decides on the next member. In forced mode the first member is kept
    /// and every other is deleted. In interactive mode the user is asked,
    /// unless all members but one have been decided to go: then the member
    /// is kept without a question. Whether earlier removals succeeded plays
    /// no part.
    pub fn next_step(&self) -> (r: Step)
        requires
            self.wf(),
        ensures
            r == self.next(),
    {
        if self.total - self.spared <= self.condemned {
            Step::Done
        } else if self.forced {
            if self.spared == 0 && self.condemned == 0 {
                Step::Keep
            } else {
                Step::Delete
            }
        } else if self.condemned == self.total - 1 {
            Step::Keep
        } else {
            Step::Ask
        }
    }

    /// Whether a decision to delete is carried out on disk: not in a dry run.
    pub fn removes(&self) -> (r: bool)
        ensures
            r == !self.dry_run,
    {
        !self.dry_run
    }

    /// Records that the next member stays: by decision, or because the user
    /// declined.
    pub fn record_kept(&mut self)
        requires
            old(self).wf(),
            old(self).next() is Keep || old(self).next() is Ask,
        ensures
            *final(self) == (Progress { spared: (old(self).spared + 1) as usize, ..*old(self) }),
            final(self).wf(),
    {
        self.spared = self.spared + 1;
    }

    /// Records a decision to delete the next member, and whether the file
    /// was in fact removed. A removal that failed, or was left out in a dry
    /// run, is no removal, and the decision stands all the same.
    pub fn record_delete(&mut self, removed: bool)
        requires
            old(self).wf(),
            old(self).next() is Delete || old(self).next() is Ask,
            removed ==> !old(self).dry_run,
        ensures
            *final(self) == (Progress {
                condemned: (old(self).condemned + 1) as usize,
                removed: (if removed {
                    old(self).removed + 1
                } else {
                    old(self).removed as int
                }) as usize,
                ..*old(self)
            }),
            final(self).wf(),
    {
        self.condemned = self.condemned + 1;
        if removed {
            self.removed = self.removed + 1;
        }
    }
}

/// The decision that follows the user's answer: delete on yes, keep on no.
pub fn after_answer(yes: bool) -> (r: Step)
    ensures
        r == (if yes {
            Step::Delete
        } else {
            Step::Keep
        }),
{
    if yes {
        Step::Delete
    } else {
        Step::Keep
    }
}

/// Whatever the mode and the answers, a group is never emptied: fewer
/// members are decided to go, and so fewer are removed, than it has.
pub proof fn lemma_one_survives(p: Progress)
    requires
        p.wf(),
        p.total > 0,
    ensures
        p.condemned < p.total,
        p.removed < p.total,
        p.next() is Done ==> p.spared >= 1,
{
}

/// In interactive mode, once all members but one are decided to go, the
/// one that is left is kept without a question.
pub proof fn lemma_last_member_kept(p: Progress)
    requires
        p.wf(),
        !p.forced,
        p.total > 0,
        p.condemned == p.total - 1,
    ensures
        p.next() is Keep || p.next() is Done,
        p.next() is Done ==> p.spared == 1,
{
}

/// In forced mode the first member of a group is kept and every later one
/// is deleted, so that at the end exactly one was spared; in a dry run none
/// of these deletions reaches the disk.
pub proof fn lemma_forced_keeps_first(p: Progress)
    requires
        p.wf(),
        p.forced,
    ensures
        p.seen() == 0 && p.total > 0 ==> p.next() is Keep,
        0 < p.seen() < p.total ==> p.next() is Delete,
        p.dry_run ==> p.removed == 0,
{
}

/// The question put to the user about a file.
pub fn prompt_text(path: &str) -> (r: String)
    ensures
        r@ == "    "@ + path@ + " delete (y/n)?"@,
{
    String::from_str("    ").concat(path).concat(" delete (y/n)?")
}

/// The log line for a file that stays.
pub fn keep_line(path: &str) -> (r: String)
    ensures
        r@ == "    "@ + path@ + " - keep!"@,
{
    String::from_str("    ").concat(path).concat(" - keep!")
}

/// The log line for a file that is to be deleted.
pub fn delete_line(path: &str) -> (r: String)
    ensures
        r@ == "    "@ + path@ + " - delete!"@,
{
    String::from_str("    ").concat(path).concat(" - delete!")
}

} // verus!
