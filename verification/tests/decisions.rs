use fundoubler::config::ConfigFile;
use fundoubler::deletion::{
    after_answer, announces_group, delete_line, deletion_enabled, keep_line, prompt_text,
    Progress, Step,
};

fn forced_cfg(debug: bool) -> ConfigFile {
    ConfigFile { delete: true, force_delete: true, debug, ..ConfigFile::default() }
}

fn asking_cfg() -> ConfigFile {
    ConfigFile { delete: true, ..ConfigFile::default() }
}

#[test]
fn deletion_runs_only_when_switched_on() {
    assert!(!deletion_enabled(&ConfigFile::default()));
    assert!(deletion_enabled(&asking_cfg()));
    assert!(deletion_enabled(&forced_cfg(true)));
}

#[test]
fn group_header_is_hidden_only_when_forced_and_silent() {
    let mut cfg = forced_cfg(false);
    assert!(announces_group(&cfg));
    cfg.silent_mode = true;
    assert!(!announces_group(&cfg));
    cfg.force_delete = false;
    assert!(announces_group(&cfg));
}

#[test]
fn forced_mode_keeps_the_first_and_deletes_the_rest() {
    let mut p = Progress::start(&forced_cfg(false), 3);
    assert!(p.removes());
    let mut log = Vec::new();
    for path in ["a.txt", "b.txt", "c.txt"] {
        match p.next_step() {
            Step::Keep => {
                log.push(keep_line(path));
                p.record_kept();
            }
            Step::Delete => {
                log.push(delete_line(path));
                p.record_delete(true);
            }
            other => panic!("unexpected step {:?}", other),
        }
    }
    assert_eq!(p.next_step(), Step::Done);
    assert_eq!(log, vec!["    a.txt - keep!", "    b.txt - delete!", "    c.txt - delete!"]);
    assert_eq!(p.spared, 1);
    assert_eq!(p.condemned, 2);
    assert_eq!(p.removed, 2);
}

#[test]
fn forced_dry_run_decides_and_removes_nothing() {
    let mut p = Progress::start(&forced_cfg(true), 3);
    assert!(!p.removes());
    assert_eq!(p.next_step(), Step::Keep);
    p.record_kept();
    assert_eq!(p.next_step(), Step::Delete);
    p.record_delete(false);
    assert_eq!(p.next_step(), Step::Delete);
    p.record_delete(false);
    assert_eq!(p.next_step(), Step::Done);
    assert_eq!(p.removed, 0);
    assert_eq!(p.condemned, 2);
    assert_eq!(p.spared, 1);
}

#[test]
fn interactive_dry_run_decides_as_a_real_run() {
    let cfg = ConfigFile { delete: true, debug: true, ..ConfigFile::default() };
    let mut p = Progress::start(&cfg, 3);
    assert!(!p.removes());
    assert_eq!(p.next_step(), Step::Ask);
    p.record_delete(false);
    assert_eq!(p.next_step(), Step::Ask);
    p.record_delete(false);
    assert_eq!(p.next_step(), Step::Keep);
    p.record_kept();
    assert_eq!(p.next_step(), Step::Done);
    assert_eq!(p.removed, 0);
}

#[test]
fn forced_mode_goes_on_after_a_failed_removal() {
    let mut p = Progress::start(&forced_cfg(false), 3);
    p.record_kept();
    assert_eq!(p.next_step(), Step::Delete);
    p.record_delete(false);
    assert_eq!(p.next_step(), Step::Delete);
    p.record_delete(true);
    assert_eq!(p.next_step(), Step::Done);
    assert_eq!(p.removed, 1);
}

#[test]
fn interactive_mode_never_deletes_the_last_member() {
    let mut p = Progress::start(&asking_cfg(), 3);
    assert_eq!(p.next_step(), Step::Ask);
    assert_eq!(after_answer(true), Step::Delete);
    p.record_delete(true);
    assert_eq!(p.next_step(), Step::Ask);
    p.record_delete(true);
    assert_eq!(p.next_step(), Step::Keep);
    p.record_kept();
    assert_eq!(p.next_step(), Step::Done);
    assert_eq!(p.removed, 2);
    assert_eq!(p.spared, 1);
}

#[test]
fn interactive_mode_keeps_on_a_no() {
    let mut p = Progress::start(&asking_cfg(), 2);
    assert_eq!(p.next_step(), Step::Ask);
    assert_eq!(after_answer(false), Step::Keep);
    p.record_kept();
    assert_eq!(p.next_step(), Step::Ask);
    p.record_delete(true);
    assert_eq!(p.next_step(), Step::Done);
    assert_eq!(p.removed, 1);
    assert_eq!(p.spared, 1);
}

#[test]
fn a_failed_removal_does_not_change_later_decisions() {
    let mut p = Progress::start(&asking_cfg(), 3);
    assert_eq!(p.next_step(), Step::Ask);
    p.record_delete(false);
    assert_eq!(p.next_step(), Step::Ask);
    p.record_delete(true);
    assert_eq!(p.next_step(), Step::Keep);
    p.record_kept();
    assert_eq!(p.next_step(), Step::Done);
    assert_eq!(p.condemned, 2);
    assert_eq!(p.removed, 1);
}

#[test]
fn an_empty_group_is_done_at_once() {
    assert_eq!(Progress::start(&asking_cfg(), 0).next_step(), Step::Done);
    assert_eq!(Progress::start(&forced_cfg(false), 0).next_step(), Step::Done);
    let single = Progress::start(&asking_cfg(), 1);
    assert_eq!(single.next_step(), Step::Keep);
}

#[test]
fn start_takes_the_mode_from_the_configuration() {
    let p = Progress::start(&forced_cfg(true), 4);
    assert_eq!(
        p,
        Progress { forced: true, dry_run: true, total: 4, spared: 0, condemned: 0, removed: 0 }
    );
    let p = Progress::start(&asking_cfg(), 2);
    assert!(!p.forced && !p.dry_run);
}

#[test]
fn prompt_and_log_texts() {
    assert_eq!(prompt_text("root/a.txt"), "    root/a.txt delete (y/n)?");
    assert_eq!(keep_line("root/a.txt"), "    root/a.txt - keep!");
    assert_eq!(delete_line("root/a.txt"), "    root/a.txt - delete!");
    assert_eq!(prompt_text(""), "     delete (y/n)?");
}
