use gitkit::cli::Remove;
use gitkit::error::{Error, Step};
use gitkit::split::{tree_is_clean, Action, Event, Phase, Splitter};

fn names(v: &[&str]) -> Vec<String> {
    v.iter().map(|s| s.to_string()).collect()
}

/// Starts a run and feeds it clean statuses and an existing target.
fn up_to_branches(mode: Remove) -> (Splitter, Vec<Action>) {
    let mut s = Splitter::new(mode);
    let mut acts = Vec::new();
    acts.push(s.step(Event::Succeeded));
    acts.push(s.step(Event::Succeeded));
    acts.push(s.step(Event::Statuses(vec![0, 0, 0])));
    acts.push(s.step(Event::Succeeded));
    (s, acts)
}

/// Drives a run to its end, every action succeeding.
fn full_run(mode: Remove) -> (Splitter, Vec<Action>) {
    let (mut s, mut acts) = up_to_branches(mode);
    acts.push(s.step(Event::Branches(names(&["main", "temp_split_"]))));
    loop {
        let a = if acts.last() == Some(&Action::ListBackupRefs) {
            s.step(Event::BackupRefs(names(&["refs/original/refs/heads/main"])))
        } else {
            s.step(Event::Succeeded)
        };
        acts.push(a);
        if a == Action::Finish || a == Action::Stop {
            return (s, acts);
        }
    }
}

#[test]
fn run_with_mode_nothing() {
    let (s, acts) = full_run(Remove::Nothing);
    assert_eq!(
        acts,
        vec![
            Action::CheckPaths,
            Action::ReadStatuses,
            Action::OpenTarget,
            Action::ListBranches,
            Action::SubtreeSplit,
            Action::Pull,
            Action::DeleteBranch,
            Action::Finish,
        ]
    );
    assert_eq!(s.phase, Phase::Done);
    assert_eq!(s.branch, "temp_split__");
    assert!(s.error.is_none());
}

#[test]
fn run_with_mode_commit() {
    let (s, acts) = full_run(Remove::Commit);
    assert_eq!(
        acts[6..].to_vec(),
        vec![Action::DeleteBranch, Action::RemoveDir, Action::StageAll, Action::Finish]
    );
    assert_eq!(s.phase, Phase::Done);
}

#[test]
fn run_with_mode_prune() {
    let (s, acts) = full_run(Remove::Prune);
    assert_eq!(
        acts[6..].to_vec(),
        vec![
            Action::DeleteBranch,
            Action::FilterBranch,
            Action::ListBackupRefs,
            Action::DeleteBackupRefs,
            Action::ExpireReflog,
            Action::CollectGarbage,
            Action::Finish,
        ]
    );
    assert_eq!(s.backups, names(&["refs/original/refs/heads/main"]));
}

#[test]
fn dirty_tree_stops_before_any_work() {
    for mode in [Remove::Nothing, Remove::Commit, Remove::Prune] {
        let mut s = Splitter::new(mode);
        assert_eq!(s.step(Event::Succeeded), Action::CheckPaths);
        assert_eq!(s.step(Event::Succeeded), Action::ReadStatuses);
        assert_eq!(s.step(Event::Statuses(vec![0, 128, 0])), Action::Stop);
        assert_eq!(s.phase, Phase::Failed);
        assert!(!s.clean);
        assert!(matches!(s.error, Some(Error::Uncommitted)));
        assert_eq!(s.error.as_ref().unwrap().step(), Step::CleanCheck);
        assert_eq!(s.step(Event::Succeeded), Action::Halt);
        assert_eq!(s.step(Event::Branches(vec![])), Action::Halt);
    }
}

#[test]
fn staged_change_is_uncommitted() {
    let mut s = Splitter::new(Remove::Nothing);
    s.step(Event::Succeeded);
    s.step(Event::Succeeded);
    assert_eq!(s.step(Event::Statuses(vec![1])), Action::Stop);
}

#[test]
fn empty_repository_is_clean() {
    let mut s = Splitter::new(Remove::Nothing);
    s.step(Event::Succeeded);
    s.step(Event::Succeeded);
    assert_eq!(s.step(Event::Statuses(vec![])), Action::OpenTarget);
    assert!(s.clean);
}

#[test]
fn missing_target_is_initialized() {
    let mut s = Splitter::new(Remove::Nothing);
    s.step(Event::Succeeded);
    s.step(Event::Succeeded);
    s.step(Event::Statuses(vec![0]));
    assert_eq!(s.step(Event::TargetMissing), Action::InitTarget);
    assert_eq!(s.step(Event::Succeeded), Action::ListBranches);
    assert_eq!(s.step(Event::Branches(vec![])), Action::SubtreeSplit);
    assert_eq!(s.branch, "temp_split_");
}

#[test]
fn existing_target_is_reused() {
    let (_, acts) = up_to_branches(Remove::Nothing);
    assert!(!acts.contains(&Action::InitTarget));
    assert_eq!(acts.last(), Some(&Action::ListBranches));
}

#[test]
fn failure_carries_its_step() {
    let (mut s, _) = up_to_branches(Remove::Nothing);
    s.step(Event::Branches(vec![]));
    assert_eq!(s.step(Event::Succeeded), Action::Pull);
    let e = std::io::Error::new(std::io::ErrorKind::Other, "pull failed");
    assert_eq!(s.step(Event::IoFailed(e)), Action::Stop);
    assert!(matches!(s.error, Some(Error::Io { step: Step::Pull, .. })));
    assert_eq!(s.phase, Phase::Failed);
}

#[test]
fn git_failure_while_opening_target() {
    let mut s = Splitter::new(Remove::Commit);
    s.step(Event::Succeeded);
    s.step(Event::Succeeded);
    s.step(Event::Statuses(vec![0]));
    let e = git2::Error::from_str("corrupt");
    assert_eq!(s.step(Event::GitFailed(e)), Action::Stop);
    assert!(matches!(s.error, Some(Error::Git { step: Step::TargetInit, .. })));
    assert_eq!(s.error.as_ref().unwrap().step(), Step::TargetInit);
}

#[test]
fn missing_directory_fails_validation() {
    let mut s = Splitter::new(Remove::Nothing);
    s.step(Event::Succeeded);
    assert_eq!(s.step(Event::NotADirectory("repo/sub".to_string())), Action::Stop);
    match &s.error {
        Some(Error::NotADirectory { step, path }) => {
            assert_eq!(*step, Step::Validate);
            assert_eq!(path, "repo/sub");
        }
        _ => panic!("expected a missing directory"),
    }
}

#[test]
fn failure_in_disposal() {
    let (mut s, _) = up_to_branches(Remove::Prune);
    s.step(Event::Branches(vec![]));
    s.step(Event::Succeeded);
    s.step(Event::Succeeded);
    assert_eq!(s.step(Event::Succeeded), Action::FilterBranch);
    let e = std::io::Error::new(std::io::ErrorKind::Other, "filter failed");
    s.step(Event::IoFailed(e));
    assert_eq!(s.error.as_ref().unwrap().step(), Step::Disposal);
}

#[test]
fn clean_statuses() {
    assert!(tree_is_clean(&vec![]));
    assert!(tree_is_clean(&vec![0, 0]));
    assert!(!tree_is_clean(&vec![0, 4]));
    assert!(!tree_is_clean(&vec![1 << 14]));
}
