use crate::branch::{candidate, is_first_free, names_of, temp_branch_name};
use crate::cli::Remove;
use crate::error::{Error, Step};
use git2::Error as GitError;
use std::io::Error as IoError;
use vstd::prelude::*;

verus! {

/// Where a run stands: each phase waits for the outcome of one action.
#[derive(Debug, Clone, Copy, PartialEq, Eq, Structural)]
pub enum Phase {
    Start,
    Validating,
    CheckingStatus,
    OpeningTarget,
    InitializingTarget,
    ListingBranches,
    Splitting,
    Pulling,
    DeletingBranch,
    RemovingDir,
    Staging,
    Filtering,
    ListingBackups,
    DeletingBackups,
    ExpiringReflog,
    CollectingGarbage,
    Done,
    Failed,
}

/// What the caller is asked to do next, and report back as an [`Event`].
#[derive(Debug, Clone, Copy, PartialEq, Eq, Structural)]
pub enum Action {
    /// Check that the source repository and the subdirectory are
    /// directories; create the target directory when missing, else check
    /// that it is one.
    CheckPaths,
    /// Report the status of every file of the source repository.
    ReadStatuses,
    /// Open the target repository; report `TargetMissing` where none is there.
    OpenTarget,
    /// Create an empty repository at the target.
    InitTarget,
    /// Report the names of the source repository's local branches.
    ListBranches,
    /// Split the subdirectory's history onto the branch `branch`.
    SubtreeSplit,
    /// Pull the branch `branch` of the source into the target.
    Pull,
    /// Delete the branch `branch` from the source repository.
    DeleteBranch,
    /// Delete the subdirectory from the source's working tree.
    RemoveDir,
    /// Stage every path of the source and write its index.
    StageAll,
    /// Rewrite all of the source's history without the subdirectory,
    /// dropping commits left empty.
    FilterBranch,
    /// Report the backup references under `refs/original/`.
    ListBackupRefs,
    /// Delete each reference of `backups`.
    DeleteBackupRefs,
    /// Expire the source's reflog now.
    ExpireReflog,
    /// Collect garbage aggressively, pruning now.
    CollectGarbage,
    /// The run is complete.
    Finish,
    /// The run failed; `error` says why.
    Stop,
    /// The run has already ended; nothing to do.
    Halt,
}

/// The outcome of the last action.
pub enum Event {
    /// The action succeeded and has nothing to report.
    Succeeded,
    /// The status bits of each file of the source repository.
    Statuses(Vec<u32>),
    /// No repository was found at the target.
    TargetMissing,
    /// The names of the source repository's local branches.
    Branches(Vec<String>),
    /// The names of the backup references.
    BackupRefs(Vec<String>),
    /// The git library failed.
    GitFailed(GitError),
    /// The file system or a git process failed.
    IoFailed(IoError),
    /// The given path is missing or no directory.
    NotADirectory(String),
}

/// Relies on git2::Status::CURRENT, the empty set of status flags: a file is
/// unmodified exactly when no status bit is set.
#[verifier::external_body]
fn is_current(bits: u32) -> (r: bool)
    ensures
        r == (bits == 0),
{
    git2::Status::from_bits_retain(bits) == git2::Status::CURRENT
}

/// Whether none of the files has a pending change.
pub open spec fn all_current(statuses: Seq<u32>) -> bool {
    forall|i: int| 0 <= i < statuses.len() ==> statuses[i] == 0
}

/// Whether each file of the source repository is unmodified.
pub fn tree_is_clean(statuses: &Vec<u32>) -> (r: bool)
    ensures
        r == all_current(statuses@),
{
    let mut i: usize = 0;
    while i < statuses.len()
        invariant
            i <= statuses@.len(),
            forall|k: int| 0 <= k < i ==> statuses@[k] == 0,
        decreases statuses.len() - i,
    {
        if !is_current(statuses[i]) {
            return false;
        }
        i = i + 1;
    }
    true
}

/// The name that the temporary branch gets among the `existing` names.
pub open spec fn chosen_name(existing: Seq<Seq<char>>) -> Seq<char> {
    candidate(choose|k: nat| is_first_free(existing, k))
}

proof fn lemma_first_free_unique(existing: Seq<Seq<char>>, a: nat, b: nat)
    requires
        is_first_free(existing, a),
        is_first_free(existing, b),
    ensures
        a == b,
{
    if a < b {
        assert(existing.contains(candidate(a)));
    } else if b < a {
        assert(existing.contains(candidate(b)));
    }
}

/// The state of a run, as plain values.
pub struct SplitView {
    pub mode: Remove,
    pub phase: Phase,
    /// The temporary branch's name, once chosen.
    pub branch: Seq<char>,
    /// The backup references to delete, once listed.
    pub backups: Seq<Seq<char>>,
    /// Whether the source repository was found free of changes.
    pub clean: bool,
    pub error: Option<Error>,
}

/// The step that a phase belongs to.
pub open spec fn step_of_phase(p: Phase) -> Step {
    match p {
        Phase::Start | Phase::Validating => Step::Validate,
        Phase::CheckingStatus => Step::CleanCheck,
        Phase::OpeningTarget | Phase::InitializingTarget => Step::TargetInit,
        Phase::ListingBranches => Step::BranchName,
        Phase::Splitting => Step::Split,
        Phase::Pulling => Step::Pull,
        Phase::DeletingBranch => Step::BranchDelete,
        _ => Step::Disposal,
    }
}

/// The error that a failure event stands for, in the given step.
pub open spec fn failure_of(step: Step, e: Event) -> Option<Error> {
    match e {
        Event::GitFailed(git) => Some(Error::Git { step, git }),
        Event::IoFailed(io) => Some(Error::Io { step, io }),
        Event::NotADirectory(path) => Some(Error::NotADirectory { step, path }),
        _ => None,
    }
}

/// The phase that follows a successful action, and the next action.
pub open spec fn advance(mode: Remove, p: Phase) -> (Phase, Action) {
    match p {
        Phase::Validating => (Phase::CheckingStatus, Action::ReadStatuses),
        Phase::OpeningTarget | Phase::InitializingTarget => (Phase::ListingBranches, Action::ListBranches),
        Phase::ListingBranches => (Phase::Splitting, Action::SubtreeSplit),
        Phase::Splitting => (Phase::Pulling, Action::Pull),
        Phase::Pulling => (Phase::DeletingBranch, Action::DeleteBranch),
        Phase::DeletingBranch => match mode {
            Remove::Nothing => (Phase::Done, Action::Finish),
            Remove::Commit => (Phase::RemovingDir, Action::RemoveDir),
            Remove::Prune => (Phase::Filtering, Action::FilterBranch),
        },
        Phase::RemovingDir => (Phase::Staging, Action::StageAll),
        Phase::Filtering => (Phase::ListingBackups, Action::ListBackupRefs),
        Phase::ListingBackups => (Phase::DeletingBackups, Action::DeleteBackupRefs),
        Phase::DeletingBackups => (Phase::ExpiringReflog, Action::ExpireReflog),
        Phase::ExpiringReflog => (Phase::CollectingGarbage, Action::CollectGarbage),
        _ => (Phase::Done, Action::Finish),
    }
}

/// One move of a run: from the state and the outcome of the last action to
/// the next state and the next action.
pub open spec fn transition(s: SplitView, e: Event) -> (SplitView, Action) {
    match s.phase {
        Phase::Start => (SplitView { phase: Phase::Validating, ..s }, Action::CheckPaths),
        Phase::Done | Phase::Failed => (s, Action::Halt),
        _ => {
            let failure = failure_of(step_of_phase(s.phase), e);
            if failure is Some {
                (SplitView { phase: Phase::Failed, error: failure, ..s }, Action::Stop)
            } else if s.phase == Phase::CheckingStatus {
                let statuses = match e {
                    Event::Statuses(v) => v@,
                    _ => Seq::empty(),
                };
                if all_current(statuses) {
                    (SplitView { phase: Phase::OpeningTarget, clean: true, ..s }, Action::OpenTarget)
                } else {
                    (
                        SplitView { phase: Phase::Failed, error: Some(Error::Uncommitted), ..s },
                        Action::Stop,
                    )
                }
            } else if s.phase == Phase::OpeningTarget && e is TargetMissing {
                (SplitView { phase: Phase::InitializingTarget, ..s }, Action::InitTarget)
            } else if s.phase == Phase::ListingBranches {
                let existing = match e {
                    Event::Branches(v) => names_of(v@),
                    _ => Seq::empty(),
                };
                (
                    SplitView { phase: Phase::Splitting, branch: chosen_name(existing), ..s },
                    Action::SubtreeSplit,
                )
            } else if s.phase == Phase::ListingBackups {
                let refs = match e {
                    Event::BackupRefs(v) => names_of(v@),
                    _ => Seq::empty(),
                };
                (SplitView { phase: Phase::DeletingBackups, backups: refs, ..s }, Action::DeleteBackupRefs)
            } else {
                let (p, a) = advance(s.mode, s.phase);
                (SplitView { phase: p, ..s }, a)
            }
        },
    }
}

/// The state and the actions asked for after a sequence of events.
pub open spec fn run(s: SplitView, events: Seq<Event>) -> (SplitView, Seq<Action>)
    decreases events.len(),
{
    if events.len() == 0 {
        (s, Seq::empty())
    } else {
        let (t, acts) = run(s, events.drop_last());
        let (u, a) = transition(t, events.last());
        (u, acts.push(a))
    }
}

/// The state in which a run starts.
pub open spec fn initial(mode: Remove) -> SplitView {
    SplitView {
        mode,
        phase: Phase::Start,
        branch: Seq::empty(),
        backups: Seq::empty(),
        clean: false,
        error: None,
    }
}

/// Drives one run: hand it each outcome, do the action it returns, until it
/// returns `Finish` or `Stop`.
pub struct Splitter {
    pub mode: Remove,
    pub phase: Phase,
    pub branch: String,
    pub backups: Vec<String>,
    pub clean: bool,
    pub error: Option<Error>,
}

impl View for Splitter {
    type V = SplitView;

    open spec fn view(&self) -> SplitView {
        SplitView {
            mode: self.mode,
            phase: self.phase,
            branch: self.branch@,
            backups: names_of(self.backups@),
            clean: self.clean,
            error: self.error,
        }
    }
}

impl Splitter {
    /// A run that disposes of the subdirectory as `mode` says.
    pub fn new(mode: Remove) -> (r: Splitter)
        ensures
            r@ == initial(mode),
    {
        let r = Splitter {
            mode,
            phase: Phase::Start,
            branch: String::new(),
            backups: Vec::new(),
            clean: false,
            error: None,
        };
        assert(names_of(r.backups@) =~= Seq::empty());
        r
    }

    /// Takes the outcome of the last action and returns the next action.
    pub fn step(&mut self, e: Event) -> (a: Action)
        ensures
            (final(self)@, a) == transition(old(self)@, e),
    {
        let ghost e0 = e;
        match self.phase {
            Phase::Start => {
                self.phase = Phase::Validating;
                return Action::CheckPaths;
            },
            Phase::Done | Phase::Failed => {
                return Action::Halt;
            },
            _ => {},
        }
        let step = self.current_step();
        let e = match e {
            Event::GitFailed(git) => {
                self.error = Some(Error::Git { step, git });
                self.phase = Phase::Failed;
                return Action::Stop;
            },
            Event::IoFailed(io) => {
                self.error = Some(Error::Io { step, io });
                self.phase = Phase::Failed;
                return Action::Stop;
            },
            Event::NotADirectory(path) => {
                self.error = Some(Error::NotADirectory { step, path });
                self.phase = Phase::Failed;
                return Action::Stop;
            },
            other => other,
        };
        assert(failure_of(step_of_phase(self.phase), e0) is None);
        match self.phase {
            Phase::CheckingStatus => {
                let clean = match &e {
                    Event::Statuses(v) => tree_is_clean(v),
                    _ => true,
                };
                if clean {
                    self.phase = Phase::OpeningTarget;
                    self.clean = true;
                    Action::OpenTarget
                } else {
                    self.error = Some(Error::Uncommitted);
                    self.phase = Phase::Failed;
                    Action::Stop
                }
            },
            Phase::OpeningTarget => {
                if let Event::TargetMissing = e {
                    self.phase = Phase::InitializingTarget;
                    Action::InitTarget
                } else {
                    self.phase = Phase::ListingBranches;
                    Action::ListBranches
                }
            },
            Phase::ListingBranches => {
                let existing = match e {
                    Event::Branches(v) => v,
                    _ => Vec::new(),
                };
                let name = temp_branch_name(&existing);
                proof {
                    let names = names_of(existing@);
                    let k = choose|k: nat| name@ == candidate(k) && is_first_free(names, k);
                    let c = choose|k: nat| is_first_free(names, k);
                    lemma_first_free_unique(names, k, c);
                    if !(e0 is Branches) {
                        assert(names =~= Seq::empty());
                    }
                }
                self.branch = name;
                self.phase = Phase::Splitting;
                Action::SubtreeSplit
            },
            Phase::ListingBackups => {
                let refs = match e {
                    Event::BackupRefs(v) => v,
                    _ => Vec::new(),
                };
                proof {
                    if !(e0 is BackupRefs) {
                        assert(names_of(refs@) =~= Seq::empty());
                    }
                }
                self.backups = refs;
                self.phase = Phase::DeletingBackups;
                Action::DeleteBackupRefs
            },
            _ => self.advance(),
        }
    }

    fn current_step(&self) -> (r: Step)
        ensures
            r == step_of_phase(self.phase),
    {
        match self.phase {
            Phase::Start | Phase::Validating => Step::Validate,
            Phase::CheckingStatus => Step::CleanCheck,
            Phase::OpeningTarget | Phase::InitializingTarget => Step::TargetInit,
            Phase::ListingBranches => Step::BranchName,
            Phase::Splitting => Step::Split,
            Phase::Pulling => Step::Pull,
            Phase::DeletingBranch => Step::BranchDelete,
            _ => Step::Disposal,
        }
    }

    fn advance(&mut self) -> (a: Action)
        ensures
            final(self)@ == (SplitView { phase: advance(old(self).mode, old(self).phase).0, ..old(self)@ }),
            a == advance(old(self).mode, old(self).phase).1,
    {
        let (p, a) = match self.phase {
            Phase::Validating => (Phase::CheckingStatus, Action::ReadStatuses),
            Phase::OpeningTarget | Phase::InitializingTarget => (Phase::ListingBranches, Action::ListBranches),
            Phase::ListingBranches => (Phase::Splitting, Action::SubtreeSplit),
            Phase::Splitting => (Phase::Pulling, Action::Pull),
            Phase::Pulling => (Phase::DeletingBranch, Action::DeleteBranch),
            Phase::DeletingBranch => match self.mode {
                Remove::Nothing => (Phase::Done, Action::Finish),
                Remove::Commit => (Phase::RemovingDir, Action::RemoveDir),
                Remove::Prune => (Phase::Filtering, Action::FilterBranch),
            },
            Phase::RemovingDir => (Phase::Staging, Action::StageAll),
            Phase::Filtering => (Phase::ListingBackups, Action::ListBackupRefs),
            Phase::ListingBackups => (Phase::DeletingBackups, Action::DeleteBackupRefs),
            Phase::DeletingBackups => (Phase::ExpiringReflog, Action::ExpireReflog),
            Phase::ExpiringReflog => (Phase::CollectingGarbage, Action::CollectGarbage),
            _ => (Phase::Done, Action::Finish),
        };
        self.phase = p;
        a
    }
}

} // verus!
