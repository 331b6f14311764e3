use crate::branch::{candidate, is_first_free, lemma_taken_bound, names_of};
use crate::cli::Remove;
use crate::error::Error;
use crate::split::{Action, Event, Phase, SplitView, all_current, chosen_name, initial, run, transition};
use vstd::prelude::*;

verus! {

/// Whether an action works on a repository: anything but checking the paths,
/// reading the statuses, and ending the run.
pub open spec fn touches_repositories(a: Action) -> bool {
    !(a is CheckPaths || a is ReadStatuses || a is Stop || a is Halt)
}

/// Whether an action disposes of the subdirectory in the source.
pub open spec fn disposes(a: Action) -> bool {
    a is RemoveDir || a is StageAll || prunes(a)
}

/// Whether an action belongs to purging the subdirectory from history.
pub open spec fn prunes(a: Action) -> bool {
    a is FilterBranch || a is ListBackupRefs || a is DeleteBackupRefs || a is ExpireReflog
        || a is CollectGarbage
}

/// How far a run has gone through purging history.
spec fn prune_rank(p: Phase) -> int {
    match p {
        Phase::Filtering => 1,
        Phase::ListingBackups => 2,
        Phase::DeletingBackups => 3,
        Phase::ExpiringReflog => 4,
        Phase::CollectingGarbage => 5,
        Phase::Done => 6,
        _ => 0,
    }
}

spec fn past_branch_delete(p: Phase) -> bool {
    p is DeletingBranch || p is RemovingDir || p is Staging || p is Filtering || p is ListingBackups || p is DeletingBackups
        || p is ExpiringReflog || p is CollectingGarbage || p is Done
}

/// The actions that the subdirectory's mode of disposal adds.
pub open spec fn disposal_actions(mode: Remove) -> Seq<Action> {
    match mode {
        Remove::Nothing => seq![],
        Remove::Commit => seq![Action::RemoveDir, Action::StageAll],
        Remove::Prune => seq![
            Action::FilterBranch,
            Action::ListBackupRefs,
            Action::DeleteBackupRefs,
            Action::ExpireReflog,
            Action::CollectGarbage,
        ],
    }
}

/// Every action of a finished run, in order; `init` says whether the target
/// had to be created.
pub open spec fn finished_actions(mode: Remove, init: bool) -> Seq<Action> {
    seq![Action::CheckPaths, Action::ReadStatuses, Action::OpenTarget] + (if init {
        seq![Action::InitTarget]
    } else {
        seq![]
    }) + seq![Action::ListBranches, Action::SubtreeSplit, Action::Pull, Action::DeleteBranch]
        + disposal_actions(mode) + seq![Action::Finish]
}

/// How many actions a run has asked for on reaching an active phase.
spec fn done_count(p: Phase, init: bool) -> int {
    let i: int = if init { 1 } else { 0 };
    match p {
        Phase::Validating => 1,
        Phase::CheckingStatus => 2,
        Phase::OpeningTarget => 3,
        Phase::InitializingTarget => 4,
        Phase::ListingBranches => 4 + i,
        Phase::Splitting => 5 + i,
        Phase::Pulling => 6 + i,
        Phase::DeletingBranch => 7 + i,
        Phase::RemovingDir | Phase::Filtering => 8 + i,
        Phase::Staging | Phase::ListingBackups => 9 + i,
        Phase::DeletingBackups => 10 + i,
        Phase::ExpiringReflog => 11 + i,
        Phase::CollectingGarbage => 12 + i,
        _ => 0,
    }
}

spec fn chain(mode: Remove, p: Phase, acts: Seq<Action>, init: bool) -> bool {
    let f = finished_actions(mode, init);
    if p is Start {
        acts.len() == 0
    } else if p is Failed {
        true
    } else if p is Done {
        &&& acts.len() >= f.len()
        &&& acts.take(f.len() as int) == f
        &&& forall|i: int| f.len() <= i < acts.len() ==> acts[i] == Action::Halt
    } else {
        &&& p is InitializingTarget ==> init
        &&& acts == f.take(done_count(p, init))
    }
}

spec fn inv(mode: Remove, s: SplitView, acts: Seq<Action>) -> bool {
    &&& chain(mode, s.phase, acts, false) || chain(mode, s.phase, acts, true)
    &&& s.mode == mode
    &&& !s.clean ==> (s.phase is Start || s.phase is Validating || s.phase is CheckingStatus
        || s.phase is Failed)
    &&& !s.clean ==> forall|i: int| 0 <= i < acts.len() ==> !touches_repositories(#[trigger] acts[i])
    &&& s.error == Some(Error::Uncommitted) ==> !s.clean
    &&& !(s.phase is Failed) ==> s.error is None
    &&& (s.phase is Start || s.phase is Validating || s.phase is CheckingStatus) ==> !s.clean
    &&& past_branch_delete(s.phase) ==> acts.contains(Action::DeleteBranch)
    &&& acts.contains(Action::Finish) ==> s.phase == Phase::Done
    &&& mode == Remove::Nothing ==> {
        &&& !past_branch_delete(s.phase) || s.phase is DeletingBranch || s.phase is Done
        &&& forall|i: int| 0 <= i < acts.len() ==> !disposes(#[trigger] acts[i])
    }
    &&& mode == Remove::Commit ==> {
        &&& prune_rank(s.phase) == 0 || s.phase is Done
        &&& forall|i: int| 0 <= i < acts.len() ==> !prunes(#[trigger] acts[i])
        &&& (s.phase is RemovingDir || s.phase is Staging || s.phase is Done) ==> acts.contains(
            Action::RemoveDir,
        )
        &&& (s.phase is Staging || s.phase is Done) ==> acts.contains(Action::StageAll)
    }
    &&& mode == Remove::Prune ==> {
        &&& !(s.phase is RemovingDir || s.phase is Staging)
        &&& prune_rank(s.phase) >= 1 ==> acts.contains(Action::FilterBranch)
        &&& prune_rank(s.phase) >= 2 ==> acts.contains(Action::ListBackupRefs)
        &&& prune_rank(s.phase) >= 3 ==> acts.contains(Action::DeleteBackupRefs)
        &&& prune_rank(s.phase) >= 4 ==> acts.contains(Action::ExpireReflog)
        &&& prune_rank(s.phase) >= 5 ==> acts.contains(Action::CollectGarbage)
    }
}

proof fn lemma_push_contains(acts: Seq<Action>, a: Action)
    ensures
        forall|x: Action| #[trigger] acts.push(a).contains(x) == (acts.contains(x) || x == a),
{
    assert forall|x: Action| #[trigger] acts.push(a).contains(x) == (acts.contains(x) || x == a) by {
        if acts.contains(x) {
            let i = choose|i: int| 0 <= i < acts.len() && acts[i] == x;
            assert(acts.push(a)[i] == x);
        }
        if x == a {
            assert(acts.push(a)[acts.len() as int] == x);
        }
        if acts.push(a).contains(x) {
            let i = choose|i: int| 0 <= i < acts.len() + 1 && acts.push(a)[i] == x;
            if i < acts.len() {
                assert(acts[i] == x);
            }
        }
    }
}

proof fn lemma_take_push(f: Seq<Action>, n: int)
    requires
        0 <= n < f.len(),
    ensures
        f.take(n).push(f[n]) == f.take(n + 1),
{
    assert(f.take(n).push(f[n]) =~= f.take(n + 1));
}

proof fn lemma_chain_step(mode: Remove, s: SplitView, acts: Seq<Action>, e: Event, init: bool)
    requires
        inv(mode, s, acts),
        chain(mode, s.phase, acts, init),
    ensures
        chain(mode, transition(s, e).0.phase, acts.push(transition(s, e).1), init)
            || chain(mode, transition(s, e).0.phase, acts.push(transition(s, e).1), !init),
{
    let (t, a) = transition(s, e);
    let f = finished_actions(mode, init);
    let g = finished_actions(mode, true);
    let d = disposal_actions(mode);
    let k = if init { 1int } else { 0int };
    assert(f.len() == 8 + k + d.len());
    assert(f[0] == Action::CheckPaths);
    assert(f[1] == Action::ReadStatuses);
    assert(f[2] == Action::OpenTarget);
    assert(init ==> f[3] == Action::InitTarget);
    assert(f[3 + k] == Action::ListBranches);
    assert(f[4 + k] == Action::SubtreeSplit);
    assert(f[5 + k] == Action::Pull);
    assert(f[6 + k] == Action::DeleteBranch);
    assert forall|j: int| 0 <= j < d.len() implies f[7 + k + j] == d[j] by {}
    assert(f[7 + k + d.len()] == Action::Finish);
    if s.phase is Done {
        assert(acts.push(a).take(f.len() as int) =~= acts.take(f.len() as int));
    } else if s.phase is Start {
        assert(acts.push(a) =~= f.take(1));
    } else if !(t.phase is Failed) && !(s.phase is Failed) {
        let n = done_count(s.phase, init);
        if s.phase is OpeningTarget && t.phase is InitializingTarget {
            assert(g[3] == Action::InitTarget);
            assert(f.take(3) =~= g.take(3));
            lemma_take_push(g, 3);
        } else if s.phase is OpeningTarget {
            let h = finished_actions(mode, false);
            assert(h[3] == Action::ListBranches);
            assert(f.take(3) =~= h.take(3));
            lemma_take_push(h, 3);
        } else {
            assert(a == f[n]);
            lemma_take_push(f, n);
            if t.phase is Done {
                assert(n + 1 == f.len());
                assert(f.take(n + 1) =~= f);
                assert(acts.push(a).take(f.len() as int) =~= acts.push(a));
            }
        }
    }
}

proof fn lemma_inv_step(mode: Remove, s: SplitView, acts: Seq<Action>, e: Event)
    requires
        inv(mode, s, acts),
    ensures
        inv(mode, transition(s, e).0, acts.push(transition(s, e).1)),
{
    let (t, a) = transition(s, e);
    if chain(mode, s.phase, acts, false) {
        lemma_chain_step(mode, s, acts, e, false);
    } else {
        lemma_chain_step(mode, s, acts, e, true);
    }
    lemma_push_contains(acts, a);
    let acts2 = acts.push(a);
    assert forall|i: int| 0 <= i < acts.len() implies acts2[i] == acts[i] by {}
    assert(acts2[acts.len() as int] == a);
    if !t.clean {
        assert forall|i: int| 0 <= i < acts2.len() implies !touches_repositories(#[trigger] acts2[i]) by {
            if i < acts.len() {
                assert(acts2[i] == acts[i]);
            }
        }
    }
    if mode == Remove::Nothing {
        assert forall|i: int| 0 <= i < acts2.len() implies !disposes(#[trigger] acts2[i]) by {
            if i < acts.len() {
                assert(acts2[i] == acts[i]);
            }
        }
    }
    if mode == Remove::Commit {
        assert forall|i: int| 0 <= i < acts2.len() implies !prunes(#[trigger] acts2[i]) by {
            if i < acts.len() {
                assert(acts2[i] == acts[i]);
            }
        }
    }
}

proof fn lemma_run_inv(mode: Remove, events: Seq<Event>)
    ensures
        inv(mode, run(initial(mode), events).0, run(initial(mode), events).1),
    decreases events.len(),
{
    if events.len() > 0 {
        lemma_run_inv(mode, events.drop_last());
        let (t, acts) = run(initial(mode), events.drop_last());
        lemma_inv_step(mode, t, acts, events.last());
    }
}

/// A run on a source repository with uncommitted changes fails as soon as
/// the statuses are read, and a run that failed that way never asked for any
/// work on a repository: no target, no branch, no git process.
/// A finished run asked, in this order, for the path checks, the status
/// read, the target's opening (and creation, where it was missing), the
/// branch listing, the split, the pull, the branch's deletion, the actions of
/// its mode of disposal and nothing else; after that it asks for nothing.
pub proof fn lemma_finished_run_actions(mode: Remove, events: Seq<Event>)
    ensures
        ({
            let acts = run(initial(mode), events).1;
            acts.contains(Action::Finish) ==> exists|init: bool| {
                let f = #[trigger] finished_actions(mode, init);
                &&& acts.take(f.len() as int) == f
                &&& forall|i: int| f.len() <= i < acts.len() ==> acts[i] == Action::Halt
            }
        }),
{
    lemma_run_inv(mode, events);
}

pub proof fn lemma_uncommitted_changes_stop_run(mode: Remove, events: Seq<Event>, s: SplitView, v: Vec<u32>)
    requires
        s.phase == Phase::CheckingStatus,
        !all_current(v@),
    ensures
        transition(s, Event::Statuses(v)).1 == Action::Stop,
        transition(s, Event::Statuses(v)).0.phase == Phase::Failed,
        transition(s, Event::Statuses(v)).0.error == Some(Error::Uncommitted),
        run(initial(mode), events).0.error == Some(Error::Uncommitted) ==> forall|i: int|
            0 <= i < run(initial(mode), events).1.len() ==> !touches_repositories(
                #[trigger] run(initial(mode), events).1[i],
            ),
{
    lemma_run_inv(mode, events);
}

proof fn lemma_all_taken(existing: Seq<Seq<char>>, m: nat)
    requires
        forall|k: nat| !is_first_free(existing, k),
    ensures
        forall|j: nat| j < m ==> existing.contains(#[trigger] candidate(j)),
    decreases m,
{
    if m > 0 {
        lemma_all_taken(existing, (m - 1) as nat);
        assert(!is_first_free(existing, (m - 1) as nat));
    }
}

/// The temporary branch is named by the first probe that is not a local
/// branch already: the prefix alone, then with one more `_` each time.
pub proof fn lemma_branch_name_is_first_free(s: SplitView, v: Vec<String>)
    requires
        s.phase == Phase::ListingBranches,
    ensures
        ({
            let t = transition(s, Event::Branches(v)).0;
            &&& exists|k: nat| t.branch == candidate(k) && is_first_free(names_of(v@), k)
            &&& !names_of(v@).contains(t.branch)
        }),
{
    let names = names_of(v@);
    if forall|k: nat| !is_first_free(names, k) {
        lemma_all_taken(names, names.len() + 1);
        lemma_taken_bound(names, names.len() + 1);
    }
    let k = choose|k: nat| is_first_free(names, k);
    assert(chosen_name(names) == candidate(k));
}

/// A missing target gets a new empty repository; an existing one is used as
/// it is, without being initialized again.
pub proof fn lemma_target_initialized_only_when_missing(s: SplitView)
    requires
        s.phase == Phase::OpeningTarget,
    ensures
        transition(s, Event::TargetMissing).1 == Action::InitTarget,
        transition(s, Event::Succeeded).1 == Action::ListBranches,
        transition(transition(s, Event::TargetMissing).0, Event::Succeeded).1 == Action::ListBranches,
{
}

/// A run that finished, whatever the disposal mode, has deleted the
/// temporary branch.
pub proof fn lemma_finished_run_deleted_branch(mode: Remove, events: Seq<Event>)
    ensures
        run(initial(mode), events).1.contains(Action::Finish) ==> run(
            initial(mode),
            events,
        ).1.contains(Action::DeleteBranch),
{
    lemma_run_inv(mode, events);
}

/// With mode `nothing` no run ever asks to remove, stage or purge anything.
pub proof fn lemma_nothing_leaves_source(events: Seq<Event>)
    ensures
        forall|i: int|
            0 <= i < run(initial(Remove::Nothing), events).1.len() ==> !disposes(
                #[trigger] run(initial(Remove::Nothing), events).1[i],
            ),
{
    lemma_run_inv(Remove::Nothing, events);
}

/// With mode `commit` a finished run has removed the subdirectory and staged
/// the removal, has purged nothing, and no action of a run makes a commit.
pub proof fn lemma_commit_stages_removal(events: Seq<Event>)
    ensures
        ({
            let acts = run(initial(Remove::Commit), events).1;
            &&& acts.contains(Action::Finish) ==> acts.contains(Action::RemoveDir) && acts.contains(
                Action::StageAll,
            )
            &&& forall|i: int| 0 <= i < acts.len() ==> !prunes(#[trigger] acts[i])
        }),
{
    lemma_run_inv(Remove::Commit, events);
}

/// With mode `prune` a finished run has rewritten history without the
/// subdirectory, listed and deleted the backup references, expired the
/// reflog and collected garbage.
pub proof fn lemma_prune_purges_history(events: Seq<Event>)
    ensures
        ({
            let acts = run(initial(Remove::Prune), events).1;
            acts.contains(Action::Finish) ==> {
                &&& acts.contains(Action::FilterBranch)
                &&& acts.contains(Action::ListBackupRefs)
                &&& acts.contains(Action::DeleteBackupRefs)
                &&& acts.contains(Action::ExpireReflog)
                &&& acts.contains(Action::CollectGarbage)
            }
        }),
{
    lemma_run_inv(Remove::Prune, events);
}

/// The backup references that a purge deletes are exactly those listed
/// under `refs/original/`, and none is left for later.
pub proof fn lemma_listed_backups_are_deleted(s: SplitView, v: Vec<String>)
    requires
        s.phase == Phase::ListingBackups,
    ensures
        transition(s, Event::BackupRefs(v)).1 == Action::DeleteBackupRefs,
        transition(s, Event::BackupRefs(v)).0.backups == names_of(v@),
        transition(s, Event::BackupRefs(v)).0.phase == Phase::DeletingBackups,
{
}

} // verus!
