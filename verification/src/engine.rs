//! Ghost-branch lifecycle, diffing and merge orchestration.
//!
//! The decisions — which trunk name to use, whether a merge proceeds or
//! aborts, how names and messages are built, which branches count as
//! ghost branches — are verified; the repository itself is reached only
//! through the trusted wrappers in the git boundary module.

use vstd::prelude::*;

use crate::errors::EngineError;
use crate::errors::ErrorKind;
use crate::gitio;
use crate::naming::ghost_name_seq;
use crate::naming::is_ghost;
use crate::naming::is_ghost_name;
use crate::naming::lemma_ghost_name_is_ghost;
use crate::naming::make_ghost_name;
use crate::records::str_eq;

verus! {

/// A local branch as reported to the caller: its name, whether it is
/// the checked-out HEAD, whether it is a ghost branch, and its tip
/// commit's message.
#[derive(Clone, Debug)]
pub struct GitBranch {
    pub name: String,
    pub is_head: bool,
    pub is_ghost: bool,
    pub last_commit: Option<String>,
}

/// A commit as reported to the caller.
#[derive(Clone, Debug)]
pub struct GitCommit {
    pub sha: String,
    pub message: String,
    pub timestamp: i64,
    pub author: String,
}

/// The trunk branch of a repository: `main`, falling back to `master`.
#[derive(Clone, Copy, Debug, PartialEq, Eq, Structural)]
pub enum TrunkName {
    Main,
    Master,
}

impl TrunkName {
    /// The trunk's branch name.
    pub fn as_str(&self) -> (r: &'static str)
        ensures
            *self == TrunkName::Main ==> r@ == "main"@,
            *self == TrunkName::Master ==> r@ == "master"@,
    {
        match self {
            TrunkName::Main => "main",
            TrunkName::Master => "master",
        }
    }

    /// The trunk's fully qualified reference name.
    pub fn ref_name(&self) -> (r: &'static str)
        ensures
            *self == TrunkName::Main ==> r@ == "refs/heads/main"@,
            *self == TrunkName::Master ==> r@ == "refs/heads/master"@,
    {
        match self {
            TrunkName::Main => "refs/heads/main",
            TrunkName::Master => "refs/heads/master",
        }
    }
}

/// The states of one merge attempt, in the order the orchestrator
/// passes through them.
#[derive(Clone, Copy, Debug, PartialEq, Eq, Structural)]
pub enum MergePhase {
    Start,
    TrunkCheckedOut,
    MergeComputed { conflicts: bool },
    Committed,
    ConflictAborted,
}

/// The transition relation of a merge attempt: trunk is checked out
/// first, the three-way merge candidate is computed next, and the
/// attempt commits only from a conflict-free candidate and aborts only
/// from a conflicting one. Committed and ConflictAborted are terminal.
pub open spec fn merge_phase_step(pre: MergePhase, post: MergePhase) -> bool {
    ||| (pre == MergePhase::Start && post == MergePhase::TrunkCheckedOut)
    ||| (pre == MergePhase::TrunkCheckedOut && post matches MergePhase::MergeComputed { .. })
    ||| (pre == (MergePhase::MergeComputed { conflicts: false }) && post == MergePhase::Committed)
    ||| (pre == (MergePhase::MergeComputed { conflicts: true })
        && post == MergePhase::ConflictAborted)
}

/// Law: each terminal state is reachable only from the matching merge
/// candidate — a commit only from a conflict-free candidate, an abort
/// only from a conflicting one.
pub proof fn lemma_merge_phase_terminals(pre: MergePhase, post: MergePhase)
    requires
        merge_phase_step(pre, post),
    ensures
        post == MergePhase::Committed ==> pre == (MergePhase::MergeComputed { conflicts: false }),
        post == MergePhase::ConflictAborted ==> pre == (MergePhase::MergeComputed {
            conflicts: true,
        }),
{
}

/// Resolves the trunk branch from the two existence probes: prefer
/// `main`, fall back to `master`, and fail when neither exists.
pub fn resolve_trunk(main_exists: bool, master_exists: bool) -> (r: Result<
    TrunkName,
    EngineError,
>)
    ensures
        main_exists ==> r == Ok::<TrunkName, EngineError>(TrunkName::Main),
        !main_exists && master_exists ==> r == Ok::<TrunkName, EngineError>(TrunkName::Master),
        !main_exists && !master_exists ==> (r matches Err(e) && e.kind == ErrorKind::NoTrunk),
{
    if main_exists {
        Ok(TrunkName::Main)
    } else if master_exists {
        Ok(TrunkName::Master)
    } else {
        Err(
            EngineError::new(
                ErrorKind::NoTrunk,
                String::from_str("neither a main nor a master branch exists"),
            ),
        )
    }
}

/// The conflict gate of the merge state machine: a conflicting merge
/// candidate aborts, a clean one proceeds.
pub fn decide_merge(has_conflicts: bool) -> (r: Result<(), EngineError>)
    ensures
        r is Err <==> has_conflicts,
        r matches Err(e) ==> e.kind == ErrorKind::MergeConflict,
{
    if has_conflicts {
        Err(
            EngineError::new(
                ErrorKind::MergeConflict,
                String::from_str("merge conflicts detected - resolve manually"),
            ),
        )
    } else {
        Ok(())
    }
}

/// The deletion guard: deleting the branch that is currently checked
/// out would leave a dangling HEAD, so it is refused.
pub fn guard_delete(is_checked_out: bool) -> (r: Result<(), EngineError>)
    ensures
        r is Err <==> is_checked_out,
        r matches Err(e) ==> e.kind == ErrorKind::BranchCheckedOut,
{
    if is_checked_out {
        Err(
            EngineError::new(
                ErrorKind::BranchCheckedOut,
                String::from_str("branch is currently checked out"),
            ),
        )
    } else {
        Ok(())
    }
}

/// The fixed merge commit message template, with the ghost branch name
/// embedded.
pub fn merge_commit_message(ghost_branch: &str) -> (r: String)
    ensures
        r@ == "[VIRAITH] Merge ghost branch "@ + ghost_branch@,
{
    let mut s = String::from_str("[VIRAITH] Merge ghost branch ");
    s.append(ghost_branch);
    s
}

/// The fully qualified reference name `refs/heads/<branch>`.
pub fn branch_ref_name(branch: &str) -> (r: String)
    ensures
        r@ == "refs/heads/"@ + branch@,
{
    let mut s = String::from_str("refs/heads/");
    s.append(branch);
    s
}

/// A failed revision lookup is a missing revision when the underlying
/// failure is a not-found lookup, and an object-store failure otherwise.
fn classify_revision_failure(e: &git2::Error) -> (r: EngineError)
    ensures
        r.kind == ErrorKind::RevisionNotFound || r.kind == ErrorKind::Io,
{
    if gitio::error_is_not_found(e) {
        EngineError::new(ErrorKind::RevisionNotFound, gitio::error_message(e))
    } else {
        EngineError::new(ErrorKind::Io, gitio::error_message(e))
    }
}

/// A failed branch creation is a name collision when the underlying
/// failure reports an existing reference, and an object-store failure
/// otherwise.
fn classify_branch_create_failure(e: &git2::Error) -> (r: EngineError)
    ensures
        r.kind == ErrorKind::BranchExists || r.kind == ErrorKind::Io,
{
    if gitio::error_is_exists(e) {
        EngineError::new(ErrorKind::BranchExists, gitio::error_message(e))
    } else {
        EngineError::new(ErrorKind::Io, gitio::error_message(e))
    }
}

/// Wraps any other git failure as an object-store failure.
fn io_failure(e: &git2::Error) -> (r: EngineError)
    ensures
        r.kind == ErrorKind::Io,
{
    EngineError::new(ErrorKind::Io, gitio::error_message(e))
}

/// The ghost-branch names among `names`, in their original order.
pub open spec fn ghost_only(names: Seq<Seq<char>>) -> Seq<Seq<char>>
    decreases names.len(),
{
    if names.len() == 0 {
        Seq::empty()
    } else {
        let rest = ghost_only(names.drop_last());
        if is_ghost_name(names.last()) {
            rest.push(names.last())
        } else {
            rest
        }
    }
}

/// Every name that the ghost filter keeps is a ghost-branch name.
pub proof fn lemma_ghost_only_all_ghost(names: Seq<Seq<char>>)
    ensures
        forall|i: int|
            0 <= i < ghost_only(names).len() ==> is_ghost_name(#[trigger] ghost_only(names)[i]),
    decreases names.len(),
{
    if names.len() > 0 {
        lemma_ghost_only_all_ghost(names.drop_last());
        let rest = ghost_only(names.drop_last());
        if is_ghost_name(names.last()) {
            assert(ghost_only(names) == rest.push(names.last()));
            assert forall|i: int| 0 <= i < ghost_only(names).len() implies is_ghost_name(
                #[trigger] ghost_only(names)[i],
            ) by {
                if i < rest.len() {
                    assert(ghost_only(names)[i] == rest[i]);
                } else {
                    assert(ghost_only(names)[i] == names.last());
                }
            }
        } else {
            assert(ghost_only(names) == rest);
        }
    }
}

/// Keeps exactly the names carrying the ghost prefix, in their original
/// order.
pub fn filter_ghost_names(names: &Vec<String>) -> (r: Vec<String>)
    ensures
        r@.map_values(|s: String| s@) == ghost_only(names@.map_values(|s: String| s@)),
{
    let mut r: Vec<String> = Vec::new();
    let mut i: usize = 0;
    while i < names.len()
        invariant
            i <= names.len(),
            r@.map_values(|s: String| s@) == ghost_only(
                names@.take(i as int).map_values(|s: String| s@),
            ),
        decreases names.len() - i,
    {
        proof {
            let prev = names@.take(i as int).map_values(|s: String| s@);
            let next = names@.take(i as int + 1).map_values(|s: String| s@);
            assert(next.drop_last() =~= prev);
            assert(next.last() == names@[i as int]@);
        }
        if is_ghost(names[i].as_str()) {
            r.push(names[i].clone());
        }
        i += 1;
    }
    proof {
        assert(names@.take(names@.len() as int) =~= names@);
    }
    r
}

/// The workflow engine bound to one open repository session.
pub struct GhostMode {
    repo: git2::Repository,
}

impl GhostMode {
    /// Opens the repository rooted at `repo_path`.
    pub fn new(repo_path: &str) -> (r: Result<GhostMode, EngineError>)
        ensures
            r matches Err(e) ==> e.kind == ErrorKind::Repository,
    {
        match gitio::open_repository(repo_path) {
            Ok(repo) => Ok(GhostMode { repo }),
            Err(e) => Err(EngineError::new(ErrorKind::Repository, gitio::error_message(&e))),
        }
    }

    /// Creates a ghost branch for the work item at the commit HEAD
    /// points at, and checks the new branch out.
    pub fn create_ghost_branch(&self, card_id: &str) -> (r: Result<String, EngineError>)
        ensures
            r matches Ok(name) ==> exists|t: int| name@ == ghost_name_seq(card_id@, t),
            r matches Ok(name) ==> is_ghost_name(name@),
            r matches Err(e) ==> e.kind == ErrorKind::BranchExists || e.kind == ErrorKind::Io,
    {
        let head = match gitio::head_commit_id(&self.repo) {
            Ok(oid) => oid,
            Err(e) => {
                return Err(io_failure(&e));
            },
        };
        let created_at = gitio::now_timestamp();
        let branch_name = make_ghost_name(card_id, created_at);
        if let Err(e) = gitio::create_branch_at(&self.repo, branch_name.as_str(), head) {
            return Err(classify_branch_create_failure(&e));
        }
        let refname = branch_ref_name(branch_name.as_str());
        let target = match gitio::revparse_commit_id(&self.repo, refname.as_str()) {
            Ok(oid) => oid,
            Err(e) => {
                return Err(io_failure(&e));
            },
        };
        if let Err(e) = gitio::checkout_commit_tree(&self.repo, target) {
            return Err(io_failure(&e));
        }
        if let Err(e) = gitio::set_head_reference(&self.repo, refname.as_str()) {
            return Err(io_failure(&e));
        }
        proof {
            lemma_ghost_name_is_ghost(card_id@, created_at as int);
            assert(branch_name@ == ghost_name_seq(card_id@, created_at as int));
        }
        Ok(branch_name)
    }

    /// Merges the ghost branch into the trunk branch: checks trunk out,
    /// three-way merges the two tips, and either writes a merge commit
    /// whose parents are (trunk tip, ghost tip) in that order and
    /// deletes the ghost branch, or aborts on conflicts leaving the
    /// trunk reference untouched.
    pub fn merge_to_main(&self, ghost_branch: &str) -> (r: Result<(), EngineError>)
        ensures
            r matches Err(e) ==> e.kind == ErrorKind::NoTrunk || e.kind
                == ErrorKind::RevisionNotFound || e.kind == ErrorKind::MergeConflict || e.kind
                == ErrorKind::Io,
    {
        // Start: resolve the trunk branch name, preferring main.
        let mut phase: Ghost<MergePhase> = Ghost(MergePhase::Start);
        let main_exists = gitio::revparse_commit_id(&self.repo, "main").is_ok();
        let master_exists = gitio::revparse_commit_id(&self.repo, "master").is_ok();
        let trunk = match resolve_trunk(main_exists, master_exists) {
            Ok(t) => t,
            Err(e) => {
                return Err(e);
            },
        };
        // TrunkCheckedOut: replace the working tree with trunk's tree
        // and move HEAD onto the trunk reference.
        let trunk_tip = match gitio::revparse_commit_id(&self.repo, trunk.as_str()) {
            Ok(oid) => oid,
            Err(e) => {
                return Err(classify_revision_failure(&e));
            },
        };
        if let Err(e) = gitio::checkout_commit_tree(&self.repo, trunk_tip) {
            return Err(io_failure(&e));
        }
        if let Err(e) = gitio::set_head_reference(&self.repo, trunk.ref_name()) {
            return Err(io_failure(&e));
        }
        proof {
            assert(merge_phase_step(phase@, MergePhase::TrunkCheckedOut));
            phase@ = MergePhase::TrunkCheckedOut;
        }
        // Resolve the two tips to merge.
        let ghost_tip = match gitio::revparse_commit_id(&self.repo, ghost_branch) {
            Ok(oid) => oid,
            Err(e) => {
                return Err(classify_revision_failure(&e));
            },
        };
        let head_tip = match gitio::head_commit_id(&self.repo) {
            Ok(oid) => oid,
            Err(e) => {
                return Err(io_failure(&e));
            },
        };
        // MergeComputed: the candidate tree plus its conflict flag.
        let mut index = match gitio::merge_commits_index(&self.repo, head_tip, ghost_tip) {
            Ok(idx) => idx,
            Err(e) => {
                return Err(io_failure(&e));
            },
        };
        let has_conflicts = gitio::index_has_conflicts(&index);
        proof {
            assert(merge_phase_step(phase@, MergePhase::MergeComputed { conflicts: has_conflicts }));
            phase@ = MergePhase::MergeComputed { conflicts: has_conflicts };
        }
        if let Err(e) = decide_merge(has_conflicts) {
            // ConflictAborted: trunk is not advanced, no partial commit
            // is created, and the ghost branch is preserved untouched.
            proof {
                assert(merge_phase_step(phase@, MergePhase::ConflictAborted));
                phase@ = MergePhase::ConflictAborted;
            }
            return Err(e);
        }
        // Committed: write the candidate tree, commit with parents
        // (trunk tip, ghost tip), and advance trunk through HEAD.
        let tree = match gitio::index_write_tree_to(&mut index, &self.repo) {
            Ok(oid) => oid,
            Err(e) => {
                return Err(io_failure(&e));
            },
        };
        let message = merge_commit_message(ghost_branch);
        if let Err(e) = gitio::commit_with_parents(
            &self.repo,
            "HEAD",
            "VIRAITH User",
            "user@viraith.dev",
            message.as_str(),
            tree,
            head_tip,
            ghost_tip,
        ) {
            return Err(io_failure(&e));
        }
        proof {
            assert(merge_phase_step(phase@, MergePhase::Committed));
            phase@ = MergePhase::Committed;
        }
        // Cleanup is part of the same logical operation: the merged
        // ghost branch reference is deleted.
        if let Err(e) = gitio::delete_local_branch(&self.repo, ghost_branch) {
            return Err(io_failure(&e));
        }
        proof {
            assert(phase@ == MergePhase::Committed);
        }
        Ok(())
    }

    /// Removes a branch reference without touching the working tree.
    /// Deleting the branch that HEAD points at is refused, so that the
    /// repository is never left with a dangling HEAD; the caller must
    /// check something else out first.
    pub fn delete_branch(&self, branch_name: &str) -> (r: Result<(), EngineError>)
        ensures
            r matches Err(e) ==> e.kind == ErrorKind::BranchCheckedOut || e.kind
                == ErrorKind::RevisionNotFound || e.kind == ErrorKind::Io,
    {
        let is_checked_out = match gitio::head_shorthand(&self.repo) {
            Some(head_name) => str_eq(head_name.as_str(), branch_name),
            None => false,
        };
        if let Err(e) = guard_delete(is_checked_out) {
            return Err(e);
        }
        match gitio::delete_local_branch(&self.repo, branch_name) {
            Ok(()) => Ok(()),
            Err(e) => Err(classify_revision_failure(&e)),
        }
    }

    /// Renders the unified patch between two revisions (branch names,
    /// tags or commit hashes). Read-only: no repository state changes.
    pub fn get_diff(&self, branch1: &str, branch2: &str) -> (r: Result<String, EngineError>)
        ensures
            r matches Err(e) ==> e.kind == ErrorKind::RevisionNotFound || e.kind == ErrorKind::Io,
    {
        let tree1 = match gitio::revparse_tree_id(&self.repo, branch1) {
            Ok(oid) => oid,
            Err(e) => {
                return Err(classify_revision_failure(&e));
            },
        };
        let tree2 = match gitio::revparse_tree_id(&self.repo, branch2) {
            Ok(oid) => oid,
            Err(e) => {
                return Err(classify_revision_failure(&e));
            },
        };
        let bytes = match gitio::diff_patch_bytes(&self.repo, tree1, tree2) {
            Ok(b) => b,
            Err(e) => {
                return Err(io_failure(&e));
            },
        };
        Ok(gitio::utf8_lossy(&bytes))
    }

    /// Lists the local branch names carrying the ghost prefix, in
    /// repository enumeration order (no additional sort is imposed).
    pub fn list_ghost_branches(&self) -> (r: Result<Vec<String>, EngineError>)
        ensures
            r matches Ok(names) ==> forall|i: int|
                0 <= i < names@.len() ==> is_ghost_name(#[trigger] names@[i]@),
            r matches Err(e) ==> e.kind == ErrorKind::Io,
    {
        let infos = match gitio::list_local_branches(&self.repo) {
            Ok(v) => v,
            Err(e) => {
                return Err(io_failure(&e));
            },
        };
        let mut names: Vec<String> = Vec::new();
        let mut i: usize = 0;
        while i < infos.len()
            invariant
                i <= infos.len(),
            decreases infos.len() - i,
        {
            names.push(infos[i].0.clone());
            i += 1;
        }
        let ghosts = filter_ghost_names(&names);
        proof {
            let gseq = ghosts@.map_values(|s: String| s@);
            lemma_ghost_only_all_ghost(names@.map_values(|s: String| s@));
            assert forall|j: int| 0 <= j < ghosts@.len() implies is_ghost_name(
                #[trigger] ghosts@[j]@,
            ) by {
                assert(gseq[j] == ghosts@[j]@);
            }
        }
        Ok(ghosts)
    }
}

/// Builds the caller-facing branch records from a raw branch listing
/// (name, head flag, tip message): name, head flag and message are
/// carried over unchanged, and the ghost flag is derived from the
/// naming policy.
pub fn branches_from_infos(infos: &Vec<(String, bool, Option<String>)>) -> (r: Vec<GitBranch>)
    ensures
        r@.len() == infos@.len(),
        forall|i: int|
            0 <= i < infos@.len() ==> {
                &&& (#[trigger] r@[i]).name == infos@[i].0
                &&& r@[i].is_head == infos@[i].1
                &&& r@[i].is_ghost == is_ghost_name(infos@[i].0@)
                &&& r@[i].last_commit == infos@[i].2
            },
{
    let mut r: Vec<GitBranch> = Vec::new();
    let mut i: usize = 0;
    while i < infos.len()
        invariant
            i <= infos.len(),
            r@.len() == i as int,
            forall|j: int|
                0 <= j < i ==> {
                    &&& (#[trigger] r@[j]).name == infos@[j].0
                    &&& r@[j].is_head == infos@[j].1
                    &&& r@[j].is_ghost == is_ghost_name(infos@[j].0@)
                    &&& r@[j].last_commit == infos@[j].2
                },
        decreases infos.len() - i,
    {
        let name = infos[i].0.clone();
        let ghost_flag = is_ghost(name.as_str());
        let last_commit = match &infos[i].2 {
            Some(message) => Some(message.clone()),
            None => None,
        };
        r.push(GitBranch { name, is_head: infos[i].1, is_ghost: ghost_flag, last_commit });
        i += 1;
    }
    r
}

/// Lists all local branches of the repository at `repo_path`, with the
/// head flag, the ghost flag derived from the naming policy, and the
/// tip commit's message.
pub fn get_branches(repo_path: &str) -> (r: Result<Vec<GitBranch>, EngineError>)
    ensures
        r matches Ok(branches) ==> forall|i: int|
            0 <= i < branches@.len() ==> (#[trigger] branches@[i]).is_ghost == is_ghost_name(
                branches@[i].name@,
            ),
        r matches Err(e) ==> e.kind == ErrorKind::Repository || e.kind == ErrorKind::Io,
{
    let gm = match GhostMode::new(repo_path) {
        Ok(g) => g,
        Err(e) => {
            return Err(e);
        },
    };
    let infos = match gitio::list_local_branches(&gm.repo) {
        Ok(v) => v,
        Err(e) => {
            return Err(io_failure(&e));
        },
    };
    Ok(branches_from_infos(&infos))
}

/// Opens the repository at `repo_path` and creates a ghost branch for
/// the work item.
pub fn create_ghost_branch(repo_path: String, card_id: String) -> (r: Result<String, EngineError>)
    ensures
        r matches Ok(name) ==> exists|t: int| name@ == ghost_name_seq(card_id@, t),
        r matches Ok(name) ==> is_ghost_name(name@),
        r matches Err(e) ==> e.kind == ErrorKind::Repository || e.kind == ErrorKind::BranchExists
            || e.kind == ErrorKind::Io,
{
    let gm = match GhostMode::new(repo_path.as_str()) {
        Ok(g) => g,
        Err(e) => {
            return Err(e);
        },
    };
    gm.create_ghost_branch(card_id.as_str())
}

/// Opens the repository at `repo_path` and renders the unified patch
/// between the two revisions.
pub fn get_branch_diff(repo_path: String, branch1: String, branch2: String) -> (r: Result<
    String,
    EngineError,
>)
    ensures
        r matches Err(e) ==> e.kind == ErrorKind::Repository || e.kind == ErrorKind::RevisionNotFound
            || e.kind == ErrorKind::Io,
{
    let gm = match GhostMode::new(repo_path.as_str()) {
        Ok(g) => g,
        Err(e) => {
            return Err(e);
        },
    };
    gm.get_diff(branch1.as_str(), branch2.as_str())
}

/// Opens the repository at `repo_path` and merges the ghost branch into
/// the trunk branch.
pub fn merge_ghost_branch(repo_path: String, ghost_branch: String) -> (r: Result<(), EngineError>)
    ensures
        r matches Err(e) ==> e.kind == ErrorKind::Repository || e.kind == ErrorKind::NoTrunk
            || e.kind == ErrorKind::RevisionNotFound || e.kind == ErrorKind::MergeConflict
            || e.kind == ErrorKind::Io,
{
    let gm = match GhostMode::new(repo_path.as_str()) {
        Ok(g) => g,
        Err(e) => {
            return Err(e);
        },
    };
    gm.merge_to_main(ghost_branch.as_str())
}

} // verus!
