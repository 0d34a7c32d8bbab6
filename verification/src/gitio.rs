//! Trusted boundary around the version-control library.
//!
//! Every call into git2 (and the one wall-clock read through chrono) is
//! made here, behind a thin wrapper whose body Verus does not read. What
//! each wrapper returns depends on the repository on disk, so the
//! contracts promise only what holds of every outcome; the engine's
//! verified logic takes the results as arguments and decides from them.

use vstd::prelude::*;

verus! {

/// git2's open-repository session, kept opaque.
#[verifier::external_type_specification]
#[verifier::external_body]
pub struct ExRepository(git2::Repository);

/// git2's error type, kept opaque; it is inspected only through the
/// wrappers below and mapped to the engine's own error type.
#[verifier::external_type_specification]
#[verifier::external_body]
pub struct ExGitError(git2::Error);

/// git2's object identifier (a commit, tree or blob hash), kept opaque.
#[verifier::external_type_specification]
#[verifier::external_body]
pub struct ExOid(git2::Oid);

/// git2's in-memory index, the candidate result of a three-way merge.
#[verifier::external_type_specification]
#[verifier::external_body]
pub struct ExIndex(git2::Index);

/// Relies on git2's Repository::open: opens the repository rooted at
/// `path`, failing when the path is not a valid repository.
#[verifier::external_body]
pub(crate) fn open_repository(path: &str) -> Result<git2::Repository, git2::Error> {
    git2::Repository::open(path)
}

/// Relies on git2's Repository::head and Reference::peel_to_commit: the
/// id of the commit that HEAD currently points at.
#[verifier::external_body]
pub(crate) fn head_commit_id(repo: &git2::Repository) -> Result<git2::Oid, git2::Error> {
    Ok(repo.head()?.peel_to_commit()?.id())
}

/// Relies on git2's Repository::find_commit and Repository::branch:
/// creates a branch reference named `name` at the commit `target`,
/// failing (rather than overwriting) when the name already exists.
#[verifier::external_body]
pub(crate) fn create_branch_at(repo: &git2::Repository, name: &str, target: git2::Oid) -> Result<
    (),
    git2::Error,
> {
    let commit = repo.find_commit(target)?;
    repo.branch(name, &commit, false)?;
    Ok(())
}

/// Relies on git2's Repository::revparse_single and
/// Object::peel_to_commit: resolves a revision specifier (branch name,
/// tag or commit hash) to the id of the commit it names.
#[verifier::external_body]
pub(crate) fn revparse_commit_id(repo: &git2::Repository, spec: &str) -> Result<
    git2::Oid,
    git2::Error,
> {
    Ok(repo.revparse_single(spec)?.peel_to_commit()?.id())
}

/// Relies on git2's Repository::revparse_single and Object::peel_to_tree:
/// resolves a revision specifier to the id of its tree object.
#[verifier::external_body]
pub(crate) fn revparse_tree_id(repo: &git2::Repository, spec: &str) -> Result<
    git2::Oid,
    git2::Error,
> {
    Ok(repo.revparse_single(spec)?.peel_to_tree()?.id())
}

/// Relies on git2's Repository::find_object and Repository::checkout_tree:
/// replaces the working tree contents with the tree of the given commit.
#[verifier::external_body]
pub(crate) fn checkout_commit_tree(repo: &git2::Repository, commit: git2::Oid) -> Result<
    (),
    git2::Error,
> {
    let obj = repo.find_object(commit, None)?;
    repo.checkout_tree(&obj, None)
}

/// Relies on git2's Repository::set_head: points HEAD at the given
/// fully qualified reference name.
#[verifier::external_body]
pub(crate) fn set_head_reference(repo: &git2::Repository, refname: &str) -> Result<
    (),
    git2::Error,
> {
    repo.set_head(refname)
}

/// Relies on git2's Repository::find_commit and Repository::merge_commits:
/// the three-way merge of `ours` and `theirs` against their common
/// ancestor, as an in-memory index not yet written to the repository.
#[verifier::external_body]
pub(crate) fn merge_commits_index(
    repo: &git2::Repository,
    ours: git2::Oid,
    theirs: git2::Oid,
) -> Result<git2::Index, git2::Error> {
    let our_commit = repo.find_commit(ours)?;
    let their_commit = repo.find_commit(theirs)?;
    repo.merge_commits(&our_commit, &their_commit, None)
}

/// Relies on git2's Index::has_conflicts: whether the merge candidate
/// contains unresolved conflicting entries.
#[verifier::external_body]
pub(crate) fn index_has_conflicts(index: &git2::Index) -> bool {
    index.has_conflicts()
}

/// Relies on git2's Index::write_tree_to: writes the index as a tree
/// object into the repository and returns the tree's id.
#[verifier::external_body]
pub(crate) fn index_write_tree_to(
    index: &mut git2::Index,
    repo: &git2::Repository,
) -> Result<git2::Oid, git2::Error> {
    index.write_tree_to(repo)
}

/// Relies on git2's Signature::now, Repository::find_tree,
/// Repository::find_commit and Repository::commit: writes a commit with
/// the given tree and with parents in exactly the order given (first
/// `parent_a`, then `parent_b`), advancing the reference named by
/// `update_ref`.
#[verifier::external_body]
pub(crate) fn commit_with_parents(
    repo: &git2::Repository,
    update_ref: &str,
    author_name: &str,
    author_email: &str,
    message: &str,
    tree: git2::Oid,
    parent_a: git2::Oid,
    parent_b: git2::Oid,
) -> Result<git2::Oid, git2::Error> {
    let signature = git2::Signature::now(author_name, author_email)?;
    let tree = repo.find_tree(tree)?;
    let pa = repo.find_commit(parent_a)?;
    let pb = repo.find_commit(parent_b)?;
    repo.commit(Some(update_ref), &signature, &signature, message, &tree, &[&pa, &pb])
}

/// Relies on git2's Repository::find_branch and Branch::delete: removes
/// the local branch reference with the given name, failing when it does
/// not exist. The working tree is not touched.
#[verifier::external_body]
pub(crate) fn delete_local_branch(repo: &git2::Repository, name: &str) -> Result<
    (),
    git2::Error,
> {
    let mut branch = repo.find_branch(name, git2::BranchType::Local)?;
    branch.delete()
}

/// Relies on git2's Repository::branches, Branch::name, Branch::is_head
/// and Reference::peel_to_commit: for each local branch, in repository
/// enumeration order, its name (empty when not valid UTF-8), whether it
/// is the checked-out HEAD, and its tip commit's message when readable.
#[verifier::external_body]
pub(crate) fn list_local_branches(repo: &git2::Repository) -> Result<
    Vec<(String, bool, Option<String>)>,
    git2::Error,
> {
    let mut out = Vec::new();
    for entry in repo.branches(Some(git2::BranchType::Local))? {
        let (branch, _) = entry?;
        let name = branch.name()?.unwrap_or("").to_string();
        let is_head = branch.is_head();
        let last = branch.get().peel_to_commit().ok().map(|c| c.message().unwrap_or("").to_string());
        out.push((name, is_head, last));
    }
    Ok(out)
}

/// Relies on git2's Repository::find_tree, Repository::diff_tree_to_tree
/// and Diff::print: the unified-patch rendering of the structural diff
/// between the two trees, as raw bytes in per-file, per-hunk order.
#[verifier::external_body]
pub(crate) fn diff_patch_bytes(
    repo: &git2::Repository,
    old_tree: git2::Oid,
    new_tree: git2::Oid,
) -> Result<Vec<u8>, git2::Error> {
    let t1 = repo.find_tree(old_tree)?;
    let t2 = repo.find_tree(new_tree)?;
    let diff = repo.diff_tree_to_tree(Some(&t1), Some(&t2), None)?;
    let mut bytes = Vec::new();
    diff.print(git2::DiffFormat::Patch, |_delta, _hunk, line| {
        bytes.extend_from_slice(line.content());
        true
    })?;
    Ok(bytes)
}

/// Relies on std's String::from_utf8_lossy: decodes the bytes as UTF-8,
/// substituting invalid sequences; an empty input gives an empty string.
#[verifier::external_body]
pub(crate) fn utf8_lossy(bytes: &Vec<u8>) -> (r: String)
    ensures
        bytes@.len() == 0 ==> r@.len() == 0,
{
    String::from_utf8_lossy(bytes).into_owned()
}

/// Relies on git2's Repository::head and Reference::shorthand: the
/// short name of the branch that HEAD points at, when HEAD is readable
/// and names a branch.
#[verifier::external_body]
pub(crate) fn head_shorthand(repo: &git2::Repository) -> Option<String> {
    match repo.head() {
        Ok(head) => head.shorthand().ok().map(|s| s.to_string()),
        Err(_) => None,
    }
}

/// Relies on git2's Error::message: the error's human-readable text.
#[verifier::external_body]
pub(crate) fn error_message(e: &git2::Error) -> String {
    e.message().to_string()
}

/// Relies on git2's Error::code: true iff the failure was a lookup of a
/// name or object that does not exist.
#[verifier::external_body]
pub(crate) fn error_is_not_found(e: &git2::Error) -> bool {
    e.code() == git2::ErrorCode::NotFound
}

/// Relies on git2's Error::code: true iff the failure was a collision
/// with an object or reference that already exists.
#[verifier::external_body]
pub(crate) fn error_is_exists(e: &git2::Error) -> bool {
    e.code() == git2::ErrorCode::Exists
}

/// Relies on chrono's Utc::now and DateTime::timestamp: the wall-clock
/// time in whole seconds since the epoch. Nothing is promised of the
/// value; it depends on the clock.
#[verifier::external_body]
pub(crate) fn now_timestamp() -> i64 {
    chrono::Utc::now().timestamp()
}

} // verus!
