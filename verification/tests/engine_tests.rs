use viraith::engine::GhostMode;
use viraith::engine::guard_delete;
use viraith::engine::TrunkName;
use viraith::engine::create_ghost_branch;
use viraith::engine::decide_merge;
use viraith::engine::filter_ghost_names;
use viraith::engine::get_branch_diff;
use viraith::engine::get_branches;
use viraith::engine::merge_commit_message;
use viraith::engine::merge_ghost_branch;
use viraith::engine::resolve_trunk;
use viraith::errors::ErrorKind;

fn temp_path() -> String {
    format!("/tmp/viraith-test-{}", uuid::Uuid::new_v4())
}

fn test_signature() -> git2::Signature<'static> {
    git2::Signature::now("tester", "tester@example.com").unwrap()
}

/// Writes a commit whose tree holds exactly `entries`, advancing `update_ref`.
fn commit_entries(
    repo: &git2::Repository,
    update_ref: &str,
    entries: &[(&str, &str)],
    message: &str,
    parents: &[git2::Oid],
) -> git2::Oid {
    let sig = test_signature();
    let mut tb = repo.treebuilder(None).unwrap();
    for (name, content) in entries {
        let blob = repo.blob(content.as_bytes()).unwrap();
        tb.insert(*name, blob, 0o100644).unwrap();
    }
    let tree = repo.find_tree(tb.write().unwrap()).unwrap();
    let parent_commits: Vec<git2::Commit> =
        parents.iter().map(|o| repo.find_commit(*o).unwrap()).collect();
    let parent_refs: Vec<&git2::Commit> = parent_commits.iter().collect();
    repo.commit(Some(update_ref), &sig, &sig, message, &tree, &parent_refs).unwrap()
}

/// Brings the working tree and the index in line with the given commit.
fn sync_workdir(repo: &git2::Repository, commit: git2::Oid) {
    let obj = repo.find_object(commit, None).unwrap();
    let mut cb = git2::build::CheckoutBuilder::new();
    cb.force();
    repo.checkout_tree(&obj, Some(&mut cb)).unwrap();
    let tree = repo.find_commit(commit).unwrap().tree().unwrap();
    let mut index = repo.index().unwrap();
    index.read_tree(&tree).unwrap();
    index.write().unwrap();
}

/// The branch name the repository uses as trunk.
fn trunk_name(repo: &git2::Repository) -> String {
    if repo.revparse_single("main").is_ok() {
        "main".to_string()
    } else {
        "master".to_string()
    }
}

/// A fresh repository with one initial commit containing `f.txt`.
fn init_repo(path: &str) -> (git2::Repository, git2::Oid, String) {
    let repo = git2::Repository::init(path).unwrap();
    let c0 = commit_entries(&repo, "HEAD", &[("f.txt", "base\n")], "initial", &[]);
    sync_workdir(&repo, c0);
    let trunk = trunk_name(&repo);
    (repo, c0, trunk)
}

fn trunk_tip(repo: &git2::Repository, trunk: &str) -> git2::Oid {
    repo.revparse_single(trunk).unwrap().peel_to_commit().unwrap().id()
}

#[test]
fn open_invalid_repository_fails() {
    let err = match GhostMode::new(&temp_path()) {
        Ok(_) => panic!("opening a missing repository should fail"),
        Err(e) => e,
    };
    assert_eq!(err.kind, ErrorKind::Repository);
}

#[test]
fn create_ghost_branch_checks_it_out() {
    let path = temp_path();
    let (repo, c0, _) = init_repo(&path);
    let gm = GhostMode::new(&path).unwrap();
    let name = gm.create_ghost_branch("card-1").unwrap();
    assert!(name.starts_with("ghost/card-1/"));
    // The new branch exists and points at the commit HEAD pointed at.
    let branch = repo.find_branch(&name, git2::BranchType::Local).unwrap();
    assert_eq!(branch.get().peel_to_commit().unwrap().id(), c0);
    // The new branch is the checked-out HEAD.
    let head = repo.head().unwrap();
    assert_eq!(head.shorthand().unwrap(), name);
}

#[test]
fn fresh_ghost_branch_diffs_empty_against_trunk() {
    let path = temp_path();
    let (_repo, _c0, trunk) = init_repo(&path);
    let gm = GhostMode::new(&path).unwrap();
    let name = gm.create_ghost_branch("card-2").unwrap();
    let patch = gm.get_diff(&name, &trunk).unwrap();
    assert_eq!(patch, "");
    let patch_rev = gm.get_diff(&trunk, &name).unwrap();
    assert_eq!(patch_rev, "");
}

#[test]
fn clean_merge_commits_and_deletes_ghost() {
    let path = temp_path();
    let (repo, c0, trunk) = init_repo(&path);
    let gm = GhostMode::new(&path).unwrap();
    let name = gm.create_ghost_branch("card-3").unwrap();
    // A committed change on the ghost branch (it is checked out).
    let g1 = commit_entries(
        &repo,
        "HEAD",
        &[("f.txt", "base\n"), ("g.txt", "ghost work\n")],
        "ghost change",
        &[c0],
    );
    sync_workdir(&repo, g1);
    assert_eq!(trunk_tip(&repo, &trunk), c0);

    gm.merge_to_main(&name).unwrap();

    // The trunk tip is a merge commit with parents (old trunk tip, ghost tip).
    let new_tip = repo.find_commit(trunk_tip(&repo, &trunk)).unwrap();
    assert_eq!(new_tip.parent_count(), 2);
    assert_eq!(new_tip.parent(0).unwrap().id(), c0);
    assert_eq!(new_tip.parent(1).unwrap().id(), g1);
    assert_eq!(new_tip.message().unwrap(), format!("[VIRAITH] Merge ghost branch {}", name));
    // The ghost branch reference no longer exists.
    assert!(repo.find_branch(&name, git2::BranchType::Local).is_err());
    // Diffing old trunk tip against new trunk tip reproduces the change.
    let patch = gm.get_diff(&c0.to_string(), &trunk).unwrap();
    assert!(patch.contains("ghost work"));
}

#[test]
fn conflicting_merge_aborts_and_preserves_state() {
    let path = temp_path();
    let (repo, c0, trunk) = init_repo(&path);
    let gm = GhostMode::new(&path).unwrap();
    let name = gm.create_ghost_branch("card-4").unwrap();
    // Both sides modify the same line of the same file.
    let g1 = commit_entries(&repo, "HEAD", &[("f.txt", "ghost side\n")], "ghost change", &[c0]);
    sync_workdir(&repo, g1);
    let trunk_ref = format!("refs/heads/{}", trunk);
    let t1 = commit_entries(&repo, &trunk_ref, &[("f.txt", "trunk side\n")], "trunk change", &[c0]);
    let before = trunk_tip(&repo, &trunk);
    assert_eq!(before, t1);

    let err = gm.merge_to_main(&name).unwrap_err();
    assert_eq!(err.kind, ErrorKind::MergeConflict);

    // Trunk's reference is unchanged and the ghost branch still exists.
    assert_eq!(trunk_tip(&repo, &trunk), before);
    assert!(repo.find_branch(&name, git2::BranchType::Local).is_ok());
    let patch = gm.get_diff(&trunk, &name).unwrap();
    assert!(patch.contains("ghost side"));
}

#[test]
fn merging_missing_ghost_is_not_found() {
    let path = temp_path();
    let (_repo, _c0, _trunk) = init_repo(&path);
    let err = merge_ghost_branch(path, "ghost/nope/1".to_string()).unwrap_err();
    assert_eq!(err.kind, ErrorKind::RevisionNotFound);
    assert_ne!(err.kind, ErrorKind::MergeConflict);
}

#[test]
fn merge_without_trunk_fails() {
    let path = temp_path();
    let (repo, c0, trunk) = init_repo(&path);
    let c0_commit = repo.find_commit(c0).unwrap();
    repo.branch("other", &c0_commit, false).unwrap();
    repo.set_head("refs/heads/other").unwrap();
    repo.find_branch(&trunk, git2::BranchType::Local).unwrap().delete().unwrap();
    let gm = GhostMode::new(&path).unwrap();
    let err = gm.merge_to_main("ghost/x/1").unwrap_err();
    assert_eq!(err.kind, ErrorKind::NoTrunk);
}

#[test]
fn list_ghost_branches_filters_by_prefix() {
    let path = temp_path();
    let (repo, c0, _trunk) = init_repo(&path);
    let c0_commit = repo.find_commit(c0).unwrap();
    if repo.revparse_single("main").is_err() {
        repo.branch("main", &c0_commit, false).unwrap();
    }
    repo.branch("ghost/A/100", &c0_commit, false).unwrap();
    repo.branch("feature/x", &c0_commit, false).unwrap();
    repo.branch("ghost/B/200", &c0_commit, false).unwrap();

    let gm = GhostMode::new(&path).unwrap();
    let mut got = gm.list_ghost_branches().unwrap();
    got.sort();
    assert_eq!(got, vec!["ghost/A/100".to_string(), "ghost/B/200".to_string()]);
}

#[test]
fn get_branches_reports_flags() {
    let path = temp_path();
    let (repo, c0, trunk) = init_repo(&path);
    let c0_commit = repo.find_commit(c0).unwrap();
    repo.branch("ghost/A/100", &c0_commit, false).unwrap();
    repo.branch("feature/x", &c0_commit, false).unwrap();

    let branches = get_branches(&path).unwrap();
    assert_eq!(branches.len(), 3);
    for b in &branches {
        assert_eq!(b.is_ghost, b.name.starts_with("ghost/"));
        assert_eq!(b.is_head, b.name == trunk);
        assert_eq!(b.last_commit.as_deref(), Some("initial"));
    }
}

#[test]
fn command_layer_round_trip() {
    let path = temp_path();
    let (repo, c0, trunk) = init_repo(&path);
    let name = create_ghost_branch(path.clone(), "card-7".to_string()).unwrap();
    assert!(name.starts_with("ghost/card-7/"));
    let g1 = commit_entries(
        &repo,
        "HEAD",
        &[("f.txt", "base\n"), ("h.txt", "work\n")],
        "ghost change",
        &[c0],
    );
    sync_workdir(&repo, g1);
    let patch = get_branch_diff(path.clone(), trunk.clone(), name.clone()).unwrap();
    assert!(patch.contains("work"));
    merge_ghost_branch(path.clone(), name.clone()).unwrap();
    assert!(repo.find_branch(&name, git2::BranchType::Local).is_err());
}

#[test]
fn filter_keeps_exactly_ghost_names() {
    let names = vec![
        "main".to_string(),
        "ghost/A/100".to_string(),
        "feature/x".to_string(),
        "ghost/B/200".to_string(),
    ];
    let expected = vec!["ghost/A/100".to_string(), "ghost/B/200".to_string()];
    assert_eq!(filter_ghost_names(&names), expected);
    assert_eq!(filter_ghost_names(&vec![]), Vec::<String>::new());
}

#[test]
fn trunk_resolution_prefers_main() {
    assert_eq!(resolve_trunk(true, true).unwrap(), TrunkName::Main);
    assert_eq!(resolve_trunk(true, false).unwrap(), TrunkName::Main);
    assert_eq!(resolve_trunk(false, true).unwrap(), TrunkName::Master);
    let err = resolve_trunk(false, false).unwrap_err();
    assert_eq!(err.kind, ErrorKind::NoTrunk);
    assert_eq!(TrunkName::Main.as_str(), "main");
    assert_eq!(TrunkName::Master.as_str(), "master");
    assert_eq!(TrunkName::Main.ref_name(), "refs/heads/main");
    assert_eq!(TrunkName::Master.ref_name(), "refs/heads/master");
}

#[test]
fn conflict_gate() {
    assert!(decide_merge(false).is_ok());
    let err = decide_merge(true).unwrap_err();
    assert_eq!(err.kind, ErrorKind::MergeConflict);
}

#[test]
fn merge_message_template() {
    assert_eq!(
        merge_commit_message("ghost/card-1/100"),
        "[VIRAITH] Merge ghost branch ghost/card-1/100"
    );
}

#[test]
fn delete_checked_out_branch_refused() {
    let path = temp_path();
    let (repo, _c0, _trunk) = init_repo(&path);
    let gm = GhostMode::new(&path).unwrap();
    let name = gm.create_ghost_branch("card-8").unwrap();
    // The fresh ghost branch is checked out, so deleting it is refused.
    let err = gm.delete_branch(&name).unwrap_err();
    assert_eq!(err.kind, ErrorKind::BranchCheckedOut);
    assert!(repo.find_branch(&name, git2::BranchType::Local).is_ok());
}

#[test]
fn delete_other_branch_succeeds() {
    let path = temp_path();
    let (repo, c0, _trunk) = init_repo(&path);
    let c0_commit = repo.find_commit(c0).unwrap();
    repo.branch("ghost/old/1", &c0_commit, false).unwrap();
    let gm = GhostMode::new(&path).unwrap();
    gm.delete_branch("ghost/old/1").unwrap();
    assert!(repo.find_branch("ghost/old/1", git2::BranchType::Local).is_err());
}

#[test]
fn delete_missing_branch_is_not_found() {
    let path = temp_path();
    let (_repo, _c0, _trunk) = init_repo(&path);
    let gm = GhostMode::new(&path).unwrap();
    let err = gm.delete_branch("ghost/none/1").unwrap_err();
    assert_eq!(err.kind, ErrorKind::RevisionNotFound);
}

#[test]
fn deletion_guard() {
    assert!(guard_delete(false).is_ok());
    let err = guard_delete(true).unwrap_err();
    assert_eq!(err.kind, ErrorKind::BranchCheckedOut);
}
