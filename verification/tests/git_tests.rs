use chronicle_core::commit::{
    commit_files, commit_message, commit_snapshot, create_initial_commit, default_gitignore,
    init_or_open_plan, init_repo, is_git_repo, open_repo, snapshot_message, CommitType, RepoPlan,
};
use chronicle_core::files::file_exists;
use chronicle_core::paths::join_path;

/// Materialize a file in the repository's working tree through the object
/// database, avoiding direct filesystem writes from the test.
fn seed_file(repo: &git2::Repository, name: &str, content: &str) {
    let mut index = repo.index().unwrap();
    let entry = git2::IndexEntry {
        ctime: git2::IndexTime::new(0, 0),
        mtime: git2::IndexTime::new(0, 0),
        dev: 0,
        ino: 0,
        mode: 0o100644,
        uid: 0,
        gid: 0,
        file_size: 0,
        id: git2::Oid::zero(),
        flags: 0,
        flags_extended: 0,
        path: name.as_bytes().to_vec(),
    };
    index.add_frombuffer(&entry, content.as_bytes()).unwrap();
    index.write().unwrap();
    let mut co = git2::build::CheckoutBuilder::new();
    co.force();
    repo.checkout_index(None, Some(&mut co)).unwrap();
}

#[test]
fn test_init_new_repo() {
    let dir = tempfile::tempdir().unwrap();
    let ws = dir.path().to_str().unwrap();

    let repo = init_repo(ws).unwrap();
    seed_file(&repo, ".gitignore", &default_gitignore());
    create_initial_commit(&repo, ".gitignore").unwrap();

    assert!(is_git_repo(ws));
    assert!(file_exists(&join_path(ws, ".gitignore")));
    let head = repo.head().unwrap();
    assert!(head.is_branch());
}

#[test]
fn test_open_existing_repo() {
    let dir = tempfile::tempdir().unwrap();
    let ws = dir.path().to_str().unwrap();
    let repo = init_repo(ws).unwrap();
    seed_file(&repo, ".gitignore", &default_gitignore());
    create_initial_commit(&repo, ".gitignore").unwrap();

    // Open second time should succeed and find the same history
    assert_eq!(init_or_open_plan(is_git_repo(ws)), RepoPlan::OpenExisting);
    let reopened = open_repo(ws).unwrap();
    assert!(reopened.head().is_ok());
}

#[test]
fn test_init_plan_is_idempotent() {
    assert_eq!(init_or_open_plan(false), RepoPlan::InitializeAndSeed);
    // once the repository exists, a second call performs no writes
    assert_eq!(init_or_open_plan(true), RepoPlan::OpenExisting);
}

#[test]
fn test_commit_files() {
    let dir = tempfile::tempdir().unwrap();
    let ws = dir.path().to_str().unwrap();
    let repo = init_repo(ws).unwrap();
    seed_file(&repo, ".gitignore", &default_gitignore());
    create_initial_commit(&repo, ".gitignore").unwrap();

    seed_file(&repo, "test-note.md", "# Test Note\n\nSome content");

    let commit_id = commit_files(
        ws,
        &vec!["test-note.md".to_string()],
        CommitType::Session,
        "Test Note",
        "5m",
    )
    .unwrap();

    assert_eq!(commit_id.len(), 7);
}

#[test]
fn test_commit_files_skips_missing_paths() {
    let dir = tempfile::tempdir().unwrap();
    let ws = dir.path().to_str().unwrap();
    let repo = init_repo(ws).unwrap();
    seed_file(&repo, ".gitignore", &default_gitignore());
    create_initial_commit(&repo, ".gitignore").unwrap();

    // a non-existent path list commits an empty tree delta without erroring
    let commit_id = commit_files(
        ws,
        &vec!["does-not-exist.md".to_string()],
        CommitType::Session,
        "Nothing",
        "0m",
    )
    .unwrap();
    assert_eq!(commit_id.len(), 7);
}

#[test]
fn test_commit_files_requires_repo() {
    let dir = tempfile::tempdir().unwrap();
    let ws = dir.path().to_str().unwrap();
    let r = commit_files(ws, &vec![], CommitType::Session, "t", "d");
    assert!(r.is_err());
}

#[test]
fn test_commit_snapshot_requires_parent() {
    let dir = tempfile::tempdir().unwrap();
    let ws = dir.path().to_str().unwrap();
    let repo = init_repo(ws).unwrap();
    // empty repository: no parent commit yet
    assert!(commit_snapshot(ws, "too early").is_err());

    seed_file(&repo, ".gitignore", &default_gitignore());
    create_initial_commit(&repo, ".gitignore").unwrap();
    let id = commit_snapshot(ws, "first snapshot").unwrap();
    assert_eq!(id.len(), 7);
}

#[test]
fn test_commit_message_grammar() {
    assert_eq!(commit_message(CommitType::Session, "Test Note", "5m"), "session: Test Note (5m)");
    assert_eq!(commit_message(CommitType::Process, "a", "b"), "process: a (b)");
    assert_eq!(commit_message(CommitType::Annotate, "a", "b"), "annotate: a (b)");
    assert_eq!(snapshot_message("weekly"), "snapshot: weekly");
    assert_eq!(CommitType::Snapshot.prefix(), "snapshot");
}

#[test]
fn test_commit_message_recorded_in_history() {
    let dir = tempfile::tempdir().unwrap();
    let ws = dir.path().to_str().unwrap();
    let repo = init_repo(ws).unwrap();
    seed_file(&repo, ".gitignore", &default_gitignore());
    create_initial_commit(&repo, ".gitignore").unwrap();
    seed_file(&repo, "n.md", "# N");
    let short = commit_files(ws, &vec!["n.md".to_string()], CommitType::Session, "N", "2m")
        .unwrap();

    let reopened = open_repo(ws).unwrap();
    let head = reopened.head().unwrap().peel_to_commit().unwrap();
    assert_eq!(head.message().unwrap(), "session: N (2m)");
    assert!(head.id().to_string().starts_with(&short));
    assert_eq!(head.parent_count(), 1);
}
