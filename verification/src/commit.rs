//! Semantic commit layer: structured commit messages over a
//! version-control repository rooted at the workspace.
//!
//! The message grammar, the staging selection, and the shortening of the
//! identifying hash are verified; each call into the version-control
//! backend stands behind its own trusted item.  Whether any repository
//! operation succeeds depends on the disk, so the contracts state what
//! holds of every outcome.

use vstd::prelude::*;
use vstd::string::StringExecFns;

use crate::files::file_exists;
use crate::paths::{join_path, spec_workspace_relative, workspace_relative};
use crate::text::str_chars;

verus! {

#[verifier::external_type_specification]
#[verifier::external_body]
pub struct ExRepository(git2::Repository);

#[verifier::external_type_specification]
#[verifier::external_body]
pub struct ExGitError(git2::Error);

#[verifier::external_type_specification]
#[verifier::external_body]
pub struct ExIndex(git2::Index);

#[verifier::external_type_specification]
#[verifier::external_body]
pub struct ExOid(git2::Oid);

#[verifier::external_type_specification]
#[verifier::external_body]
pub struct ExTree<'repo>(git2::Tree<'repo>);

#[verifier::external_type_specification]
#[verifier::external_body]
pub struct ExSignature<'a>(git2::Signature<'a>);

#[verifier::external_type_specification]
#[verifier::external_body]
pub struct ExCommit<'repo>(git2::Commit<'repo>);

#[verifier::external_type_specification]
#[verifier::external_body]
pub struct ExReference<'repo>(git2::Reference<'repo>);

/// Relies on git2::Repository::open: opens the repository at the path
/// without side effects on the working tree.
#[verifier::external_body]
fn repo_open(path: &str) -> Result<git2::Repository, git2::Error> {
    git2::Repository::open(path)
}

/// Relies on git2::Repository::init: creates or reinitializes a
/// repository at the path.
#[verifier::external_body]
fn repo_init(path: &str) -> Result<git2::Repository, git2::Error> {
    git2::Repository::init(path)
}

/// Relies on git2::Repository::index: the repository's index file.
#[verifier::external_body]
fn repo_index(repo: &git2::Repository) -> Result<git2::Index, git2::Error> {
    repo.index()
}

/// Relies on git2::Index::add_path: stages the file at this
/// workspace-relative path.
#[verifier::external_body]
fn index_add_path(index: &mut git2::Index, rel_path: &str) -> Result<(), git2::Error> {
    index.add_path(std::path::Path::new(rel_path))
}

/// Relies on git2::Index::add_all: stages every change in the working
/// directory.
#[verifier::external_body]
fn index_add_all(index: &mut git2::Index) -> Result<(), git2::Error> {
    index.add_all(["*"].iter(), git2::IndexAddOption::DEFAULT, None)
}

/// Relies on git2::Index::write: persists the index to disk.
#[verifier::external_body]
fn index_write(index: &mut git2::Index) -> Result<(), git2::Error> {
    index.write()
}

/// Relies on git2::Index::write_tree: writes the index as a tree object
/// and returns its id.
#[verifier::external_body]
fn index_write_tree(index: &mut git2::Index) -> Result<git2::Oid, git2::Error> {
    index.write_tree()
}

/// Relies on git2::Repository::find_tree: looks the tree object up by id.
#[verifier::external_body]
fn repo_find_tree<'r>(repo: &'r git2::Repository, oid: git2::Oid) -> Result<
    git2::Tree<'r>,
    git2::Error,
> {
    repo.find_tree(oid)
}

/// Relies on git2::Signature::now: a signature for this name and address
/// stamped with the current time.
#[verifier::external_body]
fn signature_now(name: &str, email: &str) -> Result<git2::Signature<'static>, git2::Error> {
    git2::Signature::now(name, email)
}

/// Relies on git2::Repository::head: the reference the repository's HEAD
/// points to; an error on an empty repository.
#[verifier::external_body]
fn repo_head<'r>(repo: &'r git2::Repository) -> Result<git2::Reference<'r>, git2::Error> {
    repo.head()
}

/// Relies on git2::Reference::peel_to_commit: the commit the reference
/// resolves to.
#[verifier::external_body]
fn reference_peel_to_commit<'r>(reference: &git2::Reference<'r>) -> Result<
    git2::Commit<'r>,
    git2::Error,
> {
    reference.peel_to_commit()
}

/// Relies on git2::Repository::commit: writes a commit with this message
/// and tree on HEAD, with the given parent or none, and returns its id.
#[verifier::external_body]
fn repo_commit(
    repo: &git2::Repository,
    sig: &git2::Signature<'_>,
    message: &str,
    tree: &git2::Tree<'_>,
    parent: Option<&git2::Commit<'_>>,
) -> Result<git2::Oid, git2::Error> {
    let parents: Vec<&git2::Commit<'_>> = parent.into_iter().collect();
    repo.commit(Some("HEAD"), sig, sig, message, tree, &parents)
}

/// Relies on git2::Oid's display form: forty hexadecimal digits.
#[verifier::external_body]
fn oid_hex(oid: &git2::Oid) -> (r: String)
    ensures
        r@.len() == 40,
{
    oid.to_string()
}

/// Relies on git2::Error::message: the backend's own description of the
/// failure.
#[verifier::external_body]
fn git_error_message(e: &git2::Error) -> String {
    e.message().to_string()
}

/// Errors of the commit layer.
#[derive(Debug, Clone)]
pub enum GitError {
    /// The workspace holds no repository.
    RepoNotFound(String),
    /// The version-control backend failed, with its own message.
    Backend(String),
}

/// Commit type tag for semantic commit messages.
#[derive(Debug, Clone, Copy, PartialEq, Eq, Structural)]
pub enum CommitType {
    Session,
    Process,
    Annotate,
    Snapshot,
}

/// The message prefix of each commit type.
pub open spec fn spec_prefix(t: CommitType) -> Seq<char> {
    match t {
        CommitType::Session => "session"@,
        CommitType::Process => "process"@,
        CommitType::Annotate => "annotate"@,
        CommitType::Snapshot => "snapshot"@,
    }
}

impl CommitType {
    /// The message prefix of this commit type.
    pub fn prefix(&self) -> (r: &'static str)
        ensures
            r@ == spec_prefix(*self),
    {
        match self {
            CommitType::Session => "session",
            CommitType::Process => "process",
            CommitType::Annotate => "annotate",
            CommitType::Snapshot => "snapshot",
        }
    }
}

/// The semantic commit message grammar: `<type>: <title> (<detail>)`.
pub open spec fn spec_commit_message(t: CommitType, title: Seq<char>, detail: Seq<char>) -> Seq<
    char,
> {
    spec_prefix(t) + ": "@ + title + " ("@ + detail + ")"@
}

/// Build a semantic commit message.
pub fn commit_message(t: CommitType, title: &str, detail: &str) -> (r: String)
    ensures
        r@ == spec_commit_message(t, title@, detail@),
{
    let mut s = t.prefix().to_owned();
    s.append(": ");
    s.append(title);
    s.append(" (");
    s.append(detail);
    s.append(")");
    s
}

/// The message of a whole-tree snapshot commit: `snapshot: <title>`.
pub fn snapshot_message(title: &str) -> (r: String)
    ensures
        r@ == "snapshot: "@ + title@,
{
    let mut s = "snapshot: ".to_owned();
    s.append(title);
    s
}

/// The short identifying form of a full hash: its first seven characters.
pub fn short_hash(hex: &str) -> (r: String)
    requires
        hex@.len() >= 7,
    ensures
        r@ == hex@.subrange(0, 7),
        r@.len() == 7,
{
    let chars = str_chars(hex);
    crate::text::char_range_string(&chars, 0, 7)
}

/// Whether the directory holds a repository: its `.git` entry exists on
/// disk.
pub fn is_git_repo(path: &str) -> bool {
    let marker = join_path(path, ".git");
    file_exists(marker.as_str())
}

/// What opening a workspace's repository entails: an existing repository
/// is opened with no writes at all; otherwise one is initialized and
/// seeded with an ignore file and an initial commit.
#[derive(Debug, Clone, Copy, PartialEq, Eq, Structural)]
pub enum RepoPlan {
    /// Open the existing repository; nothing is written.
    OpenExisting,
    /// Initialize a repository, write the default ignore file, and create
    /// the initial commit.
    InitializeAndSeed,
}

/// Decide what opening a workspace's repository entails.  A second call
/// on the same directory finds the repository present and performs no
/// writes: the operation is idempotent.
pub fn init_or_open_plan(repo_present: bool) -> (r: RepoPlan)
    ensures
        r == RepoPlan::OpenExisting <==> repo_present,
{
    if repo_present {
        RepoPlan::OpenExisting
    } else {
        RepoPlan::InitializeAndSeed
    }
}

/// The default ignore file seeded into fresh workspaces: it excludes
/// app-private state and editor droppings, never user content.
pub fn default_gitignore() -> (r: String)
    ensures
        r@
            == "# Chronicle app state (not content)\n.chronicle/state.json\n\n# OS files\n.DS_Store\nThumbs.db\n\n# Editor backups\n*~\n*.swp\n*.swo\n\n# Temporary files\n*.tmp\n*.temp\n"@,
{
    "# Chronicle app state (not content)\n.chronicle/state.json\n\n# OS files\n.DS_Store\nThumbs.db\n\n# Editor backups\n*~\n*.swp\n*.swo\n\n# Temporary files\n*.tmp\n*.temp\n".to_owned()
}

/// Map a backend failure into the library's error.
fn backend(e: git2::Error) -> (r: GitError)
    ensures
        r matches GitError::Backend(_),
{
    GitError::Backend(git_error_message(&e))
}

/// Open the repository at the workspace root.
pub fn open_repo(workspace_path: &str) -> Result<git2::Repository, GitError> {
    match repo_open(workspace_path) {
        Ok(r) => Ok(r),
        Err(e) => Err(backend(e)),
    }
}

/// Initialize a repository at the workspace root.
pub fn init_repo(workspace_path: &str) -> Result<git2::Repository, GitError> {
    match repo_init(workspace_path) {
        Ok(r) => Ok(r),
        Err(e) => Err(backend(e)),
    }
}

/// Create the initial commit holding exactly the seeded ignore file,
/// which must already exist on disk under the given name.
pub fn create_initial_commit(repo: &git2::Repository, ignore_file_name: &str) -> Result<
    (),
    GitError,
> {
    let mut index = match repo_index(repo) {
        Ok(i) => i,
        Err(e) => {
            return Err(backend(e));
        },
    };
    if let Err(e) = index_add_path(&mut index, ignore_file_name) {
        return Err(backend(e));
    }
    if let Err(e) = index_write(&mut index) {
        return Err(backend(e));
    }
    let tree_id = match index_write_tree(&mut index) {
        Ok(t) => t,
        Err(e) => {
            return Err(backend(e));
        },
    };
    let tree = match repo_find_tree(repo, tree_id) {
        Ok(t) => t,
        Err(e) => {
            return Err(backend(e));
        },
    };
    let sig = match signature_now("Chronicle", "chronicle@localhost") {
        Ok(s) => s,
        Err(e) => {
            return Err(backend(e));
        },
    };
    if let Err(e) = repo_commit(
        repo,
        &sig,
        "Initial commit: Chronicle workspace",
        &tree,
        None,
    ) {
        return Err(backend(e));
    }
    Ok(())
}

/// Stage the given relative paths (silently skipping any that do not
/// exist on disk) and commit them with the semantic message
/// `<type>: <title> (<detail>)`, the current branch tip as sole parent,
/// or no parent in a repository without commits.  Returns the
/// seven-character identifying hash.
pub fn commit_files(
    workspace_path: &str,
    files: &Vec<String>,
    commit_type: CommitType,
    title: &str,
    detail: &str,
) -> (r: Result<String, GitError>)
    ensures
        r matches Ok(h) ==> h@.len() == 7,
        r matches Err(GitError::RepoNotFound(p)) ==> p@ == workspace_path@,
{
    if !is_git_repo(workspace_path) {
        return Err(GitError::RepoNotFound(workspace_path.to_owned()));
    }
    let repo = match repo_open(workspace_path) {
        Ok(r) => r,
        Err(e) => {
            return Err(backend(e));
        },
    };
    let mut index = match repo_index(&repo) {
        Ok(i) => i,
        Err(e) => {
            return Err(backend(e));
        },
    };
    let n = files.len();
    let mut i: usize = 0;
    while i < n
        invariant
            n == files@.len(),
            i <= n,
        decreases n - i,
    {
        let relative = workspace_relative(files[i].as_str(), workspace_path);
        let full = join_path(workspace_path, relative.as_str());
        if file_exists(full.as_str()) {
            if let Err(e) = index_add_path(&mut index, relative.as_str()) {
                return Err(backend(e));
            }
        }
        i = i + 1;
    }
    if let Err(e) = index_write(&mut index) {
        return Err(backend(e));
    }
    let tree_id = match index_write_tree(&mut index) {
        Ok(t) => t,
        Err(e) => {
            return Err(backend(e));
        },
    };
    let tree = match repo_find_tree(&repo, tree_id) {
        Ok(t) => t,
        Err(e) => {
            return Err(backend(e));
        },
    };
    let parent = match repo_head(&repo) {
        Ok(head) => {
            match reference_peel_to_commit(&head) {
                Ok(c) => Some(c),
                Err(e) => {
                    return Err(backend(e));
                },
            }
        },
        Err(_) => None,
    };
    let message = commit_message(commit_type, title, detail);
    let sig = match signature_now("Chronicle", "chronicle@localhost") {
        Ok(s) => s,
        Err(e) => {
            return Err(backend(e));
        },
    };
    let commit_id = match (match &parent {
        Some(p) => repo_commit(&repo, &sig, message.as_str(), &tree, Some(p)),
        None => repo_commit(&repo, &sig, message.as_str(), &tree, None),
    }) {
        Ok(id) => id,
        Err(e) => {
            return Err(backend(e));
        },
    };
    let hex = oid_hex(&commit_id);
    Ok(short_hash(hex.as_str()))
}

/// Stage the entire working tree and commit it with the message
/// `snapshot: <title>`; requires an existing parent commit, so it fails
/// on an empty repository.  Returns the seven-character identifying hash.
pub fn commit_snapshot(workspace_path: &str, title: &str) -> (r: Result<String, GitError>)
    ensures
        r matches Ok(h) ==> h@.len() == 7,
        r matches Err(GitError::RepoNotFound(p)) ==> p@ == workspace_path@,
{
    if !is_git_repo(workspace_path) {
        return Err(GitError::RepoNotFound(workspace_path.to_owned()));
    }
    let repo = match repo_open(workspace_path) {
        Ok(r) => r,
        Err(e) => {
            return Err(backend(e));
        },
    };
    let mut index = match repo_index(&repo) {
        Ok(i) => i,
        Err(e) => {
            return Err(backend(e));
        },
    };
    if let Err(e) = index_add_all(&mut index) {
        return Err(backend(e));
    }
    if let Err(e) = index_write(&mut index) {
        return Err(backend(e));
    }
    let tree_id = match index_write_tree(&mut index) {
        Ok(t) => t,
        Err(e) => {
            return Err(backend(e));
        },
    };
    let tree = match repo_find_tree(&repo, tree_id) {
        Ok(t) => t,
        Err(e) => {
            return Err(backend(e));
        },
    };
    let head = match repo_head(&repo) {
        Ok(h) => h,
        Err(e) => {
            return Err(backend(e));
        },
    };
    let parent = match reference_peel_to_commit(&head) {
        Ok(c) => c,
        Err(e) => {
            return Err(backend(e));
        },
    };
    let message = snapshot_message(title);
    let sig = match signature_now("Chronicle", "chronicle@localhost") {
        Ok(s) => s,
        Err(e) => {
            return Err(backend(e));
        },
    };
    let commit_id = match repo_commit(&repo, &sig, message.as_str(), &tree, Some(&parent)) {
        Ok(id) => id,
        Err(e) => {
            return Err(backend(e));
        },
    };
    let hex = oid_hex(&commit_id);
    Ok(short_hash(hex.as_str()))
}

} // verus!
