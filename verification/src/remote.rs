//! What is asked of the remote service and what it answers, as plain values.
//!
//! The library never talks to the service. It says what to ask, and is told
//! what came back.

use crate::text::opt_text;
use vstd::prelude::*;

verus! {

/// A call of the remote service that failed.
#[derive(Debug, Clone, PartialEq, Eq)]
pub struct RemoteError {
    /// What the service, or the transport, said of the failure.
    pub message: String,
}

impl View for RemoteError {
    type V = Seq<char>;

    open spec fn view(&self) -> Seq<char> {
        self.message@
    }
}

/// A project as the remote service lists it.
#[derive(Debug, Clone, PartialEq, Eq)]
pub struct Project {
    pub id: u64,
    pub http_url_to_repo: String,
    pub name: String,
    pub description: Option<String>,
}

/// What a [`Project`] says.
pub struct ProjectView {
    pub id: u64,
    pub http_url_to_repo: Seq<char>,
    pub name: Seq<char>,
    pub description: Option<Seq<char>>,
}

impl View for Project {
    type V = ProjectView;

    open spec fn view(&self) -> ProjectView {
        ProjectView {
            id: self.id,
            http_url_to_repo: self.http_url_to_repo@,
            name: self.name@,
            description: opt_text(self.description),
        }
    }
}

/// What projects say, in their order.
pub open spec fn project_views(projects: Seq<Project>) -> Seq<ProjectView> {
    Seq::new(projects.len(), |i: int| projects[i]@)
}

/// The kind of an entry of a repository's tree.
#[derive(Debug, Clone, Copy, PartialEq, Eq, Structural)]
pub enum ObjectType {
    /// A directory.
    Tree,
    /// A file.
    Blob,
}

/// An entry of a repository's tree.
#[derive(Debug, Clone, PartialEq, Eq)]
pub struct RepoTreeObject {
    pub path: String,
    pub type_: ObjectType,
}

/// What a [`RepoTreeObject`] says.
pub struct RepoTreeObjectView {
    pub path: Seq<char>,
    pub type_: ObjectType,
}

impl View for RepoTreeObject {
    type V = RepoTreeObjectView;

    open spec fn view(&self) -> RepoTreeObjectView {
        RepoTreeObjectView { path: self.path@, type_: self.type_ }
    }
}

/// What the entries of a tree say, in their order.
pub open spec fn tree_views(entries: Seq<RepoTreeObject>) -> Seq<RepoTreeObjectView> {
    Seq::new(entries.len(), |i: int| entries[i]@)
}

/// A request for the tree of a repository.
#[derive(Debug, Clone, PartialEq, Eq)]
pub struct TreeRequest {
    /// The repository's identifier.
    pub project: String,
    /// The subtree to list; the whole tree where absent.
    pub path: Option<String>,
    /// The branch, tag or commit to read; the default branch where absent.
    pub ref_: Option<String>,
    /// Whether the entries below subdirectories are wanted too.
    pub recursive: bool,
    /// The number of entries asked for.
    pub limit: usize,
}

/// What a [`TreeRequest`] says.
pub struct TreeRequestView {
    pub project: Seq<char>,
    pub path: Option<Seq<char>>,
    pub ref_: Option<Seq<char>>,
    pub recursive: bool,
    pub limit: usize,
}

impl View for TreeRequest {
    type V = TreeRequestView;

    open spec fn view(&self) -> TreeRequestView {
        TreeRequestView {
            project: self.project@,
            path: opt_text(self.path),
            ref_: opt_text(self.ref_),
            recursive: self.recursive,
            limit: self.limit,
        }
    }
}

/// A request for the raw content of one file.
#[derive(Debug, Clone, PartialEq, Eq)]
pub struct BlobRequest {
    /// The repository's identifier.
    pub project: String,
    pub file_path: String,
    /// The branch, tag or commit to read; the default branch where absent.
    pub ref_: Option<String>,
}

/// What a [`BlobRequest`] says.
pub struct BlobRequestView {
    pub project: Seq<char>,
    pub file_path: Seq<char>,
    pub ref_: Option<Seq<char>>,
}

impl View for BlobRequest {
    type V = BlobRequestView;

    open spec fn view(&self) -> BlobRequestView {
        BlobRequestView {
            project: self.project@,
            file_path: self.file_path@,
            ref_: opt_text(self.ref_),
        }
    }
}

} // verus!
