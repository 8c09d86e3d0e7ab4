//! The entities of the graph: the root, repositories, and their files.
//!
//! Every entity has a mathematical view that forgets how it is stored
//! (owned strings, shared handles) and keeps only what it says.

use std::rc::Rc;
use vstd::prelude::*;
use vstd::std_specs::convert::FromSpecImpl;

verus! {

/// What a [`RepoFile`] says: its path and its text.
pub struct RepoFileView {
    pub path: Seq<char>,
    pub content: Seq<char>,
}

/// What a [`GitlabRepo`] says.
pub struct GitlabRepoView {
    pub id: Seq<char>,
    pub url: Seq<char>,
    pub description: Seq<char>,
    pub repo_files: Seq<RepoFileView>,
    pub name: Seq<char>,
}

/// What a [`Vertex`] says; one variant per kind of entity.
pub enum VertexView {
    RootGitlabRepos(Seq<GitlabRepoView>),
    GitlabRepo(GitlabRepoView),
    RepoFile(RepoFileView),
}

/// Name of the type of the root entity.
pub open spec fn root_type_name() -> Seq<char> {
    "RootRepositories"@
}

/// Name of the type of a repository.
pub open spec fn repository_type_name() -> Seq<char> {
    "Repository"@
}

/// Name of the type of a file.
pub open spec fn file_type_name() -> Seq<char> {
    "File"@
}

impl VertexView {
    /// The name under which the schema knows this kind of entity.
    pub open spec fn typename(self) -> Seq<char> {
        match self {
            VertexView::RootGitlabRepos(_) => root_type_name(),
            VertexView::GitlabRepo(_) => repository_type_name(),
            VertexView::RepoFile(_) => file_type_name(),
        }
    }
}

/// A file of a repository, as read at one ref.
#[derive(Debug, Clone, PartialEq, Eq)]
pub struct RepoFile {
    /// Slash-separated path, relative to the repository's root.
    pub path: String,
    /// The file's text. Bytes that are no valid UTF-8 have been replaced.
    pub content: String,
}

impl View for RepoFile {
    type V = RepoFileView;

    open spec fn view(&self) -> RepoFileView {
        RepoFileView { path: self.path@, content: self.content@ }
    }
}

/// A repository. It does not hold its files until they are asked for.
#[derive(Debug, Clone, PartialEq, Eq)]
pub struct GitlabRepo {
    /// The identifier the remote service knows the repository by.
    pub id: String,
    /// The clone URL.
    pub url: String,
    /// Empty where the remote service gave none.
    pub description: String,
    pub repo_files: Vec<Rc<RepoFile>>,
    pub name: String,
}

impl View for GitlabRepo {
    type V = GitlabRepoView;

    open spec fn view(&self) -> GitlabRepoView {
        GitlabRepoView {
            id: self.id@,
            url: self.url@,
            description: self.description@,
            repo_files: Seq::new(self.repo_files@.len(), |i: int| self.repo_files@[i]@),
            name: self.name@,
        }
    }
}

/// The root: the repositories that the configured credential can see.
#[derive(Debug, Clone, PartialEq, Eq)]
pub struct RootGitlabRepos {
    pub repos: Vec<GitlabRepo>,
}

impl View for RootGitlabRepos {
    type V = Seq<GitlabRepoView>;

    open spec fn view(&self) -> Seq<GitlabRepoView> {
        Seq::new(self.repos@.len(), |i: int| self.repos@[i]@)
    }
}

/// One node of the graph.
#[derive(Debug, Clone, PartialEq, Eq)]
pub enum Vertex {
    RootGitlabRepos(RootGitlabRepos),
    GitlabRepo(GitlabRepo),
    /// Shared: the same file may be part of several results at once.
    RepoFile(Rc<RepoFile>),
}

impl View for Vertex {
    type V = VertexView;

    open spec fn view(&self) -> VertexView {
        match self {
            Vertex::RootGitlabRepos(root) => VertexView::RootGitlabRepos(root@),
            Vertex::GitlabRepo(repo) => VertexView::GitlabRepo(repo@),
            Vertex::RepoFile(file) => VertexView::RepoFile(file@),
        }
    }
}

/// What vertices say, in their order.
pub open spec fn vertex_views(vertices: Seq<Vertex>) -> Seq<VertexView> {
    Seq::new(vertices.len(), |i: int| vertices[i]@)
}

impl Vertex {
    /// The name of this entity's type in the schema.
    pub fn typename(&self) -> (name: &'static str)
        ensures
            name@ == self@.typename(),
    {
        match self {
            Vertex::RootGitlabRepos(_) => "RootRepositories",
            Vertex::GitlabRepo(_) => "Repository",
            Vertex::RepoFile(_) => "File",
        }
    }

    /// The repository, if this entity is one.
    pub fn as_gitlab_repo(&self) -> (repo: Option<&GitlabRepo>)
        ensures
            repo is Some <==> self is GitlabRepo,
            repo matches Some(r) ==> *self == Vertex::GitlabRepo(*r),
    {
        match self {
            Vertex::GitlabRepo(repo) => Some(repo),
            _ => None,
        }
    }

    /// The file, if this entity is one.
    pub fn as_repo_file(&self) -> (file: Option<&RepoFile>)
        ensures
            file is Some <==> self is RepoFile,
            file matches Some(f) ==> self matches Vertex::RepoFile(shared) && *shared == *f,
    {
        match self {
            Vertex::RepoFile(file) => Some(&**file),
            _ => None,
        }
    }

    /// The root, if this entity is one.
    pub fn as_repo_list(&self) -> (root: Option<&RootGitlabRepos>)
        ensures
            root is Some <==> self is RootGitlabRepos,
            root matches Some(r) ==> *self == Vertex::RootGitlabRepos(*r),
    {
        match self {
            Vertex::RootGitlabRepos(repos) => Some(repos),
            _ => None,
        }
    }
}

impl From<GitlabRepo> for Vertex {
    fn from(repo: GitlabRepo) -> (vertex: Self) {
        Self::GitlabRepo(repo)
    }
}

impl FromSpecImpl<GitlabRepo> for Vertex {
    open spec fn obeys_from_spec() -> bool {
        true
    }

    open spec fn from_spec(repo: GitlabRepo) -> Self {
        Vertex::GitlabRepo(repo)
    }
}

impl From<RepoFile> for Vertex {
    fn from(file: RepoFile) -> (vertex: Self) {
        Self::RepoFile(Rc::new(file))
    }
}

impl FromSpecImpl<RepoFile> for Vertex {
    open spec fn obeys_from_spec() -> bool {
        true
    }

    open spec fn from_spec(file: RepoFile) -> Self {
        Vertex::RepoFile(Rc::new(file))
    }
}

} // verus!
