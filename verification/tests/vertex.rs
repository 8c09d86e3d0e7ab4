use gitlab_adapter::vertex::{GitlabRepo, RepoFile, RootGitlabRepos, Vertex};
use std::rc::Rc;

fn sample_repo() -> GitlabRepo {
    GitlabRepo {
        id: "42".to_string(),
        url: "https://example.org/group/tool.git".to_string(),
        description: "A tool".to_string(),
        repo_files: Vec::new(),
        name: "tool".to_string(),
    }
}

fn sample_file() -> RepoFile {
    RepoFile { path: "src/main.rs".to_string(), content: "fn main() {}\n".to_string() }
}

#[test]
fn typename_of_each_kind() {
    let root = Vertex::RootGitlabRepos(RootGitlabRepos { repos: vec![sample_repo()] });
    let repo = Vertex::GitlabRepo(sample_repo());
    let file = Vertex::RepoFile(Rc::new(sample_file()));
    assert_eq!(root.typename(), "RootRepositories");
    assert_eq!(repo.typename(), "Repository");
    assert_eq!(file.typename(), "File");
}

#[test]
fn as_gitlab_repo_narrows_only_repositories() {
    let root = Vertex::RootGitlabRepos(RootGitlabRepos { repos: Vec::new() });
    let repo = Vertex::GitlabRepo(sample_repo());
    let file = Vertex::RepoFile(Rc::new(sample_file()));
    assert_eq!(repo.as_gitlab_repo(), Some(&sample_repo()));
    assert_eq!(root.as_gitlab_repo(), None);
    assert_eq!(file.as_gitlab_repo(), None);
}

#[test]
fn as_repo_file_narrows_only_files() {
    let root = Vertex::RootGitlabRepos(RootGitlabRepos { repos: Vec::new() });
    let repo = Vertex::GitlabRepo(sample_repo());
    let file = Vertex::RepoFile(Rc::new(sample_file()));
    assert_eq!(file.as_repo_file(), Some(&sample_file()));
    assert_eq!(root.as_repo_file(), None);
    assert_eq!(repo.as_repo_file(), None);
}

#[test]
fn as_repo_list_narrows_only_the_root() {
    let listed = RootGitlabRepos { repos: vec![sample_repo(), sample_repo()] };
    let root = Vertex::RootGitlabRepos(listed.clone());
    let repo = Vertex::GitlabRepo(sample_repo());
    let file = Vertex::RepoFile(Rc::new(sample_file()));
    assert_eq!(root.as_repo_list(), Some(&listed));
    assert_eq!(root.as_repo_list().map(|r| r.repos.len()), Some(2));
    assert_eq!(repo.as_repo_list(), None);
    assert_eq!(file.as_repo_list(), None);
}

#[test]
fn vertex_from_repository_and_from_file() {
    let repo: Vertex = sample_repo().into();
    assert_eq!(repo, Vertex::GitlabRepo(sample_repo()));
    let file = Vertex::from(sample_file());
    assert_eq!(file, Vertex::RepoFile(Rc::new(sample_file())));
    assert_eq!(file.as_repo_file().map(|f| f.path.as_str()), Some("src/main.rs"));
}

#[test]
fn clones_of_a_file_vertex_share_the_file() {
    let shared = Rc::new(sample_file());
    let first = Vertex::RepoFile(shared.clone());
    let second = first.clone();
    assert_eq!(first, second);
    assert_eq!(Rc::strong_count(&shared), 3);
    match (&first, &second) {
        (Vertex::RepoFile(a), Vertex::RepoFile(b)) => assert!(Rc::ptr_eq(a, b)),
        _ => unreachable!(),
    }
}
