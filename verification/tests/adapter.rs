use gitlab_adapter::adapter::{
    FilesEdge, GitlabAdapter, GitlabProjectsGetParams, ProjectsQuery, ProjectsRequest, Property,
    DEFAULT_PAGE_LIMIT,
};
use gitlab_adapter::files::{FilesAction, FilesEvent};
use gitlab_adapter::params::{ContractViolation, FieldValue};
use gitlab_adapter::remote::{
    ObjectType, Project, RemoteError, RepoTreeObject, TreeRequest,
};
use gitlab_adapter::time::Timestamp;
use gitlab_adapter::vertex::{GitlabRepo, RepoFile, RootGitlabRepos, Vertex};
use chrono::{DateTime, Utc};
use std::collections::BTreeMap;
use std::rc::Rc;
use trustfall_core::ir::{EdgeParameters, FieldValue as EngineValue};

fn text(s: &str) -> FieldValue {
    FieldValue::Text(s.to_string())
}

fn given(s: &str) -> EngineValue {
    EngineValue::String(s.to_string())
}

fn instant(at: Timestamp) -> DateTime<Utc> {
    DateTime::from_timestamp(at.secs, at.nanos).unwrap()
}

fn bind(bindings: Vec<(&str, EngineValue)>) -> EdgeParameters {
    let contents: BTreeMap<String, EngineValue> =
        bindings.into_iter().map(|(name, value)| (name.to_string(), value)).collect();
    let mut object = serde_json::Map::new();
    object.insert("contents".to_string(), serde_json::to_value(contents).unwrap());
    serde_json::from_value(serde_json::Value::Object(object)).unwrap()
}

fn no_filters() -> GitlabProjectsGetParams {
    GitlabProjectsGetParams {
        query_string: None,
        search_namespaces: None,
        language: None,
        membership: None,
        last_activity_after: None,
        last_activity_before: None,
    }
}

fn no_options() -> ProjectsQuery {
    ProjectsQuery {
        search: None,
        search_namespaces: None,
        with_programming_language: None,
        membership: None,
        last_activity_after: None,
        last_activity_before: None,
    }
}

fn project(id: u64, name: &str, description: Option<&str>) -> Project {
    Project {
        id,
        http_url_to_repo: format!("https://example.org/{}.git", name),
        name: name.to_string(),
        description: description.map(|d| d.to_string()),
    }
}

fn repo(id: &str, name: &str, description: &str) -> GitlabRepo {
    GitlabRepo {
        id: id.to_string(),
        url: format!("https://example.org/{}.git", name),
        description: description.to_string(),
        repo_files: Vec::new(),
        name: name.to_string(),
    }
}

fn sample_file() -> Vertex {
    Vertex::RepoFile(Rc::new(RepoFile {
        path: "src/lib.rs".to_string(),
        content: "pub fn f() {}\n".to_string(),
    }))
}

#[test]
fn a_new_adapter_asks_for_twenty() {
    assert_eq!(GitlabAdapter::new().page_limit(), 20);
    assert_eq!(GitlabAdapter::default().page_limit(), 20);
    assert_eq!(DEFAULT_PAGE_LIMIT, 20);
}

#[test]
fn filters_from_no_parameters_constrain_nothing() {
    let filters = GitlabProjectsGetParams::from_parameters(&EdgeParameters::default());
    assert_eq!(filters, Ok(no_filters()));
}

#[test]
fn filters_from_all_parameters() {
    let at = Timestamp { secs: 1682944245, nanos: 0 };
    let parameters = bind(vec![
        ("query", given("parser")),
        ("search_namespaces", EngineValue::Boolean(true)),
        ("language", given("go")),
        ("membership", EngineValue::Boolean(false)),
        ("last_activity_after", EngineValue::DateTimeUtc(instant(at))),
        ("last_activity_before", given("2023-05-01T12:30:45Z")),
        ("unrelated", EngineValue::Int64(1)),
    ]);
    assert_eq!(
        GitlabProjectsGetParams::from_parameters(&parameters),
        Ok(GitlabProjectsGetParams {
            query_string: Some("parser".to_string()),
            search_namespaces: Some(true),
            language: Some("go".to_string()),
            membership: Some(false),
            last_activity_after: Some(at),
            last_activity_before: Some(at),
        })
    );
}

#[test]
fn filters_with_nulls_are_absent() {
    let parameters = bind(vec![
        ("query", EngineValue::Null),
        ("language", EngineValue::Null),
        ("membership", EngineValue::Null),
        ("last_activity_after", EngineValue::Null),
    ]);
    assert_eq!(GitlabProjectsGetParams::from_parameters(&parameters), Ok(no_filters()));
}

#[test]
fn filters_of_a_wrong_type_are_a_violation() {
    for name in ["query", "search_namespaces", "language", "membership"] {
        let parameters = bind(vec![(name, EngineValue::Int64(1))]);
        assert_eq!(
            GitlabProjectsGetParams::from_parameters(&parameters),
            Err(ContractViolation::WrongParameterType)
        );
    }
    let parameters = bind(vec![("language", EngineValue::Boolean(true))]);
    assert_eq!(
        GitlabProjectsGetParams::from_parameters(&parameters),
        Err(ContractViolation::WrongParameterType)
    );
    let parameters = bind(vec![("membership", given("yes"))]);
    assert_eq!(
        GitlabProjectsGetParams::from_parameters(&parameters),
        Err(ContractViolation::WrongParameterType)
    );
}

#[test]
fn the_first_parameter_that_cannot_be_read_decides_the_violation() {
    let parameters = bind(vec![
        ("last_activity_after", EngineValue::Boolean(true)),
        ("last_activity_before", given("not a date")),
    ]);
    assert_eq!(
        GitlabProjectsGetParams::from_parameters(&parameters),
        Err(ContractViolation::MalformedTimestamp)
    );
    let parameters = bind(vec![
        ("membership", given("yes")),
        ("last_activity_before", given("not a date")),
    ]);
    assert_eq!(
        GitlabProjectsGetParams::from_parameters(&parameters),
        Err(ContractViolation::WrongParameterType)
    );
}

#[test]
fn build_projects_builder_names_each_option_as_the_service_does() {
    let after = Timestamp { secs: 10, nanos: 1 };
    let before = Timestamp { secs: 20, nanos: 2 };
    let query = GitlabAdapter::build_projects_builder(GitlabProjectsGetParams {
        query_string: Some("parser".to_string()),
        search_namespaces: Some(false),
        language: Some("rust".to_string()),
        membership: Some(true),
        last_activity_after: Some(after),
        last_activity_before: Some(before),
    });
    assert_eq!(
        query,
        ProjectsQuery {
            search: Some("parser".to_string()),
            search_namespaces: Some(false),
            with_programming_language: Some("rust".to_string()),
            membership: Some(true),
            last_activity_after: Some(after),
            last_activity_before: Some(before),
        }
    );
}

#[test]
fn build_projects_builder_sends_no_absent_option() {
    assert_eq!(GitlabAdapter::build_projects_builder(no_filters()), no_options());
    let query = GitlabAdapter::build_projects_builder(GitlabProjectsGetParams {
        language: Some("go".to_string()),
        ..no_filters()
    });
    assert_eq!(
        query,
        ProjectsQuery { with_programming_language: Some("go".to_string()), ..no_options() }
    );
}

#[test]
fn projects_request_asks_for_the_page_limit() {
    let adapter = GitlabAdapter::new();
    let request = adapter.projects_request(GitlabProjectsGetParams {
        membership: Some(true),
        ..no_filters()
    });
    assert_eq!(
        request,
        ProjectsRequest { query: ProjectsQuery { membership: Some(true), ..no_options() }, limit: 20 }
    );
}

#[test]
fn starting_vertices_of_the_repositories_edge() {
    let adapter = GitlabAdapter::new();
    let parameters =
        bind(vec![("language", given("go")), ("membership", EngineValue::Boolean(true))]);
    assert_eq!(
        adapter.resolve_starting_vertices("repositories", &parameters),
        Ok(ProjectsRequest {
            query: ProjectsQuery {
                with_programming_language: Some("go".to_string()),
                membership: Some(true),
                ..no_options()
            },
            limit: 20,
        })
    );
}

#[test]
fn starting_vertices_of_an_unknown_edge_are_a_violation() {
    let adapter = GitlabAdapter::new();
    for edge in ["Repositories", "repository", "files", "", "GitlabRepos"] {
        assert_eq!(
            adapter.resolve_starting_vertices(edge, &EdgeParameters::default()),
            Err(ContractViolation::UnknownEdge)
        );
    }
    let bad = bind(vec![("language", EngineValue::Int64(1))]);
    assert_eq!(
        adapter.resolve_starting_vertices("files", &bad),
        Err(ContractViolation::UnknownEdge)
    );
}

#[test]
fn starting_vertices_with_a_bad_parameter_are_a_violation() {
    let adapter = GitlabAdapter::new();
    let bad = bind(vec![("language", EngineValue::Boolean(true))]);
    assert_eq!(
        adapter.resolve_starting_vertices("repositories", &bad),
        Err(ContractViolation::WrongParameterType)
    );
    let bad = bind(vec![("last_activity_after", given("soon"))]);
    assert_eq!(
        adapter.resolve_starting_vertices("repositories", &bad),
        Err(ContractViolation::MalformedTimestamp)
    );
}

#[test]
fn repositories_of_a_listing() {
    let adapter = GitlabAdapter::new();
    let listing = Ok(vec![
        project(42, "tool", Some("A tool")),
        project(7, "bare", None),
        project(0, "zero", Some("")),
    ]);
    assert_eq!(
        adapter.get_gitlab_repos(listing),
        Ok(vec![
            Vertex::GitlabRepo(repo("42", "tool", "A tool")),
            Vertex::GitlabRepo(repo("7", "bare", "")),
            Vertex::GitlabRepo(repo("0", "zero", "")),
        ])
    );
}

#[test]
fn repositories_of_an_empty_listing() {
    assert_eq!(GitlabAdapter::new().get_gitlab_repos(Ok(Vec::new())), Ok(Vec::new()));
}

#[test]
fn a_failed_listing_hands_out_nothing() {
    let failed = RemoteError { message: "401 Unauthorized".to_string() };
    assert_eq!(GitlabAdapter::new().get_gitlab_repos(Err(failed.clone())), Err(failed));
}

#[test]
fn a_listing_hands_out_no_more_than_the_limit() {
    let adapter = GitlabAdapter::new();
    for listed in [0usize, 1, 19, 20, 21, 45] {
        let projects: Vec<Project> =
            (0..listed).map(|i| project(1000 + i as u64, "p", None)).collect();
        let repos = adapter.get_gitlab_repos(Ok(projects)).unwrap();
        assert_eq!(repos.len(), listed.min(20));
        assert!(repos.len() <= adapter.page_limit());
        for (i, vertex) in repos.iter().enumerate() {
            let repo = vertex.as_gitlab_repo().unwrap();
            assert!(!repo.id.is_empty());
            assert_eq!(repo.id, (1000 + i).to_string());
            assert!(repo.repo_files.is_empty());
        }
    }
}

#[test]
fn projects_that_differ_are_repositories_with_ids_that_differ() {
    let ids: Vec<u64> = vec![0, 1, 9, 10, 11, 19, 90, 99, 100, 101, 110, 1000, u64::MAX];
    let projects: Vec<Project> = ids.iter().map(|id| project(*id, "p", None)).collect();
    let repos = GitlabAdapter::new().get_gitlab_repos(Ok(projects)).unwrap();
    let written: Vec<String> =
        repos.iter().map(|v| v.as_gitlab_repo().unwrap().id.clone()).collect();
    assert_eq!(written.len(), ids.len());
    for (i, id) in written.iter().enumerate() {
        assert_eq!(*id, ids[i].to_string());
        assert!(!written[i + 1..].contains(id));
    }
}

#[test]
fn every_property_is_found_under_its_name() {
    assert_eq!(Property::find("Repository", "url"), Ok(Property::RepoUrl));
    assert_eq!(Property::find("Repository", "id"), Ok(Property::RepoId));
    assert_eq!(Property::find("Repository", "name"), Ok(Property::RepoName));
    assert_eq!(Property::find("Repository", "description"), Ok(Property::RepoDescription));
    assert_eq!(Property::find("File", "path"), Ok(Property::FilePath));
    assert_eq!(Property::find("File", "content"), Ok(Property::FileContent));
    for entity_type in ["Repository", "File", "RootRepositories", "Anything", ""] {
        assert_eq!(Property::find(entity_type, "__typename"), Ok(Property::TypeName));
    }
}

#[test]
fn an_unknown_property_is_a_violation() {
    for (entity_type, property_name) in [
        ("Repository", "path"),
        ("Repository", "content"),
        ("Repository", "stars"),
        ("Repository", ""),
        ("File", "url"),
        ("File", "id"),
        ("File", "name"),
        ("RootRepositories", "id"),
        ("repository", "id"),
        ("", "id"),
        ("Repository", "__Typename"),
    ] {
        assert_eq!(
            Property::find(entity_type, property_name),
            Err(ContractViolation::UnknownProperty)
        );
        assert_eq!(
            GitlabAdapter::new().resolve_property(None, entity_type, property_name),
            Err(ContractViolation::UnknownProperty)
        );
    }
}

#[test]
fn properties_of_a_repository() {
    let adapter = GitlabAdapter::new();
    let vertex = Vertex::GitlabRepo(repo("42", "tool", "A tool"));
    let active = Some(&vertex);
    assert_eq!(adapter.resolve_property(active, "Repository", "id"), Ok(text("42")));
    assert_eq!(
        adapter.resolve_property(active, "Repository", "url"),
        Ok(text("https://example.org/tool.git"))
    );
    assert_eq!(adapter.resolve_property(active, "Repository", "name"), Ok(text("tool")));
    assert_eq!(adapter.resolve_property(active, "Repository", "description"), Ok(text("A tool")));
}

#[test]
fn properties_of_a_file() {
    let adapter = GitlabAdapter::new();
    let vertex = sample_file();
    let active = Some(&vertex);
    assert_eq!(adapter.resolve_property(active, "File", "path"), Ok(text("src/lib.rs")));
    assert_eq!(adapter.resolve_property(active, "File", "content"), Ok(text("pub fn f() {}\n")));
}

#[test]
fn a_property_of_an_absent_entity_is_null() {
    let adapter = GitlabAdapter::new();
    for (entity_type, property_name) in [
        ("Repository", "url"),
        ("Repository", "id"),
        ("Repository", "name"),
        ("Repository", "description"),
        ("File", "path"),
        ("File", "content"),
        ("Repository", "__typename"),
        ("File", "__typename"),
        ("RootRepositories", "__typename"),
    ] {
        assert_eq!(
            adapter.resolve_property(None, entity_type, property_name),
            Ok(FieldValue::Null)
        );
    }
    for property in [
        Property::TypeName,
        Property::RepoUrl,
        Property::RepoId,
        Property::RepoName,
        Property::RepoDescription,
        Property::FilePath,
        Property::FileContent,
    ] {
        assert_eq!(property.read(None), Ok(FieldValue::Null));
    }
}

#[test]
fn the_type_property_of_a_repository_is_repository() {
    let adapter = GitlabAdapter::new();
    let vertex = Vertex::GitlabRepo(repo("42", "tool", ""));
    assert_eq!(
        adapter.resolve_property(Some(&vertex), "Repository", "__typename"),
        Ok(text("Repository"))
    );
    assert_eq!(adapter.resolve_property(Some(&vertex), "File", "__typename"), Ok(text("Repository")));
}

#[test]
fn the_type_property_of_the_other_kinds() {
    let adapter = GitlabAdapter::new();
    let file = sample_file();
    let root = Vertex::RootGitlabRepos(RootGitlabRepos { repos: Vec::new() });
    assert_eq!(adapter.resolve_property(Some(&file), "File", "__typename"), Ok(text("File")));
    assert_eq!(
        adapter.resolve_property(Some(&root), "RootRepositories", "__typename"),
        Ok(text("RootRepositories"))
    );
}

#[test]
fn a_property_of_an_entity_of_another_type_is_a_violation() {
    let adapter = GitlabAdapter::new();
    let repository = Vertex::GitlabRepo(repo("42", "tool", ""));
    let file = sample_file();
    let root = Vertex::RootGitlabRepos(RootGitlabRepos { repos: Vec::new() });
    for name in ["path", "content"] {
        assert_eq!(
            adapter.resolve_property(Some(&repository), "File", name),
            Err(ContractViolation::WrongVertexType)
        );
        assert_eq!(
            adapter.resolve_property(Some(&root), "File", name),
            Err(ContractViolation::WrongVertexType)
        );
    }
    for name in ["url", "id", "name", "description"] {
        assert_eq!(
            adapter.resolve_property(Some(&file), "Repository", name),
            Err(ContractViolation::WrongVertexType)
        );
        assert_eq!(
            adapter.resolve_property(Some(&root), "Repository", name),
            Err(ContractViolation::WrongVertexType)
        );
    }
}

#[test]
fn neighbors_across_the_files_edge() {
    let adapter = GitlabAdapter::new();
    let parameters = bind(vec![("ref", given("main")), ("path", given("src"))]);
    assert_eq!(
        adapter.resolve_neighbors("Repository", "files", &parameters),
        Ok(FilesEdge { ref_: Some("main".to_string()), path: Some("src".to_string()) })
    );
    assert_eq!(
        adapter.resolve_neighbors("Repository", "files", &EdgeParameters::default()),
        Ok(FilesEdge { ref_: None, path: None })
    );
    let nulls = bind(vec![("ref", EngineValue::Null), ("path", given("docs"))]);
    assert_eq!(
        adapter.resolve_neighbors("Repository", "files", &nulls),
        Ok(FilesEdge { ref_: None, path: Some("docs".to_string()) })
    );
}

#[test]
fn neighbors_across_an_unknown_edge_are_a_violation() {
    let adapter = GitlabAdapter::new();
    for (entity_type, edge_name) in [
        ("Repository", "repositories"),
        ("Repository", "Files"),
        ("Repository", ""),
        ("File", "files"),
        ("RootRepositories", "files"),
        ("", "files"),
    ] {
        assert_eq!(
            adapter.resolve_neighbors(entity_type, edge_name, &EdgeParameters::default()),
            Err(ContractViolation::UnknownEdge)
        );
    }
}

#[test]
fn neighbors_with_a_bad_parameter_are_a_violation() {
    let adapter = GitlabAdapter::new();
    let bad_ref = bind(vec![("ref", EngineValue::Boolean(true)), ("path", given("src"))]);
    assert_eq!(
        adapter.resolve_neighbors("Repository", "files", &bad_ref),
        Err(ContractViolation::WrongParameterType)
    );
    let bad_path = bind(vec![("ref", given("main")), ("path", EngineValue::Int64(1))]);
    assert_eq!(
        adapter.resolve_neighbors("Repository", "files", &bad_path),
        Err(ContractViolation::WrongParameterType)
    );
}

#[test]
fn expanding_a_repository_begins_a_listing_of_its_files() {
    let edge = FilesEdge { ref_: Some("main".to_string()), path: Some("src".to_string()) };
    let vertex = Vertex::GitlabRepo(repo("42", "tool", ""));
    let (_, action) = edge.expand(&vertex).unwrap();
    assert_eq!(
        action,
        FilesAction::ListTree(TreeRequest {
            project: "42".to_string(),
            path: Some("src".to_string()),
            ref_: Some("main".to_string()),
            recursive: true,
            limit: 50,
        })
    );
}

#[test]
fn expanding_another_entity_is_a_violation() {
    let edge = FilesEdge { ref_: None, path: None };
    let root = Vertex::RootGitlabRepos(RootGitlabRepos { repos: Vec::new() });
    assert_eq!(edge.expand(&sample_file()).err(), Some(ContractViolation::WrongVertexType));
    assert_eq!(edge.expand(&root).err(), Some(ContractViolation::WrongVertexType));
}

struct Hosted {
    project: Project,
    language: &'static str,
    member: bool,
    /// Paths and contents on branch `main`.
    main: Vec<(&'static str, &'static str)>,
}

fn hosted() -> Vec<Hosted> {
    vec![
        Hosted {
            project: project(1, "gopher", Some("In go, ours")),
            language: "go",
            member: true,
            main: vec![
                ("README.md", "# gopher\n"),
                ("src/main.go", "package main\n"),
                ("src/util/io.go", "package util\n"),
                ("docs/guide.md", "guide\n"),
            ],
        },
        Hosted {
            project: project(2, "crab", None),
            language: "rust",
            member: true,
            main: vec![("src/lib.rs", "pub fn f() {}\n")],
        },
        Hosted {
            project: project(3, "stranger", None),
            language: "go",
            member: false,
            main: vec![("src/x.go", "package x\n")],
        },
        Hosted {
            project: project(4, "marmot", Some("")),
            language: "go",
            member: true,
            main: vec![("main.go", "package main\n")],
        },
    ]
}

fn list_projects(request: &ProjectsRequest) -> Result<Vec<Project>, RemoteError> {
    Ok(hosted()
        .into_iter()
        .filter(|h| match &request.query.with_programming_language {
            Some(language) => h.language == language,
            None => true,
        })
        .filter(|h| match request.query.membership {
            Some(true) => h.member,
            _ => true,
        })
        .map(|h| h.project)
        .take(request.limit)
        .collect())
}

fn list_tree(request: &TreeRequest) -> Result<Vec<RepoTreeObject>, RemoteError> {
    let not_found = RemoteError { message: "404 Tree Not Found".to_string() };
    if request.ref_.as_deref().unwrap_or("main") != "main" {
        return Err(not_found);
    }
    let hosted = hosted();
    let found = hosted.iter().find(|h| h.project.id.to_string() == request.project);
    let found = match found {
        Some(h) => h,
        None => return Err(not_found),
    };
    let below = match &request.path {
        Some(p) => format!("{}/", p),
        None => String::new(),
    };
    let mut entries = Vec::new();
    for (path, _) in &found.main {
        if !path.starts_with(&below) {
            continue;
        }
        let mut end = below.len();
        while let Some(slash) = path[end..].find('/') {
            let directory = &path[..end + slash];
            if !entries.iter().any(|e: &RepoTreeObject| e.path == directory) {
                entries.push(RepoTreeObject {
                    path: directory.to_string(),
                    type_: ObjectType::Tree,
                });
            }
            end += slash + 1;
        }
        entries.push(RepoTreeObject { path: path.to_string(), type_: ObjectType::Blob });
    }
    Ok(entries)
}

fn files_of(edge: &FilesEdge, vertex: &Vertex) -> Vec<Vertex> {
    let (mut fetch, mut action) = edge.expand(vertex).unwrap();
    loop {
        let event = match action {
            FilesAction::ListTree(request) => {
                assert!(request.recursive);
                match list_tree(&request) {
                    Ok(entries) => FilesEvent::TreeListed(entries),
                    Err(e) => FilesEvent::TreeFailed(e),
                }
            }
            FilesAction::FetchBlob(request) => {
                assert_eq!(request.ref_.as_deref(), edge.ref_.as_deref());
                let hosted = hosted();
                let content = hosted
                    .iter()
                    .find(|h| h.project.id.to_string() == request.project)
                    .and_then(|h| h.main.iter().find(|(p, _)| *p == request.file_path));
                match content {
                    Some((_, text)) => FilesEvent::BlobFetched(text.as_bytes().to_vec()),
                    None => FilesEvent::BlobFailed(RemoteError { message: "404".to_string() }),
                }
            }
            FilesAction::Done { files, .. } => return files,
            other => panic!("the listing ended with {:?}", other),
        };
        let next = fetch.step(event);
        fetch = next.0;
        action = next.1;
    }
}

#[test]
fn go_repositories_of_a_member_and_their_files_below_src_on_main() {
    let adapter = GitlabAdapter::new();
    let filters =
        bind(vec![("language", given("go")), ("membership", EngineValue::Boolean(true))]);
    let request = adapter.resolve_starting_vertices("repositories", &filters).unwrap();
    assert_eq!(request.query.with_programming_language.as_deref(), Some("go"));
    assert_eq!(request.query.membership, Some(true));
    let repositories = adapter.get_gitlab_repos(list_projects(&request)).unwrap();
    let names: Vec<&str> =
        repositories.iter().map(|v| v.as_gitlab_repo().unwrap().name.as_str()).collect();
    assert_eq!(names, vec!["gopher", "marmot"]);
    for vertex in &repositories {
        assert_eq!(
            adapter.resolve_property(Some(vertex), "Repository", "__typename"),
            Ok(text("Repository"))
        );
    }
    assert_eq!(
        adapter.resolve_property(Some(&repositories[0]), "Repository", "description"),
        Ok(text("In go, ours"))
    );

    let edge_parameters = bind(vec![("ref", given("main")), ("path", given("src"))]);
    let edge = adapter.resolve_neighbors("Repository", "files", &edge_parameters).unwrap();
    let files = files_of(&edge, &repositories[0]);
    let listed: Vec<(FieldValue, FieldValue)> = files
        .iter()
        .map(|f| {
            (
                adapter.resolve_property(Some(f), "File", "path").unwrap(),
                adapter.resolve_property(Some(f), "File", "content").unwrap(),
            )
        })
        .collect();
    assert_eq!(
        listed,
        vec![
            (text("src/main.go"), text("package main\n")),
            (text("src/util/io.go"), text("package util\n")),
        ]
    );
    for file in &files {
        assert!(file.as_repo_file().unwrap().path.starts_with("src/"));
        assert_eq!(adapter.resolve_property(Some(file), "File", "__typename"), Ok(text("File")));
    }
    assert_eq!(files_of(&edge, &repositories[1]), Vec::new());
}

#[test]
fn a_ref_that_does_not_exist_gives_a_repository_no_files() {
    let adapter = GitlabAdapter::new();
    let request = adapter.resolve_starting_vertices("repositories", &EdgeParameters::default()).unwrap();
    let repositories = adapter.get_gitlab_repos(list_projects(&request)).unwrap();
    assert_eq!(repositories.len(), 4);
    let edge_parameters = bind(vec![("ref", given("no-such-branch"))]);
    let edge = adapter.resolve_neighbors("Repository", "files", &edge_parameters).unwrap();
    for vertex in &repositories {
        assert_eq!(files_of(&edge, vertex), Vec::new());
    }
    let edge = adapter.resolve_neighbors("Repository", "files", &EdgeParameters::default()).unwrap();
    let all: Vec<usize> = repositories.iter().map(|v| files_of(&edge, v).len()).collect();
    assert_eq!(all, vec![4, 1, 1, 1]);
}
