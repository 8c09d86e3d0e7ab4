//! The adapter: what the query engine asks, answered in terms of calls to the
//! remote service and of what those calls gave.
//!
//! The engine asks three things: the entities a query starts from, a property
//! of an entity, and the neighbors of an entity across an edge. The adapter
//! keeps nothing between two questions.

use crate::files::{
    FilesAction, FilesActionView, FilesFetch, FilesFetchView, StageView, TREE_ENTRY_LIMIT,
};
use crate::params::{
    bool_param, dt_param, extract_bool_param, extract_dt_param, extract_string_param,
    parameter_values, string_param, ContractViolation, FieldValue, FieldValueView,
};
use crate::remote::{project_views, Project, ProjectView, RemoteError, TreeRequestView};
use crate::text::{
    copy_opt_text, decimal_digits, decimal_text, lemma_decimal_digits_injective,
    lemma_decimal_digits_nonempty, opt_text, str_eq,
};
use crate::time::Timestamp;
use crate::vertex::{
    file_type_name, repository_type_name, vertex_views, GitlabRepo, GitlabRepoView, Vertex,
    VertexView,
};
use trustfall_core::ir::EdgeParameters;
use vstd::prelude::*;
use vstd::string::*;

verus! {

/// The number of repositories that a listing asks for, and the most it
/// hands out.
pub const DEFAULT_PAGE_LIMIT: usize = 20;

/// The edge that queries start from.
pub open spec fn starting_edge_name() -> Seq<char> {
    "repositories"@
}

/// The edge from a repository to its files.
pub open spec fn files_edge_name() -> Seq<char> {
    "files"@
}

/// The property that every entity has: the name of its type.
pub open spec fn typename_property() -> Seq<char> {
    "__typename"@
}

/// The filters of a listing of repositories. An absent filter does not
/// constrain the listing.
#[derive(Debug, Clone, PartialEq, Eq)]
pub struct GitlabProjectsGetParams {
    /// Free text to search for.
    pub query_string: Option<String>,
    /// Whether the names of namespaces are searched too.
    pub search_namespaces: Option<bool>,
    /// The primary programming language.
    pub language: Option<String>,
    /// Whether only repositories that the credential is a member of are wanted.
    pub membership: Option<bool>,
    pub last_activity_after: Option<Timestamp>,
    pub last_activity_before: Option<Timestamp>,
}

/// What [`GitlabProjectsGetParams`] say.
pub struct GitlabProjectsGetParamsView {
    pub query_string: Option<Seq<char>>,
    pub search_namespaces: Option<bool>,
    pub language: Option<Seq<char>>,
    pub membership: Option<bool>,
    pub last_activity_after: Option<Timestamp>,
    pub last_activity_before: Option<Timestamp>,
}

impl View for GitlabProjectsGetParams {
    type V = GitlabProjectsGetParamsView;

    open spec fn view(&self) -> GitlabProjectsGetParamsView {
        GitlabProjectsGetParamsView {
            query_string: opt_text(self.query_string),
            search_namespaces: self.search_namespaces,
            language: opt_text(self.language),
            membership: self.membership,
            last_activity_after: self.last_activity_after,
            last_activity_before: self.last_activity_before,
        }
    }
}

/// The filters that the parameters of the starting edge give. The
/// parameters are read in the order `query`, `search_namespaces`, `language`,
/// `membership`, `last_activity_before`, `last_activity_after`, and the first
/// that cannot be read decides the violation.
pub open spec fn projects_params(parameters: Map<Seq<char>, FieldValueView>) -> Result<
    GitlabProjectsGetParamsView,
    ContractViolation,
> {
    let query_string = string_param(parameters, "query"@);
    let search_namespaces = bool_param(parameters, "search_namespaces"@);
    let language = string_param(parameters, "language"@);
    let membership = bool_param(parameters, "membership"@);
    let last_activity_before = dt_param(parameters, "last_activity_before"@);
    let last_activity_after = dt_param(parameters, "last_activity_after"@);
    if query_string is Err {
        Err(query_string->Err_0)
    } else if search_namespaces is Err {
        Err(search_namespaces->Err_0)
    } else if language is Err {
        Err(language->Err_0)
    } else if membership is Err {
        Err(membership->Err_0)
    } else if last_activity_before is Err {
        Err(last_activity_before->Err_0)
    } else if last_activity_after is Err {
        Err(last_activity_after->Err_0)
    } else {
        Ok(
            GitlabProjectsGetParamsView {
                query_string: query_string->Ok_0,
                search_namespaces: search_namespaces->Ok_0,
                language: language->Ok_0,
                membership: membership->Ok_0,
                last_activity_after: last_activity_after->Ok_0,
                last_activity_before: last_activity_before->Ok_0,
            },
        )
    }
}

impl GitlabProjectsGetParams {
    /// Reads the filters from the parameters of the starting edge.
    pub fn from_parameters(parameters: &EdgeParameters) -> (filters: Result<
        GitlabProjectsGetParams,
        ContractViolation,
    >)
        ensures
            match filters {
                Ok(f) => projects_params(parameter_values(*parameters)) == Ok::<_, ContractViolation>(f@),
                Err(e) => projects_params(parameter_values(*parameters)) == Err::<GitlabProjectsGetParamsView, _>(e),
            },
    {
        let query_string = match extract_string_param(parameters, "query") {
            Ok(v) => v,
            Err(e) => {
                return Err(e);
            },
        };
        let search_namespaces = match extract_bool_param(parameters, "search_namespaces") {
            Ok(v) => v,
            Err(e) => {
                return Err(e);
            },
        };
        let language = match extract_string_param(parameters, "language") {
            Ok(v) => v,
            Err(e) => {
                return Err(e);
            },
        };
        let membership = match extract_bool_param(parameters, "membership") {
            Ok(v) => v,
            Err(e) => {
                return Err(e);
            },
        };
        let last_activity_before = match extract_dt_param(parameters, "last_activity_before") {
            Ok(v) => v,
            Err(e) => {
                return Err(e);
            },
        };
        let last_activity_after = match extract_dt_param(parameters, "last_activity_after") {
            Ok(v) => v,
            Err(e) => {
                return Err(e);
            },
        };
        Ok(
            GitlabProjectsGetParams {
                query_string,
                search_namespaces,
                language,
                membership,
                last_activity_after,
                last_activity_before,
            },
        )
    }
}

/// What is asked of the remote service's listing of projects: each option
/// under the name by which the service knows it. An absent option is not
/// sent.
#[derive(Debug, Clone, PartialEq, Eq)]
pub struct ProjectsQuery {
    pub search: Option<String>,
    pub search_namespaces: Option<bool>,
    pub with_programming_language: Option<String>,
    pub membership: Option<bool>,
    pub last_activity_after: Option<Timestamp>,
    pub last_activity_before: Option<Timestamp>,
}

/// What a [`ProjectsQuery`] says.
pub struct ProjectsQueryView {
    pub search: Option<Seq<char>>,
    pub search_namespaces: Option<bool>,
    pub with_programming_language: Option<Seq<char>>,
    pub membership: Option<bool>,
    pub last_activity_after: Option<Timestamp>,
    pub last_activity_before: Option<Timestamp>,
}

impl View for ProjectsQuery {
    type V = ProjectsQueryView;

    open spec fn view(&self) -> ProjectsQueryView {
        ProjectsQueryView {
            search: opt_text(self.search),
            search_namespaces: self.search_namespaces,
            with_programming_language: opt_text(self.with_programming_language),
            membership: self.membership,
            last_activity_after: self.last_activity_after,
            last_activity_before: self.last_activity_before,
        }
    }
}

/// The query that filters amount to: the free text is searched for, the
/// language is the programming language, and the rest goes under its own
/// name.
pub open spec fn projects_query(filters: GitlabProjectsGetParamsView) -> ProjectsQueryView {
    ProjectsQueryView {
        search: filters.query_string,
        search_namespaces: filters.search_namespaces,
        with_programming_language: filters.language,
        membership: filters.membership,
        last_activity_after: filters.last_activity_after,
        last_activity_before: filters.last_activity_before,
    }
}

/// A query for projects, and the number of results to ask for.
#[derive(Debug, Clone, PartialEq, Eq)]
pub struct ProjectsRequest {
    pub query: ProjectsQuery,
    pub limit: usize,
}

/// What a [`ProjectsRequest`] says.
pub struct ProjectsRequestView {
    pub query: ProjectsQueryView,
    pub limit: usize,
}

impl View for ProjectsRequest {
    type V = ProjectsRequestView;

    open spec fn view(&self) -> ProjectsRequestView {
        ProjectsRequestView { query: self.query@, limit: self.limit }
    }
}

/// What is asked for the entities that a query starts from, across an edge
/// with parameters, where `limit` results are to be asked for. Only the
/// edge `repositories` starts a query.
pub open spec fn starting_request(
    edge_name: Seq<char>,
    parameters: Map<Seq<char>, FieldValueView>,
    limit: usize,
) -> Result<ProjectsRequestView, ContractViolation> {
    if edge_name == starting_edge_name() {
        match projects_params(parameters) {
            Ok(filters) => Ok(ProjectsRequestView { query: projects_query(filters), limit }),
            Err(e) => Err(e),
        }
    } else {
        Err(ContractViolation::UnknownEdge)
    }
}

/// The repository that a project is listed as. It has no description where
/// the project has none, and no files yet.
pub open spec fn repository_of(project: ProjectView) -> GitlabRepoView {
    GitlabRepoView {
        id: decimal_digits(project.id as nat),
        url: project.http_url_to_repo,
        description: match project.description {
            Some(d) => d,
            None => Seq::empty(),
        },
        repo_files: Seq::empty(),
        name: project.name,
    }
}

/// The repositories that a listing hands out: the first `limit` of the
/// projects, or all of them where they are fewer, in their order.
pub open spec fn repositories_of(projects: Seq<ProjectView>, limit: nat) -> Seq<VertexView> {
    Seq::new(
        if projects.len() <= limit {
            projects.len()
        } else {
            limit
        },
        |i: int| VertexView::GitlabRepo(repository_of(projects[i])),
    )
}

/// Whatever the remote service lists, a listing hands out no more
/// repositories than its limit, and each of them has an identifier that is
/// not empty.
pub proof fn lemma_repositories_within_limit(projects: Seq<ProjectView>, limit: nat)
    ensures
        repositories_of(projects, limit).len() <= limit,
        forall|i: int|
            0 <= i < repositories_of(projects, limit).len() ==> {
                &&& (#[trigger] repositories_of(projects, limit)[i]) is GitlabRepo
                &&& repositories_of(projects, limit)[i]->GitlabRepo_0.id.len() > 0
            },
{
    assert forall|i: int| 0 <= i < repositories_of(projects, limit).len() implies {
        &&& (#[trigger] repositories_of(projects, limit)[i]) is GitlabRepo
        &&& repositories_of(projects, limit)[i]->GitlabRepo_0.id.len() > 0
    } by {
        lemma_decimal_digits_nonempty(projects[i].id as nat);
    }
}

/// Projects with identifiers that differ are handed out as repositories
/// with identifiers that differ.
pub proof fn lemma_repository_ids_differ(projects: Seq<ProjectView>, limit: nat, i: int, j: int)
    requires
        0 <= i < repositories_of(projects, limit).len(),
        0 <= j < repositories_of(projects, limit).len(),
        projects[i].id != projects[j].id,
    ensures
        repositories_of(projects, limit)[i]->GitlabRepo_0.id != repositories_of(
            projects,
            limit,
        )[j]->GitlabRepo_0.id,
{
    if decimal_digits(projects[i].id as nat) == decimal_digits(projects[j].id as nat) {
        lemma_decimal_digits_injective(projects[i].id as nat, projects[j].id as nat);
    }
}

/// A property of an entity.
#[derive(Debug, Clone, Copy, PartialEq, Eq, Structural)]
pub enum Property {
    /// The name of the entity's type; every entity has it.
    TypeName,
    RepoUrl,
    RepoId,
    RepoName,
    RepoDescription,
    FilePath,
    FileContent,
}

impl Property {
    /// The property that a type has under a name. The name of the type
    /// property is known for every type, whatever `entity_type` is.
    pub open spec fn named(entity_type: Seq<char>, property_name: Seq<char>) -> Result<
        Property,
        ContractViolation,
    > {
        if property_name == typename_property() {
            Ok(Property::TypeName)
        } else if entity_type == repository_type_name() {
            if property_name == "url"@ {
                Ok(Property::RepoUrl)
            } else if property_name == "id"@ {
                Ok(Property::RepoId)
            } else if property_name == "name"@ {
                Ok(Property::RepoName)
            } else if property_name == "description"@ {
                Ok(Property::RepoDescription)
            } else {
                Err(ContractViolation::UnknownProperty)
            }
        } else if entity_type == file_type_name() {
            if property_name == "path"@ {
                Ok(Property::FilePath)
            } else if property_name == "content"@ {
                Ok(Property::FileContent)
            } else {
                Err(ContractViolation::UnknownProperty)
            }
        } else {
            Err(ContractViolation::UnknownProperty)
        }
    }

    /// The value of this property where `active` is the entity at hand:
    /// null where there is none, and a violation where the entity is of a
    /// type that does not have the property.
    pub open spec fn value(self, active: Option<VertexView>) -> Result<
        FieldValueView,
        ContractViolation,
    > {
        match active {
            None => Ok(FieldValueView::Null),
            Some(vertex) => match (self, vertex) {
                (Property::TypeName, _) => Ok(FieldValueView::Text(vertex.typename())),
                (Property::RepoUrl, VertexView::GitlabRepo(repo)) => Ok(
                    FieldValueView::Text(repo.url),
                ),
                (Property::RepoId, VertexView::GitlabRepo(repo)) => Ok(
                    FieldValueView::Text(repo.id),
                ),
                (Property::RepoName, VertexView::GitlabRepo(repo)) => Ok(
                    FieldValueView::Text(repo.name),
                ),
                (Property::RepoDescription, VertexView::GitlabRepo(repo)) => Ok(
                    FieldValueView::Text(repo.description),
                ),
                (Property::FilePath, VertexView::RepoFile(file)) => Ok(
                    FieldValueView::Text(file.path),
                ),
                (Property::FileContent, VertexView::RepoFile(file)) => Ok(
                    FieldValueView::Text(file.content),
                ),
                _ => Err(ContractViolation::WrongVertexType),
            },
        }
    }

    /// The value of the property that `entity_type` has under
    /// `property_name`, where `active` is the entity at hand.
    pub open spec fn resolved(
        active: Option<VertexView>,
        entity_type: Seq<char>,
        property_name: Seq<char>,
    ) -> Result<FieldValueView, ContractViolation> {
        match Property::named(entity_type, property_name) {
            Ok(property) => property.value(active),
            Err(e) => Err(e),
        }
    }

    /// Finds the property that a type has under a name.
    pub fn find(entity_type: &str, property_name: &str) -> (found: Result<
        Property,
        ContractViolation,
    >)
        ensures
            found == Property::named(entity_type@, property_name@),
    {
        if str_eq(property_name, "__typename") {
            Ok(Property::TypeName)
        } else if str_eq(entity_type, "Repository") {
            if str_eq(property_name, "url") {
                Ok(Property::RepoUrl)
            } else if str_eq(property_name, "id") {
                Ok(Property::RepoId)
            } else if str_eq(property_name, "name") {
                Ok(Property::RepoName)
            } else if str_eq(property_name, "description") {
                Ok(Property::RepoDescription)
            } else {
                Err(ContractViolation::UnknownProperty)
            }
        } else if str_eq(entity_type, "File") {
            if str_eq(property_name, "path") {
                Ok(Property::FilePath)
            } else if str_eq(property_name, "content") {
                Ok(Property::FileContent)
            } else {
                Err(ContractViolation::UnknownProperty)
            }
        } else {
            Err(ContractViolation::UnknownProperty)
        }
    }

    /// Reads this property from the entity at hand.
    pub fn read(self, active: Option<&Vertex>) -> (read: Result<FieldValue, ContractViolation>)
        ensures
            match read {
                Ok(v) => self.value(active_view(active)) == Ok::<_, ContractViolation>(v@),
                Err(e) => self.value(active_view(active)) == Err::<FieldValueView, _>(e),
            },
            active is None ==> read matches Ok(FieldValue::Null),
    {
        let vertex = match active {
            None => {
                return Ok(FieldValue::Null);
            },
            Some(vertex) => vertex,
        };
        match self {
            Property::TypeName => Ok(FieldValue::Text(String::from_str(vertex.typename()))),
            Property::RepoUrl => match vertex.as_gitlab_repo() {
                Some(repo) => Ok(FieldValue::Text(repo.url.clone())),
                None => Err(ContractViolation::WrongVertexType),
            },
            Property::RepoId => match vertex.as_gitlab_repo() {
                Some(repo) => Ok(FieldValue::Text(repo.id.clone())),
                None => Err(ContractViolation::WrongVertexType),
            },
            Property::RepoName => match vertex.as_gitlab_repo() {
                Some(repo) => Ok(FieldValue::Text(repo.name.clone())),
                None => Err(ContractViolation::WrongVertexType),
            },
            Property::RepoDescription => match vertex.as_gitlab_repo() {
                Some(repo) => Ok(FieldValue::Text(repo.description.clone())),
                None => Err(ContractViolation::WrongVertexType),
            },
            Property::FilePath => match vertex.as_repo_file() {
                Some(file) => Ok(FieldValue::Text(file.path.clone())),
                None => Err(ContractViolation::WrongVertexType),
            },
            Property::FileContent => match vertex.as_repo_file() {
                Some(file) => Ok(FieldValue::Text(file.content.clone())),
                None => Err(ContractViolation::WrongVertexType),
            },
        }
    }
}

/// What the entity at hand says, if there is one.
pub open spec fn active_view(active: Option<&Vertex>) -> Option<VertexView> {
    match active {
        Some(vertex) => Some(vertex@),
        None => None,
    }
}

/// Where there is no entity at hand, every property that a type has
/// resolves to null, and to no violation.
pub proof fn lemma_absent_entity_resolves_to_null(
    entity_type: Seq<char>,
    property_name: Seq<char>,
)
    requires
        Property::named(entity_type, property_name) is Ok,
    ensures
        Property::resolved(None, entity_type, property_name) == Ok::<_, ContractViolation>(
            FieldValueView::Null,
        ),
{
}

/// The type property of a repository is `Repository`, under whatever type
/// the engine asks for it.
pub proof fn lemma_repository_typename(entity_type: Seq<char>, repo: GitlabRepoView)
    ensures
        Property::resolved(Some(VertexView::GitlabRepo(repo)), entity_type, typename_property())
            == Ok::<_, ContractViolation>(FieldValueView::Text("Repository"@)),
{
}

/// The edge from a repository to its files, with its parameters read.
#[derive(Debug, Clone, PartialEq, Eq)]
pub struct FilesEdge {
    /// The branch, tag or commit to read; the default branch where absent.
    pub ref_: Option<String>,
    /// The subtree to list; the whole tree where absent.
    pub path: Option<String>,
}

/// What a [`FilesEdge`] says.
pub struct FilesEdgeView {
    pub ref_: Option<Seq<char>>,
    pub path: Option<Seq<char>>,
}

impl View for FilesEdge {
    type V = FilesEdgeView;

    open spec fn view(&self) -> FilesEdgeView {
        FilesEdgeView { ref_: opt_text(self.ref_), path: opt_text(self.path) }
    }
}

/// The edge that a type has under a name, with its parameters read: first
/// `ref`, then `path`. Only a repository has an edge, the one to its files.
pub open spec fn files_edge(
    entity_type: Seq<char>,
    edge_name: Seq<char>,
    parameters: Map<Seq<char>, FieldValueView>,
) -> Result<FilesEdgeView, ContractViolation> {
    if entity_type == repository_type_name() && edge_name == files_edge_name() {
        match string_param(parameters, "ref"@) {
            Err(e) => Err(e),
            Ok(ref_) => match string_param(parameters, "path"@) {
                Err(e) => Err(e),
                Ok(path) => Ok(FilesEdgeView { ref_, path }),
            },
        }
    } else {
        Err(ContractViolation::UnknownEdge)
    }
}

/// The listing that begins for a repository with an identifier, and the
/// call that it asks for first.
pub open spec fn listing_begun(
    id: Seq<char>,
    ref_: Option<Seq<char>>,
    path: Option<Seq<char>>,
) -> (FilesFetchView, FilesActionView) {
    (
        FilesFetchView { project: id, ref_, path, stage: StageView::Listing },
        FilesActionView::ListTree(
            TreeRequestView { project: id, path, ref_, recursive: true, limit: TREE_ENTRY_LIMIT },
        ),
    )
}

impl FilesEdge {
    /// Begins the listing of the files of one repository. Nothing is asked
    /// of the remote service until the listing's first call is made.
    pub fn expand(&self, vertex: &Vertex) -> (begun: Result<
        (FilesFetch, FilesAction),
        ContractViolation,
    >)
        ensures
            match vertex@ {
                VertexView::GitlabRepo(repo) => begun matches Ok(b) && (b.0@, b.1@)
                    == listing_begun(repo.id, self@.ref_, self@.path),
                _ => begun matches Err(e) && e == ContractViolation::WrongVertexType,
            },
    {
        match vertex.as_gitlab_repo() {
            Some(repo) => Ok(
                GitlabAdapter::get_files_for_repo(
                    repo.id.clone(),
                    copy_opt_text(&self.ref_),
                    copy_opt_text(&self.path),
                ),
            ),
            None => Err(ContractViolation::WrongVertexType),
        }
    }
}

/// The adapter between the query engine and the remote service.
#[derive(Debug, Clone, PartialEq, Eq)]
pub struct GitlabAdapter {
    page_limit: usize,
}

impl Default for GitlabAdapter {
    fn default() -> (adapter: Self)
        ensures
            adapter.ceiling() == DEFAULT_PAGE_LIMIT,
    {
        Self::new()
    }
}

impl GitlabAdapter {
    /// The number of repositories that a listing asks for, and the most it
    /// hands out.
    pub closed spec fn ceiling(&self) -> usize {
        self.page_limit
    }

    /// An adapter whose listings of repositories ask for twenty.
    pub fn new() -> (adapter: Self)
        ensures
            adapter.ceiling() == DEFAULT_PAGE_LIMIT,
    {
        Self { page_limit: DEFAULT_PAGE_LIMIT }
    }

    /// The number of repositories that a listing asks for, and the most it
    /// hands out.
    pub fn page_limit(&self) -> (limit: usize)
        ensures
            limit == self.ceiling(),
    {
        self.page_limit
    }

    /// Turns filters into what is asked of the remote service.
    pub fn build_projects_builder(params: GitlabProjectsGetParams) -> (query: ProjectsQuery)
        ensures
            query@ == projects_query(params@),
    {
        ProjectsQuery {
            search: params.query_string,
            search_namespaces: params.search_namespaces,
            with_programming_language: params.language,
            membership: params.membership,
            last_activity_after: params.last_activity_after,
            last_activity_before: params.last_activity_before,
        }
    }

    /// What to ask the remote service for a listing of repositories.
    pub fn projects_request(&self, params: GitlabProjectsGetParams) -> (request: ProjectsRequest)
        ensures
            request@ == (ProjectsRequestView {
                query: projects_query(params@),
                limit: self.ceiling(),
            }),
    {
        ProjectsRequest { query: Self::build_projects_builder(params), limit: self.page_limit }
    }

    /// The repositories of a listing, given what the remote service
    /// answered. A failure of the service fails the listing: no part of it
    /// is handed out. Of the projects that the service listed, no more than
    /// the limit are kept.
    pub fn get_gitlab_repos(&self, listing: Result<Vec<Project>, RemoteError>) -> (repos: Result<
        Vec<Vertex>,
        RemoteError,
    >)
        ensures
            match listing {
                Ok(projects) => repos matches Ok(vertices) && vertex_views(vertices@)
                    == repositories_of(project_views(projects@), self.ceiling() as nat),
                Err(e) => repos matches Err(f) && f == e,
            },
            repos matches Ok(vertices) ==> {
                &&& vertices@.len() <= self.ceiling()
                &&& forall|i: int|
                    0 <= i < vertices@.len() ==> {
                        &&& (#[trigger] vertices@[i]@) is GitlabRepo
                        &&& vertices@[i]@->GitlabRepo_0.id.len() > 0
                    }
            },
    {
        let projects = match listing {
            Ok(projects) => projects,
            Err(e) => {
                return Err(e);
            },
        };
        let ghost listed = project_views(projects@);
        let ghost wanted = repositories_of(listed, self.ceiling() as nat);
        let count: usize = if projects.len() <= self.page_limit {
            projects.len()
        } else {
            self.page_limit
        };
        let mut vertices: Vec<Vertex> = Vec::new();
        let mut i: usize = 0;
        while i < count
            invariant
                i <= count,
                count == wanted.len(),
                count <= projects@.len(),
                listed == project_views(projects@),
                wanted == repositories_of(listed, self.ceiling() as nat),
                vertices@.len() == i,
                forall|j: int| 0 <= j < i ==> (#[trigger] vertices@[j]@) == wanted[j],
            decreases count - i,
        {
            let project = &projects[i];
            let description = match &project.description {
                Some(d) => d.clone(),
                None => String::new(),
            };
            let repo = GitlabRepo {
                id: decimal_text(project.id),
                url: project.http_url_to_repo.clone(),
                description,
                repo_files: Vec::new(),
                name: project.name.clone(),
            };
            assert(repo@.repo_files =~= Seq::empty());
            vertices.push(Vertex::GitlabRepo(repo));
            i += 1;
        }
        proof {
            assert(vertex_views(vertices@) =~= wanted);
            lemma_repositories_within_limit(listed, self.ceiling() as nat);
            assert forall|i: int| 0 <= i < vertices@.len() implies {
                &&& (#[trigger] vertices@[i]@) is GitlabRepo
                &&& vertices@[i]@->GitlabRepo_0.id.len() > 0
            } by {
                assert(vertices@[i]@ == wanted[i]);
            }
        }
        Ok(vertices)
    }

    /// Begins a listing of the files of the repository with an identifier:
    /// at `ref_`, or at the default branch where it is absent; below `path`,
    /// or from the root. The listing first asks for the repository's tree.
    pub fn get_files_for_repo(id: String, ref_: Option<String>, path: Option<String>) -> (begun: (
        FilesFetch,
        FilesAction,
    ))
        ensures
            (begun.0@, begun.1@) == listing_begun(id@, opt_text(ref_), opt_text(path)),
    {
        FilesFetch::begin(id, ref_, path)
    }

    /// What to ask the remote service for the entities that a query starts
    /// from. There is one starting edge, `repositories`; its parameters are
    /// the filters of the listing.
    pub fn resolve_starting_vertices(&self, edge_name: &str, parameters: &EdgeParameters) -> (request:
        Result<ProjectsRequest, ContractViolation>)
        ensures
            match request {
                Ok(r) => starting_request(edge_name@, parameter_values(*parameters), self.ceiling()) == Ok::<
                    _,
                    ContractViolation,
                >(r@),
                Err(e) => starting_request(edge_name@, parameter_values(*parameters), self.ceiling()) == Err::<
                    ProjectsRequestView,
                    _,
                >(e),
            },
    {
        if !str_eq(edge_name, "repositories") {
            return Err(ContractViolation::UnknownEdge);
        }
        match GitlabProjectsGetParams::from_parameters(parameters) {
            Ok(filters) => Ok(self.projects_request(filters)),
            Err(e) => Err(e),
        }
    }

    /// The value of the property that `entity_type` has under
    /// `property_name`, for one entity at hand, or for none.
    pub fn resolve_property(
        &self,
        active: Option<&Vertex>,
        entity_type: &str,
        property_name: &str,
    ) -> (value: Result<FieldValue, ContractViolation>)
        ensures
            match value {
                Ok(v) => Property::resolved(active_view(active), entity_type@, property_name@)
                    == Ok::<_, ContractViolation>(v@),
                Err(e) => Property::resolved(active_view(active), entity_type@, property_name@)
                    == Err::<FieldValueView, _>(e),
            },
    {
        match Property::find(entity_type, property_name) {
            Ok(property) => property.read(active),
            Err(e) => Err(e),
        }
    }

    /// The edge that `entity_type` has under `edge_name`, with its
    /// parameters read once for all the entities it will be expanded from.
    pub fn resolve_neighbors(
        &self,
        entity_type: &str,
        edge_name: &str,
        parameters: &EdgeParameters,
    ) -> (edge: Result<FilesEdge, ContractViolation>)
        ensures
            match edge {
                Ok(found) => files_edge(entity_type@, edge_name@, parameter_values(*parameters)) == Ok::<
                    _,
                    ContractViolation,
                >(found@),
                Err(e) => files_edge(entity_type@, edge_name@, parameter_values(*parameters)) == Err::<
                    FilesEdgeView,
                    _,
                >(e),
            },
    {
        if !(str_eq(entity_type, "Repository") && str_eq(edge_name, "files")) {
            return Err(ContractViolation::UnknownEdge);
        }
        let ref_ = match extract_string_param(parameters, "ref") {
            Ok(v) => v,
            Err(e) => {
                return Err(e);
            },
        };
        let path = match extract_string_param(parameters, "path") {
            Ok(v) => v,
            Err(e) => {
                return Err(e);
            },
        };
        Ok(FilesEdge { ref_, path })
    }
}

} // verus!
