//! Listing the files of a repository.
//!
//! Listing takes one call for the repository's tree and one call for the
//! content of every file in it. The calls are not made here: a listing is a
//! state machine. It says which call to make next, is told what the call
//! gave, and in the end hands out the files.
//!
//! A tree that cannot be listed gives no files and a diagnostic. A file that
//! was listed and cannot be fetched fails the whole listing.

use crate::remote::{
    tree_views, BlobRequest, BlobRequestView, ObjectType, RemoteError, RepoTreeObject,
    RepoTreeObjectView, TreeRequest, TreeRequestView,
};
use crate::text::{copy_opt_text, decode_lossy, lossy_text, opt_text};
use crate::vertex::{vertex_views, RepoFile, RepoFileView, Vertex, VertexView};
use std::rc::Rc;
use vstd::prelude::*;

verus! {

/// The number of tree entries that a listing asks for.
pub const TREE_ENTRY_LIMIT: usize = 50;

/// What a call of the remote service gave.
#[derive(Debug, Clone, PartialEq, Eq)]
pub enum FilesEvent {
    /// The tree was listed.
    TreeListed(Vec<RepoTreeObject>),
    /// The tree could not be listed.
    TreeFailed(RemoteError),
    /// The content of the file that was asked for.
    BlobFetched(Vec<u8>),
    /// The file that was asked for could not be fetched.
    BlobFailed(RemoteError),
}

/// What a [`FilesEvent`] says.
pub enum FilesEventView {
    TreeListed(Seq<RepoTreeObjectView>),
    TreeFailed(Seq<char>),
    BlobFetched(Seq<u8>),
    BlobFailed(Seq<char>),
}

impl View for FilesEvent {
    type V = FilesEventView;

    open spec fn view(&self) -> FilesEventView {
        match self {
            FilesEvent::TreeListed(entries) => FilesEventView::TreeListed(tree_views(entries@)),
            FilesEvent::TreeFailed(e) => FilesEventView::TreeFailed(e@),
            FilesEvent::BlobFetched(bytes) => FilesEventView::BlobFetched(bytes@),
            FilesEvent::BlobFailed(e) => FilesEventView::BlobFailed(e@),
        }
    }
}

/// What a listing wants done next, or how it ended.
#[derive(Debug, Clone, PartialEq, Eq)]
pub enum FilesAction {
    /// List the tree, and answer with `TreeListed` or `TreeFailed`.
    ListTree(TreeRequest),
    /// Fetch a file, and answer with `BlobFetched` or `BlobFailed`.
    FetchBlob(BlobRequest),
    /// The listing ended with these files. Where the tree could not be
    /// listed there are none, and `diagnostic` says why.
    Done { files: Vec<Vertex>, diagnostic: Option<String> },
    /// The listing failed, and gives no files.
    Failed(RemoteError),
    /// The event answers no call that the listing asked for. Nothing changed.
    Rejected,
}

/// What a [`FilesAction`] says.
pub enum FilesActionView {
    ListTree(TreeRequestView),
    FetchBlob(BlobRequestView),
    Done { files: Seq<VertexView>, diagnostic: Option<Seq<char>> },
    Failed(Seq<char>),
    Rejected,
}

impl View for FilesAction {
    type V = FilesActionView;

    open spec fn view(&self) -> FilesActionView {
        match self {
            FilesAction::ListTree(request) => FilesActionView::ListTree(request@),
            FilesAction::FetchBlob(request) => FilesActionView::FetchBlob(request@),
            FilesAction::Done { files, diagnostic } => FilesActionView::Done {
                files: vertex_views(files@),
                diagnostic: opt_text(*diagnostic),
            },
            FilesAction::Failed(e) => FilesActionView::Failed(e@),
            FilesAction::Rejected => FilesActionView::Rejected,
        }
    }
}

/// How far a listing has come.
pub enum StageView {
    /// The tree has been asked for.
    Listing,
    /// The file at `current` has been asked for, those at `rest` are still to
    /// be fetched, in this order, and `files` have been fetched.
    Fetching { current: Seq<char>, rest: Seq<Seq<char>>, files: Seq<VertexView> },
    /// The listing has ended.
    Finished,
}

/// What a [`FilesFetch`] says.
pub struct FilesFetchView {
    pub project: Seq<char>,
    pub ref_: Option<Seq<char>>,
    pub path: Option<Seq<char>>,
    pub stage: StageView,
}

/// The paths of the files among the entries of a tree, in their order.
/// Directories are left out.
pub open spec fn blob_paths(entries: Seq<RepoTreeObjectView>) -> Seq<Seq<char>>
    decreases entries.len(),
{
    if entries.len() == 0 {
        Seq::empty()
    } else if entries[0].type_ == ObjectType::Blob {
        seq![entries[0].path] + blob_paths(entries.drop_first())
    } else {
        blob_paths(entries.drop_first())
    }
}

/// The file with a path and a content.
pub open spec fn file_vertex(path: Seq<char>, content: Seq<char>) -> VertexView {
    VertexView::RepoFile(RepoFileView { path, content })
}

impl FilesFetchView {
    /// This listing, ended.
    pub open spec fn finished(self) -> FilesFetchView {
        FilesFetchView { stage: StageView::Finished, ..self }
    }

    /// Goes on with the files at `pending`, after `files` have been fetched:
    /// asks for the first of them, or ends with `files` where none is left.
    pub open spec fn fetch_or_finish(self, pending: Seq<Seq<char>>, files: Seq<VertexView>) -> (
        FilesFetchView,
        FilesActionView,
    ) {
        if pending.len() == 0 {
            (self.finished(), FilesActionView::Done { files, diagnostic: None })
        } else {
            (
                FilesFetchView {
                    stage: StageView::Fetching {
                        current: pending[0],
                        rest: pending.drop_first(),
                        files,
                    },
                    ..self
                },
                FilesActionView::FetchBlob(
                    BlobRequestView {
                        project: self.project,
                        file_path: pending[0],
                        ref_: self.ref_,
                    },
                ),
            )
        }
    }

    /// Takes the text of the file that was asked for, and goes on.
    pub open spec fn accept_content(self, content: Seq<char>) -> (FilesFetchView, FilesActionView) {
        match self.stage {
            StageView::Fetching { current, rest, files } => self.fetch_or_finish(
                rest,
                files.push(file_vertex(current, content)),
            ),
            _ => (self, FilesActionView::Rejected),
        }
    }

    /// The state after an event, and what is to be done next.
    pub open spec fn step(self, event: FilesEventView) -> (FilesFetchView, FilesActionView) {
        match (self.stage, event) {
            (StageView::Listing, FilesEventView::TreeListed(entries)) => self.fetch_or_finish(
                blob_paths(entries),
                Seq::empty(),
            ),
            (StageView::Listing, FilesEventView::TreeFailed(e)) => (
                self.finished(),
                FilesActionView::Done { files: Seq::empty(), diagnostic: Some(e) },
            ),
            (StageView::Fetching { .. }, FilesEventView::BlobFetched(bytes)) => self.accept_content(
                lossy_text(bytes),
            ),
            (StageView::Fetching { .. }, FilesEventView::BlobFailed(e)) => (
                self.finished(),
                FilesActionView::Failed(e),
            ),
            _ => (self, FilesActionView::Rejected),
        }
    }

    /// The answers to a sequence of events, one for each.
    pub open spec fn run(self, events: Seq<FilesEventView>) -> Seq<FilesActionView>
        decreases events.len(),
    {
        if events.len() == 0 {
            Seq::empty()
        } else {
            seq![self.step(events[0]).1] + self.step(events[0]).0.run(events.drop_first())
        }
    }
}

/// Whether every one of the vertices is a file.
pub open spec fn all_files(vertices: Seq<VertexView>) -> bool {
    forall|i: int| 0 <= i < vertices.len() ==> vertices[i] is RepoFile
}

/// The paths of files, in their order.
pub open spec fn file_paths(files: Seq<VertexView>) -> Seq<Seq<char>> {
    Seq::new(files.len(), |i: int| files[i]->RepoFile_0.path)
}

/// Whether no two entries of a tree have the same path.
pub open spec fn distinct_paths(entries: Seq<RepoTreeObjectView>) -> bool {
    forall|i: int, j: int|
        0 <= i < j < entries.len() ==> (#[trigger] entries[i]).path != (#[trigger] entries[j]).path
}

/// There is one answer for each event.
pub proof fn lemma_run_len(state: FilesFetchView, events: Seq<FilesEventView>)
    ensures
        state.run(events).len() == events.len(),
    decreases events.len(),
{
    if events.len() > 0 {
        lemma_run_len(state.step(events[0]).0, events.drop_first());
    }
}

/// The answer to a later event is the answer that the state after the first
/// event gives to it.
proof fn lemma_run_later(state: FilesFetchView, events: Seq<FilesEventView>, i: int)
    requires
        0 < i < events.len(),
    ensures
        state.run(events)[i] == state.step(events[0]).0.run(events.drop_first())[i - 1],
{
    lemma_run_len(state.step(events[0]).0, events.drop_first());
}

/// A listing that has ended rejects whatever comes.
pub proof fn lemma_finished_rejects(state: FilesFetchView, events: Seq<FilesEventView>, i: int)
    requires
        state.stage is Finished,
        0 <= i < events.len(),
    ensures
        state.run(events)[i] == FilesActionView::Rejected,
    decreases events.len(),
{
    if i > 0 {
        lemma_run_later(state, events, i);
        lemma_finished_rejects(state.step(events[0]).0, events.drop_first(), i - 1);
    }
}

/// Where the tree cannot be listed, the listing ends at once, with no files
/// and the failure as its diagnostic, and whatever comes after, it never asks
/// for the content of a file.
pub proof fn lemma_unlisted_tree_gives_no_files(
    state: FilesFetchView,
    error: Seq<char>,
    events: Seq<FilesEventView>,
)
    requires
        state.stage is Listing,
        events.len() > 0,
        events[0] == FilesEventView::TreeFailed(error),
    ensures
        state.run(events).len() == events.len(),
        state.run(events)[0] == (FilesActionView::Done {
            files: Seq::empty(),
            diagnostic: Some(error),
        }),
        forall|i: int| 0 <= i < events.len() ==> !(#[trigger] state.run(events)[i] is FetchBlob),
{
    lemma_run_len(state, events);
    assert forall|i: int| 0 <= i < events.len() implies !(#[trigger] state.run(events)[i]
        is FetchBlob) by {
        if i > 0 {
            lemma_run_later(state, events, i);
            lemma_finished_rejects(state.step(events[0]).0, events.drop_first(), i - 1);
        }
    }
}

/// Where a file that was listed cannot be fetched, the listing fails, and
/// whatever comes after, it never hands out files: not even those that were
/// fetched before.
pub proof fn lemma_unfetched_file_fails_listing(
    state: FilesFetchView,
    error: Seq<char>,
    events: Seq<FilesEventView>,
)
    requires
        state.stage is Fetching,
        events.len() > 0,
        events[0] == FilesEventView::BlobFailed(error),
    ensures
        state.run(events).len() == events.len(),
        state.run(events)[0] == FilesActionView::Failed(error),
        forall|i: int| 0 <= i < events.len() ==> !(#[trigger] state.run(events)[i] is Done),
{
    lemma_run_len(state, events);
    assert forall|i: int| 0 <= i < events.len() implies !(#[trigger] state.run(events)[i]
        is Done) by {
        if i > 0 {
            lemma_run_later(state, events, i);
            lemma_finished_rejects(state.step(events[0]).0, events.drop_first(), i - 1);
        }
    }
}

/// Whatever comes, a listing asks for files of its own repository only, and
/// at its own ref.
pub proof fn lemma_requests_stay_with_the_listing(
    state: FilesFetchView,
    events: Seq<FilesEventView>,
    i: int,
)
    requires
        0 <= i < events.len(),
        state.run(events)[i] is FetchBlob,
    ensures
        state.run(events)[i]->FetchBlob_0.project == state.project,
        state.run(events)[i]->FetchBlob_0.ref_ == state.ref_,
    decreases events.len(),
{
    if i > 0 {
        lemma_run_later(state, events, i);
        lemma_requests_stay_with_the_listing(state.step(events[0]).0, events.drop_first(), i - 1);
    }
}

/// Whether a listing that has begun to fetch is on its way through the
/// files at `all`: those fetched, the one asked for, and those to come make
/// up `all`.
spec fn on_its_way(state: FilesFetchView, all: Seq<Seq<char>>) -> bool {
    match state.stage {
        StageView::Listing => false,
        StageView::Fetching { current, rest, files } => all_files(files) && file_paths(files)
            + seq![current] + rest == all,
        StageView::Finished => true,
    }
}

/// A listing on its way through some files hands out those files or none.
proof fn lemma_done_hands_out_all(
    state: FilesFetchView,
    all: Seq<Seq<char>>,
    events: Seq<FilesEventView>,
    i: int,
)
    requires
        on_its_way(state, all),
        0 <= i < events.len(),
        state.run(events)[i] is Done,
    ensures
        all_files(state.run(events)[i]->files),
        file_paths(state.run(events)[i]->files) == all,
    decreases events.len(),
{
    let next = state.step(events[0]).0;
    if state.stage is Finished {
        lemma_finished_rejects(state, events, i);
    } else {
        if let StageView::Fetching { current, rest, files } = state.stage {
            if let FilesEventView::BlobFetched(bytes) = events[0] {
                // The file that was asked for joins those that were fetched.
                let kept = files.push(file_vertex(current, lossy_text(bytes)));
                assert(file_paths(kept) =~= file_paths(files) + seq![current]);
                if rest.len() > 0 {
                    assert(file_paths(kept) + seq![rest[0]] + rest.drop_first() =~= all);
                }
            }
        }
        if i > 0 {
            lemma_run_later(state, events, i);
            lemma_done_hands_out_all(next, all, events.drop_first(), i - 1);
        }
    }
}

/// Every path among the files of a tree is the path of an entry that is a
/// file.
pub proof fn lemma_blob_paths_are_blobs(entries: Seq<RepoTreeObjectView>, j: int)
    requires
        0 <= j < blob_paths(entries).len(),
    ensures
        exists|k: int|
            0 <= k < entries.len() && (#[trigger] entries[k]).type_ == ObjectType::Blob
                && entries[k].path == blob_paths(entries)[j],
    decreases entries.len(),
{
    if !(entries[0].type_ == ObjectType::Blob && j == 0) {
        let rest = entries.drop_first();
        let below = if entries[0].type_ == ObjectType::Blob {
            j - 1
        } else {
            j
        };
        lemma_blob_paths_are_blobs(rest, below);
        let k = choose|k: int|
            0 <= k < rest.len() && (#[trigger] rest[k]).type_ == ObjectType::Blob && rest[k].path
                == blob_paths(rest)[below];
        assert(entries[k + 1] == rest[k]);
    }
}

/// Where no two entries of a tree have the same path, no two of its files
/// have.
pub proof fn lemma_blob_paths_distinct(entries: Seq<RepoTreeObjectView>)
    requires
        distinct_paths(entries),
    ensures
        blob_paths(entries).no_duplicates(),
    decreases entries.len(),
{
    if entries.len() > 0 {
        let rest = entries.drop_first();
        assert(distinct_paths(rest)) by {
            assert forall|i: int, j: int| 0 <= i < j < rest.len() implies (#[trigger] rest[i]).path
                != (#[trigger] rest[j]).path by {
                assert(rest[i] == entries[i + 1]);
                assert(rest[j] == entries[j + 1]);
            }
        }
        lemma_blob_paths_distinct(rest);
        if entries[0].type_ == ObjectType::Blob {
            let paths = blob_paths(entries);
            assert forall|i: int, j: int| 0 <= i < j < paths.len() implies paths[i]
                != paths[j] by {
                if i == 0 {
                    // The later path is the path of an entry after the first.
                    lemma_blob_paths_are_blobs(rest, j - 1);
                    let k = choose|k: int|
                        0 <= k < rest.len() && (#[trigger] rest[k]).type_ == ObjectType::Blob
                            && rest[k].path == blob_paths(rest)[j - 1];
                    assert(rest[k] == entries[k + 1]);
                }
            }
        }
    }
}

/// The files that a listing hands out are the files of the tree that was
/// listed, in the tree's order: one file for each entry that is a file, with
/// that entry's path, and none for a directory.
pub proof fn lemma_files_are_the_listed_blobs(
    state: FilesFetchView,
    entries: Seq<RepoTreeObjectView>,
    events: Seq<FilesEventView>,
    i: int,
)
    requires
        state.stage is Listing,
        events.len() > 0,
        events[0] == FilesEventView::TreeListed(entries),
        0 <= i < events.len(),
        state.run(events)[i] is Done,
    ensures
        all_files(state.run(events)[i]->files),
        file_paths(state.run(events)[i]->files) == blob_paths(entries),
{
    let paths = blob_paths(entries);
    if paths.len() > 0 {
        assert(file_paths(Seq::<VertexView>::empty()) + seq![paths[0]] + paths.drop_first()
            =~= paths);
    }
    if i == 0 {
        assert(file_paths(state.run(events)[0]->files) =~= paths);
    } else {
        lemma_run_later(state, events, i);
        lemma_done_hands_out_all(state.step(events[0]).0, paths, events.drop_first(), i - 1);
    }
}

/// Of a tree in which no two entries have the same path, the files that a
/// listing hands out have paths that differ from each other, and none of
/// them has the path of a directory.
pub proof fn lemma_listed_files_are_unique(
    state: FilesFetchView,
    entries: Seq<RepoTreeObjectView>,
    events: Seq<FilesEventView>,
    i: int,
)
    requires
        state.stage is Listing,
        events.len() > 0,
        events[0] == FilesEventView::TreeListed(entries),
        0 <= i < events.len(),
        state.run(events)[i] is Done,
        distinct_paths(entries),
    ensures
        all_files(state.run(events)[i]->files),
        file_paths(state.run(events)[i]->files).no_duplicates(),
        forall|j: int, k: int|
            0 <= j < file_paths(state.run(events)[i]->files).len() && 0 <= k < entries.len() && (
            #[trigger] entries[k]).type_ == ObjectType::Tree ==> entries[k].path != (
            #[trigger] file_paths(state.run(events)[i]->files)[j]),
{
    lemma_files_are_the_listed_blobs(state, entries, events, i);
    lemma_blob_paths_distinct(entries);
    let paths = blob_paths(entries);
    assert forall|j: int, k: int|
        0 <= j < paths.len() && 0 <= k < entries.len() && (#[trigger] entries[k]).type_
            == ObjectType::Tree implies entries[k].path != (#[trigger] paths[j]) by {
        lemma_blob_paths_are_blobs(entries, j);
        let b = choose|b: int|
            0 <= b < entries.len() && (#[trigger] entries[b]).type_ == ObjectType::Blob
                && entries[b].path == paths[j];
        // Two entries with one path would be one entry, of one kind.
        assert(b != k);
    }
}

#[derive(Debug)]
enum Stage {
    Listing,
    /// `rest` holds the paths still to be fetched, the next one last.
    Fetching { current: String, rest: Vec<String>, files: Vec<Vertex> },
    Finished,
}

/// The paths on a stack, the top first.
spec fn stack_view(stack: Seq<String>) -> Seq<Seq<char>> {
    Seq::new(stack.len(), |i: int| stack[stack.len() - 1 - i]@)
}

impl Stage {
    spec fn view(&self) -> StageView {
        match self {
            Stage::Listing => StageView::Listing,
            Stage::Fetching { current, rest, files } => StageView::Fetching {
                current: current@,
                rest: stack_view(rest@),
                files: vertex_views(files@),
            },
            Stage::Finished => StageView::Finished,
        }
    }
}

/// A listing of the files of one repository, at one ref, below one path.
#[derive(Debug)]
pub struct FilesFetch {
    project: String,
    ref_: Option<String>,
    path: Option<String>,
    stage: Stage,
}

impl View for FilesFetch {
    type V = FilesFetchView;

    closed spec fn view(&self) -> FilesFetchView {
        FilesFetchView {
            project: self.project@,
            ref_: opt_text(self.ref_),
            path: opt_text(self.path),
            stage: self.stage.view(),
        }
    }
}

/// The paths of the files among the entries, as a stack with the first on top.
fn pending_blobs(entries: &Vec<RepoTreeObject>) -> (stack: Vec<String>)
    ensures
        stack_view(stack@) == blob_paths(tree_views(entries@)),
{
    let ghost listed = tree_views(entries@);
    let mut stack: Vec<String> = Vec::new();
    let mut i: usize = entries.len();
    while i > 0
        invariant
            i <= entries.len(),
            listed == tree_views(entries@),
            stack_view(stack@) == blob_paths(listed.skip(i as int)),
        decreases i,
    {
        i -= 1;
        let ghost below = stack_view(stack@);
        proof {
            assert(listed.skip(i as int).drop_first() =~= listed.skip(i + 1));
        }
        if entries[i].type_ == ObjectType::Blob {
            stack.push(entries[i].path.clone());
            assert(stack_view(stack@) =~= seq![entries@[i as int].path@] + below);
        }
    }
    assert(listed.skip(0) =~= listed);
    stack
}

impl FilesFetch {
    /// Begins a listing of the files of a repository: at `ref_`, or at the
    /// default branch where it is absent; below `path`, or from the root.
    /// The tree is asked for with all that lies below its subdirectories.
    pub fn begin(project: String, ref_: Option<String>, path: Option<String>) -> (started: (
        FilesFetch,
        FilesAction,
    ))
        ensures
            started.0@ == (FilesFetchView {
                project: project@,
                ref_: opt_text(ref_),
                path: opt_text(path),
                stage: StageView::Listing,
            }),
            started.1@ == FilesActionView::ListTree(
                TreeRequestView {
                    project: project@,
                    path: opt_text(path),
                    ref_: opt_text(ref_),
                    recursive: true,
                    limit: TREE_ENTRY_LIMIT,
                },
            ),
    {
        let request = TreeRequest {
            project: project.clone(),
            path: copy_opt_text(&path),
            ref_: copy_opt_text(&ref_),
            recursive: true,
            limit: TREE_ENTRY_LIMIT,
        };
        (FilesFetch { project, ref_, path, stage: Stage::Listing }, FilesAction::ListTree(request))
    }

    /// Goes on with the files on the stack, whatever stage the listing was in.
    fn advance(
        project: String,
        ref_: Option<String>,
        path: Option<String>,
        stack: Vec<String>,
        files: Vec<Vertex>,
    ) -> (next: (FilesFetch, FilesAction))
        ensures
            (next.0@, next.1@) == (FilesFetchView {
                project: project@,
                ref_: opt_text(ref_),
                path: opt_text(path),
                stage: StageView::Listing,
            }).fetch_or_finish(stack_view(stack@), vertex_views(files@)),
    {
        let mut stack = stack;
        let ghost pending = stack_view(stack@);
        match stack.pop() {
            None => (
                FilesFetch { project, ref_, path, stage: Stage::Finished },
                FilesAction::Done { files, diagnostic: None },
            ),
            Some(current) => {
                assert(stack_view(stack@) =~= pending.drop_first());
                let request = BlobRequest {
                    project: project.clone(),
                    file_path: current.clone(),
                    ref_: copy_opt_text(&ref_),
                };
                (
                    FilesFetch {
                        project,
                        ref_,
                        path,
                        stage: Stage::Fetching { current, rest: stack, files },
                    },
                    FilesAction::FetchBlob(request),
                )
            },
        }
    }

    /// Takes the text of the file that was asked for: keeps it as a file,
    /// and asks for the next one or ends with all of them.
    pub fn accept_file(self, content: String) -> (next: (FilesFetch, FilesAction))
        ensures
            (next.0@, next.1@) == self@.accept_content(content@),
    {
        let FilesFetch { project, ref_, path, stage } = self;
        match stage {
            Stage::Fetching { current, rest, files } => {
                let mut files = files;
                let ghost fetched = vertex_views(files@);
                let ghost file = file_vertex(current@, content@);
                files.push(Vertex::RepoFile(Rc::new(RepoFile { path: current, content })));
                assert(vertex_views(files@) =~= fetched.push(file));
                Self::advance(project, ref_, path, rest, files)
            },
            stage => (FilesFetch { project, ref_, path, stage }, FilesAction::Rejected),
        }
    }

    /// Takes what a call gave, and says what is to be done next.
    pub fn step(self, event: FilesEvent) -> (next: (FilesFetch, FilesAction))
        ensures
            (next.0@, next.1@) == self@.step(event@),
    {
        let FilesFetch { project, ref_, path, stage } = self;
        match (stage, event) {
            (Stage::Listing, FilesEvent::TreeListed(entries)) => {
                let stack = pending_blobs(&entries);
                let files: Vec<Vertex> = Vec::new();
                assert(vertex_views(files@) =~= Seq::<VertexView>::empty());
                Self::advance(project, ref_, path, stack, files)
            },
            (Stage::Listing, FilesEvent::TreeFailed(e)) => {
                let files: Vec<Vertex> = Vec::new();
                assert(vertex_views(files@) =~= Seq::<VertexView>::empty());
                (
                    FilesFetch { project, ref_, path, stage: Stage::Finished },
                    FilesAction::Done { files, diagnostic: Some(e.message) },
                )
            },
            (Stage::Fetching { current, rest, files }, FilesEvent::BlobFetched(bytes)) => {
                let content = decode_lossy(bytes.as_slice());
                let fetch = FilesFetch {
                    project,
                    ref_,
                    path,
                    stage: Stage::Fetching { current, rest, files },
                };
                fetch.accept_file(content)
            },
            (Stage::Fetching { .. }, FilesEvent::BlobFailed(e)) => (
                FilesFetch { project, ref_, path, stage: Stage::Finished },
                FilesAction::Failed(e),
            ),
            (stage, _) => (FilesFetch { project, ref_, path, stage }, FilesAction::Rejected),
        }
    }
}

} // verus!
