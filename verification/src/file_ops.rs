//! Operations on files and directories: the archive codec's checks, removal
//! of files and trees, and the size of a file. Each is a state machine over
//! [`FsRequest`] and [`FsResponse`].

use crate::fsio::{
    DirEntry, DirEntryView, FileMeta, FsRequest, FsRequestView, FsResponse, FsResponseView,
    PathKind, Step, StepView,
};
pub use crate::paths::normalize_path_for_display;
pub use crate::sizes::format_size;
pub use crate::trees::{copy_dir_recursive, get_dir_size};

use crate::order::{ranked, sort_ranked};
use crate::paths::{parent, parent_spec};
use crate::text::concat2;
use vstd::prelude::*;
use vstd::string::*;

verus! {

/// Why a file operation failed.
#[derive(Debug, Clone, PartialEq, Eq)]
pub enum FileOpsError {
    /// The system refused a request; the text is its message.
    Io(String),
    /// Nothing stands at the source path.
    SourceNotFound(String),
    /// Something already stands at the destination path.
    DestinationExists(String),
    /// The path does not lead to a directory.
    NotADirectory(String),
}

pub ghost enum FileOpsErrorView {
    Io(Seq<char>),
    SourceNotFound(Seq<char>),
    DestinationExists(Seq<char>),
    NotADirectory(Seq<char>),
}

impl DeepView for FileOpsError {
    type V = FileOpsErrorView;

    open spec fn deep_view(&self) -> FileOpsErrorView {
        match self {
            FileOpsError::Io(e) => FileOpsErrorView::Io(e@),
            FileOpsError::SourceNotFound(p) => FileOpsErrorView::SourceNotFound(p@),
            FileOpsError::DestinationExists(p) => FileOpsErrorView::DestinationExists(p@),
            FileOpsError::NotADirectory(p) => FileOpsErrorView::NotADirectory(p@),
        }
    }
}

impl FileOpsErrorView {
    /// The error as a sentence.
    pub open spec fn message(self) -> Seq<char> {
        match self {
            FileOpsErrorView::Io(e) => "IO error: "@ + e,
            FileOpsErrorView::SourceNotFound(p) => "Source path does not exist: "@ + p,
            FileOpsErrorView::DestinationExists(p) => "Destination already exists: "@ + p,
            FileOpsErrorView::NotADirectory(p) => "Path is not a directory: "@ + p,
        }
    }
}

/// The message of the error that an operation ends with when it is handed a
/// response that does not answer its request.
pub open spec fn out_of_turn() -> Seq<char> {
    "response does not answer the request"@
}

impl FileOpsError {
    /// The error as a sentence.
    pub fn to_string(&self) -> (s: String)
        ensures
            s@ == self.deep_view().message(),
    {
        match self {
            FileOpsError::Io(e) => concat2("IO error: ", e.as_str()),
            FileOpsError::SourceNotFound(p) => concat2("Source path does not exist: ", p.as_str()),
            FileOpsError::DestinationExists(p) => concat2(
                "Destination already exists: ",
                p.as_str(),
            ),
            FileOpsError::NotADirectory(p) => concat2("Path is not a directory: ", p.as_str()),
        }
    }

    /// The error for a response that does not answer the request.
    pub fn out_of_turn() -> (e: FileOpsError)
        ensures
            e.deep_view() == FileOpsErrorView::Io(out_of_turn()),
    {
        FileOpsError::Io(String::from_str("response does not answer the request"))
    }
}

/// Result type for file operations.
pub type FileOpsResult<T> = Result<T, FileOpsError>;

/// Where a one-path operation stands.
#[derive(Debug, Clone, Copy, PartialEq, Eq, Structural)]
pub enum PathStage {
    /// The path is being probed.
    Probing,
    /// The request proper is under way.
    Acting,
}

/// A removal under way: `delete_file` (`tree` false) or
/// `delete_dir_recursive` (`tree` true).
#[derive(Debug, Clone, PartialEq, Eq)]
pub struct RemoveJob {
    pub tree: bool,
    pub path: String,
    pub stage: PathStage,
}

pub ghost struct RemoveJobView {
    pub tree: bool,
    pub path: Seq<char>,
    pub stage: PathStage,
}

impl DeepView for RemoveJob {
    type V = RemoveJobView;

    open spec fn deep_view(&self) -> RemoveJobView {
        RemoveJobView { tree: self.tree, path: self.path@, stage: self.stage }
    }
}

impl RemoveJobView {
    /// The job at its beginning, and the probe it begins with.
    pub open spec fn begin(tree: bool, path: Seq<char>) -> (RemoveJobView, FsRequestView) {
        (RemoveJobView { tree, path, stage: PathStage::Probing }, FsRequestView::Probe { path })
    }

    /// The removal itself.
    pub open spec fn request(self) -> FsRequestView {
        if self.tree {
            FsRequestView::RemoveDirAll { path: self.path }
        } else {
            FsRequestView::RemoveFile { path: self.path }
        }
    }

    /// The next move. A missing path is an error, and a tree to remove must
    /// be a directory; then the removal is asked for and its outcome passed
    /// on.
    pub open spec fn step(self, resp: FsResponseView) -> StepView<
        RemoveJobView,
        (),
        FileOpsErrorView,
    > {
        match self.stage {
            PathStage::Probing => match resp {
                FsResponseView::Kind(PathKind::Missing) => StepView::Failed(
                    FileOpsErrorView::SourceNotFound(self.path),
                ),
                FsResponseView::Kind(kind) => if self.tree && kind != PathKind::Directory {
                    StepView::Failed(FileOpsErrorView::NotADirectory(self.path))
                } else {
                    StepView::Ask(
                        RemoveJobView { stage: PathStage::Acting, ..self },
                        self.request(),
                    )
                },
                _ => StepView::Failed(FileOpsErrorView::Io(out_of_turn())),
            },
            PathStage::Acting => match resp {
                FsResponseView::Done => StepView::Finished(()),
                FsResponseView::Failed(e) => StepView::Failed(FileOpsErrorView::Io(e)),
                _ => StepView::Failed(FileOpsErrorView::Io(out_of_turn())),
            },
        }
    }
}

impl RemoveJob {
    fn begin(tree: bool, path: &str) -> (r: (RemoveJob, FsRequest))
        ensures
            r.deep_view() == RemoveJobView::begin(tree, path@),
    {
        (
            RemoveJob { tree, path: String::from_str(path), stage: PathStage::Probing },
            FsRequest::Probe { path: String::from_str(path) },
        )
    }

    fn request(&self) -> (r: FsRequest)
        ensures
            r.deep_view() == self.deep_view().request(),
    {
        if self.tree {
            FsRequest::RemoveDirAll { path: self.path.clone() }
        } else {
            FsRequest::RemoveFile { path: self.path.clone() }
        }
    }

    /// Takes the response to the last request and makes the next move.
    pub fn step(self, resp: FsResponse) -> (out: Step<RemoveJob, (), FileOpsError>)
        ensures
            out.deep_view() == self.deep_view().step(resp.deep_view()),
    {
        match self.stage {
            PathStage::Probing => match resp {
                FsResponse::Kind(PathKind::Missing) => Step::Failed(
                    FileOpsError::SourceNotFound(self.path),
                ),
                FsResponse::Kind(kind) => {
                    let is_dir = match kind {
                        PathKind::Directory => true,
                        _ => false,
                    };
                    if self.tree && !is_dir {
                        Step::Failed(FileOpsError::NotADirectory(self.path))
                    } else {
                        let req = self.request();
                        Step::Ask(
                            RemoveJob { tree: self.tree, path: self.path, stage: PathStage::Acting },
                            req,
                        )
                    }
                },
                _ => Step::Failed(FileOpsError::out_of_turn()),
            },
            PathStage::Acting => match resp {
                FsResponse::Done => Step::Finished(()),
                FsResponse::Failed(e) => Step::Failed(FileOpsError::Io(e)),
                _ => Step::Failed(FileOpsError::out_of_turn()),
            },
        }
    }
}

/// Begins the removal of the file `path`: fails with `SourceNotFound` where
/// nothing stands there.
pub fn delete_file(path: &str) -> (r: (RemoveJob, FsRequest))
    ensures
        r.deep_view() == RemoveJobView::begin(false, path@),
{
    RemoveJob::begin(false, path)
}

/// Begins the removal of the directory `path` with all that is in it: fails
/// with `SourceNotFound` where nothing stands there and with `NotADirectory`
/// where it is no directory.
pub fn delete_dir_recursive(path: &str) -> (r: (RemoveJob, FsRequest))
    ensures
        r.deep_view() == RemoveJobView::begin(true, path@),
{
    RemoveJob::begin(true, path)
}

/// The reading of a file's size and creation time under way.
#[derive(Debug, Clone, PartialEq, Eq)]
pub struct MetaJob {
    pub path: String,
    pub stage: PathStage,
}

pub ghost struct MetaJobView {
    pub path: Seq<char>,
    pub stage: PathStage,
}

impl DeepView for MetaJob {
    type V = MetaJobView;

    open spec fn deep_view(&self) -> MetaJobView {
        MetaJobView { path: self.path@, stage: self.stage }
    }
}

impl MetaJobView {
    /// The job at its beginning, and the probe it begins with.
    pub open spec fn begin(path: Seq<char>) -> (MetaJobView, FsRequestView) {
        (MetaJobView { path, stage: PathStage::Probing }, FsRequestView::Probe { path })
    }

    /// The next move. A missing path is an error; then the metadata are asked
    /// for and passed on.
    pub open spec fn step(self, resp: FsResponseView) -> StepView<
        MetaJobView,
        FileMeta,
        FileOpsErrorView,
    > {
        match self.stage {
            PathStage::Probing => match resp {
                FsResponseView::Kind(PathKind::Missing) => StepView::Failed(
                    FileOpsErrorView::SourceNotFound(self.path),
                ),
                FsResponseView::Kind(_) => StepView::Ask(
                    MetaJobView { stage: PathStage::Acting, ..self },
                    FsRequestView::Metadata { path: self.path },
                ),
                _ => StepView::Failed(FileOpsErrorView::Io(out_of_turn())),
            },
            PathStage::Acting => match resp {
                FsResponseView::Meta(m) => StepView::Finished(m),
                FsResponseView::Failed(e) => StepView::Failed(FileOpsErrorView::Io(e)),
                _ => StepView::Failed(FileOpsErrorView::Io(out_of_turn())),
            },
        }
    }
}

impl MetaJob {
    /// Takes the response to the last request and makes the next move.
    pub fn step(self, resp: FsResponse) -> (out: Step<MetaJob, FileMeta, FileOpsError>)
        ensures
            out.deep_view() == self.deep_view().step(resp.deep_view()),
    {
        match self.stage {
            PathStage::Probing => match resp {
                FsResponse::Kind(PathKind::Missing) => Step::Failed(
                    FileOpsError::SourceNotFound(self.path),
                ),
                FsResponse::Kind(_) => {
                    let req = FsRequest::Metadata { path: self.path.clone() };
                    Step::Ask(MetaJob { path: self.path, stage: PathStage::Acting }, req)
                },
                _ => Step::Failed(FileOpsError::out_of_turn()),
            },
            PathStage::Acting => match resp {
                FsResponse::Meta(m) => Step::Finished(m),
                FsResponse::Failed(e) => Step::Failed(FileOpsError::Io(e)),
                _ => Step::Failed(FileOpsError::out_of_turn()),
            },
        }
    }
}

/// Begins the reading of the size of the file `path` (and of its creation
/// time, which comes with it): fails with `SourceNotFound` where nothing
/// stands there.
pub fn get_file_size(path: &str) -> (r: (MetaJob, FsRequest))
    ensures
        r.deep_view() == MetaJobView::begin(path@),
{
    (
        MetaJob { path: String::from_str(path), stage: PathStage::Probing },
        FsRequest::Probe { path: String::from_str(path) },
    )
}

/// The listing of a directory that may not exist, under way.
#[derive(Debug, Clone, PartialEq, Eq)]
pub struct Listing {
    pub dir: String,
    pub stage: PathStage,
}

pub ghost struct ListingView {
    pub dir: Seq<char>,
    pub stage: PathStage,
}

impl DeepView for Listing {
    type V = ListingView;

    open spec fn deep_view(&self) -> ListingView {
        ListingView { dir: self.dir@, stage: self.stage }
    }
}

impl ListingView {
    /// The listing at its beginning, and the probe it begins with.
    pub open spec fn begin(dir: Seq<char>) -> (ListingView, FsRequestView) {
        (ListingView { dir, stage: PathStage::Probing }, FsRequestView::Probe { path: dir })
    }

    /// The next move. A missing directory has no entries; any other is read,
    /// and its entries or the failure are passed on.
    pub open spec fn step(self, resp: FsResponseView) -> StepView<
        ListingView,
        Seq<DirEntryView>,
        FileOpsErrorView,
    > {
        match self.stage {
            PathStage::Probing => match resp {
                FsResponseView::Kind(PathKind::Missing) => StepView::Finished(Seq::empty()),
                FsResponseView::Kind(_) => StepView::Ask(
                    ListingView { stage: PathStage::Acting, ..self },
                    FsRequestView::ReadDir { path: self.dir },
                ),
                _ => StepView::Failed(FileOpsErrorView::Io(out_of_turn())),
            },
            PathStage::Acting => match resp {
                FsResponseView::Entries(es) => StepView::Finished(es),
                FsResponseView::Failed(e) => StepView::Failed(FileOpsErrorView::Io(e)),
                _ => StepView::Failed(FileOpsErrorView::Io(out_of_turn())),
            },
        }
    }
}

impl Listing {
    /// Begins the listing of `dir`.
    pub fn begin(dir: &str) -> (r: (Listing, FsRequest))
        ensures
            r.deep_view() == ListingView::begin(dir@),
    {
        (
            Listing { dir: String::from_str(dir), stage: PathStage::Probing },
            FsRequest::Probe { path: String::from_str(dir) },
        )
    }

    /// Takes the response to the last request and makes the next move.
    pub fn step(self, resp: FsResponse) -> (out: Step<Listing, Vec<DirEntry>, FileOpsError>)
        ensures
            out.deep_view() == self.deep_view().step(resp.deep_view()),
    {
        match self.stage {
            PathStage::Probing => match resp {
                FsResponse::Kind(PathKind::Missing) => {
                    let none: Vec<DirEntry> = Vec::new();
                    assert(none.deep_view() =~= Seq::<DirEntryView>::empty());
                    Step::Finished(none)
                },
                FsResponse::Kind(_) => {
                    let req = FsRequest::ReadDir { path: self.dir.clone() };
                    Step::Ask(Listing { dir: self.dir, stage: PathStage::Acting }, req)
                },
                _ => Step::Failed(FileOpsError::out_of_turn()),
            },
            PathStage::Acting => match resp {
                FsResponse::Entries(es) => Step::Finished(es),
                FsResponse::Failed(e) => Step::Failed(FileOpsError::Io(e)),
                _ => Step::Failed(FileOpsError::out_of_turn()),
            },
        }
    }
}

/// The names of the directories among `entries`, in the order of the
/// listing; entries without a readable name are passed over.
pub open spec fn directory_names(entries: Seq<DirEntryView>) -> Seq<Seq<char>>
    decreases entries.len(),
{
    if entries.len() == 0 {
        Seq::empty()
    } else if entries.last().kind == PathKind::Directory && entries.last().name is Some {
        directory_names(entries.drop_last()).push(entries.last().name->0)
    } else {
        directory_names(entries.drop_last())
    }
}

/// Picks the names of the directories out of a listing.
pub fn pick_directory_names(entries: &Vec<DirEntry>) -> (names: Vec<String>)
    ensures
        names.deep_view() == directory_names(entries.deep_view()),
{
    let ghost all = entries.deep_view();
    let mut names: Vec<String> = Vec::new();
    let mut i: usize = 0;
    assert(all.take(0) =~= Seq::<DirEntryView>::empty());
    assert(names.deep_view() =~= Seq::<Seq<char>>::empty());
    while i < entries.len()
        invariant
            i <= entries.len(),
            all == entries.deep_view(),
            names.deep_view() == directory_names(all.take(i as int)),
        decreases entries.len() - i,
    {
        let ghost sofar = names.deep_view();
        proof {
            assert(all.take(i + 1).drop_last() == all.take(i as int));
            assert(all.take(i + 1).last() == entries@[i as int].deep_view());
        }
        let e = &entries[i];
        let is_dir = match e.kind {
            PathKind::Directory => true,
            _ => false,
        };
        if is_dir {
            match &e.name {
                Some(name) => {
                    names.push(name.clone());
                    assert(names.deep_view() =~= sofar.push(name@));
                },
                None => {},
            }
        }
        i = i + 1;
    }
    assert(all.take(entries.len() as int) == all);
    names
}

/// The listing of the directories below a directory that may not exist,
/// under way. It ends with their names in dictionary order.
#[derive(Debug, Clone, PartialEq, Eq)]
pub struct DirectoryNames {
    pub listing: Listing,
}

pub ghost struct DirectoryNamesView {
    pub listing: ListingView,
}

impl DeepView for DirectoryNames {
    type V = DirectoryNamesView;

    open spec fn deep_view(&self) -> DirectoryNamesView {
        DirectoryNamesView { listing: self.listing.deep_view() }
    }
}

impl DirectoryNamesView {
    /// The listing at its beginning, and the probe it begins with.
    pub open spec fn begin(dir: Seq<char>) -> (DirectoryNamesView, FsRequestView) {
        (DirectoryNamesView { listing: ListingView::begin(dir).0 }, ListingView::begin(dir).1)
    }

    /// The next move.
    pub open spec fn step(self, resp: FsResponseView) -> StepView<
        DirectoryNamesView,
        Seq<Seq<char>>,
        FileOpsErrorView,
    > {
        match self.listing.step(resp) {
            StepView::Ask(l, req) => StepView::Ask(DirectoryNamesView { listing: l }, req),
            StepView::Finished(entries) => StepView::Finished(
                ranked::<String>(directory_names(entries)),
            ),
            StepView::Failed(e) => StepView::Failed(e),
        }
    }
}

impl DirectoryNames {
    /// Begins the listing of the directories below `dir`.
    pub fn begin(dir: &str) -> (r: (DirectoryNames, FsRequest))
        ensures
            r.deep_view() == DirectoryNamesView::begin(dir@),
    {
        let (listing, req) = Listing::begin(dir);
        (DirectoryNames { listing }, req)
    }

    /// Takes the response to the last request and makes the next move.
    pub fn step(self, resp: FsResponse) -> (out: Step<DirectoryNames, Vec<String>, FileOpsError>)
        ensures
            out.deep_view() == self.deep_view().step(resp.deep_view()),
    {
        match self.listing.step(resp) {
            Step::Ask(l, req) => Step::Ask(DirectoryNames { listing: l }, req),
            Step::Finished(entries) => {
                let names = pick_directory_names(&entries);
                Step::Finished(sort_ranked(names))
            },
            Step::Failed(e) => Step::Failed(e),
        }
    }
}

/// Where the making or unpacking of an archive stands.
#[derive(Debug, Clone, Copy, PartialEq, Eq, Structural)]
pub enum CodecStage {
    ProbeSource,
    ProbeTarget,
    ProbeParent,
    MakeParent,
    Transfer,
    /// A failed write is being cleaned up.
    Discard,
}

/// The archive codec under way: `create_tar_gz` (`unpack` false) or
/// `extract_tar_gz` (`unpack` true) from `src` to `dst`. `failure` holds the
/// message of a failed write while its leftover is removed.
#[derive(Debug, Clone, PartialEq, Eq)]
pub struct CodecJob {
    pub unpack: bool,
    pub src: String,
    pub dst: String,
    pub stage: CodecStage,
    pub failure: String,
}

pub ghost struct CodecJobView {
    pub unpack: bool,
    pub src: Seq<char>,
    pub dst: Seq<char>,
    pub stage: CodecStage,
    pub failure: Seq<char>,
}

impl DeepView for CodecJob {
    type V = CodecJobView;

    open spec fn deep_view(&self) -> CodecJobView {
        CodecJobView {
            unpack: self.unpack,
            src: self.src@,
            dst: self.dst@,
            stage: self.stage,
            failure: self.failure@,
        }
    }
}

impl CodecJobView {
    /// The job at its beginning, and the probe it begins with.
    pub open spec fn begin(unpack: bool, src: Seq<char>, dst: Seq<char>) -> (
        CodecJobView,
        FsRequestView,
    ) {
        (
            CodecJobView { unpack, src, dst, stage: CodecStage::ProbeSource, failure: Seq::empty() },
            FsRequestView::Probe { path: src },
        )
    }

    /// The request that writes the archive or unpacks it.
    pub open spec fn transfer(self) -> FsRequestView {
        if self.unpack {
            FsRequestView::UnpackArchive { src_file: self.src, dst_dir: self.dst }
        } else {
            FsRequestView::WriteArchive { src_dir: self.src, dst_file: self.dst }
        }
    }

    /// The job waiting in `stage`.
    pub open spec fn at(self, stage: CodecStage) -> CodecJobView {
        CodecJobView { stage, ..self }
    }

    /// The next move. The source must exist and the destination must not; the
    /// destination's parent is created where it is missing; then the transfer
    /// is made. A failed write of an archive is followed by the removal of
    /// what it may have left, so that afterwards the archive is there entire
    /// or not at all; a failed unpacking is reported as it is.
    pub open spec fn step(self, resp: FsResponseView) -> StepView<
        CodecJobView,
        (),
        FileOpsErrorView,
    > {
        match self.stage {
            CodecStage::ProbeSource => match resp {
                FsResponseView::Kind(PathKind::Missing) => StepView::Failed(
                    FileOpsErrorView::SourceNotFound(self.src),
                ),
                FsResponseView::Kind(_) => StepView::Ask(
                    self.at(CodecStage::ProbeTarget),
                    FsRequestView::Probe { path: self.dst },
                ),
                _ => StepView::Failed(FileOpsErrorView::Io(out_of_turn())),
            },
            CodecStage::ProbeTarget => match resp {
                FsResponseView::Kind(PathKind::Missing) => match parent_spec(self.dst) {
                    Some(p) => StepView::Ask(
                        self.at(CodecStage::ProbeParent),
                        FsRequestView::Probe { path: p },
                    ),
                    None => StepView::Ask(self.at(CodecStage::Transfer), self.transfer()),
                },
                FsResponseView::Kind(_) => StepView::Failed(
                    FileOpsErrorView::DestinationExists(self.dst),
                ),
                _ => StepView::Failed(FileOpsErrorView::Io(out_of_turn())),
            },
            CodecStage::ProbeParent => match resp {
                FsResponseView::Kind(PathKind::Missing) => match parent_spec(self.dst) {
                    Some(p) => StepView::Ask(
                        self.at(CodecStage::MakeParent),
                        FsRequestView::CreateDirAll { path: p },
                    ),
                    None => StepView::Ask(self.at(CodecStage::Transfer), self.transfer()),
                },
                FsResponseView::Kind(_) => StepView::Ask(
                    self.at(CodecStage::Transfer),
                    self.transfer(),
                ),
                _ => StepView::Failed(FileOpsErrorView::Io(out_of_turn())),
            },
            CodecStage::MakeParent => match resp {
                FsResponseView::Done => StepView::Ask(
                    self.at(CodecStage::Transfer),
                    self.transfer(),
                ),
                FsResponseView::Failed(e) => StepView::Failed(FileOpsErrorView::Io(e)),
                _ => StepView::Failed(FileOpsErrorView::Io(out_of_turn())),
            },
            CodecStage::Transfer => match resp {
                FsResponseView::Done => StepView::Finished(()),
                FsResponseView::Failed(e) => if self.unpack {
                    StepView::Failed(FileOpsErrorView::Io(e))
                } else {
                    StepView::Ask(
                        CodecJobView { stage: CodecStage::Discard, failure: e, ..self },
                        FsRequestView::RemoveFile { path: self.dst },
                    )
                },
                _ => StepView::Failed(FileOpsErrorView::Io(out_of_turn())),
            },
            CodecStage::Discard => StepView::Failed(FileOpsErrorView::Io(self.failure)),
        }
    }
}

impl CodecJob {
    fn begin(unpack: bool, src: &str, dst: &str) -> (r: (CodecJob, FsRequest))
        ensures
            r.deep_view() == CodecJobView::begin(unpack, src@, dst@),
    {
        (
            CodecJob {
                unpack,
                src: String::from_str(src),
                dst: String::from_str(dst),
                stage: CodecStage::ProbeSource,
                failure: String::new(),
            },
            FsRequest::Probe { path: String::from_str(src) },
        )
    }

    fn transfer(&self) -> (r: FsRequest)
        ensures
            r.deep_view() == self.deep_view().transfer(),
    {
        if self.unpack {
            FsRequest::UnpackArchive { src_file: self.src.clone(), dst_dir: self.dst.clone() }
        } else {
            FsRequest::WriteArchive { src_dir: self.src.clone(), dst_file: self.dst.clone() }
        }
    }

    fn at(self, stage: CodecStage) -> (r: CodecJob)
        ensures
            r.deep_view() == self.deep_view().at(stage),
    {
        CodecJob { unpack: self.unpack, src: self.src, dst: self.dst, stage, failure: self.failure }
    }

    fn ask_transfer(self) -> (out: Step<CodecJob, (), FileOpsError>)
        ensures
            out.deep_view() == StepView::<CodecJobView, (), FileOpsErrorView>::Ask(
                self.deep_view().at(CodecStage::Transfer),
                self.deep_view().transfer(),
            ),
    {
        let req = self.transfer();
        Step::Ask(self.at(CodecStage::Transfer), req)
    }

    /// Takes the response to the last request and makes the next move.
    pub fn step(self, resp: FsResponse) -> (out: Step<CodecJob, (), FileOpsError>)
        ensures
            out.deep_view() == self.deep_view().step(resp.deep_view()),
    {
        match self.stage {
            CodecStage::ProbeSource => match resp {
                FsResponse::Kind(PathKind::Missing) => Step::Failed(
                    FileOpsError::SourceNotFound(self.src),
                ),
                FsResponse::Kind(_) => {
                    let req = FsRequest::Probe { path: self.dst.clone() };
                    Step::Ask(self.at(CodecStage::ProbeTarget), req)
                },
                _ => Step::Failed(FileOpsError::out_of_turn()),
            },
            CodecStage::ProbeTarget => match resp {
                FsResponse::Kind(PathKind::Missing) => match parent(self.dst.as_str()) {
                    Some(p) => Step::Ask(
                        self.at(CodecStage::ProbeParent),
                        FsRequest::Probe { path: p },
                    ),
                    None => self.ask_transfer(),
                },
                FsResponse::Kind(_) => Step::Failed(FileOpsError::DestinationExists(self.dst)),
                _ => Step::Failed(FileOpsError::out_of_turn()),
            },
            CodecStage::ProbeParent => match resp {
                FsResponse::Kind(PathKind::Missing) => match parent(self.dst.as_str()) {
                    Some(p) => Step::Ask(
                        self.at(CodecStage::MakeParent),
                        FsRequest::CreateDirAll { path: p },
                    ),
                    None => self.ask_transfer(),
                },
                FsResponse::Kind(_) => self.ask_transfer(),
                _ => Step::Failed(FileOpsError::out_of_turn()),
            },
            CodecStage::MakeParent => match resp {
                FsResponse::Done => self.ask_transfer(),
                FsResponse::Failed(e) => Step::Failed(FileOpsError::Io(e)),
                _ => Step::Failed(FileOpsError::out_of_turn()),
            },
            CodecStage::Transfer => match resp {
                FsResponse::Done => Step::Finished(()),
                FsResponse::Failed(e) => if self.unpack {
                    Step::Failed(FileOpsError::Io(e))
                } else {
                    let req = FsRequest::RemoveFile { path: self.dst.clone() };
                    Step::Ask(
                        CodecJob {
                            unpack: self.unpack,
                            src: self.src,
                            dst: self.dst,
                            stage: CodecStage::Discard,
                            failure: e,
                        },
                        req,
                    )
                },
                _ => Step::Failed(FileOpsError::out_of_turn()),
            },
            CodecStage::Discard => Step::Failed(FileOpsError::Io(self.failure)),
        }
    }
}

/// Begins the writing of the tree below `src_dir` as the compressed archive
/// `dst_file`: fails with `SourceNotFound` where `src_dir` is missing and with
/// `DestinationExists` where something stands at `dst_file`.
pub fn create_tar_gz(src_dir: &str, dst_file: &str) -> (r: (CodecJob, FsRequest))
    ensures
        r.deep_view() == CodecJobView::begin(false, src_dir@, dst_file@),
{
    CodecJob::begin(false, src_dir, dst_file)
}

/// Begins the unpacking of the compressed archive `src_file` into `dst_dir`:
/// fails with `SourceNotFound` where `src_file` is missing and with
/// `DestinationExists` where something stands at `dst_dir`.
pub fn extract_tar_gz(src_file: &str, dst_dir: &str) -> (r: (CodecJob, FsRequest))
    ensures
        r.deep_view() == CodecJobView::begin(true, src_file@, dst_dir@),
{
    CodecJob::begin(true, src_file, dst_dir)
}

} // verus!
