//! The vocabulary between the library and whoever touches the file system.
//!
//! The library never reads or writes a file. Each operation is a small state
//! machine: it hands out one [`FsRequest`] at a time, is given the
//! [`FsResponse`], and answers with the next request or with its result.

use crate::clock::Timestamp;
use vstd::prelude::*;

verus! {

/// What stands at a path.
#[derive(Debug, Clone, Copy, PartialEq, Eq, Structural)]
pub enum PathKind {
    /// Nothing.
    Missing,
    /// A regular file.
    File,
    /// A directory.
    Directory,
    /// Something else.
    Other,
}

impl DeepView for PathKind {
    type V = PathKind;

    open spec fn deep_view(&self) -> PathKind {
        *self
    }
}

/// Size and creation time of a file.
#[derive(Debug, Clone, Copy, PartialEq, Eq, Structural)]
pub struct FileMeta {
    pub size: u64,
    pub created: Timestamp,
}

impl DeepView for FileMeta {
    type V = FileMeta;

    open spec fn deep_view(&self) -> FileMeta {
        *self
    }
}

/// The metadata of a directory entry, or why it could not be read.
#[derive(Debug, Clone, PartialEq, Eq)]
pub enum EntryMeta {
    Known(FileMeta),
    Unreadable(String),
}

pub ghost enum EntryMetaView {
    Known(FileMeta),
    Unreadable(Seq<char>),
}

impl DeepView for EntryMeta {
    type V = EntryMetaView;

    open spec fn deep_view(&self) -> EntryMetaView {
        match self {
            EntryMeta::Known(m) => EntryMetaView::Known(*m),
            EntryMeta::Unreadable(e) => EntryMetaView::Unreadable(e@),
        }
    }
}

/// One entry of a directory listing. `name` is `None` where the entry's name
/// is not valid Unicode; `kind` is what the entry's path leads to, through
/// symbolic links; `symlink` says whether the entry itself is such a link.
#[derive(Debug, Clone, PartialEq, Eq)]
pub struct DirEntry {
    pub name: Option<String>,
    pub kind: PathKind,
    pub symlink: bool,
    pub meta: EntryMeta,
}

pub ghost struct DirEntryView {
    pub name: Option<Seq<char>>,
    pub kind: PathKind,
    pub symlink: bool,
    pub meta: EntryMetaView,
}

impl DeepView for DirEntry {
    type V = DirEntryView;

    open spec fn deep_view(&self) -> DirEntryView {
        DirEntryView {
            name: self.name.deep_view(),
            kind: self.kind,
            symlink: self.symlink,
            meta: self.meta.deep_view(),
        }
    }
}

/// One thing to do on the file system.
#[derive(Debug, Clone, PartialEq, Eq)]
pub enum FsRequest {
    /// Say what stands at `path`. Answered by [`FsResponse::Kind`].
    Probe { path: String },
    /// Read size and creation time of `path`. Answered by [`FsResponse::Meta`].
    Metadata { path: String },
    /// List the entries of the directory `path`. Answered by
    /// [`FsResponse::Entries`].
    ReadDir { path: String },
    /// Create the directory `path` and its missing ancestors.
    CreateDirAll { path: String },
    /// Write the tree below `src_dir` as one compressed archive `dst_file`.
    WriteArchive { src_dir: String, dst_file: String },
    /// Unpack the compressed archive `src_file` into `dst_dir`.
    UnpackArchive { src_file: String, dst_dir: String },
    /// Remove the directory `path` with all that is in it.
    RemoveDirAll { path: String },
    /// Remove the file `path`.
    RemoveFile { path: String },
    /// Copy the contents of the file `src_file` into the new file
    /// `dst_file`.
    CopyFile { src_file: String, dst_file: String },
}

pub ghost enum FsRequestView {
    Probe { path: Seq<char> },
    Metadata { path: Seq<char> },
    ReadDir { path: Seq<char> },
    CreateDirAll { path: Seq<char> },
    WriteArchive { src_dir: Seq<char>, dst_file: Seq<char> },
    UnpackArchive { src_file: Seq<char>, dst_dir: Seq<char> },
    RemoveDirAll { path: Seq<char> },
    RemoveFile { path: Seq<char> },
    CopyFile { src_file: Seq<char>, dst_file: Seq<char> },
}

impl FsRequestView {
    /// Whether carrying out the request can change what is on disk.
    pub open spec fn writes(self) -> bool {
        !(self is Probe || self is Metadata || self is ReadDir)
    }
}

impl DeepView for FsRequest {
    type V = FsRequestView;

    open spec fn deep_view(&self) -> FsRequestView {
        match self {
            FsRequest::Probe { path } => FsRequestView::Probe { path: path@ },
            FsRequest::Metadata { path } => FsRequestView::Metadata { path: path@ },
            FsRequest::ReadDir { path } => FsRequestView::ReadDir { path: path@ },
            FsRequest::CreateDirAll { path } => FsRequestView::CreateDirAll { path: path@ },
            FsRequest::WriteArchive { src_dir, dst_file } => FsRequestView::WriteArchive {
                src_dir: src_dir@,
                dst_file: dst_file@,
            },
            FsRequest::UnpackArchive { src_file, dst_dir } => FsRequestView::UnpackArchive {
                src_file: src_file@,
                dst_dir: dst_dir@,
            },
            FsRequest::RemoveDirAll { path } => FsRequestView::RemoveDirAll { path: path@ },
            FsRequest::RemoveFile { path } => FsRequestView::RemoveFile { path: path@ },
            FsRequest::CopyFile { src_file, dst_file } => FsRequestView::CopyFile {
                src_file: src_file@,
                dst_file: dst_file@,
            },
        }
    }
}

/// What came of a request.
#[derive(Debug, Clone, PartialEq, Eq)]
pub enum FsResponse {
    /// The answer to a probe.
    Kind(PathKind),
    /// The answer to a metadata request.
    Meta(FileMeta),
    /// The answer to a listing.
    Entries(Vec<DirEntry>),
    /// The request was carried out; it has nothing to report.
    Done,
    /// The request failed; the text is the system's error message.
    Failed(String),
}

pub ghost enum FsResponseView {
    Kind(PathKind),
    Meta(FileMeta),
    Entries(Seq<DirEntryView>),
    Done,
    Failed(Seq<char>),
}

impl DeepView for FsResponse {
    type V = FsResponseView;

    open spec fn deep_view(&self) -> FsResponseView {
        match self {
            FsResponse::Kind(k) => FsResponseView::Kind(*k),
            FsResponse::Meta(m) => FsResponseView::Meta(*m),
            FsResponse::Entries(es) => FsResponseView::Entries(es.deep_view()),
            FsResponse::Done => FsResponseView::Done,
            FsResponse::Failed(e) => FsResponseView::Failed(e@),
        }
    }
}

/// A result with both sides taken by their views.
pub open spec fn result_view<T: DeepView, E: DeepView>(r: Result<T, E>) -> Result<T::V, E::V> {
    match r {
        Ok(t) => Ok(t.deep_view()),
        Err(e) => Err(e.deep_view()),
    }
}

/// One move of an operation: either it asks for something to be done and
/// waits in state `S`, or it is over with a result or an error.
#[derive(Debug, Clone, PartialEq, Eq)]
pub enum Step<S, T, E> {
    Ask(S, FsRequest),
    Finished(T),
    Failed(E),
}

pub ghost enum StepView<S, T, E> {
    Ask(S, FsRequestView),
    Finished(T),
    Failed(E),
}

impl<S: DeepView, T: DeepView, E: DeepView> DeepView for Step<S, T, E> {
    type V = StepView<S::V, T::V, E::V>;

    open spec fn deep_view(&self) -> StepView<S::V, T::V, E::V> {
        match self {
            Step::Ask(s, r) => StepView::Ask(s.deep_view(), r.deep_view()),
            Step::Finished(t) => StepView::Finished(t.deep_view()),
            Step::Failed(e) => StepView::Failed(e.deep_view()),
        }
    }
}

} // verus!
