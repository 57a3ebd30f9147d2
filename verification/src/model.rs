//! A disk to reason about: what stands at each path, and what every request
//! does to it and answers when nothing goes wrong. The engines are run
//! against it to state what they achieve.
//!
//! A directory is taken with its contents as one value. Paths are related
//! only by [`below`]: removing a directory removes what lies below it.
//! Listings are given with the disk and not derived from what stands on it.

use crate::clock::rfc3339_text;
use crate::fsio::{DirEntryView, FileMeta, FsRequestView, FsResponseView, PathKind};
use crate::paths::parent_spec;
use crate::text::seq_starts_with;
use vstd::prelude::*;

verus! {

/// The files of a directory: contents by relative path.
pub type Tree = Map<Seq<char>, Seq<u8>>;

/// What stands at a path.
pub ghost enum Node {
    /// A directory with its files.
    Directory(Tree),
    /// The archive of a directory with the given files.
    Archive(Tree),
    /// Any other file.
    Other,
}

/// The disk: what stands at each path, the listing to give of each
/// directory, and the metadata that the system gives to the files it is
/// asked about.
pub ghost struct Disk {
    pub nodes: Map<Seq<char>, Node>,
    pub listings: Map<Seq<char>, Seq<DirEntryView>>,
    pub meta: FileMeta,
}

/// Whether `path` is `dir` or lies below it.
pub open spec fn below(path: Seq<char>, dir: Seq<char>) -> bool {
    path == dir || seq_starts_with(path, dir + seq!['/'])
}

impl Disk {
    /// What stands at `path`.
    pub open spec fn kind(self, path: Seq<char>) -> PathKind {
        if !self.nodes.contains_key(path) {
            PathKind::Missing
        } else {
            match self.nodes[path] {
                Node::Directory(_) => PathKind::Directory,
                _ => PathKind::File,
            }
        }
    }

    /// The answer to `req`.
    pub open spec fn respond(self, req: FsRequestView) -> FsResponseView {
        match req {
            FsRequestView::Probe { path } => FsResponseView::Kind(self.kind(path)),
            FsRequestView::Metadata { path } => FsResponseView::Meta(self.meta),
            FsRequestView::ReadDir { path } => FsResponseView::Entries(
                if self.listings.contains_key(path) {
                    self.listings[path]
                } else {
                    Seq::empty()
                },
            ),
            _ => FsResponseView::Done,
        }
    }

    /// The disk after `req`. A directory is created only where nothing
    /// stands; an archive holds the files of its source directory, and
    /// unpacking it makes a directory of them.
    pub open spec fn apply(self, req: FsRequestView) -> Disk {
        match req {
            FsRequestView::CreateDirAll { path } => if self.nodes.contains_key(path) {
                self
            } else {
                Disk { nodes: self.nodes.insert(path, Node::Directory(Map::empty())), ..self }
            },
            FsRequestView::WriteArchive { src_dir, dst_file } => match self.nodes[src_dir] {
                Node::Directory(t) => Disk {
                    nodes: self.nodes.insert(dst_file, Node::Archive(t)),
                    ..self
                },
                _ => self,
            },
            FsRequestView::UnpackArchive { src_file, dst_dir } => match self.nodes[src_file] {
                Node::Archive(t) => Disk {
                    nodes: self.nodes.insert(dst_dir, Node::Directory(t)),
                    ..self
                },
                _ => self,
            },
            FsRequestView::RemoveDirAll { path } => Disk {
                nodes: self.nodes.remove_keys(Set::new(|p: Seq<char>| below(p, path))),
                ..self
            },
            FsRequestView::RemoveFile { path } => Disk { nodes: self.nodes.remove(path), ..self },
            FsRequestView::CopyFile { src_file, dst_file } => if self.nodes.contains_key(
                src_file,
            ) {
                Disk { nodes: self.nodes.insert(dst_file, self.nodes[src_file]), ..self }
            } else {
                self
            },
            _ => self,
        }
    }

    /// The disk with a directory at `path`, unless something stands there.
    pub open spec fn with_dir(self, path: Seq<char>) -> Disk {
        self.apply(FsRequestView::CreateDirAll { path })
    }

    /// The disk with a directory at the parent of `path`, where `path` has
    /// one and nothing stands there.
    pub open spec fn with_parent_of(self, path: Seq<char>) -> Disk {
        match parent_spec(path) {
            Some(p) => self.with_dir(p),
            None => self,
        }
    }

    /// Whether the creation time that the system gives can be written as a
    /// date.
    pub open spec fn dates(self) -> bool {
        rfc3339_text(self.meta.created.secs as int, self.meta.created.nanos as int) is Some
    }
}

} // verus!
