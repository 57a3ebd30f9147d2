//! The backup engine: naming and placing of archives, the retention policy,
//! and the queries on the archives of a save.

use crate::clock::{
    now, rfc3339_of, rfc3339_text, stamp_at, stamp_like, stamp_of, Timestamp,
};
use crate::config::{ConfigError, ConfigErrorView};
use crate::file_ops::{
    create_tar_gz, delete_file, get_file_size, out_of_turn, CodecJob, CodecJobView,
    DirectoryNames, DirectoryNamesView, FileOpsError, FileOpsErrorView, Listing, ListingView,
    MetaJob, MetaJobView, RemoveJob, RemoveJobView,
};
use crate::fsio::{
    result_view, DirEntry, DirEntryView, EntryMeta, EntryMetaView, FsRequest, FsRequestView,
    FsResponse, FsResponseView, PathKind, Step, StepView,
};
use crate::order::{
    lemma_ranked_in_order, lemma_ranked_multiset, orderly, ranked, sort_ranked, Ranked,
};
use crate::paths::{display_text, join, join_spec, normalize_path_for_display};
use crate::sizes::{format_size, size_text};
use crate::text::{concat2, concat3, ends_with, seq_ends_with, seq_starts_with, starts_with};
use vstd::prelude::*;
use vstd::string::*;

verus! {

/// What is known of one archive.
#[derive(Debug, Clone, PartialEq, Eq)]
pub struct BackupInfo {
    /// Name of the archive file.
    pub name: String,
    /// Path of the archive, as it is shown.
    pub path: String,
    /// Size in bytes.
    pub size_bytes: u64,
    /// The size as it is shown.
    pub size_formatted: String,
    /// When the archive was created, in RFC 3339 form.
    pub created_at: String,
    /// Name of the save this archive belongs to.
    pub save_name: String,
}

pub ghost struct BackupInfoView {
    pub name: Seq<char>,
    pub path: Seq<char>,
    pub size_bytes: u64,
    pub size_formatted: Seq<char>,
    pub created_at: Seq<char>,
    pub save_name: Seq<char>,
}

impl DeepView for BackupInfo {
    type V = BackupInfoView;

    open spec fn deep_view(&self) -> BackupInfoView {
        BackupInfoView {
            name: self.name@,
            path: self.path@,
            size_bytes: self.size_bytes,
            size_formatted: self.size_formatted@,
            created_at: self.created_at@,
            save_name: self.save_name@,
        }
    }
}

/// Result of a backup creation operation.
#[derive(Debug, Clone, PartialEq, Eq)]
pub struct BackupResult {
    /// Path of the created archive, as it is shown.
    pub backup_path: String,
    /// Name of the created archive.
    pub backup_name: String,
    /// Number of archives retained by the retention policy.
    pub retained_count: usize,
    /// Number of archives the retention policy set out to delete.
    pub deleted_count: usize,
}

pub ghost struct BackupResultView {
    pub backup_path: Seq<char>,
    pub backup_name: Seq<char>,
    pub retained_count: usize,
    pub deleted_count: usize,
}

impl DeepView for BackupResult {
    type V = BackupResultView;

    open spec fn deep_view(&self) -> BackupResultView {
        BackupResultView {
            backup_path: self.backup_path@,
            backup_name: self.backup_name@,
            retained_count: self.retained_count,
            deleted_count: self.deleted_count,
        }
    }
}

/// Error type for backup operations.
#[derive(Debug, Clone, PartialEq, Eq)]
pub enum BackupError {
    /// File operation error.
    FileOp(FileOpsError),
    /// Config error.
    Config(ConfigError),
    /// Save directory not found.
    SaveNotFound(String),
    /// Invalid backup name format.
    InvalidBackupName(String),
    /// Backup not found.
    BackupNotFound(String),
}

pub ghost enum BackupErrorView {
    FileOp(FileOpsErrorView),
    Config(ConfigErrorView),
    SaveNotFound(Seq<char>),
    InvalidBackupName(Seq<char>),
    BackupNotFound(Seq<char>),
}

impl DeepView for BackupError {
    type V = BackupErrorView;

    open spec fn deep_view(&self) -> BackupErrorView {
        match self {
            BackupError::FileOp(e) => BackupErrorView::FileOp(e.deep_view()),
            BackupError::Config(e) => BackupErrorView::Config(e.deep_view()),
            BackupError::SaveNotFound(n) => BackupErrorView::SaveNotFound(n@),
            BackupError::InvalidBackupName(n) => BackupErrorView::InvalidBackupName(n@),
            BackupError::BackupNotFound(n) => BackupErrorView::BackupNotFound(n@),
        }
    }
}

impl BackupErrorView {
    /// The error as a sentence.
    pub open spec fn message(self) -> Seq<char> {
        match self {
            BackupErrorView::FileOp(e) => "File operation error: "@ + e.message(),
            BackupErrorView::Config(e) => "Config error: "@ + e.message(),
            BackupErrorView::SaveNotFound(n) => "Save directory not found: "@ + n,
            BackupErrorView::InvalidBackupName(n) => "Invalid backup name format: "@ + n,
            BackupErrorView::BackupNotFound(n) => "Backup not found: "@ + n,
        }
    }

    /// The error for a response that does not answer the request.
    pub open spec fn out_of_turn() -> BackupErrorView {
        BackupErrorView::FileOp(FileOpsErrorView::Io(out_of_turn()))
    }
}

impl BackupError {
    /// The error as a sentence.
    pub fn to_string(&self) -> (s: String)
        ensures
            s@ == self.deep_view().message(),
    {
        match self {
            BackupError::FileOp(e) => {
                let inner = e.to_string();
                concat2("File operation error: ", inner.as_str())
            },
            BackupError::Config(e) => {
                let inner = e.to_string();
                concat2("Config error: ", inner.as_str())
            },
            BackupError::SaveNotFound(n) => concat2("Save directory not found: ", n.as_str()),
            BackupError::InvalidBackupName(n) => concat2(
                "Invalid backup name format: ",
                n.as_str(),
            ),
            BackupError::BackupNotFound(n) => concat2("Backup not found: ", n.as_str()),
        }
    }

    fn out_of_turn() -> (e: BackupError)
        ensures
            e.deep_view() == BackupErrorView::out_of_turn(),
    {
        BackupError::FileOp(FileOpsError::out_of_turn())
    }
}

/// Result type for backup operations.
pub type BackupResultT<T> = Result<T, BackupError>;

/// The name of the archive made at the time written as `stamp`.
pub open spec fn backup_name_of(stamp: Seq<char>) -> Seq<char> {
    stamp + ".tar.gz"@
}

/// The name of the archive made at the time written as `stamp`.
pub fn backup_name_from_stamp(stamp: &str) -> (name: String)
    ensures
        name@ == backup_name_of(stamp@),
{
    concat2(stamp, ".tar.gz")
}

/// The name of the archive made at the instant `t`; `None` where the instant
/// has no date.
pub open spec fn backup_name_at(t: Timestamp) -> Option<Seq<char>> {
    match stamp_at(t) {
        Some(stamp) => Some(backup_name_of(stamp)),
        None => None,
    }
}

/// What holds of the name of every archive: it is a stamp with the archive
/// extension, so it has a date and a time and no path separator.
pub open spec fn archive_name_like(name: Seq<char>) -> bool {
    exists|stamp: Seq<char>| stamp_like(stamp) && name == #[trigger] backup_name_of(stamp)
}

/// The name of the archive made at the instant `t`: its UTC date and time to
/// the second, and the archive extension.
pub fn backup_name_for(t: Timestamp) -> (name: Option<String>)
    ensures
        name.deep_view() == backup_name_at(t),
        match name {
            Some(n) => archive_name_like(n@),
            None => true,
        },
{
    match stamp_of(t) {
        Some(stamp) => {
            let name = backup_name_from_stamp(stamp.as_str());
            assert(stamp_like(stamp@) && name@ == backup_name_of(stamp@));
            Some(name)
        },
        None => None,
    }
}

/// Generates the name of an archive made now: the UTC date and time of a
/// reading of the clock, to the second, and the archive extension. `None`
/// where the clock shows an instant that has no date. The save's name is no
/// part of it.
pub fn generate_backup_name(_save_name: &str) -> (name: Option<String>)
    ensures
        exists|t: Timestamp| name.deep_view() == #[trigger] backup_name_at(t),
        match name {
            Some(n) => archive_name_like(n@),
            None => true,
        },
{
    let t = now();
    let name = backup_name_for(t);
    assert(name.deep_view() == backup_name_at(t));
    name
}

/// A name of an archive has at least 26 characters, none of them a path
/// separator, and so lies directly in the directory it is joined to.
pub proof fn lemma_archive_name(dir: Seq<char>, name: Seq<char>)
    requires
        archive_name_like(name),
    ensures
        name.len() >= 26,
        forall|i: int| 0 <= i < name.len() ==> name[i] != '/',
        !seq_starts_with(name, seq!['/']),
        join_spec(dir, name) != dir,
{
    reveal_strlit(".tar.gz");
    let stamp = choose|stamp: Seq<char>| stamp_like(stamp) && name == #[trigger] backup_name_of(
        stamp,
    );
    assert(name.len() == stamp.len() + 7);
    assert forall|i: int| 0 <= i < name.len() implies name[i] != '/' by {
        if i < stamp.len() {
            assert(name[i] == stamp[i]);
        } else {
            assert(name[i] == ".tar.gz"@[i - stamp.len()]);
        }
    }
    if seq_starts_with(name, seq!['/']) {
        assert(name.subrange(0, 1)[0] == name[0]);
    }
    assert(join_spec(dir, name).len() > dir.len());
}

/// Gets the backup directory for a specific save: the save's relative path
/// below the backup root.
pub fn get_save_backup_dir(backup_base_path: &str, save_name: &str) -> (r: String)
    ensures
        r@ == join_spec(backup_base_path@, save_name@),
{
    join(backup_base_path, save_name)
}

/// An archive file found in a listing.
#[derive(Debug, Clone, PartialEq, Eq)]
pub struct BackupFile {
    pub name: String,
    pub size_bytes: u64,
    pub created: Timestamp,
}

pub ghost struct BackupFileView {
    pub name: Seq<char>,
    pub size_bytes: u64,
    pub created: Timestamp,
}

impl DeepView for BackupFile {
    type V = BackupFileView;

    open spec fn deep_view(&self) -> BackupFileView {
        BackupFileView { name: self.name@, size_bytes: self.size_bytes, created: self.created }
    }
}

/// Archive files are ranked newest first.
impl Ranked for BackupFile {
    open spec fn ahead(a: BackupFileView, b: BackupFileView) -> bool {
        !b.created.at_or_after(a.created)
    }

    fn is_ahead(&self, other: &Self) -> (r: bool) {
        !other.created.is_at_or_after(&self.created)
    }
}

/// Whether a directory entry is an archive file whose name begins with
/// `prefix`: a regular file with a readable name that ends in `.tar.gz`.
pub open spec fn is_archive(e: DirEntryView, prefix: Seq<char>) -> bool {
    &&& e.kind == PathKind::File
    &&& e.name is Some
    &&& seq_starts_with(e.name->0, prefix)
    &&& seq_ends_with(e.name->0, ".tar.gz"@)
}

/// `files` in front of the files of `rest`, an error staying what it is.
pub open spec fn after<A>(files: Seq<A>, rest: Result<Seq<A>, Seq<char>>) -> Result<
    Seq<A>,
    Seq<char>,
> {
    match rest {
        Ok(more) => Ok(files + more),
        Err(e) => Err(e),
    }
}

/// The archive files among `entries` whose names begin with `prefix`, in the
/// order of the listing; the message of the first of them whose metadata
/// could not be read, where there is one.
pub open spec fn archive_files(entries: Seq<DirEntryView>, prefix: Seq<char>) -> Result<
    Seq<BackupFileView>,
    Seq<char>,
>
    decreases entries.len(),
{
    if entries.len() == 0 {
        Ok(Seq::empty())
    } else if is_archive(entries[0], prefix) {
        match entries[0].meta {
            EntryMetaView::Unreadable(e) => Err(e),
            EntryMetaView::Known(m) => after(
                seq![
                    BackupFileView {
                        name: entries[0].name->0,
                        size_bytes: m.size,
                        created: m.created,
                    },
                ],
                archive_files(entries.drop_first(), prefix),
            ),
        }
    } else {
        archive_files(entries.drop_first(), prefix)
    }
}

/// Picks the archive files whose names begin with `prefix` out of a listing.
pub fn list_archive_files(entries: &Vec<DirEntry>, prefix: &str) -> (r: Result<
    Vec<BackupFile>,
    String,
>)
    ensures
        result_view(r) == archive_files(entries.deep_view(), prefix@),
{
    let ghost all = entries.deep_view();
    let mut files: Vec<BackupFile> = Vec::new();
    let mut i: usize = 0;
    assert(all.skip(0) == all);
    assert(files.deep_view() =~= Seq::<BackupFileView>::empty());
    assert(after(files.deep_view(), archive_files(all, prefix@)) == archive_files(all, prefix@))
        by {
        match archive_files(all, prefix@) {
            Ok(more) => {
                assert(files.deep_view() + more =~= more);
            },
            Err(_) => {},
        }
    }
    while i < entries.len()
        invariant
            i <= entries.len(),
            all == entries.deep_view(),
            archive_files(all, prefix@) == after(
                files.deep_view(),
                archive_files(all.skip(i as int), prefix@),
            ),
        decreases entries.len() - i,
    {
        let ghost rest = all.skip(i as int);
        let ghost sofar = files.deep_view();
        assert(rest[0] == entries@[i as int].deep_view());
        assert(rest.drop_first() == all.skip(i + 1));
        let e = &entries[i];
        let is_file = match e.kind {
            PathKind::File => true,
            _ => false,
        };
        let mut picked = false;
        if is_file {
            match &e.name {
                Some(name) => {
                    if starts_with(name.as_str(), prefix) && ends_with(name.as_str(), ".tar.gz") {
                        picked = true;
                        match &e.meta {
                            EntryMeta::Unreadable(msg) => {
                                return Err(msg.clone());
                            },
                            EntryMeta::Known(m) => {
                                files.push(
                                    BackupFile {
                                        name: name.clone(),
                                        size_bytes: m.size,
                                        created: m.created,
                                    },
                                );
                            },
                        }
                    }
                },
                None => {},
            }
        }
        proof {
            assert(picked == is_archive(rest[0], prefix@));
            if picked {
                let f = files@[files.len() - 1].deep_view();
                assert(files.deep_view() =~= sofar + seq![f]);
                match archive_files(all.skip(i + 1), prefix@) {
                    Ok(more) => {
                        assert(sofar + (seq![f] + more) =~= files.deep_view() + more);
                    },
                    Err(_) => {},
                }
            }
        }
        i = i + 1;
    }
    assert(files.deep_view() + Seq::<BackupFileView>::empty() =~= files.deep_view());
    Ok(files)
}

/// The message for a creation time that cannot be written as a date.
pub open spec fn time_out_of_range() -> Seq<char> {
    "creation time is out of range"@
}

/// What is reported of the archive `f` of the save `save_name` in the
/// directory `dir`; `None` where its creation time cannot be written.
pub open spec fn backup_info_of(f: BackupFileView, dir: Seq<char>, save_name: Seq<char>) -> Option<
    BackupInfoView,
> {
    match rfc3339_text(f.created.secs as int, f.created.nanos as int) {
        Some(t) => Some(
            BackupInfoView {
                name: f.name,
                path: display_text(join_spec(dir, f.name)),
                size_bytes: f.size_bytes,
                size_formatted: size_text(f.size_bytes as nat),
                created_at: t,
                save_name,
            },
        ),
        None => None,
    }
}

/// What is reported of each of `files`, in their order; `None` where the
/// creation time of one cannot be written.
pub open spec fn backup_infos(files: Seq<BackupFileView>, dir: Seq<char>, save_name: Seq<char>)
    -> Option<Seq<BackupInfoView>>
    decreases files.len(),
{
    if files.len() == 0 {
        Some(Seq::empty())
    } else {
        match backup_infos(files.drop_last(), dir, save_name) {
            Some(infos) => match backup_info_of(files.last(), dir, save_name) {
                Some(info) => Some(infos.push(info)),
                None => None,
            },
            None => None,
        }
    }
}

/// What is reported of one archive file.
pub fn describe_backup(f: &BackupFile, dir: &str, save_name: &str) -> (r: Option<BackupInfo>)
    ensures
        r.deep_view() == backup_info_of(f.deep_view(), dir@, save_name@),
{
    match rfc3339_of(f.created) {
        Some(created_at) => {
            let path = join(dir, f.name.as_str());
            Some(
                BackupInfo {
                    name: f.name.clone(),
                    path: normalize_path_for_display(path.as_str()),
                    size_bytes: f.size_bytes,
                    size_formatted: format_size(f.size_bytes),
                    created_at,
                    save_name: String::from_str(save_name),
                },
            )
        },
        None => None,
    }
}

/// What is reported of each of `files`.
pub fn describe_backups(files: &Vec<BackupFile>, dir: &str, save_name: &str) -> (r: Option<
    Vec<BackupInfo>,
>)
    ensures
        r.deep_view() == backup_infos(files.deep_view(), dir@, save_name@),
{
    let ghost all = files.deep_view();
    let mut infos: Vec<BackupInfo> = Vec::new();
    let mut i: usize = 0;
    assert(all.take(0) =~= Seq::<BackupFileView>::empty());
    assert(infos.deep_view() =~= Seq::<BackupInfoView>::empty());
    while i < files.len()
        invariant
            i <= files.len(),
            all == files.deep_view(),
            backup_infos(all.take(i as int), dir@, save_name@) == Some(infos.deep_view()),
        decreases files.len() - i,
    {
        let ghost sofar = infos.deep_view();
        proof {
            assert(all.take(i + 1).drop_last() == all.take(i as int));
            assert(all.take(i + 1).last() == files@[i as int].deep_view());
        }
        match describe_backup(&files[i], dir, save_name) {
            Some(info) => {
                infos.push(info);
                assert(infos.deep_view() =~= sofar.push(info.deep_view()));
            },
            None => {
                proof {
                    lemma_backup_infos_none(all, i + 1, dir@, save_name@);
                }
                return None;
            },
        }
        i = i + 1;
    }
    assert(all.take(files.len() as int) == all);
    Some(infos)
}

/// Where the first `k` files cannot all be described, neither can all.
pub proof fn lemma_backup_infos_none(
    files: Seq<BackupFileView>,
    k: int,
    dir: Seq<char>,
    save_name: Seq<char>,
)
    requires
        0 <= k <= files.len(),
        backup_infos(files.take(k), dir, save_name) is None,
    ensures
        backup_infos(files, dir, save_name) is None,
    decreases files.len() - k,
{
    if k < files.len() {
        assert(files.take(k + 1).drop_last() == files.take(k));
        lemma_backup_infos_none(files, k + 1, dir, save_name);
    } else {
        assert(files.take(k) == files);
    }
}

/// How many of `total` archives the policy keeps.
pub open spec fn kept_count(total: nat, retention_count: usize) -> nat {
    if total > retention_count {
        retention_count as nat
    } else {
        total
    }
}

/// The names of `files[from..]`.
pub open spec fn names_from(files: Seq<BackupFileView>, from: int) -> Seq<Seq<char>> {
    Seq::new((files.len() - from) as nat, |k: int| files[from + k].name)
}

/// The retention policy under way for one backup directory: first the
/// listing, then the removal of the archives that are not kept, one file at a
/// time. `doomed` holds their names, `next` the index of the one being
/// removed, `retained` the number kept.
#[derive(Debug, Clone, PartialEq, Eq)]
pub enum GarbageCollection {
    Listing { dir: String, retention_count: usize, listing: Listing },
    Deleting { dir: String, doomed: Vec<String>, next: usize, removal: RemoveJob, retained: usize },
}

pub ghost enum GarbageCollectionView {
    Listing { dir: Seq<char>, retention_count: usize, listing: ListingView },
    Deleting {
        dir: Seq<char>,
        doomed: Seq<Seq<char>>,
        next: usize,
        removal: RemoveJobView,
        retained: usize,
    },
}

impl DeepView for GarbageCollection {
    type V = GarbageCollectionView;

    open spec fn deep_view(&self) -> GarbageCollectionView {
        match self {
            GarbageCollection::Listing { dir, retention_count, listing } => {
                GarbageCollectionView::Listing {
                    dir: dir@,
                    retention_count: *retention_count,
                    listing: listing.deep_view(),
                }
            },
            GarbageCollection::Deleting { dir, doomed, next, removal, retained } => {
                GarbageCollectionView::Deleting {
                    dir: dir@,
                    doomed: doomed.deep_view(),
                    next: *next,
                    removal: removal.deep_view(),
                    retained: *retained,
                }
            },
        }
    }
}

pub type GcStepView = StepView<GarbageCollectionView, (usize, usize), FileOpsErrorView>;

impl GarbageCollectionView {
    /// The policy at its beginning, and the probe it begins with.
    pub open spec fn begin(dir: Seq<char>, retention_count: usize) -> (
        GarbageCollectionView,
        FsRequestView,
    ) {
        (
            GarbageCollectionView::Listing {
                dir,
                retention_count,
                listing: ListingView::begin(dir).0,
            },
            ListingView::begin(dir).1,
        )
    }

    /// The removal of `doomed[next]`, or the end of the policy where `next`
    /// is past the last: the counts of the archives kept and of those that
    /// were to be deleted.
    pub open spec fn remove_from(
        dir: Seq<char>,
        doomed: Seq<Seq<char>>,
        next: usize,
        retained: usize,
    ) -> GcStepView {
        if next < doomed.len() {
            StepView::Ask(
                GarbageCollectionView::Deleting {
                    dir,
                    doomed,
                    next,
                    removal: RemoveJobView::begin(false, join_spec(dir, doomed[next as int])).0,
                    retained,
                },
                RemoveJobView::begin(false, join_spec(dir, doomed[next as int])).1,
            )
        } else {
            StepView::Finished((retained, doomed.len() as usize))
        }
    }

    /// What the policy does with the listing of its directory: the archive
    /// files are ranked newest first, the first `retention_count` of them are
    /// kept, and the removal of the others begins.
    pub open spec fn decide(dir: Seq<char>, retention_count: usize, entries: Seq<DirEntryView>)
        -> GcStepView {
        match archive_files(entries, Seq::empty()) {
            Err(e) => StepView::Failed(FileOpsErrorView::Io(e)),
            Ok(files) => {
                let sorted = ranked::<BackupFile>(files);
                let keep = kept_count(sorted.len(), retention_count);
                Self::remove_from(dir, names_from(sorted, keep as int), 0, keep as usize)
            },
        }
    }

    /// The next move. A removal that fails is passed over: the policy goes on
    /// with the next file and never fails for it.
    pub open spec fn step(self, resp: FsResponseView) -> GcStepView {
        match self {
            GarbageCollectionView::Listing { dir, retention_count, listing } => match listing.step(
                resp,
            ) {
                StepView::Ask(l, req) => StepView::Ask(
                    GarbageCollectionView::Listing { dir, retention_count, listing: l },
                    req,
                ),
                StepView::Finished(entries) => Self::decide(dir, retention_count, entries),
                StepView::Failed(e) => StepView::Failed(e),
            },
            GarbageCollectionView::Deleting { dir, doomed, next, removal, retained } => {
                match removal.step(resp) {
                    StepView::Ask(job, req) => StepView::Ask(
                        GarbageCollectionView::Deleting {
                            dir,
                            doomed,
                            next,
                            removal: job,
                            retained,
                        },
                        req,
                    ),
                    _ => if next < doomed.len() {
                        Self::remove_from(dir, doomed, (next + 1) as usize, retained)
                    } else {
                        StepView::Finished((retained, doomed.len() as usize))
                    },
                }
            },
        }
    }
}

/// Newest-first is an order that ranking can go by.
pub proof fn lemma_backup_files_orderly()
    ensures
        orderly::<BackupFile>(),
{
}

/// Ranking keeps every archive file and puts none before a newer one.
pub proof fn lemma_ranked_newest_first(files: Seq<BackupFileView>)
    ensures
        ranked::<BackupFile>(files).len() == files.len(),
        ranked::<BackupFile>(files).to_multiset() == files.to_multiset(),
        forall|i: int, j: int|
            0 <= i < j < files.len() ==> (#[trigger] ranked::<BackupFile>(
                files,
            )[i]).created.at_or_after((#[trigger] ranked::<BackupFile>(files)[j]).created),
{
    lemma_backup_files_orderly();
    lemma_ranked_multiset::<BackupFile>(files);
    lemma_ranked_in_order::<BackupFile>(files);
    let sorted = ranked::<BackupFile>(files);
    assert forall|i: int, j: int| 0 <= i < j < files.len() implies (#[trigger] sorted[i]).created.at_or_after(
        (#[trigger] sorted[j]).created,
    ) by {
        assert(!<BackupFile as Ranked>::ahead(sorted[j], sorted[i]));
    }
}

/// The retention policy on a directory with the archive files `files`, in
/// the order of the listing `entries`. Where there are no more than
/// `retention_count` of them, all are kept and the policy ends at once with
/// their number and 0. Where there are more, exactly `retention_count` are
/// kept, and they are the newest: the policy sets out to remove the others,
/// each of which is no newer than any that is kept.
pub proof fn lemma_retention(
    dir: Seq<char>,
    retention_count: usize,
    entries: Seq<DirEntryView>,
    files: Seq<BackupFileView>,
)
    requires
        archive_files(entries, Seq::empty()) == Ok::<Seq<BackupFileView>, Seq<char>>(files),
        files.len() <= usize::MAX,
    ensures
        files.len() <= retention_count ==> GarbageCollectionView::decide(
            dir,
            retention_count,
            entries,
        ) == StepView::<GarbageCollectionView, (usize, usize), FileOpsErrorView>::Finished(
            (files.len() as usize, 0usize),
        ),
        files.len() > retention_count ==> ({
            let sorted = ranked::<BackupFile>(files);
            let doomed = names_from(sorted, retention_count as int);
            &&& GarbageCollectionView::decide(dir, retention_count, entries)
                == GarbageCollectionView::remove_from(dir, doomed, 0, retention_count)
            &&& GarbageCollectionView::decide(dir, retention_count, entries) is Ask
            &&& doomed.len() == files.len() - retention_count
            &&& sorted.to_multiset() == files.to_multiset()
            &&& forall|i: int, j: int|
                0 <= i < retention_count <= j < files.len() ==> (#[trigger] sorted[i]).created.at_or_after(
                    (#[trigger] sorted[j]).created,
                )
        }),
{
    lemma_ranked_newest_first(files);
    if files.len() <= retention_count {
        assert(names_from(ranked::<BackupFile>(files), files.len() as int).len() == 0);
    }
}

/// While the policy removes files it never fails, keeps its list and its
/// count, and can only end with the number kept and the number that were to
/// be removed.
pub proof fn lemma_removal_ends_with_counts(state: GarbageCollectionView, resp: FsResponseView)
    requires
        state is Deleting,
    ensures
        match state.step(resp) {
            StepView::Ask(next, _) => {
                &&& next is Deleting
                &&& next->doomed == state->doomed
                &&& next->retained == state->retained
                &&& next->Deleting_dir == state->Deleting_dir
            },
            StepView::Finished(counts) => counts == (
                state->retained,
                state->doomed.len() as usize,
            ),
            StepView::Failed(_) => false,
        },
{
}

pub type GcStep = Step<GarbageCollection, (usize, usize), FileOpsError>;

impl GarbageCollection {
    fn remove_from(dir: String, doomed: Vec<String>, next: usize, retained: usize) -> (out: GcStep)
        ensures
            out.deep_view() == GarbageCollectionView::remove_from(
                dir@,
                doomed.deep_view(),
                next,
                retained,
            ),
    {
        if next < doomed.len() {
            let path = join(dir.as_str(), doomed[next].as_str());
            let (removal, req) = delete_file(path.as_str());
            Step::Ask(GarbageCollection::Deleting { dir, doomed, next, removal, retained }, req)
        } else {
            Step::Finished((retained, doomed.len()))
        }
    }

    fn decide(dir: String, retention_count: usize, entries: Vec<DirEntry>) -> (out: GcStep)
        ensures
            out.deep_view() == GarbageCollectionView::decide(
                dir@,
                retention_count,
                entries.deep_view(),
            ),
    {
        match list_archive_files(&entries, "") {
            Err(e) => {
                proof {
                    reveal_strlit("");
                    assert(""@ =~= Seq::<char>::empty());
                }
                Step::Failed(FileOpsError::Io(e))
            },
            Ok(files) => {
                proof {
                    reveal_strlit("");
                    assert(""@ =~= Seq::<char>::empty());
                }
                let sorted = sort_ranked(files);
                let total = sorted.len();
                let keep = if total > retention_count {
                    retention_count
                } else {
                    total
                };
                let mut doomed: Vec<String> = Vec::new();
                let mut i: usize = keep;
                while i < total
                    invariant
                        keep <= i <= total,
                        total == sorted.len(),
                        doomed.len() == i - keep,
                        forall|k: int|
                            0 <= k < doomed.len() ==> (#[trigger] doomed@[k])@ == sorted@[keep
                                + k].name@,
                    decreases total - i,
                {
                    doomed.push(sorted[i].name.clone());
                    i = i + 1;
                }
                assert(doomed.deep_view() =~= names_from(sorted.deep_view(), keep as int));
                Self::remove_from(dir, doomed, 0, keep)
            },
        }
    }

    /// Takes the response to the last request and makes the next move.
    pub fn step(self, resp: FsResponse) -> (out: GcStep)
        ensures
            out.deep_view() == self.deep_view().step(resp.deep_view()),
    {
        match self {
            GarbageCollection::Listing { dir, retention_count, listing } => match listing.step(
                resp,
            ) {
                Step::Ask(l, req) => Step::Ask(
                    GarbageCollection::Listing { dir, retention_count, listing: l },
                    req,
                ),
                Step::Finished(entries) => Self::decide(dir, retention_count, entries),
                Step::Failed(e) => Step::Failed(e),
            },
            GarbageCollection::Deleting { dir, doomed, next, removal, retained } => {
                match removal.step(resp) {
                    Step::Ask(job, req) => Step::Ask(
                        GarbageCollection::Deleting { dir, doomed, next, removal: job, retained },
                        req,
                    ),
                    _ => if next < doomed.len() {
                        Self::remove_from(dir, doomed, next + 1, retained)
                    } else {
                        Step::Finished((retained, doomed.len()))
                    },
                }
            },
        }
    }
}

/// Begins the retention policy on the directory `save_backup_dir`: of the
/// archives in it, the newest `retention_count` are kept and the others are
/// removed. It ends with the number kept and the number that were to be
/// removed; a directory that does not exist gives `(0, 0)`.
pub fn garbage_collection(save_backup_dir: &str, retention_count: usize) -> (r: (
    GarbageCollection,
    FsRequest,
))
    ensures
        r.deep_view() == GarbageCollectionView::begin(save_backup_dir@, retention_count),
{
    let (listing, req) = Listing::begin(save_backup_dir);
    (
        GarbageCollection::Listing {
            dir: String::from_str(save_backup_dir),
            retention_count,
            listing,
        },
        req,
    )
}

/// The listing of the archives of one save, under way.
#[derive(Debug, Clone, PartialEq, Eq)]
pub struct ListBackups {
    pub save_name: String,
    pub dir: String,
    pub listing: Listing,
}

pub ghost struct ListBackupsView {
    pub save_name: Seq<char>,
    pub dir: Seq<char>,
    pub listing: ListingView,
}

impl DeepView for ListBackups {
    type V = ListBackupsView;

    open spec fn deep_view(&self) -> ListBackupsView {
        ListBackupsView {
            save_name: self.save_name@,
            dir: self.dir@,
            listing: self.listing.deep_view(),
        }
    }
}

pub type ListBackupsStepView = StepView<ListBackupsView, Seq<BackupInfoView>, BackupErrorView>;

impl ListBackupsView {
    /// The listing at its beginning, and the probe it begins with: the save's
    /// backup directory is probed.
    pub open spec fn begin(backup_base_path: Seq<char>, save_name: Seq<char>) -> (
        ListBackupsView,
        FsRequestView,
    ) {
        let dir = join_spec(backup_base_path, save_name);
        (
            ListBackupsView { save_name, dir, listing: ListingView::begin(dir).0 },
            ListingView::begin(dir).1,
        )
    }

    /// What is reported for the listing `entries` of the save's backup
    /// directory: its archive files, newest first.
    pub open spec fn report(dir: Seq<char>, save_name: Seq<char>, entries: Seq<DirEntryView>)
        -> ListBackupsStepView {
        match archive_files(entries, Seq::empty()) {
            Err(e) => StepView::Failed(BackupErrorView::FileOp(FileOpsErrorView::Io(e))),
            Ok(files) => match backup_infos(ranked::<BackupFile>(files), dir, save_name) {
                Some(infos) => StepView::Finished(infos),
                None => StepView::Failed(
                    BackupErrorView::FileOp(FileOpsErrorView::Io(time_out_of_range())),
                ),
            },
        }
    }

    /// The next move. A backup directory that does not exist has no
    /// archives.
    pub open spec fn step(self, resp: FsResponseView) -> ListBackupsStepView {
        match self.listing.step(resp) {
            StepView::Ask(l, req) => StepView::Ask(ListBackupsView { listing: l, ..self }, req),
            StepView::Finished(entries) => Self::report(self.dir, self.save_name, entries),
            StepView::Failed(e) => StepView::Failed(BackupErrorView::FileOp(e)),
        }
    }

    /// The next move of the count of the archives: that of the listing, with
    /// the number of archives in place of the archives.
    pub open spec fn step_counting(self, resp: FsResponseView) -> StepView<
        ListBackupsView,
        usize,
        BackupErrorView,
    > {
        match self.step(resp) {
            StepView::Ask(s, req) => StepView::Ask(s, req),
            StepView::Finished(infos) => StepView::Finished(infos.len() as usize),
            StepView::Failed(e) => StepView::Failed(e),
        }
    }
}

impl ListBackups {
    /// Takes the response to the last request and makes the next move.
    pub fn step(self, resp: FsResponse) -> (out: Step<ListBackups, Vec<BackupInfo>, BackupError>)
        ensures
            out.deep_view() == self.deep_view().step(resp.deep_view()),
    {
        match self.listing.step(resp) {
            Step::Ask(l, req) => Step::Ask(
                ListBackups { save_name: self.save_name, dir: self.dir, listing: l },
                req,
            ),
            Step::Finished(entries) => {
                proof {
                    reveal_strlit("");
                    assert(""@ =~= Seq::<char>::empty());
                }
                match list_archive_files(&entries, "") {
                    Err(e) => Step::Failed(BackupError::FileOp(FileOpsError::Io(e))),
                    Ok(files) => {
                        let sorted = sort_ranked(files);
                        match describe_backups(
                            &sorted,
                            self.dir.as_str(),
                            self.save_name.as_str(),
                        ) {
                            Some(infos) => Step::Finished(infos),
                            None => Step::Failed(
                                BackupError::FileOp(
                                    FileOpsError::Io(
                                        String::from_str("creation time is out of range"),
                                    ),
                                ),
                            ),
                        }
                    },
                }
            },
            Step::Failed(e) => Step::Failed(BackupError::FileOp(e)),
        }
    }

    /// The next move of the count of the archives.
    pub fn step_counting(self, resp: FsResponse) -> (out: Step<ListBackups, usize, BackupError>)
        ensures
            out.deep_view() == self.deep_view().step_counting(resp.deep_view()),
    {
        match self.step(resp) {
            Step::Ask(s, req) => Step::Ask(s, req),
            Step::Finished(infos) => Step::Finished(infos.len()),
            Step::Failed(e) => Step::Failed(e),
        }
    }
}

/// Begins the listing of the archives of the save `save_name`, newest first.
pub fn list_backups(backup_base_path: &str, save_name: &str) -> (r: (ListBackups, FsRequest))
    ensures
        r.deep_view() == ListBackupsView::begin(backup_base_path@, save_name@),
{
    let dir = get_save_backup_dir(backup_base_path, save_name);
    let (listing, req) = Listing::begin(dir.as_str());
    (ListBackups { save_name: String::from_str(save_name), dir, listing }, req)
}

/// Begins the count of the archives of the save `save_name`; it goes on with
/// [`ListBackups::step_counting`].
pub fn count_backups(backup_base_path: &str, save_name: &str) -> (r: (ListBackups, FsRequest))
    ensures
        r.deep_view() == ListBackupsView::begin(backup_base_path@, save_name@),
{
    list_backups(backup_base_path, save_name)
}

/// The listing of the saves that have a backup directory, under way.
#[derive(Debug, Clone, PartialEq, Eq)]
pub struct SavesWithBackups {
    pub names: DirectoryNames,
}

pub ghost struct SavesWithBackupsView {
    pub names: DirectoryNamesView,
}

impl DeepView for SavesWithBackups {
    type V = SavesWithBackupsView;

    open spec fn deep_view(&self) -> SavesWithBackupsView {
        SavesWithBackupsView { names: self.names.deep_view() }
    }
}

impl SavesWithBackupsView {
    /// The listing at its beginning, and the probe it begins with.
    pub open spec fn begin(backup_base_path: Seq<char>) -> (SavesWithBackupsView, FsRequestView) {
        (
            SavesWithBackupsView { names: DirectoryNamesView::begin(backup_base_path).0 },
            DirectoryNamesView::begin(backup_base_path).1,
        )
    }

    /// The next move: the names of the directories below the backup root, in
    /// dictionary order; none where the root does not exist.
    pub open spec fn step(self, resp: FsResponseView) -> StepView<
        SavesWithBackupsView,
        Seq<Seq<char>>,
        BackupErrorView,
    > {
        match self.names.step(resp) {
            StepView::Ask(n, req) => StepView::Ask(SavesWithBackupsView { names: n }, req),
            StepView::Finished(names) => StepView::Finished(names),
            StepView::Failed(e) => StepView::Failed(BackupErrorView::FileOp(e)),
        }
    }
}

impl SavesWithBackups {
    /// Takes the response to the last request and makes the next move.
    pub fn step(self, resp: FsResponse) -> (out: Step<SavesWithBackups, Vec<String>, BackupError>)
        ensures
            out.deep_view() == self.deep_view().step(resp.deep_view()),
    {
        match self.names.step(resp) {
            Step::Ask(n, req) => Step::Ask(SavesWithBackups { names: n }, req),
            Step::Finished(names) => Step::Finished(names),
            Step::Failed(e) => Step::Failed(BackupError::FileOp(e)),
        }
    }
}

/// Begins the listing of the saves that have a backup directory.
pub fn list_saves_with_backups(backup_base_path: &str) -> (r: (SavesWithBackups, FsRequest))
    ensures
        r.deep_view() == SavesWithBackupsView::begin(backup_base_path@),
{
    let (names, req) = DirectoryNames::begin(backup_base_path);
    (SavesWithBackups { names }, req)
}

/// The name under which an archive of a save is reported missing.
pub open spec fn missing_backup(save_name: Seq<char>, backup_name: Seq<char>) -> Seq<char> {
    save_name + "/"@ + backup_name
}

/// A query on, or the removal of, one named archive under way. `sizing` and
/// `removal` are `None` while the archive is being probed.
#[derive(Debug, Clone, PartialEq, Eq)]
pub struct BackupLookup {
    pub save_name: String,
    pub backup_name: String,
    pub dir: String,
    pub path: String,
    pub sizing: Option<MetaJob>,
    pub removal: Option<RemoveJob>,
}

pub ghost struct BackupLookupView {
    pub save_name: Seq<char>,
    pub backup_name: Seq<char>,
    pub dir: Seq<char>,
    pub path: Seq<char>,
    pub sizing: Option<MetaJobView>,
    pub removal: Option<RemoveJobView>,
}

impl DeepView for BackupLookup {
    type V = BackupLookupView;

    open spec fn deep_view(&self) -> BackupLookupView {
        BackupLookupView {
            save_name: self.save_name@,
            backup_name: self.backup_name@,
            dir: self.dir@,
            path: self.path@,
            sizing: self.sizing.deep_view(),
            removal: self.removal.deep_view(),
        }
    }
}

impl BackupLookupView {
    /// The lookup at its beginning, and the probe of the archive it begins
    /// with.
    pub open spec fn begin(
        backup_base_path: Seq<char>,
        save_name: Seq<char>,
        backup_name: Seq<char>,
    ) -> (BackupLookupView, FsRequestView) {
        let dir = join_spec(backup_base_path, save_name);
        let path = join_spec(dir, backup_name);
        (
            BackupLookupView { save_name, backup_name, dir, path, sizing: None, removal: None },
            FsRequestView::Probe { path },
        )
    }

    /// The error for an archive that is not there.
    pub open spec fn not_found(self) -> BackupErrorView {
        BackupErrorView::BackupNotFound(missing_backup(self.save_name, self.backup_name))
    }

    /// The next move of `get_backup_info`: an archive that is not there is
    /// `BackupNotFound`; of one that is, size and creation time are read and
    /// reported.
    pub open spec fn step_info(self, resp: FsResponseView) -> StepView<
        BackupLookupView,
        BackupInfoView,
        BackupErrorView,
    > {
        match self.sizing {
            None => match resp {
                FsResponseView::Kind(PathKind::Missing) => StepView::Failed(self.not_found()),
                FsResponseView::Kind(_) => StepView::Ask(
                    BackupLookupView { sizing: Some(MetaJobView::begin(self.path).0), ..self },
                    MetaJobView::begin(self.path).1,
                ),
                _ => StepView::Failed(BackupErrorView::out_of_turn()),
            },
            Some(job) => match job.step(resp) {
                StepView::Ask(j, req) => StepView::Ask(
                    BackupLookupView { sizing: Some(j), ..self },
                    req,
                ),
                StepView::Finished(m) => match backup_info_of(
                    BackupFileView {
                        name: self.backup_name,
                        size_bytes: m.size,
                        created: m.created,
                    },
                    self.dir,
                    self.save_name,
                ) {
                    Some(info) => StepView::Finished(info),
                    None => StepView::Failed(
                        BackupErrorView::FileOp(FileOpsErrorView::Io(time_out_of_range())),
                    ),
                },
                StepView::Failed(e) => StepView::Failed(BackupErrorView::FileOp(e)),
            },
        }
    }

    /// The next move of `delete_backup`: an archive that is not there is
    /// `BackupNotFound`; one that is, is removed.
    pub open spec fn step_delete(self, resp: FsResponseView) -> StepView<
        BackupLookupView,
        (),
        BackupErrorView,
    > {
        match self.removal {
            None => match resp {
                FsResponseView::Kind(PathKind::Missing) => StepView::Failed(self.not_found()),
                FsResponseView::Kind(_) => StepView::Ask(
                    BackupLookupView {
                        removal: Some(RemoveJobView::begin(false, self.path).0),
                        ..self
                    },
                    RemoveJobView::begin(false, self.path).1,
                ),
                _ => StepView::Failed(BackupErrorView::out_of_turn()),
            },
            Some(job) => match job.step(resp) {
                StepView::Ask(j, req) => StepView::Ask(
                    BackupLookupView { removal: Some(j), ..self },
                    req,
                ),
                StepView::Finished(_) => StepView::Finished(()),
                StepView::Failed(e) => StepView::Failed(BackupErrorView::FileOp(e)),
            },
        }
    }
}

impl BackupLookup {
    fn begin(backup_base_path: &str, save_name: &str, backup_name: &str) -> (r: (
        BackupLookup,
        FsRequest,
    ))
        ensures
            r.deep_view() == BackupLookupView::begin(backup_base_path@, save_name@, backup_name@),
    {
        let dir = get_save_backup_dir(backup_base_path, save_name);
        let path = join(dir.as_str(), backup_name);
        let req = FsRequest::Probe { path: path.clone() };
        (
            BackupLookup {
                save_name: String::from_str(save_name),
                backup_name: String::from_str(backup_name),
                dir,
                path,
                sizing: None,
                removal: None,
            },
            req,
        )
    }

    fn not_found(&self) -> (e: BackupError)
        ensures
            e.deep_view() == self.deep_view().not_found(),
    {
        BackupError::BackupNotFound(
            concat3(self.save_name.as_str(), "/", self.backup_name.as_str()),
        )
    }

    /// Takes the response to the last request and makes the next move of
    /// `get_backup_info`.
    pub fn step_info(self, resp: FsResponse) -> (out: Step<BackupLookup, BackupInfo, BackupError>)
        ensures
            out.deep_view() == self.deep_view().step_info(resp.deep_view()),
    {
        let BackupLookup { save_name, backup_name, dir, path, sizing, removal } = self;
        match sizing {
            None => {
                let this = BackupLookup { save_name, backup_name, dir, path, sizing: None, removal };
                match resp {
                    FsResponse::Kind(PathKind::Missing) => Step::Failed(this.not_found()),
                    FsResponse::Kind(_) => {
                        let (job, req) = get_file_size(this.path.as_str());
                        Step::Ask(
                            BackupLookup {
                                save_name: this.save_name,
                                backup_name: this.backup_name,
                                dir: this.dir,
                                path: this.path,
                                sizing: Some(job),
                                removal: this.removal,
                            },
                            req,
                        )
                    },
                    _ => Step::Failed(BackupError::out_of_turn()),
                }
            },
            Some(job) => match job.step(resp) {
                Step::Ask(j, req) => Step::Ask(
                    BackupLookup { save_name, backup_name, dir, path, sizing: Some(j), removal },
                    req,
                ),
                Step::Finished(m) => {
                    let file = BackupFile { name: backup_name, size_bytes: m.size, created: m.created };
                    match describe_backup(&file, dir.as_str(), save_name.as_str()) {
                        Some(info) => Step::Finished(info),
                        None => Step::Failed(
                            BackupError::FileOp(
                                FileOpsError::Io(String::from_str("creation time is out of range")),
                            ),
                        ),
                    }
                },
                Step::Failed(e) => Step::Failed(BackupError::FileOp(e)),
            },
        }
    }

    /// Takes the response to the last request and makes the next move of
    /// `delete_backup`.
    pub fn step_delete(self, resp: FsResponse) -> (out: Step<BackupLookup, (), BackupError>)
        ensures
            out.deep_view() == self.deep_view().step_delete(resp.deep_view()),
    {
        let BackupLookup { save_name, backup_name, dir, path, sizing, removal } = self;
        match removal {
            None => {
                let this = BackupLookup { save_name, backup_name, dir, path, sizing, removal: None };
                match resp {
                    FsResponse::Kind(PathKind::Missing) => Step::Failed(this.not_found()),
                    FsResponse::Kind(_) => {
                        let (job, req) = delete_file(this.path.as_str());
                        Step::Ask(
                            BackupLookup {
                                save_name: this.save_name,
                                backup_name: this.backup_name,
                                dir: this.dir,
                                path: this.path,
                                sizing: this.sizing,
                                removal: Some(job),
                            },
                            req,
                        )
                    },
                    _ => Step::Failed(BackupError::out_of_turn()),
                }
            },
            Some(job) => match job.step(resp) {
                Step::Ask(j, req) => Step::Ask(
                    BackupLookup { save_name, backup_name, dir, path, sizing, removal: Some(j) },
                    req,
                ),
                Step::Finished(_) => Step::Finished(()),
                Step::Failed(e) => Step::Failed(BackupError::FileOp(e)),
            },
        }
    }
}

/// Begins the query on the archive `backup_name` of the save `save_name`; it
/// goes on with [`BackupLookup::step_info`].
pub fn get_backup_info(backup_base_path: &str, save_name: &str, backup_name: &str) -> (r: (
    BackupLookup,
    FsRequest,
))
    ensures
        r.deep_view() == BackupLookupView::begin(backup_base_path@, save_name@, backup_name@),
{
    BackupLookup::begin(backup_base_path, save_name, backup_name)
}

/// Begins the removal of the archive `backup_name` of the save `save_name`;
/// it goes on with [`BackupLookup::step_delete`].
pub fn delete_backup(backup_base_path: &str, save_name: &str, backup_name: &str) -> (r: (
    BackupLookup,
    FsRequest,
))
    ensures
        r.deep_view() == BackupLookupView::begin(backup_base_path@, save_name@, backup_name@),
{
    BackupLookup::begin(backup_base_path, save_name, backup_name)
}

/// Where the making of a backup stands.
#[derive(Debug, Clone, PartialEq, Eq)]
pub enum BackupStage {
    /// The save directory is being probed.
    ProbeSave,
    /// The save's backup directory is being probed.
    ProbeStore,
    /// The save's backup directory is being created.
    MakeStore,
    /// The archive is being written.
    Archive(CodecJob),
    /// The retention policy is at work.
    Collect(GarbageCollection),
}

pub ghost enum BackupStageView {
    ProbeSave,
    ProbeStore,
    MakeStore,
    Archive(CodecJobView),
    Collect(GarbageCollectionView),
}

impl DeepView for BackupStage {
    type V = BackupStageView;

    open spec fn deep_view(&self) -> BackupStageView {
        match self {
            BackupStage::ProbeSave => BackupStageView::ProbeSave,
            BackupStage::ProbeStore => BackupStageView::ProbeStore,
            BackupStage::MakeStore => BackupStageView::MakeStore,
            BackupStage::Archive(j) => BackupStageView::Archive(j.deep_view()),
            BackupStage::Collect(g) => BackupStageView::Collect(g.deep_view()),
        }
    }
}

/// The making of a backup under way.
#[derive(Debug, Clone, PartialEq, Eq)]
pub struct CreateBackup {
    pub save_name: String,
    /// The save directory.
    pub save_dir: String,
    /// The save's backup directory.
    pub store_dir: String,
    pub backup_name: String,
    /// Where the archive goes.
    pub backup_path: String,
    pub retention_count: usize,
    pub stage: BackupStage,
}

pub ghost struct CreateBackupView {
    pub save_name: Seq<char>,
    pub save_dir: Seq<char>,
    pub store_dir: Seq<char>,
    pub backup_name: Seq<char>,
    pub backup_path: Seq<char>,
    pub retention_count: usize,
    pub stage: BackupStageView,
}

impl DeepView for CreateBackup {
    type V = CreateBackupView;

    open spec fn deep_view(&self) -> CreateBackupView {
        CreateBackupView {
            save_name: self.save_name@,
            save_dir: self.save_dir@,
            store_dir: self.store_dir@,
            backup_name: self.backup_name@,
            backup_path: self.backup_path@,
            retention_count: self.retention_count,
            stage: self.stage.deep_view(),
        }
    }
}

pub type CreateBackupStepView = StepView<CreateBackupView, BackupResultView, BackupErrorView>;

impl CreateBackupView {
    /// The backup at its beginning, and the probe of the save directory it
    /// begins with. The archive goes to
    /// `<backup root>/<save name>/<backup name>`.
    pub open spec fn begin(
        save_path: Seq<char>,
        backup_base_path: Seq<char>,
        retention_count: usize,
        save_name: Seq<char>,
        backup_name: Seq<char>,
    ) -> (CreateBackupView, FsRequestView) {
        let save_dir = join_spec(save_path, save_name);
        let store_dir = join_spec(backup_base_path, save_name);
        (
            CreateBackupView {
                save_name,
                save_dir,
                store_dir,
                backup_name,
                backup_path: join_spec(store_dir, backup_name),
                retention_count,
                stage: BackupStageView::ProbeSave,
            },
            FsRequestView::Probe { path: save_dir },
        )
    }

    /// The backup waiting in `stage`.
    pub open spec fn at(self, stage: BackupStageView) -> CreateBackupView {
        CreateBackupView { stage, ..self }
    }

    /// The start of the writing of the archive.
    pub open spec fn archive(self) -> CreateBackupStepView {
        StepView::Ask(
            self.at(
                BackupStageView::Archive(
                    CodecJobView::begin(false, self.save_dir, self.backup_path).0,
                ),
            ),
            CodecJobView::begin(false, self.save_dir, self.backup_path).1,
        )
    }

    /// The result once the retention policy has ended with `counts`.
    pub open spec fn result(self, counts: (usize, usize)) -> BackupResultView {
        BackupResultView {
            backup_path: display_text(self.backup_path),
            backup_name: self.backup_name,
            retained_count: counts.0,
            deleted_count: counts.1,
        }
    }

    /// The next move. The save must be a directory, else the backup ends
    /// with `SaveNotFound` and nothing has been written; the save's backup
    /// directory is created where it is missing; the archive is written; the
    /// retention policy is run on the backup directory.
    pub open spec fn step(self, resp: FsResponseView) -> CreateBackupStepView {
        match self.stage {
            BackupStageView::ProbeSave => match resp {
                FsResponseView::Kind(PathKind::Missing) => StepView::Failed(
                    BackupErrorView::SaveNotFound(self.save_name),
                ),
                FsResponseView::Kind(PathKind::Directory) => StepView::Ask(
                    self.at(BackupStageView::ProbeStore),
                    FsRequestView::Probe { path: self.store_dir },
                ),
                FsResponseView::Kind(_) => StepView::Failed(
                    BackupErrorView::SaveNotFound(self.save_name + " is not a directory"@),
                ),
                _ => StepView::Failed(BackupErrorView::out_of_turn()),
            },
            BackupStageView::ProbeStore => match resp {
                FsResponseView::Kind(PathKind::Missing) => StepView::Ask(
                    self.at(BackupStageView::MakeStore),
                    FsRequestView::CreateDirAll { path: self.store_dir },
                ),
                FsResponseView::Kind(_) => self.archive(),
                _ => StepView::Failed(BackupErrorView::out_of_turn()),
            },
            BackupStageView::MakeStore => match resp {
                FsResponseView::Done => self.archive(),
                FsResponseView::Failed(e) => StepView::Failed(
                    BackupErrorView::FileOp(FileOpsErrorView::Io(e)),
                ),
                _ => StepView::Failed(BackupErrorView::out_of_turn()),
            },
            BackupStageView::Archive(job) => match job.step(resp) {
                StepView::Ask(j, req) => StepView::Ask(self.at(BackupStageView::Archive(j)), req),
                StepView::Finished(_) => StepView::Ask(
                    self.at(
                        BackupStageView::Collect(
                            GarbageCollectionView::begin(self.store_dir, self.retention_count).0,
                        ),
                    ),
                    GarbageCollectionView::begin(self.store_dir, self.retention_count).1,
                ),
                StepView::Failed(e) => StepView::Failed(BackupErrorView::FileOp(e)),
            },
            BackupStageView::Collect(gc) => match gc.step(resp) {
                StepView::Ask(g, req) => StepView::Ask(self.at(BackupStageView::Collect(g)), req),
                StepView::Finished(counts) => StepView::Finished(self.result(counts)),
                StepView::Failed(e) => StepView::Failed(BackupErrorView::FileOp(e)),
            },
        }
    }
}

pub type CreateBackupStep = Step<CreateBackup, BackupResult, BackupError>;

impl CreateBackup {
    fn archive(self) -> (out: CreateBackupStep)
        ensures
            out.deep_view() == self.deep_view().archive(),
    {
        let (job, req) = create_tar_gz(self.save_dir.as_str(), self.backup_path.as_str());
        Step::Ask(
            CreateBackup {
                save_name: self.save_name,
                save_dir: self.save_dir,
                store_dir: self.store_dir,
                backup_name: self.backup_name,
                backup_path: self.backup_path,
                retention_count: self.retention_count,
                stage: BackupStage::Archive(job),
            },
            req,
        )
    }

    /// Takes the response to the last request and makes the next move.
    pub fn step(self, resp: FsResponse) -> (out: CreateBackupStep)
        ensures
            out.deep_view() == self.deep_view().step(resp.deep_view()),
    {
        let CreateBackup {
            save_name,
            save_dir,
            store_dir,
            backup_name,
            backup_path,
            retention_count,
            stage,
        } = self;
        match stage {
            BackupStage::ProbeSave => match resp {
                FsResponse::Kind(PathKind::Missing) => Step::Failed(
                    BackupError::SaveNotFound(save_name),
                ),
                FsResponse::Kind(PathKind::Directory) => {
                    let req = FsRequest::Probe { path: store_dir.clone() };
                    Step::Ask(
                        CreateBackup {
                            save_name,
                            save_dir,
                            store_dir,
                            backup_name,
                            backup_path,
                            retention_count,
                            stage: BackupStage::ProbeStore,
                        },
                        req,
                    )
                },
                FsResponse::Kind(_) => Step::Failed(
                    BackupError::SaveNotFound(concat2(save_name.as_str(), " is not a directory")),
                ),
                _ => Step::Failed(BackupError::out_of_turn()),
            },
            BackupStage::ProbeStore => match resp {
                FsResponse::Kind(PathKind::Missing) => {
                    let req = FsRequest::CreateDirAll { path: store_dir.clone() };
                    Step::Ask(
                        CreateBackup {
                            save_name,
                            save_dir,
                            store_dir,
                            backup_name,
                            backup_path,
                            retention_count,
                            stage: BackupStage::MakeStore,
                        },
                        req,
                    )
                },
                FsResponse::Kind(_) => CreateBackup {
                    save_name,
                    save_dir,
                    store_dir,
                    backup_name,
                    backup_path,
                    retention_count,
                    stage: BackupStage::ProbeStore,
                }.archive(),
                _ => Step::Failed(BackupError::out_of_turn()),
            },
            BackupStage::MakeStore => match resp {
                FsResponse::Done => CreateBackup {
                    save_name,
                    save_dir,
                    store_dir,
                    backup_name,
                    backup_path,
                    retention_count,
                    stage: BackupStage::MakeStore,
                }.archive(),
                FsResponse::Failed(e) => Step::Failed(BackupError::FileOp(FileOpsError::Io(e))),
                _ => Step::Failed(BackupError::out_of_turn()),
            },
            BackupStage::Archive(job) => match job.step(resp) {
                Step::Ask(j, req) => Step::Ask(
                    CreateBackup {
                        save_name,
                        save_dir,
                        store_dir,
                        backup_name,
                        backup_path,
                        retention_count,
                        stage: BackupStage::Archive(j),
                    },
                    req,
                ),
                Step::Finished(_) => {
                    let (gc, req) = garbage_collection(store_dir.as_str(), retention_count);
                    Step::Ask(
                        CreateBackup {
                            save_name,
                            save_dir,
                            store_dir,
                            backup_name,
                            backup_path,
                            retention_count,
                            stage: BackupStage::Collect(gc),
                        },
                        req,
                    )
                },
                Step::Failed(e) => Step::Failed(BackupError::FileOp(e)),
            },
            BackupStage::Collect(gc) => match gc.step(resp) {
                Step::Ask(g, req) => Step::Ask(
                    CreateBackup {
                        save_name,
                        save_dir,
                        store_dir,
                        backup_name,
                        backup_path,
                        retention_count,
                        stage: BackupStage::Collect(g),
                    },
                    req,
                ),
                Step::Finished(counts) => Step::Finished(
                    BackupResult {
                        backup_path: normalize_path_for_display(backup_path.as_str()),
                        backup_name,
                        retained_count: counts.0,
                        deleted_count: counts.1,
                    },
                ),
                Step::Failed(e) => Step::Failed(BackupError::FileOp(e)),
            },
        }
    }
}

/// Begins a backup of the save `save_name` below `save_path` into the archive
/// `backup_name` of the save's directory below `backup_base_path`; once the
/// archive is written, all but the newest `retention_count` archives of the
/// save are removed.
pub fn create_backup(
    save_path: &str,
    backup_base_path: &str,
    retention_count: usize,
    save_name: &str,
    backup_name: &str,
) -> (r: (CreateBackup, FsRequest))
    ensures
        r.deep_view() == CreateBackupView::begin(
            save_path@,
            backup_base_path@,
            retention_count,
            save_name@,
            backup_name@,
        ),
{
    let save_dir = join(save_path, save_name);
    let store_dir = get_save_backup_dir(backup_base_path, save_name);
    let backup_path = join(store_dir.as_str(), backup_name);
    let req = FsRequest::Probe { path: save_dir.clone() };
    (
        CreateBackup {
            save_name: String::from_str(save_name),
            save_dir,
            store_dir,
            backup_name: String::from_str(backup_name),
            backup_path,
            retention_count,
            stage: BackupStage::ProbeSave,
        },
        req,
    )
}

} // verus!
