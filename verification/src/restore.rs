//! The restore engine: a save directory is replaced by the contents of an
//! archive, after its present state has been put aside as an undo snapshot.

use crate::backup::{
    archive_files, list_archive_files, time_out_of_range, BackupError, BackupErrorView, BackupFile,
    BackupFileView,
};
use crate::clock::{now, rfc3339_of, rfc3339_text, stamp_at, stamp_like, stamp_of, Timestamp};
use crate::config::{ConfigError, ConfigErrorView};
use crate::file_ops::{
    create_tar_gz, delete_dir_recursive, delete_file, extract_tar_gz, get_file_size, out_of_turn,
    CodecJob, CodecJobView, FileOpsError, FileOpsErrorView, Listing, ListingView, MetaJob,
    MetaJobView, RemoveJob, RemoveJobView,
};
use crate::fsio::{
    DirEntryView, FileMeta, FsRequest, FsRequestView, FsResponse, FsResponseView, PathKind, Step,
    StepView,
};
use crate::order::{ranked, sort_ranked};
use crate::paths::{join, join_spec, leaf, leaf_spec};
use crate::sizes::{format_size, size_text};
use crate::text::{concat2, concat3};
use vstd::prelude::*;
use vstd::string::*;

verus! {

/// Result of a restore operation.
#[derive(Debug, Clone, PartialEq, Eq)]
pub struct RestoreResult {
    /// Path of the save that was restored.
    pub save_path: String,
    /// Name of the save that was restored.
    pub save_name: String,
    /// Path of the archive that was restored.
    pub backup_path: String,
    /// Name of the archive that was restored.
    pub backup_name: String,
    /// Path of the undo snapshot, where one was made.
    pub undo_snapshot_path: Option<String>,
    /// Whether an undo snapshot was made.
    pub has_undo_snapshot: bool,
}

pub ghost struct RestoreResultView {
    pub save_path: Seq<char>,
    pub save_name: Seq<char>,
    pub backup_path: Seq<char>,
    pub backup_name: Seq<char>,
    pub undo_snapshot_path: Option<Seq<char>>,
    pub has_undo_snapshot: bool,
}

impl DeepView for RestoreResult {
    type V = RestoreResultView;

    open spec fn deep_view(&self) -> RestoreResultView {
        RestoreResultView {
            save_path: self.save_path@,
            save_name: self.save_name@,
            backup_path: self.backup_path@,
            backup_name: self.backup_name@,
            undo_snapshot_path: self.undo_snapshot_path.deep_view(),
            has_undo_snapshot: self.has_undo_snapshot,
        }
    }
}

/// What is known of one undo snapshot.
#[derive(Debug, Clone, PartialEq, Eq)]
pub struct UndoSnapshotInfo {
    /// Name of the snapshot file.
    pub name: String,
    /// Path of the snapshot.
    pub path: String,
    /// Size in bytes.
    pub size_bytes: u64,
    /// The size as it is shown.
    pub size_formatted: String,
    /// When the snapshot was created, in RFC 3339 form.
    pub created_at: String,
    /// Name of the save this snapshot belongs to.
    pub save_name: String,
}

pub ghost struct UndoSnapshotInfoView {
    pub name: Seq<char>,
    pub path: Seq<char>,
    pub size_bytes: u64,
    pub size_formatted: Seq<char>,
    pub created_at: Seq<char>,
    pub save_name: Seq<char>,
}

impl DeepView for UndoSnapshotInfo {
    type V = UndoSnapshotInfoView;

    open spec fn deep_view(&self) -> UndoSnapshotInfoView {
        UndoSnapshotInfoView {
            name: self.name@,
            path: self.path@,
            size_bytes: self.size_bytes,
            size_formatted: self.size_formatted@,
            created_at: self.created_at@,
            save_name: self.save_name@,
        }
    }
}

/// Error type for restore operations.
#[derive(Debug, Clone, PartialEq, Eq)]
pub enum RestoreError {
    /// File operation error.
    FileOp(FileOpsError),
    /// Backup error.
    Backup(BackupError),
    /// Config error.
    Config(ConfigError),
    /// Save directory not found.
    SaveNotFound(String),
    /// Backup not found.
    BackupNotFound(String),
    /// Current save not found (nothing to snapshot before restore).
    CurrentSaveNotFound(String),
    /// Undo snapshot directory creation failed.
    UndoSnapshotFailed(String),
}

pub ghost enum RestoreErrorView {
    FileOp(FileOpsErrorView),
    Backup(BackupErrorView),
    Config(ConfigErrorView),
    SaveNotFound(Seq<char>),
    BackupNotFound(Seq<char>),
    CurrentSaveNotFound(Seq<char>),
    UndoSnapshotFailed(Seq<char>),
}

impl DeepView for RestoreError {
    type V = RestoreErrorView;

    open spec fn deep_view(&self) -> RestoreErrorView {
        match self {
            RestoreError::FileOp(e) => RestoreErrorView::FileOp(e.deep_view()),
            RestoreError::Backup(e) => RestoreErrorView::Backup(e.deep_view()),
            RestoreError::Config(e) => RestoreErrorView::Config(e.deep_view()),
            RestoreError::SaveNotFound(n) => RestoreErrorView::SaveNotFound(n@),
            RestoreError::BackupNotFound(n) => RestoreErrorView::BackupNotFound(n@),
            RestoreError::CurrentSaveNotFound(n) => RestoreErrorView::CurrentSaveNotFound(n@),
            RestoreError::UndoSnapshotFailed(m) => RestoreErrorView::UndoSnapshotFailed(m@),
        }
    }
}

impl RestoreErrorView {
    /// The error as a sentence.
    pub open spec fn message(self) -> Seq<char> {
        match self {
            RestoreErrorView::FileOp(e) => "File operation error: "@ + e.message(),
            RestoreErrorView::Backup(e) => "Backup error: "@ + e.message(),
            RestoreErrorView::Config(e) => "Config error: "@ + e.message(),
            RestoreErrorView::SaveNotFound(n) => "Save directory not found: "@ + n,
            RestoreErrorView::BackupNotFound(n) => "Backup not found: "@ + n,
            RestoreErrorView::CurrentSaveNotFound(n) => "Current save not found (nothing to snapshot): "@
                + n,
            RestoreErrorView::UndoSnapshotFailed(m) => "Failed to create undo snapshot: "@ + m,
        }
    }

    /// The error for a response that does not answer the request.
    pub open spec fn out_of_turn() -> RestoreErrorView {
        RestoreErrorView::FileOp(FileOpsErrorView::Io(out_of_turn()))
    }

    /// The error for a creation time that cannot be written as a date.
    pub open spec fn bad_time() -> RestoreErrorView {
        RestoreErrorView::FileOp(FileOpsErrorView::Io(time_out_of_range()))
    }
}

impl RestoreError {
    /// The error as a sentence.
    pub fn to_string(&self) -> (s: String)
        ensures
            s@ == self.deep_view().message(),
    {
        match self {
            RestoreError::FileOp(e) => {
                let inner = e.to_string();
                concat2("File operation error: ", inner.as_str())
            },
            RestoreError::Backup(e) => {
                let inner = e.to_string();
                concat2("Backup error: ", inner.as_str())
            },
            RestoreError::Config(e) => {
                let inner = e.to_string();
                concat2("Config error: ", inner.as_str())
            },
            RestoreError::SaveNotFound(n) => concat2("Save directory not found: ", n.as_str()),
            RestoreError::BackupNotFound(n) => concat2("Backup not found: ", n.as_str()),
            RestoreError::CurrentSaveNotFound(n) => concat2(
                "Current save not found (nothing to snapshot): ",
                n.as_str(),
            ),
            RestoreError::UndoSnapshotFailed(m) => concat2(
                "Failed to create undo snapshot: ",
                m.as_str(),
            ),
        }
    }

    fn out_of_turn() -> (e: RestoreError)
        ensures
            e.deep_view() == RestoreErrorView::out_of_turn(),
    {
        RestoreError::FileOp(FileOpsError::out_of_turn())
    }

    fn bad_time() -> (e: RestoreError)
        ensures
            e.deep_view() == RestoreErrorView::bad_time(),
    {
        RestoreError::FileOp(FileOpsError::Io(String::from_str("creation time is out of range")))
    }
}

/// Result type for restore operations.
pub type RestoreResultT<T> = Result<T, RestoreError>;

/// The directory of the undo snapshots of a save: beside the save's backup
/// directory, with `_undo` added to its name.
pub open spec fn undo_dir_of(backup_base_path: Seq<char>, save_name: Seq<char>) -> Seq<char> {
    join_spec(backup_base_path, save_name + "_undo"@)
}

/// Gets the undo snapshot directory for a specific save.
pub fn get_undo_snapshot_dir(backup_base_path: &str, save_name: &str) -> (r: String)
    ensures
        r@ == undo_dir_of(backup_base_path@, save_name@),
{
    let name = concat2(save_name, "_undo");
    join(backup_base_path, name.as_str())
}

/// The name of the undo snapshot made at the time written as `stamp`.
pub open spec fn undo_name_of(stamp: Seq<char>) -> Seq<char> {
    "undo_"@ + stamp + ".tar.gz"@
}

/// The name of the undo snapshot made at the time written as `stamp`.
pub fn undo_snapshot_name_from_stamp(stamp: &str) -> (name: String)
    ensures
        name@ == undo_name_of(stamp@),
{
    concat3("undo_", stamp, ".tar.gz")
}

/// The name of the undo snapshot made at the instant `t`; `None` where the
/// instant has no date.
pub open spec fn undo_name_at(t: Timestamp) -> Option<Seq<char>> {
    match stamp_at(t) {
        Some(stamp) => Some(undo_name_of(stamp)),
        None => None,
    }
}

/// What holds of the name of every undo snapshot: it is a stamp between the
/// prefix and the archive extension.
pub open spec fn undo_name_like(name: Seq<char>) -> bool {
    exists|stamp: Seq<char>| stamp_like(stamp) && name == #[trigger] undo_name_of(stamp)
}

/// The name of the undo snapshot made at the instant `t`: the prefix
/// `undo_`, the instant's UTC date and time to the second, and the archive
/// extension.
pub fn undo_snapshot_name_for(t: Timestamp) -> (name: Option<String>)
    ensures
        name.deep_view() == undo_name_at(t),
        match name {
            Some(n) => undo_name_like(n@),
            None => true,
        },
{
    match stamp_of(t) {
        Some(stamp) => {
            let name = undo_snapshot_name_from_stamp(stamp.as_str());
            assert(stamp_like(stamp@) && name@ == undo_name_of(stamp@));
            Some(name)
        },
        None => None,
    }
}

/// Generates the name of an undo snapshot made now: the prefix `undo_`, the
/// UTC date and time of a reading of the clock, to the second, and the
/// archive extension. `None` where the clock shows an instant that has no
/// date.
pub fn generate_undo_snapshot_name() -> (name: Option<String>)
    ensures
        exists|t: Timestamp| name.deep_view() == #[trigger] undo_name_at(t),
        match name {
            Some(n) => undo_name_like(n@),
            None => true,
        },
{
    let t = now();
    let name = undo_snapshot_name_for(t);
    assert(name.deep_view() == undo_name_at(t));
    name
}

/// A name of an undo snapshot has at least 31 characters, none of them a
/// path separator.
pub proof fn lemma_undo_name(name: Seq<char>)
    requires
        undo_name_like(name),
    ensures
        name.len() >= 31,
        forall|i: int| 0 <= i < name.len() ==> name[i] != '/',
{
    reveal_strlit(".tar.gz");
    reveal_strlit("undo_");
    let stamp = choose|stamp: Seq<char>| stamp_like(stamp) && name == #[trigger] undo_name_of(
        stamp,
    );
    assert(name.len() == stamp.len() + 12);
    assert forall|i: int| 0 <= i < name.len() implies name[i] != '/' by {
        if i < 5 {
            assert(name[i] == "undo_"@[i]);
        } else if i < 5 + stamp.len() {
            assert(name[i] == stamp[i - 5]);
        } else {
            assert(name[i] == ".tar.gz"@[i - 5 - stamp.len()]);
        }
    }
}

/// The save name that an undo snapshot of the directory `save_dir` is
/// reported under: the directory's last component.
pub open spec fn snapshot_save_name(save_dir: Seq<char>) -> Seq<char> {
    match leaf_spec(save_dir) {
        Some(n) => n,
        None => "unknown"@,
    }
}

/// What is reported of a snapshot file with the given name, path and
/// metadata; `None` where its creation time cannot be written.
pub open spec fn snapshot_info_of(
    name: Seq<char>,
    path: Seq<char>,
    meta: FileMeta,
    save_name: Seq<char>,
) -> Option<UndoSnapshotInfoView> {
    match rfc3339_text(meta.created.secs as int, meta.created.nanos as int) {
        Some(t) => Some(
            UndoSnapshotInfoView {
                name,
                path,
                size_bytes: meta.size,
                size_formatted: size_text(meta.size as nat),
                created_at: t,
                save_name,
            },
        ),
        None => None,
    }
}

/// What is reported of a snapshot file.
pub fn describe_snapshot(name: &str, path: &str, meta: FileMeta, save_name: &str) -> (r: Option<
    UndoSnapshotInfo,
>)
    ensures
        r.deep_view() == snapshot_info_of(name@, path@, meta, save_name@),
{
    match rfc3339_of(meta.created) {
        Some(created_at) => Some(
            UndoSnapshotInfo {
                name: String::from_str(name),
                path: String::from_str(path),
                size_bytes: meta.size,
                size_formatted: format_size(meta.size),
                created_at,
                save_name: String::from_str(save_name),
            },
        ),
        None => None,
    }
}

/// Where the making of an undo snapshot stands.
#[derive(Debug, Clone, PartialEq, Eq)]
pub enum SnapshotStage {
    /// The save directory is being probed.
    ProbeSave,
    /// The snapshot directory is being probed.
    ProbeStore,
    /// The snapshot directory is being created.
    MakeStore,
    /// The snapshot's path is being probed.
    ProbeTarget,
    /// A snapshot of the same name is being removed.
    Clear(RemoveJob),
    /// The snapshot is being written.
    Archive(CodecJob),
    /// The snapshot's size and creation time are being read.
    Measure(MetaJob),
}

pub ghost enum SnapshotStageView {
    ProbeSave,
    ProbeStore,
    MakeStore,
    ProbeTarget,
    Clear(RemoveJobView),
    Archive(CodecJobView),
    Measure(MetaJobView),
}

impl DeepView for SnapshotStage {
    type V = SnapshotStageView;

    open spec fn deep_view(&self) -> SnapshotStageView {
        match self {
            SnapshotStage::ProbeSave => SnapshotStageView::ProbeSave,
            SnapshotStage::ProbeStore => SnapshotStageView::ProbeStore,
            SnapshotStage::MakeStore => SnapshotStageView::MakeStore,
            SnapshotStage::ProbeTarget => SnapshotStageView::ProbeTarget,
            SnapshotStage::Clear(j) => SnapshotStageView::Clear(j.deep_view()),
            SnapshotStage::Archive(j) => SnapshotStageView::Archive(j.deep_view()),
            SnapshotStage::Measure(j) => SnapshotStageView::Measure(j.deep_view()),
        }
    }
}

/// The paths that the making of an undo snapshot works on.
#[derive(Debug, Clone, PartialEq, Eq)]
pub struct SnapshotPlan {
    /// The save directory.
    pub save_dir: String,
    /// The directory of the save's undo snapshots.
    pub store_dir: String,
    pub snapshot_name: String,
    /// Where the snapshot goes.
    pub snapshot_path: String,
}

pub ghost struct SnapshotPlanView {
    pub save_dir: Seq<char>,
    pub store_dir: Seq<char>,
    pub snapshot_name: Seq<char>,
    pub snapshot_path: Seq<char>,
}

impl DeepView for SnapshotPlan {
    type V = SnapshotPlanView;

    open spec fn deep_view(&self) -> SnapshotPlanView {
        SnapshotPlanView {
            save_dir: self.save_dir@,
            store_dir: self.store_dir@,
            snapshot_name: self.snapshot_name@,
            snapshot_path: self.snapshot_path@,
        }
    }
}

/// The making of an undo snapshot under way.
#[derive(Debug, Clone, PartialEq, Eq)]
pub struct UndoSnapshot {
    pub plan: SnapshotPlan,
    pub stage: SnapshotStage,
}

pub ghost struct UndoSnapshotView {
    pub plan: SnapshotPlanView,
    pub stage: SnapshotStageView,
}

impl DeepView for UndoSnapshot {
    type V = UndoSnapshotView;

    open spec fn deep_view(&self) -> UndoSnapshotView {
        UndoSnapshotView { plan: self.plan.deep_view(), stage: self.stage.deep_view() }
    }
}

pub type UndoSnapshotStepView = StepView<
    UndoSnapshotView,
    Option<UndoSnapshotInfoView>,
    RestoreErrorView,
>;

impl UndoSnapshotView {
    /// The snapshot at its beginning, and the probe of the save directory it
    /// begins with.
    pub open spec fn begin(save_dir: Seq<char>, store_dir: Seq<char>, snapshot_name: Seq<char>)
        -> (UndoSnapshotView, FsRequestView) {
        (
            UndoSnapshotView {
                plan: SnapshotPlanView {
                    save_dir,
                    store_dir,
                    snapshot_name,
                    snapshot_path: join_spec(store_dir, snapshot_name),
                },
                stage: SnapshotStageView::ProbeSave,
            },
            FsRequestView::Probe { path: save_dir },
        )
    }

    /// The snapshot waiting in `stage`.
    pub open spec fn at(self, stage: SnapshotStageView) -> UndoSnapshotView {
        UndoSnapshotView { stage, ..self }
    }

    /// The probe of the snapshot's path.
    pub open spec fn probe_target(self) -> UndoSnapshotStepView {
        StepView::Ask(
            self.at(SnapshotStageView::ProbeTarget),
            FsRequestView::Probe { path: self.plan.snapshot_path },
        )
    }

    /// The start of the writing of the snapshot.
    pub open spec fn archive(self) -> UndoSnapshotStepView {
        StepView::Ask(
            self.at(
                SnapshotStageView::Archive(
                    CodecJobView::begin(false, self.plan.save_dir, self.plan.snapshot_path).0,
                ),
            ),
            CodecJobView::begin(false, self.plan.save_dir, self.plan.snapshot_path).1,
        )
    }

    /// The next move. A save directory that does not exist needs no
    /// snapshot: the result is `None`. One that is no directory is
    /// `SaveNotFound`. Else the snapshot directory is created where it is
    /// missing, a snapshot of the same name is removed, the save directory is
    /// archived, and the snapshot is measured and reported.
    pub open spec fn step(self, resp: FsResponseView) -> UndoSnapshotStepView {
        match self.stage {
            SnapshotStageView::ProbeSave => match resp {
                FsResponseView::Kind(PathKind::Missing) => StepView::Finished(None),
                FsResponseView::Kind(PathKind::Directory) => StepView::Ask(
                    self.at(SnapshotStageView::ProbeStore),
                    FsRequestView::Probe { path: self.plan.store_dir },
                ),
                FsResponseView::Kind(_) => StepView::Failed(
                    RestoreErrorView::SaveNotFound(self.plan.save_dir),
                ),
                _ => StepView::Failed(RestoreErrorView::out_of_turn()),
            },
            SnapshotStageView::ProbeStore => match resp {
                FsResponseView::Kind(PathKind::Missing) => StepView::Ask(
                    self.at(SnapshotStageView::MakeStore),
                    FsRequestView::CreateDirAll { path: self.plan.store_dir },
                ),
                FsResponseView::Kind(_) => self.probe_target(),
                _ => StepView::Failed(RestoreErrorView::out_of_turn()),
            },
            SnapshotStageView::MakeStore => match resp {
                FsResponseView::Done => self.probe_target(),
                FsResponseView::Failed(e) => StepView::Failed(
                    RestoreErrorView::FileOp(FileOpsErrorView::Io(e)),
                ),
                _ => StepView::Failed(RestoreErrorView::out_of_turn()),
            },
            SnapshotStageView::ProbeTarget => match resp {
                FsResponseView::Kind(PathKind::Missing) => self.archive(),
                FsResponseView::Kind(_) => StepView::Ask(
                    self.at(
                        SnapshotStageView::Clear(
                            RemoveJobView::begin(false, self.plan.snapshot_path).0,
                        ),
                    ),
                    RemoveJobView::begin(false, self.plan.snapshot_path).1,
                ),
                _ => StepView::Failed(RestoreErrorView::out_of_turn()),
            },
            SnapshotStageView::Clear(job) => match job.step(resp) {
                StepView::Ask(j, req) => StepView::Ask(self.at(SnapshotStageView::Clear(j)), req),
                StepView::Finished(_) => self.archive(),
                StepView::Failed(e) => StepView::Failed(RestoreErrorView::FileOp(e)),
            },
            SnapshotStageView::Archive(job) => match job.step(resp) {
                StepView::Ask(j, req) => StepView::Ask(
                    self.at(SnapshotStageView::Archive(j)),
                    req,
                ),
                StepView::Finished(_) => StepView::Ask(
                    self.at(
                        SnapshotStageView::Measure(MetaJobView::begin(self.plan.snapshot_path).0),
                    ),
                    MetaJobView::begin(self.plan.snapshot_path).1,
                ),
                StepView::Failed(e) => StepView::Failed(RestoreErrorView::FileOp(e)),
            },
            SnapshotStageView::Measure(job) => match job.step(resp) {
                StepView::Ask(j, req) => StepView::Ask(
                    self.at(SnapshotStageView::Measure(j)),
                    req,
                ),
                StepView::Finished(meta) => match snapshot_info_of(
                    self.plan.snapshot_name,
                    self.plan.snapshot_path,
                    meta,
                    snapshot_save_name(self.plan.save_dir),
                ) {
                    Some(info) => StepView::Finished(Some(info)),
                    None => StepView::Failed(RestoreErrorView::bad_time()),
                },
                StepView::Failed(e) => StepView::Failed(RestoreErrorView::FileOp(e)),
            },
        }
    }
}

pub type UndoSnapshotStep = Step<UndoSnapshot, Option<UndoSnapshotInfo>, RestoreError>;

impl UndoSnapshot {
    fn probe_target(plan: SnapshotPlan) -> (out: UndoSnapshotStep)
        ensures
            out.deep_view() == (UndoSnapshotView {
                plan: plan.deep_view(),
                stage: SnapshotStageView::ProbeSave,
            }).probe_target(),
    {
        let req = FsRequest::Probe { path: plan.snapshot_path.clone() };
        Step::Ask(UndoSnapshot { plan, stage: SnapshotStage::ProbeTarget }, req)
    }

    fn archive(plan: SnapshotPlan) -> (out: UndoSnapshotStep)
        ensures
            out.deep_view() == (UndoSnapshotView {
                plan: plan.deep_view(),
                stage: SnapshotStageView::ProbeSave,
            }).archive(),
    {
        let (job, req) = create_tar_gz(plan.save_dir.as_str(), plan.snapshot_path.as_str());
        Step::Ask(UndoSnapshot { plan, stage: SnapshotStage::Archive(job) }, req)
    }

    /// Takes the response to the last request and makes the next move.
    pub fn step(self, resp: FsResponse) -> (out: UndoSnapshotStep)
        ensures
            out.deep_view() == self.deep_view().step(resp.deep_view()),
    {
        let UndoSnapshot { plan, stage } = self;
        match stage {
            SnapshotStage::ProbeSave => match resp {
                FsResponse::Kind(PathKind::Missing) => Step::Finished(None),
                FsResponse::Kind(PathKind::Directory) => {
                    let req = FsRequest::Probe { path: plan.store_dir.clone() };
                    Step::Ask(UndoSnapshot { plan, stage: SnapshotStage::ProbeStore }, req)
                },
                FsResponse::Kind(_) => Step::Failed(RestoreError::SaveNotFound(plan.save_dir)),
                _ => Step::Failed(RestoreError::out_of_turn()),
            },
            SnapshotStage::ProbeStore => match resp {
                FsResponse::Kind(PathKind::Missing) => {
                    let req = FsRequest::CreateDirAll { path: plan.store_dir.clone() };
                    Step::Ask(UndoSnapshot { plan, stage: SnapshotStage::MakeStore }, req)
                },
                FsResponse::Kind(_) => Self::probe_target(plan),
                _ => Step::Failed(RestoreError::out_of_turn()),
            },
            SnapshotStage::MakeStore => match resp {
                FsResponse::Done => Self::probe_target(plan),
                FsResponse::Failed(e) => Step::Failed(RestoreError::FileOp(FileOpsError::Io(e))),
                _ => Step::Failed(RestoreError::out_of_turn()),
            },
            SnapshotStage::ProbeTarget => match resp {
                FsResponse::Kind(PathKind::Missing) => Self::archive(plan),
                FsResponse::Kind(_) => {
                    let (job, req) = delete_file(plan.snapshot_path.as_str());
                    Step::Ask(UndoSnapshot { plan, stage: SnapshotStage::Clear(job) }, req)
                },
                _ => Step::Failed(RestoreError::out_of_turn()),
            },
            SnapshotStage::Clear(job) => match job.step(resp) {
                Step::Ask(j, req) => Step::Ask(
                    UndoSnapshot { plan, stage: SnapshotStage::Clear(j) },
                    req,
                ),
                Step::Finished(_) => Self::archive(plan),
                Step::Failed(e) => Step::Failed(RestoreError::FileOp(e)),
            },
            SnapshotStage::Archive(job) => match job.step(resp) {
                Step::Ask(j, req) => Step::Ask(
                    UndoSnapshot { plan, stage: SnapshotStage::Archive(j) },
                    req,
                ),
                Step::Finished(_) => {
                    let (m, req) = get_file_size(plan.snapshot_path.as_str());
                    Step::Ask(UndoSnapshot { plan, stage: SnapshotStage::Measure(m) }, req)
                },
                Step::Failed(e) => Step::Failed(RestoreError::FileOp(e)),
            },
            SnapshotStage::Measure(job) => match job.step(resp) {
                Step::Ask(j, req) => Step::Ask(
                    UndoSnapshot { plan, stage: SnapshotStage::Measure(j) },
                    req,
                ),
                Step::Finished(meta) => {
                    let save_name = match leaf(plan.save_dir.as_str()) {
                        Some(n) => n,
                        None => String::from_str("unknown"),
                    };
                    match describe_snapshot(
                        plan.snapshot_name.as_str(),
                        plan.snapshot_path.as_str(),
                        meta,
                        save_name.as_str(),
                    ) {
                        Some(info) => Step::Finished(Some(info)),
                        None => Step::Failed(RestoreError::bad_time()),
                    }
                },
                Step::Failed(e) => Step::Failed(RestoreError::FileOp(e)),
            },
        }
    }
}

/// Begins an undo snapshot: the archive of the directory `save_path` under
/// the name `snapshot_name` in the directory `undo_snapshot_dir`.
pub fn create_undo_snapshot(save_path: &str, undo_snapshot_dir: &str, snapshot_name: &str) -> (r: (
    UndoSnapshot,
    FsRequest,
))
    ensures
        r.deep_view() == UndoSnapshotView::begin(save_path@, undo_snapshot_dir@, snapshot_name@),
{
    let snapshot_path = join(undo_snapshot_dir, snapshot_name);
    (
        UndoSnapshot {
            plan: SnapshotPlan {
                save_dir: String::from_str(save_path),
                store_dir: String::from_str(undo_snapshot_dir),
                snapshot_name: String::from_str(snapshot_name),
                snapshot_path,
            },
            stage: SnapshotStage::ProbeSave,
        },
        FsRequest::Probe { path: String::from_str(save_path) },
    )
}

/// Where a restore stands.
#[derive(Debug, Clone, PartialEq, Eq)]
pub enum RestoreStage {
    /// The archive is being probed.
    ProbeSource,
    /// The undo snapshot is being made.
    Snapshot(UndoSnapshot),
    /// The save directory is being probed.
    ProbeSave,
    /// The save directory is being removed.
    Clear(RemoveJob),
    /// The archive is being unpacked.
    Extract(CodecJob),
}

pub ghost enum RestoreStageView {
    ProbeSource,
    Snapshot(UndoSnapshotView),
    ProbeSave,
    Clear(RemoveJobView),
    Extract(CodecJobView),
}

impl DeepView for RestoreStage {
    type V = RestoreStageView;

    open spec fn deep_view(&self) -> RestoreStageView {
        match self {
            RestoreStage::ProbeSource => RestoreStageView::ProbeSource,
            RestoreStage::Snapshot(s) => RestoreStageView::Snapshot(s.deep_view()),
            RestoreStage::ProbeSave => RestoreStageView::ProbeSave,
            RestoreStage::Clear(j) => RestoreStageView::Clear(j.deep_view()),
            RestoreStage::Extract(j) => RestoreStageView::Extract(j.deep_view()),
        }
    }
}

/// What a restore works on. `snapshot` holds the directory and the name of
/// the undo snapshot to make first; it is `None` for a restore from an undo
/// snapshot, which makes none.
#[derive(Debug, Clone, PartialEq, Eq)]
pub struct RestorePlan {
    pub save_name: String,
    /// The save directory.
    pub save_dir: String,
    /// Name of the archive to restore.
    pub source_name: String,
    /// Path of the archive to restore.
    pub source_path: String,
    pub snapshot: Option<(String, String)>,
}

pub ghost struct RestorePlanView {
    pub save_name: Seq<char>,
    pub save_dir: Seq<char>,
    pub source_name: Seq<char>,
    pub source_path: Seq<char>,
    pub snapshot: Option<(Seq<char>, Seq<char>)>,
}

impl DeepView for RestorePlan {
    type V = RestorePlanView;

    open spec fn deep_view(&self) -> RestorePlanView {
        RestorePlanView {
            save_name: self.save_name@,
            save_dir: self.save_dir@,
            source_name: self.source_name@,
            source_path: self.source_path@,
            snapshot: match self.snapshot {
                Some(s) => Some((s.0@, s.1@)),
                None => None,
            },
        }
    }
}

/// A restore under way. `undo_path` is the path of the undo snapshot once
/// one has been made.
#[derive(Debug, Clone, PartialEq, Eq)]
pub struct Restore {
    pub plan: RestorePlan,
    pub stage: RestoreStage,
    pub undo_path: Option<String>,
}

pub ghost struct RestoreView {
    pub plan: RestorePlanView,
    pub stage: RestoreStageView,
    pub undo_path: Option<Seq<char>>,
}

impl DeepView for Restore {
    type V = RestoreView;

    open spec fn deep_view(&self) -> RestoreView {
        RestoreView {
            plan: self.plan.deep_view(),
            stage: self.stage.deep_view(),
            undo_path: self.undo_path.deep_view(),
        }
    }
}

pub type RestoreStepView = StepView<RestoreView, RestoreResultView, RestoreErrorView>;

impl RestoreView {
    /// A restore of the archive `backup_name` of the save `save_name` at its
    /// beginning, with the probe of the archive it begins with. The present
    /// save will be put aside as the undo snapshot `snapshot_name`.
    pub open spec fn begin_backup(
        save_path: Seq<char>,
        backup_base_path: Seq<char>,
        save_name: Seq<char>,
        backup_name: Seq<char>,
        snapshot_name: Seq<char>,
    ) -> (RestoreView, FsRequestView) {
        let source_path = join_spec(join_spec(backup_base_path, save_name), backup_name);
        (
            RestoreView {
                plan: RestorePlanView {
                    save_name,
                    save_dir: join_spec(save_path, save_name),
                    source_name: backup_name,
                    source_path,
                    snapshot: Some((undo_dir_of(backup_base_path, save_name), snapshot_name)),
                },
                stage: RestoreStageView::ProbeSource,
                undo_path: None,
            },
            FsRequestView::Probe { path: source_path },
        )
    }

    /// A restore of the undo snapshot `snapshot_name` of the save `save_name`
    /// at its beginning, with the probe of the snapshot it begins with. No
    /// undo snapshot will be made.
    pub open spec fn begin_undo(
        save_path: Seq<char>,
        backup_base_path: Seq<char>,
        save_name: Seq<char>,
        snapshot_name: Seq<char>,
    ) -> (RestoreView, FsRequestView) {
        let source_path = join_spec(undo_dir_of(backup_base_path, save_name), snapshot_name);
        (
            RestoreView {
                plan: RestorePlanView {
                    save_name,
                    save_dir: join_spec(save_path, save_name),
                    source_name: snapshot_name,
                    source_path,
                    snapshot: None,
                },
                stage: RestoreStageView::ProbeSource,
                undo_path: None,
            },
            FsRequestView::Probe { path: source_path },
        )
    }

    /// The restore waiting in `stage`.
    pub open spec fn at(self, stage: RestoreStageView) -> RestoreView {
        RestoreView { stage, ..self }
    }

    /// The probe of the save directory.
    pub open spec fn probe_save(self) -> RestoreStepView {
        StepView::Ask(
            self.at(RestoreStageView::ProbeSave),
            FsRequestView::Probe { path: self.plan.save_dir },
        )
    }

    /// The start of the unpacking of the archive into the save directory.
    pub open spec fn extract(self) -> RestoreStepView {
        StepView::Ask(
            self.at(
                RestoreStageView::Extract(
                    CodecJobView::begin(true, self.plan.source_path, self.plan.save_dir).0,
                ),
            ),
            CodecJobView::begin(true, self.plan.source_path, self.plan.save_dir).1,
        )
    }

    /// What is reported when the archive has been unpacked.
    pub open spec fn result(self) -> RestoreResultView {
        RestoreResultView {
            save_path: self.plan.save_dir,
            save_name: self.plan.save_name,
            backup_path: self.plan.source_path,
            backup_name: self.plan.source_name,
            undo_snapshot_path: self.undo_path,
            has_undo_snapshot: self.undo_path is Some,
        }
    }

    /// The next move, in strict order: the archive must be a file, else the
    /// restore ends with `BackupNotFound`; the undo snapshot is made, where
    /// the plan has one, and its failure ends the restore before anything is
    /// removed; the save directory is removed where it exists; the archive is
    /// unpacked in its place.
    pub open spec fn step(self, resp: FsResponseView) -> RestoreStepView {
        match self.stage {
            RestoreStageView::ProbeSource => match resp {
                FsResponseView::Kind(PathKind::Missing) => StepView::Failed(
                    RestoreErrorView::BackupNotFound(self.plan.source_path),
                ),
                FsResponseView::Kind(PathKind::File) => match self.plan.snapshot {
                    Some(s) => StepView::Ask(
                        self.at(
                            RestoreStageView::Snapshot(
                                UndoSnapshotView::begin(self.plan.save_dir, s.0, s.1).0,
                            ),
                        ),
                        UndoSnapshotView::begin(self.plan.save_dir, s.0, s.1).1,
                    ),
                    None => self.probe_save(),
                },
                FsResponseView::Kind(_) => StepView::Failed(
                    RestoreErrorView::BackupNotFound(self.plan.source_path + " is not a file"@),
                ),
                _ => StepView::Failed(RestoreErrorView::out_of_turn()),
            },
            RestoreStageView::Snapshot(job) => match job.step(resp) {
                StepView::Ask(j, req) => StepView::Ask(
                    self.at(RestoreStageView::Snapshot(j)),
                    req,
                ),
                StepView::Finished(info) => (RestoreView {
                    undo_path: match info {
                        Some(i) => Some(i.path),
                        None => None,
                    },
                    ..self
                }).probe_save(),
                StepView::Failed(e) => StepView::Failed(e),
            },
            RestoreStageView::ProbeSave => match resp {
                FsResponseView::Kind(PathKind::Missing) => self.extract(),
                FsResponseView::Kind(_) => StepView::Ask(
                    self.at(
                        RestoreStageView::Clear(RemoveJobView::begin(true, self.plan.save_dir).0),
                    ),
                    RemoveJobView::begin(true, self.plan.save_dir).1,
                ),
                _ => StepView::Failed(RestoreErrorView::out_of_turn()),
            },
            RestoreStageView::Clear(job) => match job.step(resp) {
                StepView::Ask(j, req) => StepView::Ask(self.at(RestoreStageView::Clear(j)), req),
                StepView::Finished(_) => self.extract(),
                StepView::Failed(e) => StepView::Failed(RestoreErrorView::FileOp(e)),
            },
            RestoreStageView::Extract(job) => match job.step(resp) {
                StepView::Ask(j, req) => StepView::Ask(self.at(RestoreStageView::Extract(j)), req),
                StepView::Finished(_) => StepView::Finished(self.result()),
                StepView::Failed(e) => StepView::Failed(RestoreErrorView::FileOp(e)),
            },
        }
    }
}

pub type RestoreStep = Step<Restore, RestoreResult, RestoreError>;

impl Restore {
    fn probe_save(plan: RestorePlan, undo_path: Option<String>) -> (out: RestoreStep)
        ensures
            out.deep_view() == (RestoreView {
                plan: plan.deep_view(),
                stage: RestoreStageView::ProbeSource,
                undo_path: undo_path.deep_view(),
            }).probe_save(),
    {
        let req = FsRequest::Probe { path: plan.save_dir.clone() };
        Step::Ask(Restore { plan, stage: RestoreStage::ProbeSave, undo_path }, req)
    }

    fn extract(plan: RestorePlan, undo_path: Option<String>) -> (out: RestoreStep)
        ensures
            out.deep_view() == (RestoreView {
                plan: plan.deep_view(),
                stage: RestoreStageView::ProbeSource,
                undo_path: undo_path.deep_view(),
            }).extract(),
    {
        let (job, req) = extract_tar_gz(plan.source_path.as_str(), plan.save_dir.as_str());
        Step::Ask(Restore { plan, stage: RestoreStage::Extract(job), undo_path }, req)
    }

    /// Takes the response to the last request and makes the next move.
    pub fn step(self, resp: FsResponse) -> (out: RestoreStep)
        ensures
            out.deep_view() == self.deep_view().step(resp.deep_view()),
    {
        let Restore { plan, stage, undo_path } = self;
        match stage {
            RestoreStage::ProbeSource => match resp {
                FsResponse::Kind(PathKind::Missing) => Step::Failed(
                    RestoreError::BackupNotFound(plan.source_path),
                ),
                FsResponse::Kind(PathKind::File) => {
                    let started = match &plan.snapshot {
                        Some(s) => Some(
                            create_undo_snapshot(plan.save_dir.as_str(), s.0.as_str(), s.1.as_str()),
                        ),
                        None => None,
                    };
                    match started {
                        Some((job, req)) => Step::Ask(
                            Restore { plan, stage: RestoreStage::Snapshot(job), undo_path },
                            req,
                        ),
                        None => Self::probe_save(plan, undo_path),
                    }
                },
                FsResponse::Kind(_) => Step::Failed(
                    RestoreError::BackupNotFound(
                        concat2(plan.source_path.as_str(), " is not a file"),
                    ),
                ),
                _ => Step::Failed(RestoreError::out_of_turn()),
            },
            RestoreStage::Snapshot(job) => match job.step(resp) {
                Step::Ask(j, req) => Step::Ask(
                    Restore { plan, stage: RestoreStage::Snapshot(j), undo_path },
                    req,
                ),
                Step::Finished(info) => {
                    let made = match info {
                        Some(i) => Some(i.path),
                        None => None,
                    };
                    Self::probe_save(plan, made)
                },
                Step::Failed(e) => Step::Failed(e),
            },
            RestoreStage::ProbeSave => match resp {
                FsResponse::Kind(PathKind::Missing) => Self::extract(plan, undo_path),
                FsResponse::Kind(_) => {
                    let (job, req) = delete_dir_recursive(plan.save_dir.as_str());
                    Step::Ask(Restore { plan, stage: RestoreStage::Clear(job), undo_path }, req)
                },
                _ => Step::Failed(RestoreError::out_of_turn()),
            },
            RestoreStage::Clear(job) => match job.step(resp) {
                Step::Ask(j, req) => Step::Ask(
                    Restore { plan, stage: RestoreStage::Clear(j), undo_path },
                    req,
                ),
                Step::Finished(_) => Self::extract(plan, undo_path),
                Step::Failed(e) => Step::Failed(RestoreError::FileOp(e)),
            },
            RestoreStage::Extract(job) => match job.step(resp) {
                Step::Ask(j, req) => Step::Ask(
                    Restore { plan, stage: RestoreStage::Extract(j), undo_path },
                    req,
                ),
                Step::Finished(_) => {
                    let has_undo_snapshot = undo_path.is_some();
                    Step::Finished(
                        RestoreResult {
                            save_path: plan.save_dir,
                            save_name: plan.save_name,
                            backup_path: plan.source_path,
                            backup_name: plan.source_name,
                            undo_snapshot_path: undo_path,
                            has_undo_snapshot,
                        },
                    )
                },
                Step::Failed(e) => Step::Failed(RestoreError::FileOp(e)),
            },
        }
    }
}

/// Begins the restore of the archive `backup_name` of the save `save_name`.
/// The save as it is now is first archived as the undo snapshot
/// `snapshot_name`; then the save directory is removed and the archive
/// unpacked in its place.
pub fn restore_backup(
    save_path: &str,
    backup_base_path: &str,
    save_name: &str,
    backup_name: &str,
    snapshot_name: &str,
) -> (r: (Restore, FsRequest))
    ensures
        r.deep_view() == RestoreView::begin_backup(
            save_path@,
            backup_base_path@,
            save_name@,
            backup_name@,
            snapshot_name@,
        ),
{
    let store = join(backup_base_path, save_name);
    let source_path = join(store.as_str(), backup_name);
    let req = FsRequest::Probe { path: source_path.clone() };
    (
        Restore {
            plan: RestorePlan {
                save_name: String::from_str(save_name),
                save_dir: join(save_path, save_name),
                source_name: String::from_str(backup_name),
                source_path,
                snapshot: Some(
                    (
                        get_undo_snapshot_dir(backup_base_path, save_name),
                        String::from_str(snapshot_name),
                    ),
                ),
            },
            stage: RestoreStage::ProbeSource,
            undo_path: None,
        },
        req,
    )
}

/// Begins the restore of the undo snapshot `snapshot_name` of the save
/// `save_name`: the save directory is removed and the snapshot unpacked in
/// its place. No new undo snapshot is made.
pub fn restore_from_undo_snapshot(
    save_path: &str,
    backup_base_path: &str,
    save_name: &str,
    snapshot_name: &str,
) -> (r: (Restore, FsRequest))
    ensures
        r.deep_view() == RestoreView::begin_undo(
            save_path@,
            backup_base_path@,
            save_name@,
            snapshot_name@,
        ),
{
    let store = get_undo_snapshot_dir(backup_base_path, save_name);
    let source_path = join(store.as_str(), snapshot_name);
    let req = FsRequest::Probe { path: source_path.clone() };
    (
        Restore {
            plan: RestorePlan {
                save_name: String::from_str(save_name),
                save_dir: join(save_path, save_name),
                source_name: String::from_str(snapshot_name),
                source_path,
                snapshot: None,
            },
            stage: RestoreStage::ProbeSource,
            undo_path: None,
        },
        req,
    )
}

/// What is reported of each of the snapshot files `files` in the directory
/// `dir`, in their order; `None` where the creation time of one cannot be
/// written.
pub open spec fn snapshot_infos(files: Seq<BackupFileView>, dir: Seq<char>, save_name: Seq<char>)
    -> Option<Seq<UndoSnapshotInfoView>>
    decreases files.len(),
{
    if files.len() == 0 {
        Some(Seq::empty())
    } else {
        match snapshot_infos(files.drop_last(), dir, save_name) {
            Some(infos) => match snapshot_info_of(
                files.last().name,
                join_spec(dir, files.last().name),
                FileMeta { size: files.last().size_bytes, created: files.last().created },
                save_name,
            ) {
                Some(info) => Some(infos.push(info)),
                None => None,
            },
            None => None,
        }
    }
}

/// Where the first `k` snapshot files cannot all be described, neither can
/// all.
pub proof fn lemma_snapshot_infos_none(
    files: Seq<BackupFileView>,
    k: int,
    dir: Seq<char>,
    save_name: Seq<char>,
)
    requires
        0 <= k <= files.len(),
        snapshot_infos(files.take(k), dir, save_name) is None,
    ensures
        snapshot_infos(files, dir, save_name) is None,
    decreases files.len() - k,
{
    if k < files.len() {
        assert(files.take(k + 1).drop_last() == files.take(k));
        lemma_snapshot_infos_none(files, k + 1, dir, save_name);
    } else {
        assert(files.take(k) == files);
    }
}

/// What is reported of each of the snapshot files `files`.
pub fn describe_snapshots(files: &Vec<BackupFile>, dir: &str, save_name: &str) -> (r: Option<
    Vec<UndoSnapshotInfo>,
>)
    ensures
        r.deep_view() == snapshot_infos(files.deep_view(), dir@, save_name@),
{
    let ghost all = files.deep_view();
    let mut infos: Vec<UndoSnapshotInfo> = Vec::new();
    let mut i: usize = 0;
    assert(all.take(0) =~= Seq::<BackupFileView>::empty());
    assert(infos.deep_view() =~= Seq::<UndoSnapshotInfoView>::empty());
    while i < files.len()
        invariant
            i <= files.len(),
            all == files.deep_view(),
            snapshot_infos(all.take(i as int), dir@, save_name@) == Some(infos.deep_view()),
        decreases files.len() - i,
    {
        let ghost sofar = infos.deep_view();
        proof {
            assert(all.take(i + 1).drop_last() == all.take(i as int));
            assert(all.take(i + 1).last() == files@[i as int].deep_view());
        }
        let f = &files[i];
        let path = join(dir, f.name.as_str());
        match describe_snapshot(
            f.name.as_str(),
            path.as_str(),
            FileMeta { size: f.size_bytes, created: f.created },
            save_name,
        ) {
            Some(info) => {
                infos.push(info);
                assert(infos.deep_view() =~= sofar.push(info.deep_view()));
            },
            None => {
                proof {
                    lemma_snapshot_infos_none(all, i + 1, dir@, save_name@);
                }
                return None;
            },
        }
        i = i + 1;
    }
    assert(all.take(files.len() as int) == all);
    Some(infos)
}

/// The listing of the undo snapshots of one save, under way.
#[derive(Debug, Clone, PartialEq, Eq)]
pub struct ListUndoSnapshots {
    pub save_name: String,
    pub dir: String,
    pub listing: Listing,
}

pub ghost struct ListUndoSnapshotsView {
    pub save_name: Seq<char>,
    pub dir: Seq<char>,
    pub listing: ListingView,
}

impl DeepView for ListUndoSnapshots {
    type V = ListUndoSnapshotsView;

    open spec fn deep_view(&self) -> ListUndoSnapshotsView {
        ListUndoSnapshotsView {
            save_name: self.save_name@,
            dir: self.dir@,
            listing: self.listing.deep_view(),
        }
    }
}

pub type ListUndoSnapshotsStepView = StepView<
    ListUndoSnapshotsView,
    Seq<UndoSnapshotInfoView>,
    RestoreErrorView,
>;

impl ListUndoSnapshotsView {
    /// The listing at its beginning, and the probe of the snapshot directory
    /// it begins with.
    pub open spec fn begin(backup_base_path: Seq<char>, save_name: Seq<char>) -> (
        ListUndoSnapshotsView,
        FsRequestView,
    ) {
        let dir = undo_dir_of(backup_base_path, save_name);
        (
            ListUndoSnapshotsView { save_name, dir, listing: ListingView::begin(dir).0 },
            ListingView::begin(dir).1,
        )
    }

    /// What is reported for the listing `entries` of the snapshot directory:
    /// the archive files in it whose names begin with `undo_`, newest first.
    pub open spec fn report(dir: Seq<char>, save_name: Seq<char>, entries: Seq<DirEntryView>)
        -> ListUndoSnapshotsStepView {
        match archive_files(entries, "undo_"@) {
            Err(e) => StepView::Failed(RestoreErrorView::FileOp(FileOpsErrorView::Io(e))),
            Ok(files) => match snapshot_infos(ranked::<BackupFile>(files), dir, save_name) {
                Some(infos) => StepView::Finished(infos),
                None => StepView::Failed(RestoreErrorView::bad_time()),
            },
        }
    }

    /// The next move. A snapshot directory that does not exist has no
    /// snapshots.
    pub open spec fn step(self, resp: FsResponseView) -> ListUndoSnapshotsStepView {
        match self.listing.step(resp) {
            StepView::Ask(l, req) => StepView::Ask(
                ListUndoSnapshotsView { listing: l, ..self },
                req,
            ),
            StepView::Finished(entries) => Self::report(self.dir, self.save_name, entries),
            StepView::Failed(e) => StepView::Failed(RestoreErrorView::FileOp(e)),
        }
    }
}

impl ListUndoSnapshots {
    /// Takes the response to the last request and makes the next move.
    pub fn step(self, resp: FsResponse) -> (out: Step<
        ListUndoSnapshots,
        Vec<UndoSnapshotInfo>,
        RestoreError,
    >)
        ensures
            out.deep_view() == self.deep_view().step(resp.deep_view()),
    {
        match self.listing.step(resp) {
            Step::Ask(l, req) => Step::Ask(
                ListUndoSnapshots { save_name: self.save_name, dir: self.dir, listing: l },
                req,
            ),
            Step::Finished(entries) => match list_archive_files(&entries, "undo_") {
                Err(e) => Step::Failed(RestoreError::FileOp(FileOpsError::Io(e))),
                Ok(files) => {
                    let sorted = sort_ranked(files);
                    match describe_snapshots(&sorted, self.dir.as_str(), self.save_name.as_str()) {
                        Some(infos) => Step::Finished(infos),
                        None => Step::Failed(RestoreError::bad_time()),
                    }
                },
            },
            Step::Failed(e) => Step::Failed(RestoreError::FileOp(e)),
        }
    }
}

/// Begins the listing of the undo snapshots of the save `save_name`, newest
/// first.
pub fn list_undo_snapshots(backup_base_path: &str, save_name: &str) -> (r: (
    ListUndoSnapshots,
    FsRequest,
))
    ensures
        r.deep_view() == ListUndoSnapshotsView::begin(backup_base_path@, save_name@),
{
    let dir = get_undo_snapshot_dir(backup_base_path, save_name);
    let (listing, req) = Listing::begin(dir.as_str());
    (ListUndoSnapshots { save_name: String::from_str(save_name), dir, listing }, req)
}

/// The removal of one undo snapshot under way. `removal` is `None` while the
/// snapshot is being probed.
#[derive(Debug, Clone, PartialEq, Eq)]
pub struct DeleteUndoSnapshot {
    pub path: String,
    pub removal: Option<RemoveJob>,
}

pub ghost struct DeleteUndoSnapshotView {
    pub path: Seq<char>,
    pub removal: Option<RemoveJobView>,
}

impl DeepView for DeleteUndoSnapshot {
    type V = DeleteUndoSnapshotView;

    open spec fn deep_view(&self) -> DeleteUndoSnapshotView {
        DeleteUndoSnapshotView { path: self.path@, removal: self.removal.deep_view() }
    }
}

impl DeleteUndoSnapshotView {
    /// The removal at its beginning, and the probe of the snapshot it begins
    /// with.
    pub open spec fn begin(
        backup_base_path: Seq<char>,
        save_name: Seq<char>,
        snapshot_name: Seq<char>,
    ) -> (DeleteUndoSnapshotView, FsRequestView) {
        let path = join_spec(undo_dir_of(backup_base_path, save_name), snapshot_name);
        (DeleteUndoSnapshotView { path, removal: None }, FsRequestView::Probe { path })
    }

    /// The next move: a snapshot that is not there is `BackupNotFound`; one
    /// that is, is removed.
    pub open spec fn step(self, resp: FsResponseView) -> StepView<
        DeleteUndoSnapshotView,
        (),
        RestoreErrorView,
    > {
        match self.removal {
            None => match resp {
                FsResponseView::Kind(PathKind::Missing) => StepView::Failed(
                    RestoreErrorView::BackupNotFound(self.path),
                ),
                FsResponseView::Kind(_) => StepView::Ask(
                    DeleteUndoSnapshotView {
                        removal: Some(RemoveJobView::begin(false, self.path).0),
                        ..self
                    },
                    RemoveJobView::begin(false, self.path).1,
                ),
                _ => StepView::Failed(RestoreErrorView::out_of_turn()),
            },
            Some(job) => match job.step(resp) {
                StepView::Ask(j, req) => StepView::Ask(
                    DeleteUndoSnapshotView { removal: Some(j), ..self },
                    req,
                ),
                StepView::Finished(_) => StepView::Finished(()),
                StepView::Failed(e) => StepView::Failed(RestoreErrorView::FileOp(e)),
            },
        }
    }
}

impl DeleteUndoSnapshot {
    /// Takes the response to the last request and makes the next move.
    pub fn step(self, resp: FsResponse) -> (out: Step<DeleteUndoSnapshot, (), RestoreError>)
        ensures
            out.deep_view() == self.deep_view().step(resp.deep_view()),
    {
        let DeleteUndoSnapshot { path, removal } = self;
        match removal {
            None => match resp {
                FsResponse::Kind(PathKind::Missing) => Step::Failed(
                    RestoreError::BackupNotFound(path),
                ),
                FsResponse::Kind(_) => {
                    let (job, req) = delete_file(path.as_str());
                    Step::Ask(DeleteUndoSnapshot { path, removal: Some(job) }, req)
                },
                _ => Step::Failed(RestoreError::out_of_turn()),
            },
            Some(job) => match job.step(resp) {
                Step::Ask(j, req) => Step::Ask(
                    DeleteUndoSnapshot { path, removal: Some(j) },
                    req,
                ),
                Step::Finished(_) => Step::Finished(()),
                Step::Failed(e) => Step::Failed(RestoreError::FileOp(e)),
            },
        }
    }
}

/// Begins the removal of the undo snapshot `snapshot_name` of the save
/// `save_name`.
pub fn delete_undo_snapshot(backup_base_path: &str, save_name: &str, snapshot_name: &str) -> (r: (
    DeleteUndoSnapshot,
    FsRequest,
))
    ensures
        r.deep_view() == DeleteUndoSnapshotView::begin(
            backup_base_path@,
            save_name@,
            snapshot_name@,
        ),
{
    let dir = get_undo_snapshot_dir(backup_base_path, save_name);
    let path = join(dir.as_str(), snapshot_name);
    let req = FsRequest::Probe { path: path.clone() };
    (DeleteUndoSnapshot { path, removal: None }, req)
}

} // verus!
