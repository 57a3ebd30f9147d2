//! The auto-backup schedule: which saves are backed up on a timer, how often,
//! and whether the service runs. The state is a plain value; whoever runs
//! the timer keeps it behind a lock and asks it what to do.

use crate::backup::{BackupError, BackupErrorView};
use crate::clock::{now, rfc3339_at, rfc3339_of, Timestamp};
use crate::config::{ConfigError, ConfigErrorView};
use crate::file_ops::{
    directory_names, out_of_turn, pick_directory_names, FileOpsError, FileOpsErrorView,
};
use crate::fsio::{
    FsRequest, FsRequestView, FsResponse, FsResponseView, PathKind, Step, StepView,
};
use crate::names::{
    distinct, find_named, lemma_lookup_upsert_other, lemma_lookup_upsert_same, lemma_position,
    lemma_position_at, lemma_upsert_distinct, lookup, position, upsert, Named,
};
use crate::text::concat2;
use vstd::prelude::*;
use vstd::string::*;

verus! {

/// Default auto backup interval in seconds (5 minutes).
pub const DEFAULT_AUTO_BACKUP_INTERVAL: u64 = 300;

/// Minimum auto backup interval in seconds (1 minute).
pub const MIN_AUTO_BACKUP_INTERVAL: u64 = 60;

/// Maximum auto backup interval in seconds (24 hours).
pub const MAX_AUTO_BACKUP_INTERVAL: u64 = 86400;

/// Seconds between two looks at the schedule while the service runs.
pub const POLL_PERIOD_SECONDS: u64 = 10;

/// Auto backup state for a single save.
#[derive(Debug, Clone, PartialEq, Eq)]
pub struct SaveAutoBackupState {
    /// Name of the save.
    pub save_name: String,
    /// Whether auto backup is enabled for this save.
    pub enabled: bool,
    /// Last time a backup was created, in RFC 3339 form.
    pub last_backup_time: Option<String>,
    /// Next scheduled backup time, in RFC 3339 form.
    pub next_backup_time: Option<String>,
}

pub ghost struct SaveStateView {
    pub save_name: Seq<char>,
    pub enabled: bool,
    pub last_backup_time: Option<Seq<char>>,
    pub next_backup_time: Option<Seq<char>>,
}

impl DeepView for SaveAutoBackupState {
    type V = SaveStateView;

    open spec fn deep_view(&self) -> SaveStateView {
        SaveStateView {
            save_name: self.save_name@,
            enabled: self.enabled,
            last_backup_time: self.last_backup_time.deep_view(),
            next_backup_time: self.next_backup_time.deep_view(),
        }
    }
}

impl Named for SaveAutoBackupState {
    open spec fn name_of(v: SaveStateView) -> Seq<char> {
        v.save_name
    }

    fn name(&self) -> (n: &str) {
        self.save_name.as_str()
    }
}

fn copy_text(t: &Option<String>) -> (r: Option<String>)
    ensures
        r.deep_view() == t.deep_view(),
{
    match t {
        Some(s) => Some(s.clone()),
        None => None,
    }
}

impl SaveAutoBackupState {
    /// The state of a save that the schedule has not dealt with.
    pub open spec fn fresh(save_name: Seq<char>) -> SaveStateView {
        SaveStateView {
            save_name,
            enabled: false,
            last_backup_time: None,
            next_backup_time: None,
        }
    }

    /// A copy of this state.
    pub fn duplicate(&self) -> (r: SaveAutoBackupState)
        ensures
            r.deep_view() == self.deep_view(),
    {
        SaveAutoBackupState {
            save_name: self.save_name.clone(),
            enabled: self.enabled,
            last_backup_time: copy_text(&self.last_backup_time),
            next_backup_time: copy_text(&self.next_backup_time),
        }
    }
}

/// Overall auto backup status.
#[derive(Debug, Clone, PartialEq, Eq)]
pub struct AutoBackupStatus {
    /// Whether the auto backup service is running.
    pub is_running: bool,
    /// Configured backup interval in seconds.
    pub interval_seconds: u64,
    /// Per-save auto backup states, in the order the saves became known.
    pub saves: Vec<SaveAutoBackupState>,
    /// When the service was started, in RFC 3339 form.
    pub started_at: Option<String>,
}

/// The schedule as a mathematical value; also the view of
/// [`AutoBackupStatus`].
pub ghost struct ScheduleView {
    pub is_running: bool,
    pub interval: u64,
    pub saves: Seq<SaveStateView>,
    pub started_at: Option<Seq<char>>,
}

impl DeepView for AutoBackupStatus {
    type V = ScheduleView;

    open spec fn deep_view(&self) -> ScheduleView {
        ScheduleView {
            is_running: self.is_running,
            interval: self.interval_seconds,
            saves: self.saves.deep_view(),
            started_at: self.started_at.deep_view(),
        }
    }
}

/// Error type for auto backup operations.
#[derive(Debug, Clone, PartialEq, Eq)]
pub enum AutoBackupError {
    /// File operation error.
    FileOp(FileOpsError),
    /// Config error.
    Config(ConfigError),
    /// Backup error.
    Backup(BackupError),
    /// Auto backup is not running.
    NotRunning,
    /// Auto backup is already running.
    AlreadyRunning,
    /// Invalid interval.
    InvalidInterval(String),
    /// Save not found.
    SaveNotFound(String),
}

pub ghost enum AutoBackupErrorView {
    FileOp(FileOpsErrorView),
    Config(ConfigErrorView),
    Backup(BackupErrorView),
    NotRunning,
    AlreadyRunning,
    InvalidInterval(Seq<char>),
    SaveNotFound(Seq<char>),
}

impl DeepView for AutoBackupError {
    type V = AutoBackupErrorView;

    open spec fn deep_view(&self) -> AutoBackupErrorView {
        match self {
            AutoBackupError::FileOp(e) => AutoBackupErrorView::FileOp(e.deep_view()),
            AutoBackupError::Config(e) => AutoBackupErrorView::Config(e.deep_view()),
            AutoBackupError::Backup(e) => AutoBackupErrorView::Backup(e.deep_view()),
            AutoBackupError::NotRunning => AutoBackupErrorView::NotRunning,
            AutoBackupError::AlreadyRunning => AutoBackupErrorView::AlreadyRunning,
            AutoBackupError::InvalidInterval(m) => AutoBackupErrorView::InvalidInterval(m@),
            AutoBackupError::SaveNotFound(n) => AutoBackupErrorView::SaveNotFound(n@),
        }
    }
}

impl AutoBackupErrorView {
    /// The error as a sentence.
    pub open spec fn message(self) -> Seq<char> {
        match self {
            AutoBackupErrorView::FileOp(e) => "File operation error: "@ + e.message(),
            AutoBackupErrorView::Config(e) => "Config error: "@ + e.message(),
            AutoBackupErrorView::Backup(e) => "Backup error: "@ + e.message(),
            AutoBackupErrorView::NotRunning => "Auto backup service is not running"@,
            AutoBackupErrorView::AlreadyRunning => "Auto backup service is already running"@,
            AutoBackupErrorView::InvalidInterval(m) => "Invalid interval: "@ + m,
            AutoBackupErrorView::SaveNotFound(n) => "Save not found: "@ + n,
        }
    }
}

impl AutoBackupError {
    /// The error as a sentence.
    pub fn to_string(&self) -> (s: String)
        ensures
            s@ == self.deep_view().message(),
    {
        match self {
            AutoBackupError::FileOp(e) => {
                let inner = e.to_string();
                concat2("File operation error: ", inner.as_str())
            },
            AutoBackupError::Config(e) => {
                let inner = e.to_string();
                concat2("Config error: ", inner.as_str())
            },
            AutoBackupError::Backup(e) => {
                let inner = e.to_string();
                concat2("Backup error: ", inner.as_str())
            },
            AutoBackupError::NotRunning => String::from_str("Auto backup service is not running"),
            AutoBackupError::AlreadyRunning => String::from_str(
                "Auto backup service is already running",
            ),
            AutoBackupError::InvalidInterval(m) => concat2("Invalid interval: ", m.as_str()),
            AutoBackupError::SaveNotFound(n) => concat2("Save not found: ", n.as_str()),
        }
    }
}

/// Result type for auto backup operations.
pub type AutoBackupResultT<T> = Result<T, AutoBackupError>;

/// When the timer last backed up a save: milliseconds on a clock that never
/// goes back.
#[derive(Debug, Clone, PartialEq, Eq)]
pub struct LastRun {
    pub save_name: String,
    pub at_millis: u64,
}

pub ghost struct LastRunView {
    pub save_name: Seq<char>,
    pub at_millis: u64,
}

impl DeepView for LastRun {
    type V = LastRunView;

    open spec fn deep_view(&self) -> LastRunView {
        LastRunView { save_name: self.save_name@, at_millis: self.at_millis }
    }
}

impl Named for LastRun {
    open spec fn name_of(v: LastRunView) -> Seq<char> {
        v.save_name
    }

    fn name(&self) -> (n: &str) {
        self.save_name.as_str()
    }
}

/// What the timer works through in one cycle: the interval in force and the
/// saves that are enabled.
#[derive(Debug, Clone, PartialEq, Eq)]
pub struct Cycle {
    pub interval_seconds: u64,
    pub saves: Vec<String>,
}

pub ghost struct CycleView {
    pub interval_seconds: u64,
    pub saves: Seq<Seq<char>>,
}

impl DeepView for Cycle {
    type V = CycleView;

    open spec fn deep_view(&self) -> CycleView {
        CycleView { interval_seconds: self.interval_seconds, saves: self.saves.deep_view() }
    }
}

/// The message for an interval that is refused.
pub open spec fn interval_refusal() -> Seq<char> {
    "Interval must be between 60 and 86400 seconds"@
}

/// The names of the enabled saves among `saves`, in their order.
pub open spec fn enabled_names(saves: Seq<SaveStateView>) -> Seq<Seq<char>>
    decreases saves.len(),
{
    if saves.len() == 0 {
        Seq::empty()
    } else if saves.last().enabled {
        enabled_names(saves.drop_last()).push(saves.last().save_name)
    } else {
        enabled_names(saves.drop_last())
    }
}

/// The states after a scan of the save root that found the directories
/// `names`: one state for each name, in the order of the scan, the state the
/// save had where it had one, else a fresh one. Saves that the scan did not
/// find are gone.
pub open spec fn refreshed(old_saves: Seq<SaveStateView>, names: Seq<Seq<char>>) -> Seq<
    SaveStateView,
>
    decreases names.len(),
{
    if names.len() == 0 {
        Seq::empty()
    } else {
        let before = refreshed(old_saves, names.drop_last());
        if position::<SaveAutoBackupState>(before, names.last()) is Some {
            before
        } else {
            before.push(
                match lookup::<SaveAutoBackupState>(old_saves, names.last()) {
                    Some(s) => s,
                    None => SaveAutoBackupState::fresh(names.last()),
                },
            )
        }
    }
}

/// A save that the scan did not find is no longer known after it.
pub proof fn lemma_refresh_drops_missing(
    old_saves: Seq<SaveStateView>,
    names: Seq<Seq<char>>,
    name: Seq<char>,
)
    requires
        !names.contains(name),
    ensures
        lookup::<SaveAutoBackupState>(refreshed(old_saves, names), name) is None,
        forall|k: int|
            0 <= k < refreshed(old_saves, names).len() ==> names.contains(
                (#[trigger] refreshed(old_saves, names)[k]).save_name,
            ),
    decreases names.len(),
{
    lemma_refresh_names(old_saves, names);
    lemma_position::<SaveAutoBackupState>(refreshed(old_saves, names), name);
}

/// Every state after a scan is that of a name that the scan found.
pub proof fn lemma_refresh_names(old_saves: Seq<SaveStateView>, names: Seq<Seq<char>>)
    ensures
        forall|k: int|
            0 <= k < refreshed(old_saves, names).len() ==> names.contains(
                (#[trigger] refreshed(old_saves, names)[k]).save_name,
            ),
    decreases names.len(),
{
    if names.len() > 0 {
        let head = names.drop_last();
        let before = refreshed(old_saves, head);
        lemma_refresh_names(old_saves, head);
        lemma_position::<SaveAutoBackupState>(old_saves, names.last());
        assert forall|k: int| 0 <= k < refreshed(old_saves, names).len() implies names.contains(
            (#[trigger] refreshed(old_saves, names)[k]).save_name,
        ) by {
            if k < before.len() {
                let n = before[k].save_name;
                assert(head.contains(n));
                let i = choose|i: int| 0 <= i < head.len() && head[i] == n;
                assert(names[i] == n);
            } else {
                assert(names[names.len() - 1] == names.last());
            }
        }
    }
}

/// A save that the scan found has after it the state it had before, or a
/// fresh one where it had none.
pub proof fn lemma_refresh_keeps_found(
    old_saves: Seq<SaveStateView>,
    names: Seq<Seq<char>>,
    name: Seq<char>,
)
    requires
        names.contains(name),
    ensures
        lookup::<SaveAutoBackupState>(refreshed(old_saves, names), name) == Some(
            match lookup::<SaveAutoBackupState>(old_saves, name) {
                Some(s) => s,
                None => SaveAutoBackupState::fresh(name),
            },
        ),
    decreases names.len(),
{
    let head = names.drop_last();
    let before = refreshed(old_saves, head);
    let after = refreshed(old_saves, names);
    lemma_position::<SaveAutoBackupState>(old_saves, name);
    lemma_position::<SaveAutoBackupState>(old_saves, names.last());
    lemma_position::<SaveAutoBackupState>(before, names.last());
    lemma_position::<SaveAutoBackupState>(before, name);
    if head.contains(name) {
        lemma_refresh_keeps_found(old_saves, head, name);
        if position::<SaveAutoBackupState>(before, names.last()) is None {
            let i = position::<SaveAutoBackupState>(before, name)->0;
            assert(forall|k: int| 0 <= k < before.len() ==> after[k] == before[k]);
            lemma_position_at::<SaveAutoBackupState>(after, name, i);
        }
    } else {
        let i = choose|i: int| 0 <= i < names.len() && names[i] == name;
        if i < head.len() {
            assert(head[i] == name);
        }
        assert(names.last() == name);
        lemma_refresh_drops_missing(old_saves, head, name);
        assert(forall|k: int| 0 <= k < before.len() ==> after[k] == before[k]);
        lemma_position_at::<SaveAutoBackupState>(after, name, before.len() as int);
    }
}

/// Whether a save that was last backed up at `last`, if ever, is due at
/// `now_millis`: it never was, or at least the interval has passed. A clock
/// reading before the last backup counts as no time passed.
pub open spec fn due(last: Option<LastRunView>, interval_seconds: u64, now_millis: u64) -> bool {
    match last {
        None => true,
        Some(run) => {
            let elapsed = if now_millis >= run.at_millis {
                now_millis - run.at_millis
            } else {
                0
            };
            elapsed >= interval_seconds * 1000
        },
    }
}

/// Whether the save `save_name` is due for a backup.
pub fn is_due(runs: &Vec<LastRun>, save_name: &str, interval_seconds: u64, now_millis: u64) -> (r:
    bool)
    ensures
        r == due(lookup::<LastRun>(runs.deep_view(), save_name@), interval_seconds, now_millis),
{
    match find_named(runs, save_name) {
        None => true,
        Some(i) => {
            let at = runs[i].at_millis;
            let elapsed = if now_millis >= at {
                now_millis - at
            } else {
                0
            };
            elapsed as u128 >= interval_seconds as u128 * 1000
        },
    }
}

/// Notes that the save `save_name` was backed up at `now_millis`.
pub fn note_run(runs: &mut Vec<LastRun>, save_name: &str, now_millis: u64)
    ensures
        final(runs).deep_view() == upsert::<LastRun>(
            old(runs).deep_view(),
            LastRunView { save_name: save_name@, at_millis: now_millis },
        ),
{
    let run = LastRun { save_name: String::from_str(save_name), at_millis: now_millis };
    let ghost before = runs.deep_view();
    match find_named(runs, save_name) {
        Some(i) => {
            runs.set(i, run);
            assert(runs.deep_view() =~= before.update(i as int, run.deep_view()));
        },
        None => {
            runs.push(run);
            assert(runs.deep_view() =~= before.push(run.deep_view()));
        },
    }
}

/// The scan of the save root for a refresh of the schedule, under way.
#[derive(Debug, Clone, PartialEq, Eq)]
pub struct SaveRootScan {
    pub save_path: String,
    pub probing: bool,
}

pub ghost struct SaveRootScanView {
    pub save_path: Seq<char>,
    pub probing: bool,
}

impl DeepView for SaveRootScan {
    type V = SaveRootScanView;

    open spec fn deep_view(&self) -> SaveRootScanView {
        SaveRootScanView { save_path: self.save_path@, probing: self.probing }
    }
}

pub type SaveRootScanStepView = StepView<
    SaveRootScanView,
    Option<Seq<Seq<char>>>,
    AutoBackupErrorView,
>;

impl SaveRootScanView {
    /// The scan at its beginning, and the probe it begins with.
    pub open spec fn begin(save_path: Seq<char>) -> (SaveRootScanView, FsRequestView) {
        (SaveRootScanView { save_path, probing: true }, FsRequestView::Probe { path: save_path })
    }

    /// The next move. A save root that does not exist gives `None`; else the
    /// scan gives the names of the directories in it, in the order of the
    /// listing.
    pub open spec fn step(self, resp: FsResponseView) -> SaveRootScanStepView {
        if self.probing {
            match resp {
                FsResponseView::Kind(PathKind::Missing) => StepView::Finished(None),
                FsResponseView::Kind(_) => StepView::Ask(
                    SaveRootScanView { probing: false, ..self },
                    FsRequestView::ReadDir { path: self.save_path },
                ),
                _ => StepView::Failed(
                    AutoBackupErrorView::FileOp(FileOpsErrorView::Io(out_of_turn())),
                ),
            }
        } else {
            match resp {
                FsResponseView::Entries(es) => StepView::Finished(Some(directory_names(es))),
                FsResponseView::Failed(e) => StepView::Failed(
                    AutoBackupErrorView::FileOp(FileOpsErrorView::Io(e)),
                ),
                _ => StepView::Failed(
                    AutoBackupErrorView::FileOp(FileOpsErrorView::Io(out_of_turn())),
                ),
            }
        }
    }
}

impl SaveRootScan {
    /// Takes the response to the last request and makes the next move.
    pub fn step(self, resp: FsResponse) -> (out: Step<
        SaveRootScan,
        Option<Vec<String>>,
        AutoBackupError,
    >)
        ensures
            out.deep_view() == self.deep_view().step(resp.deep_view()),
    {
        if self.probing {
            match resp {
                FsResponse::Kind(PathKind::Missing) => Step::Finished(None),
                FsResponse::Kind(_) => {
                    let req = FsRequest::ReadDir { path: self.save_path.clone() };
                    Step::Ask(SaveRootScan { save_path: self.save_path, probing: false }, req)
                },
                _ => Step::Failed(AutoBackupError::FileOp(FileOpsError::out_of_turn())),
            }
        } else {
            match resp {
                FsResponse::Entries(es) => Step::Finished(Some(pick_directory_names(&es))),
                FsResponse::Failed(e) => Step::Failed(
                    AutoBackupError::FileOp(FileOpsError::Io(e)),
                ),
                _ => Step::Failed(AutoBackupError::FileOp(FileOpsError::out_of_turn())),
            }
        }
    }
}

/// Begins the scan of the save root `save_path` whose result
/// [`AutoBackupManager::refresh_save_states`] takes.
pub fn scan_save_root(save_path: &str) -> (r: (SaveRootScan, FsRequest))
    ensures
        r.deep_view() == SaveRootScanView::begin(save_path@),
{
    (
        SaveRootScan { save_path: String::from_str(save_path), probing: true },
        FsRequest::Probe { path: String::from_str(save_path) },
    )
}

/// The schedule: whether the service runs, since when, at what interval, and
/// the state of each save.
#[derive(Debug, Clone, PartialEq, Eq)]
pub struct AutoBackupManager {
    is_running: bool,
    interval: u64,
    save_states: Vec<SaveAutoBackupState>,
    started_at: Option<String>,
}

impl DeepView for AutoBackupManager {
    type V = ScheduleView;

    closed spec fn deep_view(&self) -> ScheduleView {
        ScheduleView {
            is_running: self.is_running,
            interval: self.interval,
            saves: self.save_states.deep_view(),
            started_at: self.started_at.deep_view(),
        }
    }
}

impl ScheduleView {
    /// The schedule of a fresh manager: stopped, at the default interval,
    /// with no saves.
    pub open spec fn initial() -> ScheduleView {
        ScheduleView {
            is_running: false,
            interval: DEFAULT_AUTO_BACKUP_INTERVAL,
            saves: Seq::empty(),
            started_at: None,
        }
    }

    /// What holds of a schedule at all times: the interval is within its
    /// bounds, the start time is known exactly while the service runs, and
    /// no save has two states.
    pub open spec fn valid(self) -> bool {
        &&& MIN_AUTO_BACKUP_INTERVAL <= self.interval <= MAX_AUTO_BACKUP_INTERVAL
        &&& self.is_running <==> self.started_at is Some
        &&& distinct::<SaveAutoBackupState>(self.saves)
    }

    /// The schedule once the service has been started at the time written
    /// as `now`.
    pub open spec fn started(self, now: Seq<char>) -> ScheduleView {
        ScheduleView { is_running: true, started_at: Some(now), ..self }
    }

    /// The schedule once the save `name` has been enabled, its next backup
    /// being due at `next`.
    pub open spec fn with_enabled(self, name: Seq<char>, next: Option<Seq<char>>) -> ScheduleView {
        ScheduleView {
            saves: upsert::<SaveAutoBackupState>(self.saves, self.enabling(name, next)),
            ..self
        }
    }

    /// The schedule once a backup of the save `name` has been recorded.
    pub open spec fn with_recorded(
        self,
        name: Seq<char>,
        last: Option<Seq<char>>,
        next: Option<Seq<char>>,
    ) -> ScheduleView {
        ScheduleView { saves: self.recording(name, last, next), ..self }
    }

    /// What starting the service at the instant `now` gives: the schedule
    /// after it, and the error where there is one. A service that runs is
    /// `AlreadyRunning`; an instant that cannot be written as a date is a
    /// file error; both leave the schedule as it was.
    pub open spec fn start_outcome(self, now: Timestamp) -> (
        ScheduleView,
        Option<AutoBackupErrorView>,
    ) {
        if self.is_running {
            (self, Some(AutoBackupErrorView::AlreadyRunning))
        } else {
            match rfc3339_at(now) {
                Some(text) => (self.started(text), None),
                None => (
                    self,
                    Some(AutoBackupErrorView::FileOp(FileOpsErrorView::Io(clock_out_of_range()))),
                ),
            }
        }
    }

    /// What enabling the save `name` at the instant `now` gives, where
    /// `kind` is what stands at the save's path: anything but a directory is
    /// `SaveNotFound` and leaves the schedule as it was; a directory is
    /// enabled, with `now` as the time of its next backup.
    pub open spec fn enable_outcome(self, name: Seq<char>, kind: PathKind, now: Timestamp) -> (
        ScheduleView,
        Option<AutoBackupErrorView>,
    ) {
        if kind == PathKind::Directory {
            (self.with_enabled(name, rfc3339_at(now)), None)
        } else {
            (self, Some(AutoBackupErrorView::SaveNotFound(name)))
        }
    }

    /// The schedule once a backup of the save `name` made at the instant
    /// `now` under the interval `interval_seconds` has been recorded: `now`
    /// is the time of its last backup, and the instant one interval later
    /// the time of its next.
    pub open spec fn record_outcome(self, name: Seq<char>, now: Timestamp, interval_seconds: u64)
        -> ScheduleView {
        self.with_recorded(
            name,
            rfc3339_at(now),
            match now.later(interval_seconds) {
                Some(t) => rfc3339_at(t),
                None => None,
            },
        )
    }

    /// Whether auto backup is enabled for the save `name`.
    pub open spec fn enabled(self, name: Seq<char>) -> bool {
        match lookup::<SaveAutoBackupState>(self.saves, name) {
            Some(s) => s.enabled,
            None => false,
        }
    }

    /// The state that enabling gives the save `name`, its next backup being
    /// due at `next`.
    pub open spec fn enabling(self, name: Seq<char>, next: Option<Seq<char>>) -> SaveStateView {
        SaveStateView {
            save_name: name,
            enabled: true,
            last_backup_time: match lookup::<SaveAutoBackupState>(self.saves, name) {
                Some(s) => s.last_backup_time,
                None => None,
            },
            next_backup_time: next,
        }
    }

    /// The states after the save `name` has been disabled.
    pub open spec fn disabling(self, name: Seq<char>) -> Seq<SaveStateView> {
        match lookup::<SaveAutoBackupState>(self.saves, name) {
            Some(s) => upsert::<SaveAutoBackupState>(
                self.saves,
                SaveStateView { enabled: false, next_backup_time: None, ..s },
            ),
            None => self.saves,
        }
    }

    /// The states after a backup of the save `name` at the time `last`, the
    /// next being due at `next`.
    pub open spec fn recording(
        self,
        name: Seq<char>,
        last: Option<Seq<char>>,
        next: Option<Seq<char>>,
    ) -> Seq<SaveStateView> {
        match lookup::<SaveAutoBackupState>(self.saves, name) {
            Some(s) => upsert::<SaveAutoBackupState>(
                self.saves,
                SaveStateView { last_backup_time: last, next_backup_time: next, ..s },
            ),
            None => self.saves,
        }
    }
}

/// The message for an instant that cannot be written as a date.
pub open spec fn clock_out_of_range() -> Seq<char> {
    "time is out of range"@
}

/// The error of a result, by its view.
pub open spec fn error_of(r: AutoBackupResultT<()>) -> Option<AutoBackupErrorView> {
    match r {
        Ok(_) => None,
        Err(e) => Some(e.deep_view()),
    }
}

/// After a scan no save has two states.
pub proof fn lemma_refreshed_distinct(old_saves: Seq<SaveStateView>, names: Seq<Seq<char>>)
    ensures
        distinct::<SaveAutoBackupState>(refreshed(old_saves, names)),
    decreases names.len(),
{
    if names.len() > 0 {
        let before = refreshed(old_saves, names.drop_last());
        let after = refreshed(old_saves, names);
        lemma_refreshed_distinct(old_saves, names.drop_last());
        lemma_position::<SaveAutoBackupState>(before, names.last());
        lemma_position::<SaveAutoBackupState>(old_saves, names.last());
        assert forall|i: int, j: int| 0 <= i < j < after.len() implies (#[trigger] after[i]).save_name
            != (#[trigger] after[j]).save_name by {
            if j < before.len() {
                assert(after[i] == before[i] && after[j] == before[j]);
            } else {
                assert(after[i] == before[i]);
            }
        }
    }
}

/// A fresh schedule is valid, and every change that the manager makes to a
/// valid schedule leaves it valid.
pub proof fn lemma_schedule_stays_valid(
    v: ScheduleView,
    name: Seq<char>,
    kind: PathKind,
    now: Timestamp,
    seconds: u64,
    names: Seq<Seq<char>>,
)
    requires
        v.valid(),
    ensures
        ScheduleView::initial().valid(),
        v.start_outcome(now).0.valid(),
        v.is_running ==> (ScheduleView { is_running: false, started_at: None, ..v }).valid(),
        MIN_AUTO_BACKUP_INTERVAL <= seconds <= MAX_AUTO_BACKUP_INTERVAL ==> (ScheduleView {
            interval: seconds,
            ..v
        }).valid(),
        v.enable_outcome(name, kind, now).0.valid(),
        (ScheduleView { saves: v.disabling(name), ..v }).valid(),
        v.record_outcome(name, now, seconds).valid(),
        (ScheduleView { saves: refreshed(v.saves, names), ..v }).valid(),
{
    lemma_upsert_distinct::<SaveAutoBackupState>(v.saves, v.enabling(name, rfc3339_at(now)));
    lemma_refreshed_distinct(v.saves, names);
    lemma_position::<SaveAutoBackupState>(v.saves, name);
    match lookup::<SaveAutoBackupState>(v.saves, name) {
        Some(s) => {
            lemma_upsert_distinct::<SaveAutoBackupState>(
                v.saves,
                SaveStateView { enabled: false, next_backup_time: None, ..s },
            );
            lemma_upsert_distinct::<SaveAutoBackupState>(
                v.saves,
                SaveStateView {
                    last_backup_time: rfc3339_at(now),
                    next_backup_time: match now.later(seconds) {
                        Some(t) => rfc3339_at(t),
                        None => None,
                    },
                    ..s
                },
            );
        },
        None => {},
    }
}

/// After a save has been enabled it is enabled, its next backup is due at
/// the time given, and no other save has changed.
pub proof fn lemma_enabled_after_enabling(v: ScheduleView, name: Seq<char>, next: Option<Seq<char>>)
    ensures
        v.with_enabled(name, next).enabled(name),
        lookup::<SaveAutoBackupState>(v.with_enabled(name, next).saves, name) == Some(
            v.enabling(name, next),
        ),
        forall|other: Seq<char>|
            other != name ==> #[trigger] lookup::<SaveAutoBackupState>(
                v.with_enabled(name, next).saves,
                other,
            ) == lookup::<SaveAutoBackupState>(v.saves, other),
{
    lemma_lookup_upsert_same::<SaveAutoBackupState>(v.saves, v.enabling(name, next));
    assert forall|other: Seq<char>| other != name implies #[trigger] lookup::<SaveAutoBackupState>(
        v.with_enabled(name, next).saves,
        other,
    ) == lookup::<SaveAutoBackupState>(v.saves, other) by {
        lemma_lookup_upsert_other::<SaveAutoBackupState>(v.saves, v.enabling(name, next), other);
    }
}

/// After a save has been disabled it is not enabled and no other save has
/// changed; disabling a save that the schedule does not know changes
/// nothing.
pub proof fn lemma_disabled_after_disabling(v: ScheduleView, name: Seq<char>)
    ensures
        !(ScheduleView { saves: v.disabling(name), ..v }).enabled(name),
        lookup::<SaveAutoBackupState>(v.saves, name) is None ==> v.disabling(name) == v.saves,
        forall|other: Seq<char>|
            other != name ==> #[trigger] lookup::<SaveAutoBackupState>(v.disabling(name), other)
                == lookup::<SaveAutoBackupState>(v.saves, other),
{
    lemma_position::<SaveAutoBackupState>(v.saves, name);
    match lookup::<SaveAutoBackupState>(v.saves, name) {
        Some(s) => {
            let off = SaveStateView { enabled: false, next_backup_time: None, ..s };
            lemma_lookup_upsert_same::<SaveAutoBackupState>(v.saves, off);
            assert forall|other: Seq<char>| other != name implies #[trigger] lookup::<
                SaveAutoBackupState,
            >(v.disabling(name), other) == lookup::<SaveAutoBackupState>(v.saves, other) by {
                lemma_lookup_upsert_other::<SaveAutoBackupState>(v.saves, off, other);
            }
        },
        None => {},
    }
}

impl Default for AutoBackupManager {
    fn default() -> (m: AutoBackupManager)
        ensures
            m.deep_view() == ScheduleView::initial(),
    {
        AutoBackupManager::new()
    }
}

impl AutoBackupManager {
    /// Creates a new auto backup manager: stopped, at the default interval,
    /// with no saves.
    pub fn new() -> (m: AutoBackupManager)
        ensures
            m.deep_view() == ScheduleView::initial(),
    {
        let m = AutoBackupManager {
            is_running: false,
            interval: DEFAULT_AUTO_BACKUP_INTERVAL,
            save_states: Vec::new(),
            started_at: None,
        };
        assert(m.save_states.deep_view() =~= Seq::<SaveStateView>::empty());
        m
    }

    /// Starts the service at the instant `now`: `AlreadyRunning` where it
    /// runs; a file error where `now` cannot be written as a date; and then
    /// nothing changes. Else it runs, with `now` as its start time.
    pub fn start_at(&mut self, now: Timestamp) -> (r: AutoBackupResultT<()>)
        ensures
            (final(self).deep_view(), error_of(r)) == old(self).deep_view().start_outcome(now),
    {
        if self.is_running {
            return Err(AutoBackupError::AlreadyRunning);
        }
        match rfc3339_of(now) {
            Some(text) => {
                self.is_running = true;
                self.started_at = Some(text);
                Ok(())
            },
            None => Err(
                AutoBackupError::FileOp(FileOpsError::Io(String::from_str("time is out of range"))),
            ),
        }
    }

    /// Starts the service now: as [`Self::start_at`] at a reading of the
    /// clock.
    pub fn start(&mut self) -> (r: AutoBackupResultT<()>)
        ensures
            exists|now: Timestamp|
                (final(self).deep_view(), error_of(r)) == #[trigger] old(
                    self,
                ).deep_view().start_outcome(now),
    {
        let t = now();
        let r = self.start_at(t);
        assert((self.deep_view(), error_of(r)) == old(self).deep_view().start_outcome(t));
        r
    }

    /// Stops the service: `NotRunning` where it does not run, and then
    /// nothing changes; else it no longer runs and has no start time.
    pub fn stop(&mut self) -> (r: AutoBackupResultT<()>)
        ensures
            !old(self).deep_view().is_running ==> r == Err::<(), AutoBackupError>(
                AutoBackupError::NotRunning,
            ) && final(self).deep_view() == old(self).deep_view(),
            old(self).deep_view().is_running ==> r is Ok && final(self).deep_view() == (
            ScheduleView { is_running: false, started_at: None, ..old(self).deep_view() }),
    {
        if !self.is_running {
            return Err(AutoBackupError::NotRunning);
        }
        self.is_running = false;
        self.started_at = None;
        Ok(())
    }

    /// Checks if the auto backup service is running.
    pub fn is_running(&self) -> (r: bool)
        ensures
            r == self.deep_view().is_running,
    {
        self.is_running
    }

    /// Sets the auto backup interval. A value outside 60 to 86400 seconds
    /// is refused with `InvalidInterval` and changes nothing.
    pub fn set_interval(&mut self, seconds: u64) -> (r: AutoBackupResultT<()>)
        ensures
            (MIN_AUTO_BACKUP_INTERVAL <= seconds <= MAX_AUTO_BACKUP_INTERVAL) ==> r is Ok
                && final(self).deep_view() == (ScheduleView {
                interval: seconds,
                ..old(self).deep_view()
            }),
            !(MIN_AUTO_BACKUP_INTERVAL <= seconds <= MAX_AUTO_BACKUP_INTERVAL) ==> (match r {
                Err(e) => e.deep_view() == AutoBackupErrorView::InvalidInterval(interval_refusal()),
                Ok(_) => false,
            }) && final(self).deep_view() == old(self).deep_view(),
    {
        if seconds < MIN_AUTO_BACKUP_INTERVAL || seconds > MAX_AUTO_BACKUP_INTERVAL {
            return Err(
                AutoBackupError::InvalidInterval(
                    String::from_str("Interval must be between 60 and 86400 seconds"),
                ),
            );
        }
        self.interval = seconds;
        Ok(())
    }

    /// Gets the current auto backup interval.
    pub fn get_interval(&self) -> (r: u64)
        ensures
            r == self.deep_view().interval,
    {
        self.interval
    }

    /// Enables auto backup for the save `save_name` at the instant `now`.
    /// `save` is what stands at the save's path: where that is no directory,
    /// the result is `SaveNotFound` and nothing changes. Else the save is
    /// enabled and its next backup is due at once.
    pub fn enable_save_at(&mut self, save_name: &str, save: PathKind, now: Timestamp) -> (r:
        AutoBackupResultT<()>)
        ensures
            (final(self).deep_view(), error_of(r)) == old(self).deep_view().enable_outcome(
                save_name@,
                save,
                now,
            ),
    {
        let is_dir = match save {
            PathKind::Directory => true,
            _ => false,
        };
        if !is_dir {
            return Err(AutoBackupError::SaveNotFound(String::from_str(save_name)));
        }
        let ghost before = self.save_states.deep_view();
        let next = rfc3339_of(now);
        match find_named(&self.save_states, save_name) {
            Some(i) => {
                let state = SaveAutoBackupState {
                    save_name: String::from_str(save_name),
                    enabled: true,
                    last_backup_time: copy_text(&self.save_states[i].last_backup_time),
                    next_backup_time: next,
                };
                self.save_states.set(i, state);
                assert(self.save_states.deep_view() =~= before.update(i as int, state.deep_view()));
            },
            None => {
                let state = SaveAutoBackupState {
                    save_name: String::from_str(save_name),
                    enabled: true,
                    last_backup_time: None,
                    next_backup_time: next,
                };
                self.save_states.push(state);
                assert(self.save_states.deep_view() =~= before.push(state.deep_view()));
            },
        }
        Ok(())
    }

    /// Enables auto backup for the save `save_name` now: as
    /// [`Self::enable_save_at`] at a reading of the clock.
    pub fn enable_save(&mut self, save_name: &str, save: PathKind) -> (r: AutoBackupResultT<()>)
        ensures
            exists|now: Timestamp|
                (final(self).deep_view(), error_of(r)) == #[trigger] old(
                    self,
                ).deep_view().enable_outcome(save_name@, save, now),
    {
        let t = now();
        let r = self.enable_save_at(save_name, save, t);
        assert((self.deep_view(), error_of(r)) == old(self).deep_view().enable_outcome(
            save_name@,
            save,
            t,
        ));
        r
    }

    /// Disables auto backup for the save `save_name`: it is no longer
    /// enabled and has no next backup. A save that the schedule does not
    /// know changes nothing.
    pub fn disable_save(&mut self, save_name: &str)
        ensures
            final(self).deep_view() == (ScheduleView {
                saves: old(self).deep_view().disabling(save_name@),
                ..old(self).deep_view()
            }),
    {
        let ghost before = self.save_states.deep_view();
        match find_named(&self.save_states, save_name) {
            Some(i) => {
                proof {
                    lemma_position::<SaveAutoBackupState>(before, save_name@);
                    assert(before[i as int] == self.save_states@[i as int].deep_view());
                }
                let state = SaveAutoBackupState {
                    save_name: self.save_states[i].save_name.clone(),
                    enabled: false,
                    last_backup_time: copy_text(&self.save_states[i].last_backup_time),
                    next_backup_time: None,
                };
                self.save_states.set(i, state);
                assert(self.save_states.deep_view() =~= before.update(i as int, state.deep_view()));
            },
            None => {},
        }
    }

    /// Checks if auto backup is enabled for the save `save_name`.
    pub fn is_save_enabled(&self, save_name: &str) -> (r: bool)
        ensures
            r == self.deep_view().enabled(save_name@),
    {
        match find_named(&self.save_states, save_name) {
            Some(i) => {
                assert(self.save_states.deep_view()[i as int] == self.save_states@[i as int].deep_view());
                self.save_states[i].enabled
            },
            None => false,
        }
    }

    /// Gets the current auto backup status.
    pub fn get_status(&self) -> (r: AutoBackupStatus)
        ensures
            r.deep_view() == self.deep_view(),
    {
        let mut saves: Vec<SaveAutoBackupState> = Vec::new();
        let mut i: usize = 0;
        while i < self.save_states.len()
            invariant
                i <= self.save_states.len(),
                saves.len() == i,
                forall|k: int|
                    0 <= k < i ==> (#[trigger] saves@[k]).deep_view()
                        == self.save_states@[k].deep_view(),
            decreases self.save_states.len() - i,
        {
            saves.push(self.save_states[i].duplicate());
            i = i + 1;
        }
        assert(saves.deep_view() =~= self.save_states.deep_view());
        AutoBackupStatus {
            is_running: self.is_running,
            interval_seconds: self.interval,
            saves,
            started_at: copy_text(&self.started_at),
        }
    }

    /// Brings the saves of the schedule in line with a scan of the save
    /// root. `names` holds the names of the directories found, or `None`
    /// where the save root does not exist, and then nothing changes.
    pub fn refresh_save_states(&mut self, names: Option<Vec<String>>)
        ensures
            final(self).deep_view() == (ScheduleView {
                saves: match names {
                    Some(found) => refreshed(old(self).deep_view().saves, found.deep_view()),
                    None => old(self).deep_view().saves,
                },
                ..old(self).deep_view()
            }),
    {
        match names {
            None => {},
            Some(found) => {
                let ghost all = found.deep_view();
                let ghost before = self.save_states.deep_view();
                let mut fresh: Vec<SaveAutoBackupState> = Vec::new();
                let mut i: usize = 0;
                assert(all.take(0) =~= Seq::<Seq<char>>::empty());
                assert(fresh.deep_view() =~= Seq::<SaveStateView>::empty());
                while i < found.len()
                    invariant
                        i <= found.len(),
                        all == found.deep_view(),
                        before == self.save_states.deep_view(),
                        fresh.deep_view() == refreshed(before, all.take(i as int)),
                    decreases found.len() - i,
                {
                    let ghost sofar = fresh.deep_view();
                    proof {
                        assert(all.take(i + 1).drop_last() == all.take(i as int));
                        assert(all.take(i + 1).last() == found@[i as int]@);
                    }
                    let name = found[i].as_str();
                    match find_named(&fresh, name) {
                        Some(_) => {},
                        None => {
                            let state = match find_named(&self.save_states, name) {
                                Some(k) => {
                                    assert(before[k as int] == self.save_states@[k as int].deep_view());
                                    self.save_states[k].duplicate()
                                },
                                None => SaveAutoBackupState {
                                    save_name: String::from_str(name),
                                    enabled: false,
                                    last_backup_time: None,
                                    next_backup_time: None,
                                },
                            };
                            fresh.push(state);
                            assert(fresh.deep_view() =~= sofar.push(state.deep_view()));
                        },
                    }
                    i = i + 1;
                }
                assert(all.take(found.len() as int) == all);
                self.save_states = fresh;
            },
        }
    }

    /// What the timer works through in its next cycle: `None` where the
    /// service does not run, and then the timer ends; else the interval in
    /// force and the enabled saves.
    pub fn cycle(&self) -> (r: Option<Cycle>)
        ensures
            r.deep_view() == (if self.deep_view().is_running {
                Some(
                    CycleView {
                        interval_seconds: self.deep_view().interval,
                        saves: enabled_names(self.deep_view().saves),
                    },
                )
            } else {
                None
            }),
    {
        if !self.is_running {
            return None;
        }
        let ghost all = self.save_states.deep_view();
        let mut saves: Vec<String> = Vec::new();
        let mut i: usize = 0;
        assert(all.take(0) =~= Seq::<SaveStateView>::empty());
        assert(saves.deep_view() =~= Seq::<Seq<char>>::empty());
        while i < self.save_states.len()
            invariant
                i <= self.save_states.len(),
                all == self.save_states.deep_view(),
                saves.deep_view() == enabled_names(all.take(i as int)),
            decreases self.save_states.len() - i,
        {
            let ghost sofar = saves.deep_view();
            proof {
                assert(all.take(i + 1).drop_last() == all.take(i as int));
                assert(all.take(i + 1).last() == self.save_states@[i as int].deep_view());
            }
            if self.save_states[i].enabled {
                let name = self.save_states[i].save_name.clone();
                saves.push(name);
                assert(saves.deep_view() =~= sofar.push(name@));
            }
            i = i + 1;
        }
        assert(all.take(self.save_states.len() as int) == all);
        Some(Cycle { interval_seconds: self.interval, saves })
    }

    /// Records a backup of the save `save_name` made by the timer at
    /// `now_millis` of its clock and at the instant `now`, under the interval
    /// `interval_seconds`: the time is noted in `runs`, and the save, where
    /// the schedule knows it, gets `now` as the time of its last backup and
    /// the instant one interval later as the time of its next.
    pub fn record_backup_at(
        &mut self,
        runs: &mut Vec<LastRun>,
        save_name: &str,
        interval_seconds: u64,
        now_millis: u64,
        now: Timestamp,
    )
        ensures
            final(runs).deep_view() == upsert::<LastRun>(
                old(runs).deep_view(),
                LastRunView { save_name: save_name@, at_millis: now_millis },
            ),
            final(self).deep_view() == old(self).deep_view().record_outcome(
                save_name@,
                now,
                interval_seconds,
            ),
    {
        note_run(runs, save_name, now_millis);
        let ghost before = self.save_states.deep_view();
        match find_named(&self.save_states, save_name) {
            Some(i) => {
                proof {
                    lemma_position::<SaveAutoBackupState>(before, save_name@);
                    assert(before[i as int] == self.save_states@[i as int].deep_view());
                }
                let next = match now.plus_seconds(interval_seconds) {
                    Some(t) => rfc3339_of(t),
                    None => None,
                };
                let state = SaveAutoBackupState {
                    save_name: self.save_states[i].save_name.clone(),
                    enabled: self.save_states[i].enabled,
                    last_backup_time: rfc3339_of(now),
                    next_backup_time: next,
                };
                self.save_states.set(i, state);
                assert(self.save_states.deep_view() =~= before.update(i as int, state.deep_view()));
            },
            None => {},
        }
    }

    /// Records a backup of the save `save_name` made by the timer just now:
    /// as [`Self::record_backup_at`] at a reading of the clock.
    pub fn record_backup(
        &mut self,
        runs: &mut Vec<LastRun>,
        save_name: &str,
        interval_seconds: u64,
        now_millis: u64,
    )
        ensures
            final(runs).deep_view() == upsert::<LastRun>(
                old(runs).deep_view(),
                LastRunView { save_name: save_name@, at_millis: now_millis },
            ),
            exists|now: Timestamp|
                final(self).deep_view() == #[trigger] old(self).deep_view().record_outcome(
                    save_name@,
                    now,
                    interval_seconds,
                ),
    {
        let t = now();
        self.record_backup_at(runs, save_name, interval_seconds, now_millis, t);
        assert(self.deep_view() == old(self).deep_view().record_outcome(
            save_name@,
            t,
            interval_seconds,
        ));
    }
}

/// What the timer is told when it is asked for its next move.
#[derive(Debug, Clone, Copy, PartialEq, Eq, Structural)]
pub enum TimerEvent {
    /// The timer has started, or its rest is over.
    Woke,
    /// The backup it asked for was made.
    BackedUp,
    /// The backup it asked for failed.
    BackupFailed,
}

/// What the timer does next.
#[derive(Debug, Clone, PartialEq, Eq)]
pub enum TimerAction {
    /// Back up this save.
    Backup(String),
    /// Rest for this many seconds.
    Rest(u64),
    /// End: the service no longer runs.
    End,
}

pub ghost enum TimerActionView {
    Backup(Seq<char>),
    Rest(u64),
    End,
}

impl DeepView for TimerAction {
    type V = TimerActionView;

    open spec fn deep_view(&self) -> TimerActionView {
        match self {
            TimerAction::Backup(s) => TimerActionView::Backup(s@),
            TimerAction::Rest(n) => TimerActionView::Rest(*n),
            TimerAction::End => TimerActionView::End,
        }
    }
}

/// The timer between two moves: when it last backed up each save, and of
/// the cycle at hand the interval, the saves, the index of the next save to
/// look at, and the save whose backup it has asked for.
#[derive(Debug, Clone, PartialEq, Eq)]
pub struct Timer {
    pub runs: Vec<LastRun>,
    pub interval_seconds: u64,
    pub saves: Vec<String>,
    pub next: usize,
    pub at_work: Option<String>,
}

pub ghost struct TimerView {
    pub runs: Seq<LastRunView>,
    pub interval_seconds: u64,
    pub saves: Seq<Seq<char>>,
    pub next: usize,
    pub at_work: Option<Seq<char>>,
}

impl DeepView for Timer {
    type V = TimerView;

    open spec fn deep_view(&self) -> TimerView {
        TimerView {
            runs: self.runs.deep_view(),
            interval_seconds: self.interval_seconds,
            saves: self.saves.deep_view(),
            next: self.next,
            at_work: self.at_work.deep_view(),
        }
    }
}

/// The index of the first save from `from` on that is due, or the number of
/// saves where none is.
pub open spec fn first_due(
    saves: Seq<Seq<char>>,
    from: int,
    runs: Seq<LastRunView>,
    interval_seconds: u64,
    now_millis: u64,
) -> int
    decreases saves.len() - from,
{
    if from < 0 || from >= saves.len() {
        saves.len() as int
    } else if due(lookup::<LastRun>(runs, saves[from]), interval_seconds, now_millis) {
        from
    } else {
        first_due(saves, from + 1, runs, interval_seconds, now_millis)
    }
}

impl TimerView {
    /// A timer that has not run yet.
    pub open spec fn initial() -> TimerView {
        TimerView {
            runs: Seq::empty(),
            interval_seconds: DEFAULT_AUTO_BACKUP_INTERVAL,
            saves: Seq::empty(),
            next: 0,
            at_work: None,
        }
    }

    /// The rest of the cycle: the next save that is due is backed up; where
    /// none is left, the timer rests for the poll period.
    pub open spec fn advance(self, now_millis: u64) -> (TimerView, TimerActionView) {
        let j = first_due(self.saves, self.next as int, self.runs, self.interval_seconds, now_millis);
        if j < self.saves.len() {
            (
                TimerView { next: (j + 1) as usize, at_work: Some(self.saves[j]), ..self },
                TimerActionView::Backup(self.saves[j]),
            )
        } else {
            (
                TimerView { next: self.saves.len() as usize, at_work: None, ..self },
                TimerActionView::Rest(POLL_PERIOD_SECONDS),
            )
        }
    }
}

/// The next move of the timer. When it wakes, it ends where the service
/// does not run; else it begins a cycle with the interval in force and the
/// saves that are enabled. A backup that was made is recorded, in the
/// schedule and in the timer; one that failed is not. In either case the
/// timer goes on with the saves that are left in the cycle.
pub open spec fn tick(
    schedule: ScheduleView,
    timer: TimerView,
    event: TimerEvent,
    now_millis: u64,
    now: Timestamp,
) -> (ScheduleView, TimerView, TimerActionView) {
    match event {
        TimerEvent::Woke => if !schedule.is_running {
            (schedule, timer, TimerActionView::End)
        } else {
            let moved = (TimerView {
                interval_seconds: schedule.interval,
                saves: enabled_names(schedule.saves),
                next: 0,
                at_work: None,
                ..timer
            }).advance(now_millis);
            (schedule, moved.0, moved.1)
        },
        TimerEvent::BackedUp => match timer.at_work {
            Some(save) => {
                let moved = (TimerView {
                    runs: upsert::<LastRun>(
                        timer.runs,
                        LastRunView { save_name: save, at_millis: now_millis },
                    ),
                    at_work: None,
                    ..timer
                }).advance(now_millis);
                (schedule.record_outcome(save, now, timer.interval_seconds), moved.0, moved.1)
            },
            None => {
                let moved = timer.advance(now_millis);
                (schedule, moved.0, moved.1)
            },
        },
        TimerEvent::BackupFailed => {
            let moved = (TimerView { at_work: None, ..timer }).advance(now_millis);
            (schedule, moved.0, moved.1)
        },
    }
}

/// A backup that failed changes neither the schedule nor what the timer
/// knows of earlier backups, and does not end the timer: the next save that
/// is due is tried, or the timer rests.
pub proof fn lemma_failed_backup_is_passed_over(
    schedule: ScheduleView,
    timer: TimerView,
    now_millis: u64,
    now: Timestamp,
)
    ensures
        ({
            let after = tick(schedule, timer, TimerEvent::BackupFailed, now_millis, now);
            &&& after.0 == schedule
            &&& after.1.runs == timer.runs
            &&& after.1.saves == timer.saves
            &&& !(after.2 is End)
            &&& after.2 matches TimerActionView::Backup(save) ==> exists|j: int|
                timer.next <= j < timer.saves.len() && #[trigger] timer.saves[j] == save && due(
                    lookup::<LastRun>(timer.runs, save),
                    timer.interval_seconds,
                    now_millis,
                )
        }),
{
    lemma_first_due(timer.saves, timer.next as int, timer.runs, timer.interval_seconds, now_millis);
}

/// The first save that is due is due, stands at or after the index the
/// search began at, and no save between is due.
pub proof fn lemma_first_due(
    saves: Seq<Seq<char>>,
    from: int,
    runs: Seq<LastRunView>,
    interval_seconds: u64,
    now_millis: u64,
)
    requires
        0 <= from,
    ensures
        ({
            let j = first_due(saves, from, runs, interval_seconds, now_millis);
            &&& j <= saves.len()
            &&& j < saves.len() ==> from <= j && due(
                lookup::<LastRun>(runs, saves[j]),
                interval_seconds,
                now_millis,
            )
            &&& forall|k: int|
                from <= k < j ==> !due(
                    lookup::<LastRun>(runs, #[trigger] saves[k]),
                    interval_seconds,
                    now_millis,
                )
        }),
    decreases saves.len() - from,
{
    if from < saves.len() && !due(
        lookup::<LastRun>(runs, saves[from]),
        interval_seconds,
        now_millis,
    ) {
        lemma_first_due(saves, from + 1, runs, interval_seconds, now_millis);
    }
}

impl Timer {
    /// A timer that has not run yet.
    pub fn new() -> (t: Timer)
        ensures
            t.deep_view() == TimerView::initial(),
    {
        let t = Timer {
            runs: Vec::new(),
            interval_seconds: DEFAULT_AUTO_BACKUP_INTERVAL,
            saves: Vec::new(),
            next: 0,
            at_work: None,
        };
        assert(t.runs.deep_view() =~= Seq::<LastRunView>::empty());
        assert(t.saves.deep_view() =~= Seq::<Seq<char>>::empty());
        t
    }

    fn advance(self, now_millis: u64) -> (r: (Timer, TimerAction))
        ensures
            r.deep_view() == self.deep_view().advance(now_millis),
    {
        let Timer { runs, interval_seconds, saves, next, at_work } = self;
        let ghost names = saves.deep_view();
        let mut j: usize = next;
        while j < saves.len()
            invariant
                names == saves.deep_view(),
                self.deep_view() == (TimerView {
                    runs: runs.deep_view(),
                    interval_seconds,
                    saves: names,
                    next,
                    at_work: at_work.deep_view(),
                }),
                first_due(names, next as int, runs.deep_view(), interval_seconds, now_millis)
                    == first_due(names, j as int, runs.deep_view(), interval_seconds, now_millis),
            decreases saves.len() - j,
        {
            assert(names[j as int] == saves@[j as int]@);
            if is_due(&runs, saves[j].as_str(), interval_seconds, now_millis) {
                let save = saves[j].clone();
                let asked = saves[j].clone();
                return (
                    Timer { runs, interval_seconds, saves, next: j + 1, at_work: Some(save) },
                    TimerAction::Backup(asked),
                );
            }
            j = j + 1;
        }
        let n = saves.len();
        (
            Timer { runs, interval_seconds, saves, next: n, at_work: None },
            TimerAction::Rest(POLL_PERIOD_SECONDS),
        )
    }
}

impl AutoBackupManager {
    /// The next move of the timer at `now_millis` of its clock and at the
    /// instant `now`: the timer after it, and what it does.
    pub fn tick_at(&mut self, timer: Timer, event: TimerEvent, now_millis: u64, now: Timestamp) -> (r:
        (Timer, TimerAction))
        ensures
            (final(self).deep_view(), r.0.deep_view(), r.1.deep_view()) == tick(
                old(self).deep_view(),
                timer.deep_view(),
                event,
                now_millis,
                now,
            ),
    {
        let Timer { runs, interval_seconds, saves, next, at_work } = timer;
        match event {
            TimerEvent::Woke => match self.cycle() {
                None => (
                    Timer { runs, interval_seconds, saves, next, at_work },
                    TimerAction::End,
                ),
                Some(cycle) => (Timer {
                    runs,
                    interval_seconds: cycle.interval_seconds,
                    saves: cycle.saves,
                    next: 0,
                    at_work: None,
                }).advance(now_millis),
            },
            TimerEvent::BackedUp => match at_work {
                Some(save) => {
                    let mut runs = runs;
                    self.record_backup_at(
                        &mut runs,
                        save.as_str(),
                        interval_seconds,
                        now_millis,
                        now,
                    );
                    (Timer { runs, interval_seconds, saves, next, at_work: None }).advance(
                        now_millis,
                    )
                },
                None => (Timer { runs, interval_seconds, saves, next, at_work: None }).advance(
                    now_millis,
                ),
            },
            TimerEvent::BackupFailed => (Timer {
                runs,
                interval_seconds,
                saves,
                next,
                at_work: None,
            }).advance(now_millis),
        }
    }

    /// The next move of the timer at `now_millis` of its clock: as
    /// [`Self::tick_at`] at a reading of the wall clock.
    pub fn tick(&mut self, timer: Timer, event: TimerEvent, now_millis: u64) -> (r: (
        Timer,
        TimerAction,
    ))
        ensures
            exists|now: Timestamp|
                (final(self).deep_view(), r.0.deep_view(), r.1.deep_view()) == #[trigger] tick(
                    old(self).deep_view(),
                    timer.deep_view(),
                    event,
                    now_millis,
                    now,
                ),
    {
        let t = now();
        let r = self.tick_at(timer, event, now_millis, t);
        assert((self.deep_view(), r.0.deep_view(), r.1.deep_view()) == tick(
            old(self).deep_view(),
            timer.deep_view(),
            event,
            now_millis,
            t,
        ));
        r
    }
}

} // verus!
