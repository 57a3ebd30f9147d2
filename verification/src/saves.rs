//! Finding the saves below the saves directory, in the layout
//! `<saves>/<game mode>/<save name>` and in the flat layout
//! `<saves>/<save name>`.

use crate::config::{ConfigError, ConfigErrorView, SaveEntry, SaveEntryView};
use crate::file_ops::{
    directory_names, out_of_turn, pick_directory_names, FileOpsError, FileOpsErrorView, Listing,
    ListingView,
};
use crate::fsio::{
    DirEntry, DirEntryView, FsRequest, FsRequestView, FsResponse, FsResponseView, PathKind, Step,
    StepView,
};
use crate::names::{find_named, position, Named};
use crate::order::{ranked, sort_ranked};
use crate::paths::{join, join_spec};
use crate::text::{ends_with, same_text, seq_ends_with, seq_starts_with, starts_with};
use vstd::prelude::*;
use vstd::string::*;

verus! {

/// Whether a directory entry looks like a save file: a regular file with a
/// readable name that ends in `.bin`.
pub open spec fn save_file_like(e: DirEntryView) -> bool {
    e.kind == PathKind::File && e.name is Some && seq_ends_with(e.name->0, ".bin"@)
}

/// Whether a directory entry looks like a map chunk: a regular file with a
/// readable name that ends in `.bin` or `.dat`.
pub open spec fn map_chunk_like(e: DirEntryView) -> bool {
    e.kind == PathKind::File && e.name is Some && (seq_ends_with(e.name->0, ".bin"@)
        || seq_ends_with(e.name->0, ".dat"@))
}

/// Whether a directory entry is one of the files found at the root of a
/// save: `save.bin`, or a file whose name begins with `map_` and ends in
/// `.bin`.
pub open spec fn root_file_like(e: DirEntryView) -> bool {
    e.kind == PathKind::File && e.name is Some && (e.name->0 == "save.bin"@ || (seq_starts_with(
        e.name->0,
        "map_"@,
    ) && seq_ends_with(e.name->0, ".bin"@)))
}

/// Checks if a directory entry looks like a save file.
pub fn looks_like_save_file(e: &DirEntry) -> (r: bool)
    ensures
        r == save_file_like(e.deep_view()),
{
    let is_file = match e.kind {
        PathKind::File => true,
        _ => false,
    };
    match &e.name {
        Some(n) => is_file && ends_with(n.as_str(), ".bin"),
        None => false,
    }
}

fn looks_like_map_chunk(e: &DirEntry) -> (r: bool)
    ensures
        r == map_chunk_like(e.deep_view()),
{
    let is_file = match e.kind {
        PathKind::File => true,
        _ => false,
    };
    match &e.name {
        Some(n) => is_file && (ends_with(n.as_str(), ".bin") || ends_with(n.as_str(), ".dat")),
        None => false,
    }
}

fn looks_like_root_file(e: &DirEntry) -> (r: bool)
    ensures
        r == root_file_like(e.deep_view()),
{
    let is_file = match e.kind {
        PathKind::File => true,
        _ => false,
    };
    match &e.name {
        Some(n) => is_file && (same_text(n.as_str(), "save.bin") || (starts_with(
            n.as_str(),
            "map_",
        ) && ends_with(n.as_str(), ".bin"))),
        None => false,
    }
}

/// What to look for in a listing.
#[derive(Debug, Clone, Copy, PartialEq, Eq, Structural)]
pub enum Sought {
    /// A save file.
    SaveFile,
    /// A map chunk.
    MapChunk,
    /// A file of the root of a save.
    RootFile,
}

/// Whether the entry `e` is what is sought.
pub open spec fn is_sought(what: Sought, e: DirEntryView) -> bool {
    match what {
        Sought::SaveFile => save_file_like(e),
        Sought::MapChunk => map_chunk_like(e),
        Sought::RootFile => root_file_like(e),
    }
}

/// Whether any of `entries` is what is sought.
pub open spec fn any_sought(what: Sought, entries: Seq<DirEntryView>) -> bool {
    exists|i: int| 0 <= i < entries.len() && is_sought(what, #[trigger] entries[i])
}

/// Whether any of `entries` is what is sought.
pub fn has_any(what: Sought, entries: &Vec<DirEntry>) -> (r: bool)
    ensures
        r == any_sought(what, entries.deep_view()),
{
    let ghost all = entries.deep_view();
    let mut i: usize = 0;
    while i < entries.len()
        invariant
            i <= entries.len(),
            all == entries.deep_view(),
            forall|k: int| 0 <= k < i ==> !is_sought(what, #[trigger] all[k]),
        decreases entries.len() - i,
    {
        assert(all[i as int] == entries@[i as int].deep_view());
        let hit = match what {
            Sought::SaveFile => looks_like_save_file(&entries[i]),
            Sought::MapChunk => looks_like_map_chunk(&entries[i]),
            Sought::RootFile => looks_like_root_file(&entries[i]),
        };
        if hit {
            return true;
        }
        i = i + 1;
    }
    false
}

/// Where the check of a directory stands.
#[derive(Debug, Clone, Copy, PartialEq, Eq, Structural)]
pub enum CheckStage {
    ProbeDir,
    ProbeMap,
    ListMap,
    ListRoot,
}

/// The check whether a directory looks like a save, under way.
#[derive(Debug, Clone, PartialEq, Eq)]
pub struct SaveCheck {
    pub path: String,
    pub stage: CheckStage,
}

pub ghost struct SaveCheckView {
    pub path: Seq<char>,
    pub stage: CheckStage,
}

impl DeepView for SaveCheck {
    type V = SaveCheckView;

    open spec fn deep_view(&self) -> SaveCheckView {
        SaveCheckView { path: self.path@, stage: self.stage }
    }
}

pub type SaveCheckStepView = StepView<SaveCheckView, bool, FileOpsErrorView>;

impl SaveCheckView {
    /// The check at its beginning, and the probe it begins with.
    pub open spec fn begin(path: Seq<char>) -> (SaveCheckView, FsRequestView) {
        (SaveCheckView { path, stage: CheckStage::ProbeDir }, FsRequestView::Probe { path })
    }

    /// The listing of the directory itself.
    pub open spec fn list_root(self) -> SaveCheckStepView {
        StepView::Ask(
            SaveCheckView { stage: CheckStage::ListRoot, ..self },
            FsRequestView::ReadDir { path: self.path },
        )
    }

    /// The next move. A save is a directory that has a map chunk in its
    /// `map` directory or one of a save's files at its root. A listing that
    /// fails counts as empty.
    pub open spec fn step(self, resp: FsResponseView) -> SaveCheckStepView {
        match self.stage {
            CheckStage::ProbeDir => match resp {
                FsResponseView::Kind(PathKind::Directory) => StepView::Ask(
                    SaveCheckView { stage: CheckStage::ProbeMap, ..self },
                    FsRequestView::Probe { path: join_spec(self.path, "map"@) },
                ),
                FsResponseView::Kind(_) => StepView::Finished(false),
                _ => StepView::Failed(FileOpsErrorView::Io(out_of_turn())),
            },
            CheckStage::ProbeMap => match resp {
                FsResponseView::Kind(PathKind::Directory) => StepView::Ask(
                    SaveCheckView { stage: CheckStage::ListMap, ..self },
                    FsRequestView::ReadDir { path: join_spec(self.path, "map"@) },
                ),
                FsResponseView::Kind(_) => self.list_root(),
                _ => StepView::Failed(FileOpsErrorView::Io(out_of_turn())),
            },
            CheckStage::ListMap => match resp {
                FsResponseView::Entries(es) => if any_sought(Sought::MapChunk, es) {
                    StepView::Finished(true)
                } else {
                    self.list_root()
                },
                FsResponseView::Failed(_) => self.list_root(),
                _ => StepView::Failed(FileOpsErrorView::Io(out_of_turn())),
            },
            CheckStage::ListRoot => match resp {
                FsResponseView::Entries(es) => StepView::Finished(
                    any_sought(Sought::RootFile, es),
                ),
                FsResponseView::Failed(_) => StepView::Finished(false),
                _ => StepView::Failed(FileOpsErrorView::Io(out_of_turn())),
            },
        }
    }
}

pub type SaveCheckStep = Step<SaveCheck, bool, FileOpsError>;

impl SaveCheck {
    fn list_root(self) -> (out: SaveCheckStep)
        ensures
            out.deep_view() == self.deep_view().list_root(),
    {
        let req = FsRequest::ReadDir { path: self.path.clone() };
        Step::Ask(SaveCheck { path: self.path, stage: CheckStage::ListRoot }, req)
    }

    /// Takes the response to the last request and makes the next move.
    pub fn step(self, resp: FsResponse) -> (out: SaveCheckStep)
        ensures
            out.deep_view() == self.deep_view().step(resp.deep_view()),
    {
        match self.stage {
            CheckStage::ProbeDir => match resp {
                FsResponse::Kind(PathKind::Directory) => {
                    let req = FsRequest::Probe { path: join(self.path.as_str(), "map") };
                    Step::Ask(SaveCheck { path: self.path, stage: CheckStage::ProbeMap }, req)
                },
                FsResponse::Kind(_) => Step::Finished(false),
                _ => Step::Failed(FileOpsError::out_of_turn()),
            },
            CheckStage::ProbeMap => match resp {
                FsResponse::Kind(PathKind::Directory) => {
                    let req = FsRequest::ReadDir { path: join(self.path.as_str(), "map") };
                    Step::Ask(SaveCheck { path: self.path, stage: CheckStage::ListMap }, req)
                },
                FsResponse::Kind(_) => self.list_root(),
                _ => Step::Failed(FileOpsError::out_of_turn()),
            },
            CheckStage::ListMap => match resp {
                FsResponse::Entries(es) => if has_any(Sought::MapChunk, &es) {
                    Step::Finished(true)
                } else {
                    self.list_root()
                },
                FsResponse::Failed(_) => self.list_root(),
                _ => Step::Failed(FileOpsError::out_of_turn()),
            },
            CheckStage::ListRoot => match resp {
                FsResponse::Entries(es) => Step::Finished(has_any(Sought::RootFile, &es)),
                FsResponse::Failed(_) => Step::Finished(false),
                _ => Step::Failed(FileOpsError::out_of_turn()),
            },
        }
    }
}

/// Begins the check whether the directory `path` looks like a save.
pub fn looks_like_save_directory(path: &str) -> (r: (SaveCheck, FsRequest))
    ensures
        r.deep_view() == SaveCheckView::begin(path@),
{
    (
        SaveCheck { path: String::from_str(path), stage: CheckStage::ProbeDir },
        FsRequest::Probe { path: String::from_str(path) },
    )
}

/// Where the search for saves stands.
#[derive(Debug, Clone, PartialEq, Eq)]
pub enum ScanStage {
    /// The saves directory is being listed.
    Root(Listing),
    /// The directory of the current game mode is being listed.
    Mode,
    /// A directory below the current game mode is being checked.
    Sub(SaveCheck),
    /// The directory of the current game mode is itself being checked.
    Flat(SaveCheck),
}

pub ghost enum ScanStageView {
    Root(ListingView),
    Mode,
    Sub(SaveCheckView),
    Flat(SaveCheckView),
}

impl DeepView for ScanStage {
    type V = ScanStageView;

    open spec fn deep_view(&self) -> ScanStageView {
        match self {
            ScanStage::Root(l) => ScanStageView::Root(l.deep_view()),
            ScanStage::Mode => ScanStageView::Mode,
            ScanStage::Sub(c) => ScanStageView::Sub(c.deep_view()),
            ScanStage::Flat(c) => ScanStageView::Flat(c.deep_view()),
        }
    }
}

/// The search for saves under way. `modes` are the directories below the
/// saves directory and `mode` the index of the one at hand; `subs` are the
/// directories below that one and `sub` the index of the one at hand;
/// `has_files` and `has_saves` say whether it holds save files and saves;
/// `found` are the saves found so far.
#[derive(Debug, Clone, PartialEq, Eq)]
pub struct SaveScan {
    pub save_path: String,
    pub modes: Vec<String>,
    pub mode: usize,
    pub subs: Vec<String>,
    pub sub: usize,
    pub has_files: bool,
    pub has_saves: bool,
    pub found: Vec<SaveEntry>,
    pub stage: ScanStage,
}

pub ghost struct SaveScanView {
    pub save_path: Seq<char>,
    pub modes: Seq<Seq<char>>,
    pub mode: usize,
    pub subs: Seq<Seq<char>>,
    pub sub: usize,
    pub has_files: bool,
    pub has_saves: bool,
    pub found: Seq<SaveEntryView>,
    pub stage: ScanStageView,
}

impl DeepView for SaveScan {
    type V = SaveScanView;

    open spec fn deep_view(&self) -> SaveScanView {
        SaveScanView {
            save_path: self.save_path@,
            modes: self.modes.deep_view(),
            mode: self.mode,
            subs: self.subs.deep_view(),
            sub: self.sub,
            has_files: self.has_files,
            has_saves: self.has_saves,
            found: self.found.deep_view(),
            stage: self.stage.deep_view(),
        }
    }
}

pub type SaveScanStepView = StepView<SaveScanView, Seq<SaveEntryView>, ConfigErrorView>;

impl SaveScanView {
    /// The search at its beginning, and the probe it begins with.
    pub open spec fn begin(save_path: Seq<char>) -> (SaveScanView, FsRequestView) {
        (
            SaveScanView {
                save_path,
                modes: Seq::empty(),
                mode: 0,
                subs: Seq::empty(),
                sub: 0,
                has_files: false,
                has_saves: false,
                found: Seq::empty(),
                stage: ScanStageView::Root(ListingView::begin(save_path).0),
            },
            ListingView::begin(save_path).1,
        )
    }

    /// The directory of the game mode at hand.
    pub open spec fn mode_dir(self) -> Seq<char> {
        join_spec(self.save_path, self.modes[self.mode as int])
    }

    /// The listing of the game mode of index `mode`, or the end of the
    /// search where there is none: the saves found, by game mode and name.
    pub open spec fn enter_mode(self, mode: int) -> SaveScanStepView {
        if 0 <= mode < self.modes.len() {
            StepView::Ask(
                SaveScanView { mode: mode as usize, stage: ScanStageView::Mode, ..self },
                FsRequestView::ReadDir { path: join_spec(self.save_path, self.modes[mode]) },
            )
        } else {
            StepView::Finished(ranked::<SaveEntry>(self.found))
        }
    }

    /// The check of the directory of index `sub` below the game mode at
    /// hand. Where there is none, the game mode is left: its own directory
    /// is checked where it holds save files and no saves, and else the next
    /// game mode is entered.
    pub open spec fn enter_sub(self, sub: int) -> SaveScanStepView {
        if 0 <= sub < self.subs.len() {
            StepView::Ask(
                SaveScanView {
                    sub: sub as usize,
                    stage: ScanStageView::Sub(
                        SaveCheckView::begin(join_spec(self.mode_dir(), self.subs[sub])).0,
                    ),
                    ..self
                },
                SaveCheckView::begin(join_spec(self.mode_dir(), self.subs[sub])).1,
            )
        } else if self.has_files && !self.has_saves {
            StepView::Ask(
                SaveScanView {
                    stage: ScanStageView::Flat(SaveCheckView::begin(self.mode_dir()).0),
                    ..self
                },
                SaveCheckView::begin(self.mode_dir()).1,
            )
        } else {
            self.enter_mode(self.mode + 1)
        }
    }

    /// The next move.
    pub open spec fn step(self, resp: FsResponseView) -> SaveScanStepView {
        match self.stage {
            ScanStageView::Root(l) => match l.step(resp) {
                StepView::Ask(next, req) => StepView::Ask(
                    SaveScanView { stage: ScanStageView::Root(next), ..self },
                    req,
                ),
                StepView::Finished(entries) => (SaveScanView {
                    modes: directory_names(entries),
                    ..self
                }).enter_mode(0),
                StepView::Failed(e) => StepView::Failed(ConfigErrorView::FileOp(e)),
            },
            ScanStageView::Mode => if self.mode < self.modes.len() {
                match resp {
                    FsResponseView::Entries(es) => (SaveScanView {
                        subs: directory_names(es),
                        has_files: any_sought(Sought::SaveFile, es),
                        has_saves: false,
                        ..self
                    }).enter_sub(0),
                    FsResponseView::Failed(_) => self.enter_mode(self.mode + 1),
                    _ => StepView::Failed(
                        ConfigErrorView::FileOp(FileOpsErrorView::Io(out_of_turn())),
                    ),
                }
            } else {
                self.enter_mode(self.mode + 1)
            },
            ScanStageView::Sub(check) => if self.mode < self.modes.len() && self.sub
                < self.subs.len() {
                match check.step(resp) {
                    StepView::Ask(next, req) => StepView::Ask(
                        SaveScanView { stage: ScanStageView::Sub(next), ..self },
                        req,
                    ),
                    StepView::Finished(is_save) => (if is_save {
                        SaveScanView {
                            has_saves: true,
                            found: self.found.push(
                                SaveEntryView::of(
                                    self.modes[self.mode as int],
                                    self.subs[self.sub as int],
                                ),
                            ),
                            ..self
                        }
                    } else {
                        self
                    }).enter_sub(self.sub + 1),
                    StepView::Failed(e) => StepView::Failed(ConfigErrorView::FileOp(e)),
                }
            } else {
                self.enter_mode(self.mode + 1)
            },
            ScanStageView::Flat(check) => if self.mode < self.modes.len() {
                match check.step(resp) {
                    StepView::Ask(next, req) => StepView::Ask(
                        SaveScanView { stage: ScanStageView::Flat(next), ..self },
                        req,
                    ),
                    StepView::Finished(is_save) => (if is_save {
                        SaveScanView {
                            found: self.found.push(
                                SaveEntryView::of(Seq::empty(), self.modes[self.mode as int]),
                            ),
                            ..self
                        }
                    } else {
                        self
                    }).enter_mode(self.mode + 1),
                    StepView::Failed(e) => StepView::Failed(ConfigErrorView::FileOp(e)),
                }
            } else {
                self.enter_mode(self.mode + 1)
            },
        }
    }
}

pub type SaveScanStep = Step<SaveScan, Vec<SaveEntry>, ConfigError>;

impl SaveScan {
    fn enter_mode(self, mode: usize) -> (out: SaveScanStep)
        ensures
            out.deep_view() == self.deep_view().enter_mode(mode as int),
    {
        if mode < self.modes.len() {
            let req = FsRequest::ReadDir {
                path: join(self.save_path.as_str(), self.modes[mode].as_str()),
            };
            Step::Ask(
                SaveScan {
                    save_path: self.save_path,
                    modes: self.modes,
                    mode,
                    subs: self.subs,
                    sub: self.sub,
                    has_files: self.has_files,
                    has_saves: self.has_saves,
                    found: self.found,
                    stage: ScanStage::Mode,
                },
                req,
            )
        } else {
            Step::Finished(sort_ranked(self.found))
        }
    }

    fn next_mode(self) -> (out: SaveScanStep)
        ensures
            out.deep_view() == self.deep_view().enter_mode(self.mode + 1),
    {
        if self.mode < self.modes.len() {
            let next = self.mode + 1;
            self.enter_mode(next)
        } else {
            Step::Finished(sort_ranked(self.found))
        }
    }

    fn enter_sub(self, sub: usize) -> (out: SaveScanStep)
        requires
            self.mode < self.modes.len(),
        ensures
            out.deep_view() == self.deep_view().enter_sub(sub as int),
    {
        if sub < self.subs.len() {
            let dir = join(self.save_path.as_str(), self.modes[self.mode].as_str());
            let path = join(dir.as_str(), self.subs[sub].as_str());
            let (check, req) = looks_like_save_directory(path.as_str());
            Step::Ask(
                SaveScan {
                    save_path: self.save_path,
                    modes: self.modes,
                    mode: self.mode,
                    subs: self.subs,
                    sub,
                    has_files: self.has_files,
                    has_saves: self.has_saves,
                    found: self.found,
                    stage: ScanStage::Sub(check),
                },
                req,
            )
        } else if self.has_files && !self.has_saves {
            let dir = join(self.save_path.as_str(), self.modes[self.mode].as_str());
            let (check, req) = looks_like_save_directory(dir.as_str());
            Step::Ask(
                SaveScan {
                    save_path: self.save_path,
                    modes: self.modes,
                    mode: self.mode,
                    subs: self.subs,
                    sub: self.sub,
                    has_files: self.has_files,
                    has_saves: self.has_saves,
                    found: self.found,
                    stage: ScanStage::Flat(check),
                },
                req,
            )
        } else {
            self.next_mode()
        }
    }

    /// Takes the response to the last request and makes the next move.
    pub fn step(self, resp: FsResponse) -> (out: SaveScanStep)
        ensures
            out.deep_view() == self.deep_view().step(resp.deep_view()),
    {
        let SaveScan { save_path, modes, mode, subs, sub, has_files, has_saves, found, stage } =
            self;
        match stage {
            ScanStage::Root(l) => match l.step(resp) {
                Step::Ask(next, req) => Step::Ask(
                    SaveScan {
                        save_path,
                        modes,
                        mode,
                        subs,
                        sub,
                        has_files,
                        has_saves,
                        found,
                        stage: ScanStage::Root(next),
                    },
                    req,
                ),
                Step::Finished(entries) => {
                    let names = pick_directory_names(&entries);
                    (SaveScan {
                        save_path,
                        modes: names,
                        mode,
                        subs,
                        sub,
                        has_files,
                        has_saves,
                        found,
                        stage: ScanStage::Mode,
                    }).enter_mode(0)
                },
                Step::Failed(e) => Step::Failed(ConfigError::FileOp(e)),
            },
            ScanStage::Mode => {
                if mode < modes.len() {
                    match resp {
                        FsResponse::Entries(es) => {
                            let names = pick_directory_names(&es);
                            let files = has_any(Sought::SaveFile, &es);
                            (SaveScan {
                                save_path,
                                modes,
                                mode,
                                subs: names,
                                sub,
                                has_files: files,
                                has_saves: false,
                                found,
                                stage: ScanStage::Mode,
                            }).enter_sub(0)
                        },
                        FsResponse::Failed(_) => (SaveScan {
                            save_path,
                            modes,
                            mode,
                            subs,
                            sub,
                            has_files,
                            has_saves,
                            found,
                            stage: ScanStage::Mode,
                        }).next_mode(),
                        _ => Step::Failed(ConfigError::FileOp(FileOpsError::out_of_turn())),
                    }
                } else {
                    (SaveScan {
                        save_path,
                        modes,
                        mode,
                        subs,
                        sub,
                        has_files,
                        has_saves,
                        found,
                        stage: ScanStage::Mode,
                    }).next_mode()
                }
            },
            ScanStage::Sub(check) => {
                if mode < modes.len() && sub < subs.len() {
                    match check.step(resp) {
                        Step::Ask(next, req) => Step::Ask(
                            SaveScan {
                                save_path,
                                modes,
                                mode,
                                subs,
                                sub,
                                has_files,
                                has_saves,
                                found,
                                stage: ScanStage::Sub(next),
                            },
                            req,
                        ),
                        Step::Finished(is_save) => {
                            let mut found = found;
                            let mut has_saves = has_saves;
                            if is_save {
                                let ghost before = found.deep_view();
                                let entry = SaveEntry::new(modes[mode].clone(), subs[sub].clone());
                                found.push(entry);
                                has_saves = true;
                                assert(found.deep_view() =~= before.push(entry.deep_view()));
                            }
                            (SaveScan {
                                save_path,
                                modes,
                                mode,
                                subs,
                                sub,
                                has_files,
                                has_saves,
                                found,
                                stage: ScanStage::Mode,
                            }).enter_sub(sub + 1)
                        },
                        Step::Failed(e) => Step::Failed(ConfigError::FileOp(e)),
                    }
                } else {
                    (SaveScan {
                        save_path,
                        modes,
                        mode,
                        subs,
                        sub,
                        has_files,
                        has_saves,
                        found,
                        stage: ScanStage::Mode,
                    }).next_mode()
                }
            },
            ScanStage::Flat(check) => {
                if mode < modes.len() {
                    match check.step(resp) {
                        Step::Ask(next, req) => Step::Ask(
                            SaveScan {
                                save_path,
                                modes,
                                mode,
                                subs,
                                sub,
                                has_files,
                                has_saves,
                                found,
                                stage: ScanStage::Flat(next),
                            },
                            req,
                        ),
                        Step::Finished(is_save) => {
                            let mut found = found;
                            if is_save {
                                let ghost before = found.deep_view();
                                let entry = SaveEntry::flat(modes[mode].clone());
                                found.push(entry);
                                assert(found.deep_view() =~= before.push(entry.deep_view()));
                            }
                            (SaveScan {
                                save_path,
                                modes,
                                mode,
                                subs,
                                sub,
                                has_files,
                                has_saves,
                                found,
                                stage: ScanStage::Mode,
                            }).next_mode()
                        },
                        Step::Failed(e) => Step::Failed(ConfigError::FileOp(e)),
                    }
                } else {
                    (SaveScan {
                        save_path,
                        modes,
                        mode,
                        subs,
                        sub,
                        has_files,
                        has_saves,
                        found,
                        stage: ScanStage::Mode,
                    }).next_mode()
                }
            },
        }
    }
}

/// Begins the search for the saves below `save_path`. It ends with the
/// entries of the saves found, by game mode and then by name.
pub fn list_save_entries(save_path: &str) -> (r: (SaveScan, FsRequest))
    ensures
        r.deep_view() == SaveScanView::begin(save_path@),
{
    let (listing, req) = Listing::begin(save_path);
    let scan = SaveScan {
        save_path: String::from_str(save_path),
        modes: Vec::new(),
        mode: 0,
        subs: Vec::new(),
        sub: 0,
        has_files: false,
        has_saves: false,
        found: Vec::new(),
        stage: ScanStage::Root(listing),
    };
    assert(scan.modes.deep_view() =~= Seq::<Seq<char>>::empty());
    assert(scan.subs.deep_view() =~= Seq::<Seq<char>>::empty());
    assert(scan.found.deep_view() =~= Seq::<SaveEntryView>::empty());
    (scan, req)
}

/// The saves of one game mode.
#[derive(Debug, Clone, PartialEq, Eq)]
pub struct ModeGroup {
    /// The game mode, or `(Other)` for the saves without one.
    pub game_mode: String,
    pub saves: Vec<SaveEntry>,
}

pub ghost struct ModeGroupView {
    pub game_mode: Seq<char>,
    pub saves: Seq<SaveEntryView>,
}

impl DeepView for ModeGroup {
    type V = ModeGroupView;

    open spec fn deep_view(&self) -> ModeGroupView {
        ModeGroupView { game_mode: self.game_mode@, saves: self.saves.deep_view() }
    }
}

impl Named for ModeGroup {
    open spec fn name_of(v: ModeGroupView) -> Seq<char> {
        v.game_mode
    }

    fn name(&self) -> (n: &str) {
        self.game_mode.as_str()
    }
}

/// The name of the group that an entry belongs to: its game mode, or
/// `(Other)` where it has none.
pub open spec fn group_name(e: SaveEntryView) -> Seq<char> {
    if e.game_mode.len() == 0 {
        "(Other)"@
    } else {
        e.game_mode
    }
}

/// The entries among `entries` that belong to the group `name`, in their
/// order.
pub open spec fn members(entries: Seq<SaveEntryView>, name: Seq<char>) -> Seq<SaveEntryView>
    decreases entries.len(),
{
    if entries.len() == 0 {
        Seq::empty()
    } else if group_name(entries.last()) == name {
        members(entries.drop_last(), name).push(entries.last())
    } else {
        members(entries.drop_last(), name)
    }
}

/// The groups of the first `upto` of `entries`, in the order in which their
/// first entries come; each group holds its entries among all of `entries`.
pub open spec fn grouped(entries: Seq<SaveEntryView>, upto: int) -> Seq<ModeGroupView>
    decreases upto,
{
    if upto <= 0 {
        Seq::empty()
    } else {
        let before = grouped(entries, upto - 1);
        let name = group_name(entries[upto - 1]);
        if position::<ModeGroup>(before, name) is Some {
            before
        } else {
            before.push(ModeGroupView { game_mode: name, saves: members(entries, name) })
        }
    }
}

fn group_name_of(e: &SaveEntry) -> (n: String)
    ensures
        n@ == group_name(e.deep_view()),
{
    if e.game_mode.as_str().is_empty() {
        String::from_str("(Other)")
    } else {
        e.game_mode.clone()
    }
}

fn members_of(entries: &Vec<SaveEntry>, name: &str) -> (r: Vec<SaveEntry>)
    ensures
        r.deep_view() == members(entries.deep_view(), name@),
{
    let ghost all = entries.deep_view();
    let mut r: Vec<SaveEntry> = Vec::new();
    let mut i: usize = 0;
    assert(all.take(0) =~= Seq::<SaveEntryView>::empty());
    assert(r.deep_view() =~= Seq::<SaveEntryView>::empty());
    while i < entries.len()
        invariant
            i <= entries.len(),
            all == entries.deep_view(),
            r.deep_view() == members(all.take(i as int), name@),
        decreases entries.len() - i,
    {
        let ghost sofar = r.deep_view();
        proof {
            assert(all.take(i + 1).drop_last() == all.take(i as int));
            assert(all.take(i + 1).last() == entries@[i as int].deep_view());
        }
        let key = group_name_of(&entries[i]);
        if same_text(key.as_str(), name) {
            let e = &entries[i];
            let copy = SaveEntry {
                game_mode: e.game_mode.clone(),
                save_name: e.save_name.clone(),
                relative_path: e.relative_path.clone(),
            };
            r.push(copy);
            assert(r.deep_view() =~= sofar.push(copy.deep_view()));
        }
        i = i + 1;
    }
    assert(all.take(entries.len() as int) == all);
    r
}

/// Groups save entries by game mode; the saves without one make the group
/// `(Other)`.
pub fn group_by_game_mode(entries: &Vec<SaveEntry>) -> (groups: Vec<ModeGroup>)
    ensures
        groups.deep_view() == grouped(entries.deep_view(), entries.len() as int),
{
    let ghost all = entries.deep_view();
    let mut groups: Vec<ModeGroup> = Vec::new();
    let mut i: usize = 0;
    assert(groups.deep_view() =~= Seq::<ModeGroupView>::empty());
    while i < entries.len()
        invariant
            i <= entries.len(),
            all == entries.deep_view(),
            groups.deep_view() == grouped(all, i as int),
        decreases entries.len() - i,
    {
        let ghost sofar = groups.deep_view();
        assert(all[i as int] == entries@[i as int].deep_view());
        let name = group_name_of(&entries[i]);
        match find_named(&groups, name.as_str()) {
            Some(_) => {},
            None => {
                let saves = members_of(entries, name.as_str());
                let group = ModeGroup { game_mode: name, saves };
                groups.push(group);
                assert(groups.deep_view() =~= sofar.push(group.deep_view()));
            },
        }
        i = i + 1;
    }
    groups
}

impl SaveScanView {
    /// The next move of the search by game mode: that of the search, with
    /// the groups in place of the entries.
    pub open spec fn step_grouped(self, resp: FsResponseView) -> StepView<
        SaveScanView,
        Seq<ModeGroupView>,
        ConfigErrorView,
    > {
        match self.step(resp) {
            StepView::Ask(s, req) => StepView::Ask(s, req),
            StepView::Finished(entries) => StepView::Finished(
                grouped(entries, entries.len() as int),
            ),
            StepView::Failed(e) => StepView::Failed(e),
        }
    }
}

impl SaveScan {
    /// The next move of the search by game mode.
    pub fn step_grouped(self, resp: FsResponse) -> (out: Step<SaveScan, Vec<ModeGroup>, ConfigError>)
        ensures
            out.deep_view() == self.deep_view().step_grouped(resp.deep_view()),
    {
        match self.step(resp) {
            Step::Ask(s, req) => Step::Ask(s, req),
            Step::Finished(entries) => Step::Finished(group_by_game_mode(&entries)),
            Step::Failed(e) => Step::Failed(e),
        }
    }
}

/// Begins the search for the saves below `save_path`, by game mode; it goes
/// on with [`SaveScan::step_grouped`].
pub fn list_save_entries_by_game_mode(save_path: &str) -> (r: (SaveScan, FsRequest))
    ensures
        r.deep_view() == SaveScanView::begin(save_path@),
{
    list_save_entries(save_path)
}

} // verus!
