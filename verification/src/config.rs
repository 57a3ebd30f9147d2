//! The settings record and the directories it resolves to.

use crate::file_ops::{
    out_of_turn, DirectoryNames, DirectoryNamesView, FileOpsError, FileOpsErrorView,
    FileOpsResult,
};
use crate::fsio::{
    result_view, FsRequest, FsRequestView, FsResponse, FsResponseView, PathKind, Step, StepView,
};
use crate::order::{
    lemma_lex_less_asymmetric, lemma_lex_less_chain, lemma_lex_less_total, lex_less, orderly,
    text_less, Ranked,
};
use crate::paths::{join, join_spec};
use crate::text::{concat2, concat3, decimal, decimal_text, same_text};
use vstd::prelude::*;
use vstd::string::*;

verus! {

/// Default backup retention count.
pub const DEFAULT_RETENTION_COUNT: usize = 10;

/// Name of the settings file inside the settings directory.
pub const CONFIG_FILE_NAME: &'static str = "zomboid_backup_config.json";

/// Application configuration: where the saves and the backups are, and how
/// many backups of each save are kept.
#[derive(Debug, Clone, PartialEq, Eq)]
pub struct Config {
    /// Path to the saves directory; detected from the home directory when
    /// `None`.
    pub save_path: Option<String>,
    /// Path to the backup storage directory; a default below the home
    /// directory when `None`.
    pub backup_path: Option<String>,
    /// Maximum number of backups to retain per save.
    pub retention_count: usize,
    /// Whether to check for updates on startup.
    pub auto_check_updates: bool,
    /// Time of the last update check.
    pub last_update_check: Option<String>,
    /// Relative path of the save that was selected last.
    pub last_selected_save: Option<String>,
}

pub ghost struct ConfigView {
    pub save_path: Option<Seq<char>>,
    pub backup_path: Option<Seq<char>>,
    pub retention_count: usize,
    pub auto_check_updates: bool,
    pub last_update_check: Option<Seq<char>>,
    pub last_selected_save: Option<Seq<char>>,
}

impl DeepView for Config {
    type V = ConfigView;

    open spec fn deep_view(&self) -> ConfigView {
        ConfigView {
            save_path: self.save_path.deep_view(),
            backup_path: self.backup_path.deep_view(),
            retention_count: self.retention_count,
            auto_check_updates: self.auto_check_updates,
            last_update_check: self.last_update_check.deep_view(),
            last_selected_save: self.last_selected_save.deep_view(),
        }
    }
}

/// The value of `auto_check_updates` where a settings file does not say.
pub fn default_auto_check_updates() -> (b: bool)
    ensures
        b,
{
    true
}

/// The message of the error for an unknown home directory.
pub open spec fn no_home() -> Seq<char> {
    "Could not determine home directory"@
}

/// The saves directory below the home directory `home`, or the error for an
/// unknown home directory.
pub open spec fn save_path_under(home: Option<Seq<char>>) -> Result<Seq<char>, FileOpsErrorView> {
    match home {
        Some(h) => Ok(join_spec(join_spec(h, "Zomboid"@), "Saves"@)),
        None => Err(FileOpsErrorView::Io(no_home())),
    }
}

/// The default backup directory below the home directory `home`, or the
/// error for an unknown home directory.
pub open spec fn backup_path_under(home: Option<Seq<char>>) -> Result<
    Seq<char>,
    FileOpsErrorView,
> {
    match home {
        Some(h) => Ok(join_spec(h, "ZomboidBackups"@)),
        None => Err(FileOpsErrorView::Io(no_home())),
    }
}

impl ConfigView {
    /// The settings a fresh installation starts with.
    pub open spec fn initial() -> ConfigView {
        ConfigView {
            save_path: None,
            backup_path: None,
            retention_count: DEFAULT_RETENTION_COUNT,
            auto_check_updates: true,
            last_update_check: None,
            last_selected_save: None,
        }
    }

    /// The saves directory in effect where the home directory is `home`.
    pub open spec fn save_root(self, home: Option<Seq<char>>) -> Result<
        Seq<char>,
        FileOpsErrorView,
    > {
        match self.save_path {
            Some(p) => Ok(p),
            None => save_path_under(home),
        }
    }

    /// The backup directory in effect where the home directory is `home`.
    pub open spec fn backup_root(self, home: Option<Seq<char>>) -> Result<
        Seq<char>,
        FileOpsErrorView,
    > {
        match self.backup_path {
            Some(p) => Ok(p),
            None => backup_path_under(home),
        }
    }

    /// The retention policy's invariant: at least one backup is kept.
    pub open spec fn valid(self) -> bool {
        self.retention_count >= 1
    }
}

/// `dirs::home_dir`: the user's home directory, where the platform knows
/// one, as text. It depends on the environment, so nothing is claimed of it.
#[verifier::external_body]
pub(crate) fn home_dir() -> (r: Option<String>) {
    dirs::home_dir().map(|p| p.to_string_lossy().into_owned())
}

/// `dirs::config_dir`: the user's directory for settings, where the platform
/// knows one, as text. It depends on the environment, so nothing is claimed
/// of it.
#[verifier::external_body]
pub(crate) fn config_dir() -> (r: Option<String>) {
    dirs::config_dir().map(|p| p.to_string_lossy().into_owned())
}

/// The saves directory below a given home directory.
pub fn zomboid_save_path_under(home: Option<String>) -> (r: FileOpsResult<String>)
    ensures
        result_view(r) == save_path_under(home.deep_view()),
{
    match home {
        Some(h) => {
            let game = join(h.as_str(), "Zomboid");
            Ok(join(game.as_str(), "Saves"))
        },
        None => Err(FileOpsError::Io(String::from_str("Could not determine home directory"))),
    }
}

/// The default backup directory below a given home directory.
pub fn default_backup_path_under(home: Option<String>) -> (r: FileOpsResult<String>)
    ensures
        result_view(r) == backup_path_under(home.deep_view()),
{
    match home {
        Some(h) => Ok(join(h.as_str(), "ZomboidBackups")),
        None => Err(FileOpsError::Io(String::from_str("Could not determine home directory"))),
    }
}

/// Detects the saves directory of the current user: `Zomboid/Saves` below
/// the home directory, whatever that is; an error where there is none.
pub fn detect_zomboid_save_path() -> (r: FileOpsResult<String>)
    ensures
        exists|home: Option<Seq<char>>| result_view(r) == save_path_under(home),
{
    let home = home_dir();
    let r = zomboid_save_path_under(home);
    assert(result_view(r) == save_path_under(home.deep_view()));
    r
}

/// The default backup directory of the current user: `ZomboidBackups` below
/// the home directory, whatever that is; an error where there is none.
pub fn get_default_backup_path() -> (r: FileOpsResult<String>)
    ensures
        exists|home: Option<Seq<char>>| result_view(r) == backup_path_under(home),
{
    let home = home_dir();
    let r = default_backup_path_under(home);
    assert(result_view(r) == backup_path_under(home.deep_view()));
    r
}

impl Default for Config {
    fn default() -> (c: Config)
        ensures
            c.deep_view() == ConfigView::initial(),
    {
        Config {
            save_path: None,
            backup_path: None,
            retention_count: DEFAULT_RETENTION_COUNT,
            auto_check_updates: default_auto_check_updates(),
            last_update_check: None,
            last_selected_save: None,
        }
    }
}

impl Config {
    /// Creates a new configuration with default values.
    pub fn new() -> (c: Config)
        ensures
            c.deep_view() == ConfigView::initial(),
    {
        Config {
            save_path: None,
            backup_path: None,
            retention_count: DEFAULT_RETENTION_COUNT,
            auto_check_updates: default_auto_check_updates(),
            last_update_check: None,
            last_selected_save: None,
        }
    }

    /// Creates a new configuration with the specified save path.
    pub fn with_save_path(save_path: String) -> (c: Config)
        ensures
            c.deep_view() == (ConfigView { save_path: Some(save_path@), ..ConfigView::initial() }),
    {
        Config {
            save_path: Some(save_path),
            backup_path: None,
            retention_count: DEFAULT_RETENTION_COUNT,
            auto_check_updates: default_auto_check_updates(),
            last_update_check: None,
            last_selected_save: None,
        }
    }

    /// Creates a new configuration with all paths specified.
    pub fn with_paths(save_path: String, backup_path: String) -> (c: Config)
        ensures
            c.deep_view() == (ConfigView {
                save_path: Some(save_path@),
                backup_path: Some(backup_path@),
                ..ConfigView::initial()
            }),
    {
        Config {
            save_path: Some(save_path),
            backup_path: Some(backup_path),
            retention_count: DEFAULT_RETENTION_COUNT,
            auto_check_updates: default_auto_check_updates(),
            last_update_check: None,
            last_selected_save: None,
        }
    }

    /// The saves directory in effect, given the home directory.
    pub fn save_path_with_home(&self, home: Option<String>) -> (r: FileOpsResult<String>)
        ensures
            result_view(r) == self.deep_view().save_root(home.deep_view()),
    {
        match &self.save_path {
            Some(path) => Ok(path.clone()),
            None => zomboid_save_path_under(home),
        }
    }

    /// The backup directory in effect, given the home directory.
    pub fn backup_path_with_home(&self, home: Option<String>) -> (r: FileOpsResult<String>)
        ensures
            result_view(r) == self.deep_view().backup_root(home.deep_view()),
    {
        match &self.backup_path {
            Some(path) => Ok(path.clone()),
            None => default_backup_path_under(home),
        }
    }

    /// Returns the effective save path: the configured one, else the one
    /// detected below the home directory, whatever that is.
    pub fn get_save_path(&self) -> (r: FileOpsResult<String>)
        ensures
            exists|home: Option<Seq<char>>| result_view(r) == self.deep_view().save_root(home),
    {
        let home = match &self.save_path {
            Some(_) => None,
            None => home_dir(),
        };
        let r = self.save_path_with_home(home);
        assert(result_view(r) == self.deep_view().save_root(home.deep_view()));
        r
    }

    /// Returns the effective backup path: the configured one, else the
    /// default below the home directory, whatever that is.
    pub fn get_backup_path(&self) -> (r: FileOpsResult<String>)
        ensures
            exists|home: Option<Seq<char>>| result_view(r) == self.deep_view().backup_root(home),
    {
        let home = match &self.backup_path {
            Some(_) => None,
            None => home_dir(),
        };
        let r = self.backup_path_with_home(home);
        assert(result_view(r) == self.deep_view().backup_root(home.deep_view()));
        r
    }
}

/// Why a settings operation failed.
#[derive(Debug, Clone, PartialEq, Eq)]
pub enum ConfigError {
    /// File operation error.
    FileOp(FileOpsError),
    /// The settings file is not the JSON that is expected; the text is the
    /// parser's message.
    Json(String),
    /// Config directory not found.
    ConfigDirNotFound,
    /// Invalid config value.
    InvalidValue(String),
}

pub ghost enum ConfigErrorView {
    FileOp(FileOpsErrorView),
    Json(Seq<char>),
    ConfigDirNotFound,
    InvalidValue(Seq<char>),
}

impl DeepView for ConfigError {
    type V = ConfigErrorView;

    open spec fn deep_view(&self) -> ConfigErrorView {
        match self {
            ConfigError::FileOp(e) => ConfigErrorView::FileOp(e.deep_view()),
            ConfigError::Json(e) => ConfigErrorView::Json(e@),
            ConfigError::ConfigDirNotFound => ConfigErrorView::ConfigDirNotFound,
            ConfigError::InvalidValue(m) => ConfigErrorView::InvalidValue(m@),
        }
    }
}

impl ConfigErrorView {
    /// The error as a sentence.
    pub open spec fn message(self) -> Seq<char> {
        match self {
            ConfigErrorView::FileOp(e) => "File operation error: "@ + e.message(),
            ConfigErrorView::Json(e) => "JSON error: "@ + e,
            ConfigErrorView::ConfigDirNotFound => "Config directory not found"@,
            ConfigErrorView::InvalidValue(m) => "Invalid config value: "@ + m,
        }
    }
}

impl ConfigError {
    /// The error as a sentence.
    pub fn to_string(&self) -> (s: String)
        ensures
            s@ == self.deep_view().message(),
    {
        match self {
            ConfigError::FileOp(e) => {
                let inner = e.to_string();
                concat2("File operation error: ", inner.as_str())
            },
            ConfigError::Json(e) => concat2("JSON error: ", e.as_str()),
            ConfigError::ConfigDirNotFound => String::from_str("Config directory not found"),
            ConfigError::InvalidValue(m) => concat2("Invalid config value: ", m.as_str()),
        }
    }
}

/// Result type for config operations.
pub type ConfigResult<T> = Result<T, ConfigError>;

/// The settings directory below the platform's directory for settings.
pub open spec fn config_dir_under(base: Option<Seq<char>>) -> Result<Seq<char>, ConfigErrorView> {
    match base {
        Some(b) => Ok(join_spec(b, "ZomboidBackupTool"@)),
        None => Err(ConfigErrorView::ConfigDirNotFound),
    }
}

/// The settings file below the platform's directory for settings.
pub open spec fn config_file_under(base: Option<Seq<char>>) -> Result<Seq<char>, ConfigErrorView> {
    match base {
        Some(b) => Ok(join_spec(join_spec(b, "ZomboidBackupTool"@), CONFIG_FILE_NAME@)),
        None => Err(ConfigErrorView::ConfigDirNotFound),
    }
}

/// The settings directory below a given directory for settings.
pub fn config_dir_in(base: Option<String>) -> (r: ConfigResult<String>)
    ensures
        result_view(r) == config_dir_under(base.deep_view()),
{
    match base {
        Some(b) => Ok(join(b.as_str(), "ZomboidBackupTool")),
        None => Err(ConfigError::ConfigDirNotFound),
    }
}

/// The settings file below a given directory for settings.
pub fn config_file_in(base: Option<String>) -> (r: ConfigResult<String>)
    ensures
        result_view(r) == config_file_under(base.deep_view()),
{
    match base {
        Some(b) => {
            let dir = join(b.as_str(), "ZomboidBackupTool");
            Ok(join(dir.as_str(), CONFIG_FILE_NAME))
        },
        None => Err(ConfigError::ConfigDirNotFound),
    }
}

/// Returns the path to the application's settings directory:
/// `ZomboidBackupTool` below the platform's directory for settings, whatever
/// that is; `ConfigDirNotFound` where there is none.
pub fn get_config_dir() -> (r: ConfigResult<String>)
    ensures
        exists|base: Option<Seq<char>>| result_view(r) == config_dir_under(base),
{
    let base = config_dir();
    let r = config_dir_in(base);
    assert(result_view(r) == config_dir_under(base.deep_view()));
    r
}

/// Returns the full path to the settings file, inside the settings
/// directory.
pub fn get_config_file_path() -> (r: ConfigResult<String>)
    ensures
        exists|base: Option<Seq<char>>| result_view(r) == config_file_under(base),
{
    let base = config_dir();
    let r = config_file_in(base);
    assert(result_view(r) == config_file_under(base.deep_view()));
    r
}

/// The message for a retention count that is refused.
pub open spec fn retention_refusal(count: usize) -> Seq<char> {
    "Retention count must be at least 1, got "@ + decimal_text(count as nat)
}

/// Sets the save path.
pub fn update_save_path(config: &mut Config, save_path: String)
    ensures
        final(config).deep_view() == (ConfigView {
            save_path: Some(save_path@),
            ..old(config).deep_view()
        }),
{
    config.save_path = Some(save_path);
}

/// Sets the backup path.
pub fn update_backup_path(config: &mut Config, backup_path: String)
    ensures
        final(config).deep_view() == (ConfigView {
            backup_path: Some(backup_path@),
            ..old(config).deep_view()
        }),
{
    config.backup_path = Some(backup_path);
}

/// Sets the retention count. A count of 0 is refused with `InvalidValue` and
/// leaves the settings as they were; any other count is taken.
pub fn update_retention_count(config: &mut Config, count: usize) -> (r: ConfigResult<()>)
    ensures
        count == 0 ==> result_view(r) == Err::<(), ConfigErrorView>(
            ConfigErrorView::InvalidValue(retention_refusal(count)),
        ) && final(config).deep_view() == old(config).deep_view(),
        count >= 1 ==> r is Ok && final(config).deep_view() == (ConfigView {
            retention_count: count,
            ..old(config).deep_view()
        }),
        old(config).deep_view().valid() || r is Ok ==> final(config).deep_view().valid(),
{
    if count == 0 {
        let n = decimal(count as u128);
        return Err(
            ConfigError::InvalidValue(
                concat2("Retention count must be at least 1, got ", n.as_str()),
            ),
        );
    }
    config.retention_count = count;
    Ok(())
}

/// Sets the save that was selected last.
pub fn update_last_selected_save(config: &mut Config, relative_path: String)
    ensures
        final(config).deep_view() == (ConfigView {
            last_selected_save: Some(relative_path@),
            ..old(config).deep_view()
        }),
{
    config.last_selected_save = Some(relative_path);
}

/// The check of the configured directories under way. `backup` is true
/// while the backup directory is being probed.
#[derive(Debug, Clone, PartialEq, Eq)]
pub struct Validation {
    pub save_path: String,
    pub backup_path: Option<String>,
    pub backup: bool,
}

pub ghost struct ValidationView {
    pub save_path: Seq<char>,
    pub backup_path: Option<Seq<char>>,
    pub backup: bool,
}

impl DeepView for Validation {
    type V = ValidationView;

    open spec fn deep_view(&self) -> ValidationView {
        ValidationView {
            save_path: self.save_path@,
            backup_path: self.backup_path.deep_view(),
            backup: self.backup,
        }
    }
}

pub type ValidationStepView = StepView<ValidationView, (), FileOpsErrorView>;

impl ValidationView {
    /// The check at its beginning where the saves directory in effect is
    /// `save_path`: that directory is probed.
    pub open spec fn begin(save_path: Seq<char>, backup_path: Option<Seq<char>>)
        -> ValidationStepView {
        StepView::Ask(
            ValidationView { save_path, backup_path, backup: false },
            FsRequestView::Probe { path: save_path },
        )
    }

    /// The check of the settings `config` at its beginning, where the home
    /// directory is `home`.
    pub open spec fn of(config: ConfigView, home: Option<Seq<char>>) -> ValidationStepView {
        match config.save_root(home) {
            Ok(p) => Self::begin(p, config.backup_path),
            Err(e) => StepView::Failed(e),
        }
    }

    /// The next move. The saves directory must exist and be a directory.
    /// The backup directory need not exist, but what exists in its place must
    /// be a directory.
    pub open spec fn step(self, resp: FsResponseView) -> ValidationStepView {
        if !self.backup {
            match resp {
                FsResponseView::Kind(PathKind::Missing) => StepView::Failed(
                    FileOpsErrorView::SourceNotFound(self.save_path),
                ),
                FsResponseView::Kind(PathKind::Directory) => match self.backup_path {
                    Some(b) => StepView::Ask(
                        ValidationView { backup: true, ..self },
                        FsRequestView::Probe { path: b },
                    ),
                    None => StepView::Finished(()),
                },
                FsResponseView::Kind(_) => StepView::Failed(
                    FileOpsErrorView::NotADirectory(self.save_path),
                ),
                _ => StepView::Failed(FileOpsErrorView::Io(out_of_turn())),
            }
        } else {
            match resp {
                FsResponseView::Kind(PathKind::Missing) => StepView::Finished(()),
                FsResponseView::Kind(PathKind::Directory) => StepView::Finished(()),
                FsResponseView::Kind(_) => match self.backup_path {
                    Some(b) => StepView::Failed(FileOpsErrorView::NotADirectory(b)),
                    None => StepView::Finished(()),
                },
                _ => StepView::Failed(FileOpsErrorView::Io(out_of_turn())),
            }
        }
    }
}

pub type ValidationStep = Step<Validation, (), FileOpsError>;

impl Validation {
    /// Takes the response to the last request and makes the next move.
    pub fn step(self, resp: FsResponse) -> (out: ValidationStep)
        ensures
            out.deep_view() == self.deep_view().step(resp.deep_view()),
    {
        let Validation { save_path, backup_path, backup } = self;
        if !backup {
            match resp {
                FsResponse::Kind(PathKind::Missing) => Step::Failed(
                    FileOpsError::SourceNotFound(save_path),
                ),
                FsResponse::Kind(PathKind::Directory) => match backup_path {
                    Some(b) => {
                        let req = FsRequest::Probe { path: b.clone() };
                        Step::Ask(
                            Validation { save_path, backup_path: Some(b), backup: true },
                            req,
                        )
                    },
                    None => Step::Finished(()),
                },
                FsResponse::Kind(_) => Step::Failed(FileOpsError::NotADirectory(save_path)),
                _ => Step::Failed(FileOpsError::out_of_turn()),
            }
        } else {
            match resp {
                FsResponse::Kind(PathKind::Missing) => Step::Finished(()),
                FsResponse::Kind(PathKind::Directory) => Step::Finished(()),
                FsResponse::Kind(_) => match backup_path {
                    Some(b) => Step::Failed(FileOpsError::NotADirectory(b)),
                    None => Step::Finished(()),
                },
                _ => Step::Failed(FileOpsError::out_of_turn()),
            }
        }
    }
}

impl Config {
    /// Begins the check of the configured directories, given the home
    /// directory.
    pub fn validate_with_home(&self, home: Option<String>) -> (out: ValidationStep)
        ensures
            out.deep_view() == ValidationView::of(self.deep_view(), home.deep_view()),
    {
        match self.save_path_with_home(home) {
            Ok(save_path) => {
                let req = FsRequest::Probe { path: save_path.clone() };
                let backup_path = match &self.backup_path {
                    Some(b) => Some(b.clone()),
                    None => None,
                };
                Step::Ask(Validation { save_path, backup_path, backup: false }, req)
            },
            Err(e) => Step::Failed(e),
        }
    }

    /// Begins the check that the configured paths exist and are
    /// directories, whatever the home directory is.
    pub fn validate(&self) -> (out: ValidationStep)
        ensures
            exists|home: Option<Seq<char>>|
                out.deep_view() == ValidationView::of(self.deep_view(), home),
    {
        let home = match &self.save_path {
            Some(_) => None,
            None => home_dir(),
        };
        let out = self.validate_with_home(home);
        assert(out.deep_view() == ValidationView::of(self.deep_view(), home.deep_view()));
        out
    }
}

/// The listing of the save directories under way.
#[derive(Debug, Clone, PartialEq, Eq)]
pub struct SaveDirectories {
    pub names: DirectoryNames,
}

pub ghost struct SaveDirectoriesView {
    pub names: DirectoryNamesView,
}

impl DeepView for SaveDirectories {
    type V = SaveDirectoriesView;

    open spec fn deep_view(&self) -> SaveDirectoriesView {
        SaveDirectoriesView { names: self.names.deep_view() }
    }
}

impl SaveDirectoriesView {
    /// The listing at its beginning, and the probe it begins with.
    pub open spec fn begin(save_path: Seq<char>) -> (SaveDirectoriesView, FsRequestView) {
        (
            SaveDirectoriesView { names: DirectoryNamesView::begin(save_path).0 },
            DirectoryNamesView::begin(save_path).1,
        )
    }

    /// The next move: the names of the directories below the saves
    /// directory, in dictionary order; none where it does not exist.
    pub open spec fn step(self, resp: FsResponseView) -> StepView<
        SaveDirectoriesView,
        Seq<Seq<char>>,
        ConfigErrorView,
    > {
        match self.names.step(resp) {
            StepView::Ask(n, req) => StepView::Ask(SaveDirectoriesView { names: n }, req),
            StepView::Finished(names) => StepView::Finished(names),
            StepView::Failed(e) => StepView::Failed(ConfigErrorView::FileOp(e)),
        }
    }
}

impl SaveDirectories {
    /// Takes the response to the last request and makes the next move.
    pub fn step(self, resp: FsResponse) -> (out: Step<SaveDirectories, Vec<String>, ConfigError>)
        ensures
            out.deep_view() == self.deep_view().step(resp.deep_view()),
    {
        match self.names.step(resp) {
            Step::Ask(n, req) => Step::Ask(SaveDirectories { names: n }, req),
            Step::Finished(names) => Step::Finished(names),
            Step::Failed(e) => Step::Failed(ConfigError::FileOp(e)),
        }
    }
}

/// Begins the listing of the save directories below `save_path`.
pub fn list_save_directories(save_path: &str) -> (r: (SaveDirectories, FsRequest))
    ensures
        r.deep_view() == SaveDirectoriesView::begin(save_path@),
{
    let (names, req) = DirectoryNames::begin(save_path);
    (SaveDirectories { names }, req)
}

/// A save with the game mode it belongs to, for the layout
/// `<saves>/<game mode>/<save name>`.
#[derive(Debug, Clone, PartialEq, Eq, PartialOrd, Ord)]
pub struct SaveEntry {
    /// The game mode; empty for a save directly below the saves directory.
    pub game_mode: String,
    /// The name of the save's directory.
    pub save_name: String,
    /// The save's path relative to the saves directory.
    pub relative_path: String,
}

pub ghost struct SaveEntryView {
    pub game_mode: Seq<char>,
    pub save_name: Seq<char>,
    pub relative_path: Seq<char>,
}

impl DeepView for SaveEntry {
    type V = SaveEntryView;

    open spec fn deep_view(&self) -> SaveEntryView {
        SaveEntryView {
            game_mode: self.game_mode@,
            save_name: self.save_name@,
            relative_path: self.relative_path@,
        }
    }
}

impl SaveEntryView {
    /// The entry of the save `save_name` of the game mode `game_mode`.
    pub open spec fn of(game_mode: Seq<char>, save_name: Seq<char>) -> SaveEntryView {
        SaveEntryView {
            game_mode,
            save_name,
            relative_path: if game_mode.len() == 0 {
                save_name
            } else {
                game_mode + "/"@ + save_name
            },
        }
    }
}

/// Entries are ranked by game mode, then by save name, then by path, each as
/// in the dictionary.
impl Ranked for SaveEntry {
    open spec fn ahead(a: SaveEntryView, b: SaveEntryView) -> bool {
        if a.game_mode != b.game_mode {
            lex_less(a.game_mode, b.game_mode)
        } else if a.save_name != b.save_name {
            lex_less(a.save_name, b.save_name)
        } else {
            lex_less(a.relative_path, b.relative_path)
        }
    }

    fn is_ahead(&self, other: &Self) -> (r: bool) {
        if !same_text(self.game_mode.as_str(), other.game_mode.as_str()) {
            text_less(self.game_mode.as_str(), other.game_mode.as_str())
        } else if !same_text(self.save_name.as_str(), other.save_name.as_str()) {
            text_less(self.save_name.as_str(), other.save_name.as_str())
        } else {
            text_less(self.relative_path.as_str(), other.relative_path.as_str())
        }
    }
}

/// The order of the entries is an order that ranking can go by.
pub proof fn lemma_save_entries_orderly()
    ensures
        orderly::<SaveEntry>(),
{
    assert forall|a: SaveEntryView, b: SaveEntryView| #[trigger]
        <SaveEntry as Ranked>::ahead(a, b) implies !<SaveEntry as Ranked>::ahead(b, a) by {
        lemma_lex_less_asymmetric(a.game_mode, b.game_mode);
        lemma_lex_less_asymmetric(a.save_name, b.save_name);
        lemma_lex_less_asymmetric(a.relative_path, b.relative_path);
    }
    assert forall|a: SaveEntryView, b: SaveEntryView, c: SaveEntryView|
        !#[trigger] <SaveEntry as Ranked>::ahead(a, b) && !#[trigger] <SaveEntry as Ranked>::ahead(
            b,
            c,
        ) implies !<SaveEntry as Ranked>::ahead(a, c) by {
        lemma_lex_less_chain(a.game_mode, b.game_mode, c.game_mode);
        lemma_lex_less_chain(a.save_name, b.save_name, c.save_name);
        lemma_lex_less_chain(a.relative_path, b.relative_path, c.relative_path);
        lemma_lex_less_total(a.game_mode, b.game_mode);
        lemma_lex_less_total(b.game_mode, c.game_mode);
        lemma_lex_less_total(a.save_name, b.save_name);
        lemma_lex_less_total(b.save_name, c.save_name);
        lemma_lex_less_asymmetric(a.game_mode, b.game_mode);
        lemma_lex_less_asymmetric(b.game_mode, c.game_mode);
        lemma_lex_less_asymmetric(a.game_mode, c.game_mode);
        lemma_lex_less_asymmetric(a.save_name, b.save_name);
        lemma_lex_less_asymmetric(b.save_name, c.save_name);
        lemma_lex_less_asymmetric(a.save_name, c.save_name);
        lemma_lex_less_asymmetric(c.game_mode, a.game_mode);
        lemma_lex_less_asymmetric(c.save_name, a.save_name);
        lemma_lex_less_chain(a.game_mode, c.game_mode, b.game_mode);
        lemma_lex_less_chain(b.game_mode, a.game_mode, c.game_mode);
        lemma_lex_less_chain(a.save_name, c.save_name, b.save_name);
        lemma_lex_less_chain(b.save_name, a.save_name, c.save_name);
    }
}

impl SaveEntry {
    /// Creates the entry of the save `save_name` of the game mode
    /// `game_mode`.
    pub fn new(game_mode: String, save_name: String) -> (e: SaveEntry)
        ensures
            e.deep_view() == SaveEntryView::of(game_mode@, save_name@),
    {
        let relative_path = if game_mode.as_str().is_empty() {
            save_name.clone()
        } else {
            concat3(game_mode.as_str(), "/", save_name.as_str())
        };
        SaveEntry { game_mode, save_name, relative_path }
    }

    /// Creates the entry of a save without a game mode.
    pub fn flat(save_name: String) -> (e: SaveEntry)
        ensures
            e.deep_view() == SaveEntryView::of(Seq::empty(), save_name@),
    {
        SaveEntry::new(String::new(), save_name)
    }

    /// Returns the full path to this save directory below `base_path`.
    pub fn full_path(&self, base_path: &str) -> (p: String)
        ensures
            p@ == join_spec(base_path@, self.relative_path@),
    {
        join(base_path, self.relative_path.as_str())
    }
}

} // verus!
