//! The engines driven against a file system held in memory.

use std::collections::BTreeMap;
use std::path::Path;

use zomboid_backup::backup::{
    backup_name_for, backup_name_from_stamp, count_backups, create_backup, delete_backup, garbage_collection,
    generate_backup_name, get_backup_info, get_save_backup_dir, list_archive_files, list_backups,
    list_saves_with_backups, BackupError, BackupFile, BackupLookup, CreateBackup,
    GarbageCollection, ListBackups, SavesWithBackups,
};
use zomboid_backup::clock::Timestamp;
use zomboid_backup::auto_backup::{scan_save_root, AutoBackupManager, SaveRootScan};
use zomboid_backup::config::{
    list_save_directories, Config, ConfigError, SaveDirectories, SaveEntry, Validation,
};
use zomboid_backup::file_ops::{
    copy_dir_recursive, create_tar_gz, delete_dir_recursive, delete_file, extract_tar_gz,
    get_dir_size, get_file_size, CodecJob, FileOpsError, Listing, MetaJob, RemoveJob,
};
use zomboid_backup::saves::{
    group_by_game_mode, list_save_entries, list_save_entries_by_game_mode,
    looks_like_save_directory, looks_like_save_file, ModeGroup, SaveCheck, SaveScan,
};
use zomboid_backup::trees::{CopyTree, SizeScan};
use zomboid_backup::fsio::{
    DirEntry, EntryMeta, FileMeta, FsRequest, FsResponse, PathKind, Step,
};
use zomboid_backup::restore::{
    create_undo_snapshot, delete_undo_snapshot, generate_undo_snapshot_name,
    get_undo_snapshot_dir, list_undo_snapshots, restore_backup, restore_from_undo_snapshot,
    undo_snapshot_name_for, undo_snapshot_name_from_stamp, DeleteUndoSnapshot, ListUndoSnapshots, Restore, RestoreError,
    UndoSnapshot,
};

const EPOCH: i64 = 1_735_380_000;

#[derive(Debug, Clone, PartialEq)]
enum Node {
    Dir,
    File(Vec<u8>, i64),
    Archive(BTreeMap<String, Node>, i64),
}

/// A file system in memory. Every file gets the next second as its creation
/// time. `refuse` names a path on which every changing request fails.
#[derive(Debug, Clone, PartialEq)]
struct Disk {
    nodes: BTreeMap<String, Node>,
    clock: i64,
    refuse: Option<String>,
    log: Vec<FsRequest>,
}

impl Disk {
    fn new() -> Disk {
        Disk { nodes: BTreeMap::new(), clock: EPOCH, refuse: None, log: Vec::new() }
    }

    fn tick(&mut self) -> i64 {
        self.clock += 1;
        self.clock
    }

    fn kind(&self, path: &str) -> PathKind {
        match self.nodes.get(path) {
            None => PathKind::Missing,
            Some(Node::Dir) => PathKind::Directory,
            Some(_) => PathKind::File,
        }
    }

    fn parent_is_dir(&self, path: &str) -> bool {
        match path.rfind('/') {
            Some(0) | None => true,
            Some(i) => self.kind(&path[..i]) == PathKind::Directory,
        }
    }

    fn mkdirs(&mut self, path: &str) {
        let mut so_far = String::new();
        for piece in path.split('/') {
            if piece.is_empty() {
                continue;
            }
            so_far.push('/');
            so_far.push_str(piece);
            self.nodes.entry(so_far.clone()).or_insert(Node::Dir);
        }
    }

    fn write(&mut self, path: &str, data: &[u8]) {
        assert!(self.parent_is_dir(path), "no directory for {}", path);
        let at = self.tick();
        self.nodes.insert(path.to_string(), Node::File(data.to_vec(), at));
    }

    fn read(&self, path: &str) -> String {
        match self.nodes.get(path) {
            Some(Node::File(data, _)) => String::from_utf8(data.clone()).unwrap(),
            other => panic!("{} is {:?}", path, other),
        }
    }

    fn has(&self, path: &str) -> bool {
        self.nodes.contains_key(path)
    }

    /// What lies below `dir`, by relative path.
    fn tree(&self, dir: &str) -> BTreeMap<String, Node> {
        let prefix = format!("{}/", dir);
        self.nodes
            .iter()
            .filter(|(k, _)| k.starts_with(&prefix))
            .map(|(k, v)| (k[prefix.len()..].to_string(), v.clone()))
            .collect()
    }

    /// The contents of the files below `dir`, by relative path.
    fn contents(&self, dir: &str) -> BTreeMap<String, Vec<u8>> {
        self.tree(dir)
            .into_iter()
            .filter_map(|(k, v)| match v {
                Node::File(data, _) => Some((k, data)),
                _ => None,
            })
            .collect()
    }

    /// The contents of the files in the archive at `path`.
    fn archived(&self, path: &str) -> BTreeMap<String, Vec<u8>> {
        match self.nodes.get(path) {
            Some(Node::Archive(tree, _)) => tree
                .iter()
                .filter_map(|(k, v)| match v {
                    Node::File(data, _) => Some((k.clone(), data.clone())),
                    _ => None,
                })
                .collect(),
            other => panic!("{} is {:?}", path, other),
        }
    }

    fn remove_tree(&mut self, dir: &str) {
        let prefix = format!("{}/", dir);
        self.nodes.retain(|k, _| k != dir && !k.starts_with(&prefix));
    }

    fn meta(&self, node: &Node) -> FileMeta {
        let (size, at) = match node {
            Node::Dir => (0, EPOCH),
            Node::File(data, at) => (data.len() as u64, *at),
            Node::Archive(tree, at) => {
                let inside: usize = tree
                    .values()
                    .map(|n| match n {
                        Node::File(data, _) => data.len(),
                        _ => 0,
                    })
                    .sum();
                (100 + inside as u64, *at)
            }
        };
        FileMeta { size, created: Timestamp { secs: at, nanos: 0 } }
    }

    fn refused(&self, path: &str) -> bool {
        self.refuse.as_deref() == Some(path)
    }

    fn perform(&mut self, req: &FsRequest) -> FsResponse {
        self.log.push(req.clone());
        let denied = || FsResponse::Failed("permission denied".to_string());
        match req {
            FsRequest::Probe { path } => FsResponse::Kind(self.kind(path)),
            FsRequest::Metadata { path } => match self.nodes.get(path) {
                Some(node) => FsResponse::Meta(self.meta(node)),
                None => FsResponse::Failed("no such file".to_string()),
            },
            FsRequest::ReadDir { path } => {
                if self.kind(path) != PathKind::Directory {
                    return FsResponse::Failed("not a directory".to_string());
                }
                let prefix = format!("{}/", path);
                let entries = self
                    .nodes
                    .iter()
                    .filter(|(k, _)| k.starts_with(&prefix) && !k[prefix.len()..].contains('/'))
                    .map(|(k, v)| DirEntry {
                        name: Some(k[prefix.len()..].to_string()),
                        kind: self.kind(k),
                        symlink: false,
                        meta: EntryMeta::Known(self.meta(v)),
                    })
                    .collect();
                FsResponse::Entries(entries)
            }
            FsRequest::CreateDirAll { path } => {
                if self.refused(path) {
                    return denied();
                }
                self.mkdirs(path);
                FsResponse::Done
            }
            FsRequest::WriteArchive { src_dir, dst_file } => {
                if self.refused(dst_file) {
                    // A refused write leaves a stump behind.
                    let at = self.tick();
                    self.nodes.insert(dst_file.clone(), Node::File(Vec::new(), at));
                    return denied();
                }
                if self.kind(src_dir) != PathKind::Directory || !self.parent_is_dir(dst_file) {
                    return FsResponse::Failed("no such directory".to_string());
                }
                let tree = self.tree(src_dir);
                let at = self.tick();
                self.nodes.insert(dst_file.clone(), Node::Archive(tree, at));
                FsResponse::Done
            }
            FsRequest::UnpackArchive { src_file, dst_dir } => {
                if self.refused(dst_dir) {
                    return denied();
                }
                let tree = match self.nodes.get(src_file) {
                    Some(Node::Archive(tree, _)) => tree.clone(),
                    _ => return FsResponse::Failed("not an archive".to_string()),
                };
                self.mkdirs(dst_dir);
                for (rel, node) in tree {
                    self.nodes.insert(format!("{}/{}", dst_dir, rel), node);
                }
                FsResponse::Done
            }
            FsRequest::RemoveDirAll { path } => {
                if self.refused(path) {
                    return denied();
                }
                self.remove_tree(path);
                FsResponse::Done
            }
            FsRequest::CopyFile { src_file, dst_file } => {
                if self.refused(dst_file) {
                    return denied();
                }
                match self.nodes.get(src_file).cloned() {
                    Some(Node::File(data, _)) if self.parent_is_dir(dst_file) => {
                        let at = self.tick();
                        self.nodes.insert(dst_file.clone(), Node::File(data, at));
                        FsResponse::Done
                    }
                    _ => FsResponse::Failed("cannot copy".to_string()),
                }
            }
            FsRequest::RemoveFile { path } => {
                if self.refused(path) && !matches!(self.nodes.get(path), Some(Node::File(d, _)) if d.is_empty())
                {
                    return denied();
                }
                match self.nodes.remove(path) {
                    Some(_) => FsResponse::Done,
                    None => FsResponse::Failed("no such file".to_string()),
                }
            }
        }
    }

    /// Runs an operation to its end.
    fn run<S, T, E>(
        &mut self,
        start: (S, FsRequest),
        step: impl Fn(S, FsResponse) -> Step<S, T, E>,
    ) -> Result<T, E> {
        let (mut state, mut req) = start;
        loop {
            let resp = self.perform(&req);
            match step(state, resp) {
                Step::Ask(s, r) => {
                    state = s;
                    req = r;
                }
                Step::Finished(t) => return Ok(t),
                Step::Failed(e) => return Err(e),
            }
        }
    }

    fn run_step<S, T, E>(
        &mut self,
        start: Step<S, T, E>,
        step: impl Fn(S, FsResponse) -> Step<S, T, E>,
    ) -> Result<T, E> {
        match start {
            Step::Ask(s, r) => self.run((s, r), step),
            Step::Finished(t) => Ok(t),
            Step::Failed(e) => Err(e),
        }
    }

    fn writes(&self) -> Vec<FsRequest> {
        self.log
            .iter()
            .filter(|r| {
                !matches!(
                    r,
                    FsRequest::Probe { .. } | FsRequest::Metadata { .. } | FsRequest::ReadDir { .. }
                )
            })
            .cloned()
            .collect()
    }
}

const SAVES: &str = "/saves";
const BACKUPS: &str = "/backups";

/// A disk with the save and backup roots and nothing in them.
fn setup() -> Disk {
    let mut disk = Disk::new();
    disk.mkdirs(SAVES);
    disk.mkdirs(BACKUPS);
    disk
}

fn create_test_save(disk: &mut Disk, save_dir: &str) {
    disk.mkdirs(&format!("{}/map", save_dir));
    disk.write(&format!("{}/save.bin", save_dir), b"game state");
    disk.write(&format!("{}/map/pchunk_0_0.dat", save_dir), b"map data");
    disk.write(&format!("{}/map/pchunk_0_1.dat", save_dir), b"more map");
}

fn modify_save_content(disk: &mut Disk, save_dir: &str, content: &str) {
    disk.write(&format!("{}/save.bin", save_dir), content.as_bytes());
}

fn read_save_content(disk: &Disk, save_dir: &str) -> String {
    disk.read(&format!("{}/save.bin", save_dir))
}

fn stamp(n: u32) -> String {
    format!("2024-12-28_10-00-{:02}", n)
}

fn backup_at(disk: &mut Disk, save: &str, retention: usize, n: u32) -> Result<zomboid_backup::backup::BackupResult, BackupError> {
    let name = backup_name_from_stamp(&stamp(n));
    disk.run(create_backup(SAVES, BACKUPS, retention, save, &name), CreateBackup::step)
}

fn restore_at(disk: &mut Disk, save: &str, backup: &str, n: u32) -> Result<zomboid_backup::restore::RestoreResult, RestoreError> {
    let snapshot = undo_snapshot_name_from_stamp(&stamp(n));
    disk.run(restore_backup(SAVES, BACKUPS, save, backup, &snapshot), Restore::step)
}

fn list_backup_files(disk: &mut Disk, dir: &str) -> Result<Vec<BackupFile>, FileOpsError> {
    let entries = disk.run(Listing::begin(dir), Listing::step)?;
    list_archive_files(&entries, "").map_err(FileOpsError::Io)
}

fn count(disk: &mut Disk, save: &str) -> usize {
    disk.run(count_backups(BACKUPS, save), ListBackups::step_counting).unwrap()
}

fn file_name(path: &str) -> &str {
    Path::new(path).file_name().and_then(|n| n.to_str()).unwrap()
}

// ---------------------------------------------------------------------------
// Backup
// ---------------------------------------------------------------------------

#[test]
fn test_generate_backup_name_format() {
    let name = generate_backup_name("Survival").unwrap();
    // Format: {YYYY-MM-DD}_{HH-mm-ss}.tar.gz
    assert!(name.ends_with(".tar.gz"));
    assert!(name.contains("_"));
    let parts: Vec<&str> = name.split('_').collect();
    assert_eq!(parts.len(), 2);
    assert!(parts[0].chars().filter(|&c| c == '-').count() == 2);
    assert!(parts[1].chars().filter(|&c| c == '-').count() == 2);
}

#[test]
fn backup_name_is_the_stamp_with_the_extension() {
    assert_eq!(backup_name_from_stamp("2024-12-28_14-30-45"), "2024-12-28_14-30-45.tar.gz");
    assert_eq!(
        generate_backup_name("a").unwrap().len(),
        "2024-12-28_14-30-45.tar.gz".len()
    );
    let t = Timestamp { secs: EPOCH + 16_245, nanos: 999_999_999 };
    assert_eq!(backup_name_for(t), Some("2024-12-28_14-30-45.tar.gz".to_string()));
    assert_eq!(
        backup_name_for(Timestamp { secs: 0, nanos: 0 }),
        Some("1970-01-01_00-00-00.tar.gz".to_string())
    );
    assert_eq!(backup_name_for(Timestamp { secs: i64::MAX, nanos: 0 }), None);
    assert_eq!(backup_name_for(Timestamp { secs: 0, nanos: u32::MAX }), None);
}

#[test]
fn test_get_save_backup_dir() {
    let save_dir = get_save_backup_dir("/backups", "Survival");
    assert_eq!(Path::new(&save_dir), Path::new("/backups/Survival"));
    assert_eq!(save_dir, "/backups/Survival");
}

#[test]
fn test_list_backup_files_empty() {
    let mut disk = setup();
    let backups = list_backup_files(&mut disk, BACKUPS).unwrap();
    assert_eq!(backups.len(), 0);
    let missing = list_backup_files(&mut disk, "/nowhere").unwrap();
    assert_eq!(missing.len(), 0);
}

#[test]
fn test_list_backup_files_with_backups() {
    let mut disk = setup();
    disk.write("/backups/Survival_2024-12-28_10-00-00.tar.gz", b"data");
    disk.write("/backups/Survival_2024-12-28_11-00-00.tar.gz", b"data");
    disk.write("/backups/notes.txt", b"data");
    disk.mkdirs("/backups/folder.tar.gz");

    let backups = list_backup_files(&mut disk, BACKUPS).unwrap();
    assert_eq!(backups.len(), 2);
    assert_eq!(
        backups[0],
        BackupFile {
            name: "Survival_2024-12-28_10-00-00.tar.gz".to_string(),
            size_bytes: 4,
            created: Timestamp { secs: EPOCH + 1, nanos: 0 },
        }
    );
    assert_eq!(backups[1].name, "Survival_2024-12-28_11-00-00.tar.gz");
}

#[test]
fn list_archive_files_stops_at_the_first_unreadable_archive() {
    let known = |name: &str, kind| DirEntry {
        name: Some(name.to_string()),
        kind,
        symlink: false,
        meta: EntryMeta::Known(FileMeta { size: 1, created: Timestamp { secs: 5, nanos: 0 } }),
    };
    let broken = |name: Option<&str>, text: &str| DirEntry {
        name: name.map(|n| n.to_string()),
        kind: PathKind::File,
        symlink: false,
        meta: EntryMeta::Unreadable(text.to_string()),
    };
    // Entries that are no archives may be unreadable.
    let entries = vec![
        broken(Some("notes.txt"), "first"),
        broken(None, "nameless"),
        known("a.tar.gz", PathKind::File),
        known("undo_b.tar.gz", PathKind::File),
        known("c.tar.gz", PathKind::Directory),
        known("d.tar.gz", PathKind::Other),
    ];
    let all = list_archive_files(&entries, "").unwrap();
    assert_eq!(all.iter().map(|f| f.name.as_str()).collect::<Vec<_>>(), ["a.tar.gz", "undo_b.tar.gz"]);
    let undo = list_archive_files(&entries, "undo_").unwrap();
    assert_eq!(undo.iter().map(|f| f.name.as_str()).collect::<Vec<_>>(), ["undo_b.tar.gz"]);

    let mut entries = entries;
    entries.push(broken(Some("e.tar.gz"), "second"));
    entries.push(broken(Some("f.tar.gz"), "third"));
    assert_eq!(list_archive_files(&entries, ""), Err("second".to_string()));
    assert!(list_archive_files(&entries, "undo_").is_ok());
}

#[test]
fn test_create_backup_success() {
    let mut disk = setup();
    create_test_save(&mut disk, "/saves/Survival");

    let name = generate_backup_name("Survival").unwrap();
    let result =
        disk.run(create_backup(SAVES, BACKUPS, 10, "Survival", &name), CreateBackup::step).unwrap();
    assert!(result.backup_path.contains("Survival/"));
    assert!(result.backup_name.ends_with(".tar.gz"));
    assert!(result.backup_name.contains("_"));
    assert_eq!(result.retained_count, 1);
    assert_eq!(result.deleted_count, 0);
    assert_eq!(result.backup_path, format!("/backups/Survival/{}", name));
    assert_eq!(disk.archived(&result.backup_path), disk.contents("/saves/Survival"));
}

#[test]
fn test_create_backup_save_not_found() {
    let mut disk = setup();
    let before = disk.nodes.clone();
    let result = backup_at(&mut disk, "NonExistent", 10, 0);
    assert!(matches!(result, Err(BackupError::SaveNotFound(_))));
    assert_eq!(result, Err(BackupError::SaveNotFound("NonExistent".to_string())));
    // Nothing was written anywhere.
    assert_eq!(disk.nodes, before);
    assert_eq!(disk.writes(), vec![]);
    assert_eq!(disk.log, vec![FsRequest::Probe { path: "/saves/NonExistent".to_string() }]);
}

#[test]
fn create_backup_of_a_file_is_save_not_found() {
    let mut disk = setup();
    disk.write("/saves/Survival", b"not a directory");
    let before = disk.nodes.clone();
    let result = backup_at(&mut disk, "Survival", 10, 0);
    assert_eq!(
        result,
        Err(BackupError::SaveNotFound("Survival is not a directory".to_string()))
    );
    assert_eq!(disk.nodes, before);
    assert_eq!(disk.writes(), vec![]);
}

#[test]
fn create_backup_asks_in_order() {
    let mut disk = setup();
    create_test_save(&mut disk, "/saves/Survival");
    backup_at(&mut disk, "Survival", 10, 0).unwrap();
    let archive = "/backups/Survival/2024-12-28_10-00-00.tar.gz".to_string();
    assert_eq!(
        disk.log,
        vec![
            FsRequest::Probe { path: "/saves/Survival".to_string() },
            FsRequest::Probe { path: "/backups/Survival".to_string() },
            FsRequest::CreateDirAll { path: "/backups/Survival".to_string() },
            FsRequest::Probe { path: "/saves/Survival".to_string() },
            FsRequest::Probe { path: archive.clone() },
            FsRequest::Probe { path: "/backups/Survival".to_string() },
            FsRequest::WriteArchive { src_dir: "/saves/Survival".to_string(), dst_file: archive },
            FsRequest::Probe { path: "/backups/Survival".to_string() },
            FsRequest::ReadDir { path: "/backups/Survival".to_string() },
        ]
    );
}

#[test]
fn create_backup_refuses_to_overwrite_an_archive() {
    let mut disk = setup();
    create_test_save(&mut disk, "/saves/Survival");
    backup_at(&mut disk, "Survival", 10, 0).unwrap();
    let before = disk.nodes.clone();
    let again = backup_at(&mut disk, "Survival", 10, 0);
    assert_eq!(
        again,
        Err(BackupError::FileOp(FileOpsError::DestinationExists(
            "/backups/Survival/2024-12-28_10-00-00.tar.gz".to_string()
        )))
    );
    assert_eq!(disk.nodes, before);
}

#[test]
fn create_backup_reports_a_directory_that_cannot_be_made() {
    let mut disk = setup();
    create_test_save(&mut disk, "/saves/Survival");
    disk.refuse = Some("/backups/Survival".to_string());
    let result = backup_at(&mut disk, "Survival", 10, 0);
    assert_eq!(
        result,
        Err(BackupError::FileOp(FileOpsError::Io("permission denied".to_string())))
    );
}

#[test]
fn a_failed_archive_leaves_nothing_behind() {
    let mut disk = setup();
    create_test_save(&mut disk, "/saves/Survival");
    let archive = "/backups/Survival/2024-12-28_10-00-00.tar.gz";
    disk.refuse = Some(archive.to_string());
    let result = backup_at(&mut disk, "Survival", 10, 0);
    assert_eq!(
        result,
        Err(BackupError::FileOp(FileOpsError::Io("permission denied".to_string())))
    );
    assert!(!disk.has(archive));
    assert_eq!(disk.log.last(), Some(&FsRequest::RemoveFile { path: archive.to_string() }));
}

#[test]
fn test_garbage_collection_with_retention_limit() {
    let mut disk = setup();
    for i in 0..5 {
        disk.write(&format!("/backups/Survival_2024-12-28_{:02}-00-00.tar.gz", i), b"data");
    }

    let (retained, deleted) =
        disk.run(garbage_collection(BACKUPS, 3), GarbageCollection::step).unwrap();

    assert_eq!(retained, 3);
    assert_eq!(deleted, 2);

    let remaining = list_backup_files(&mut disk, BACKUPS).unwrap();
    assert_eq!(remaining.len(), 3);
    // The newest three are kept.
    let names: Vec<&str> = remaining.iter().map(|f| f.name.as_str()).collect();
    assert_eq!(
        names,
        [
            "Survival_2024-12-28_02-00-00.tar.gz",
            "Survival_2024-12-28_03-00-00.tar.gz",
            "Survival_2024-12-28_04-00-00.tar.gz"
        ]
    );
}

#[test]
fn test_garbage_collection_no_deletion_needed() {
    let mut disk = setup();
    for i in 0..2 {
        disk.write(&format!("/backups/Survival_2024-12-28_{:02}-00-00.tar.gz", i), b"data");
    }

    let (retained, deleted) =
        disk.run(garbage_collection(BACKUPS, 5), GarbageCollection::step).unwrap();

    assert_eq!(retained, 2);
    assert_eq!(deleted, 0);
    assert_eq!(disk.writes(), vec![]);

    let remaining = list_backup_files(&mut disk, BACKUPS).unwrap();
    assert_eq!(remaining.len(), 2);
}

#[test]
fn garbage_collection_edge_counts() {
    // A directory that does not exist.
    let mut disk = setup();
    assert_eq!(disk.run(garbage_collection("/nowhere", 3), GarbageCollection::step), Ok((0, 0)));
    // As many archives as are kept.
    for i in 0..3 {
        disk.write(&format!("/backups/{}.tar.gz", i), b"x");
    }
    assert_eq!(disk.run(garbage_collection(BACKUPS, 3), GarbageCollection::step), Ok((3, 0)));
    // A retention count of zero keeps none.
    assert_eq!(disk.run(garbage_collection(BACKUPS, 0), GarbageCollection::step), Ok((0, 3)));
    assert_eq!(list_backup_files(&mut disk, BACKUPS).unwrap().len(), 0);
}

#[test]
fn garbage_collection_goes_by_creation_time_not_by_name() {
    let mut disk = setup();
    disk.write("/backups/z.tar.gz", b"oldest");
    disk.write("/backups/m.tar.gz", b"middle");
    disk.write("/backups/a.tar.gz", b"newest");
    disk.write("/backups/keep.txt", b"no archive");
    assert_eq!(disk.run(garbage_collection(BACKUPS, 1), GarbageCollection::step), Ok((1, 2)));
    assert!(disk.has("/backups/a.tar.gz"));
    assert!(!disk.has("/backups/m.tar.gz"));
    assert!(!disk.has("/backups/z.tar.gz"));
    assert!(disk.has("/backups/keep.txt"));
    // The oldest of the doomed goes last.
    assert_eq!(
        disk.writes(),
        vec![
            FsRequest::RemoveFile { path: "/backups/m.tar.gz".to_string() },
            FsRequest::RemoveFile { path: "/backups/z.tar.gz".to_string() },
        ]
    );
}

#[test]
fn garbage_collection_passes_over_failed_removals() {
    let mut disk = setup();
    for i in 0..4 {
        disk.write(&format!("/backups/{}.tar.gz", i), b"x");
    }
    disk.refuse = Some("/backups/1.tar.gz".to_string());
    assert_eq!(disk.run(garbage_collection(BACKUPS, 1), GarbageCollection::step), Ok((1, 3)));
    assert!(disk.has("/backups/3.tar.gz"));
    assert!(!disk.has("/backups/2.tar.gz"));
    assert!(disk.has("/backups/1.tar.gz"));
    assert!(!disk.has("/backups/0.tar.gz"));
}

#[test]
fn garbage_collection_fails_on_an_unreadable_listing() {
    let (gc, first) = garbage_collection(BACKUPS, 1);
    assert_eq!(first, FsRequest::Probe { path: BACKUPS.to_string() });
    let gc = match gc.step(FsResponse::Kind(PathKind::Directory)) {
        Step::Ask(gc, req) => {
            assert_eq!(req, FsRequest::ReadDir { path: BACKUPS.to_string() });
            gc
        }
        other => panic!("{:?}", other),
    };
    assert_eq!(
        gc.clone().step(FsResponse::Failed("gone".to_string())),
        Step::Failed(FileOpsError::Io("gone".to_string()))
    );
    assert_eq!(
        gc.step(FsResponse::Done),
        Step::Failed(FileOpsError::Io("response does not answer the request".to_string()))
    );
}

#[test]
fn test_list_backups_empty() {
    let mut disk = setup();
    let backups = disk.run(list_backups(BACKUPS, "Survival"), ListBackups::step).unwrap();
    assert_eq!(backups.len(), 0);
}

#[test]
fn test_list_backups_with_data() {
    let mut disk = setup();
    create_test_save(&mut disk, "/saves/Survival");
    let name = generate_backup_name("Survival").unwrap();
    disk.run(create_backup(SAVES, BACKUPS, 10, "Survival", &name), CreateBackup::step).unwrap();

    let backups = disk.run(list_backups(BACKUPS, "Survival"), ListBackups::step).unwrap();
    assert_eq!(backups.len(), 1);
    assert_eq!(backups[0].save_name, "Survival");
    assert!(backups[0].name.ends_with(".tar.gz"));
    assert!(backups[0].name.contains("_"));
    assert!(backups[0].size_bytes > 0);
    assert!(!backups[0].size_formatted.is_empty());
}

#[test]
fn list_backups_is_newest_first_and_fully_described() {
    let mut disk = setup();
    create_test_save(&mut disk, "/saves/Survival");
    backup_at(&mut disk, "Survival", 10, 5).unwrap();
    backup_at(&mut disk, "Survival", 10, 1).unwrap();
    backup_at(&mut disk, "Survival", 10, 3).unwrap();
    let backups = disk.run(list_backups(BACKUPS, "Survival"), ListBackups::step).unwrap();
    let names: Vec<&str> = backups.iter().map(|b| b.name.as_str()).collect();
    assert_eq!(
        names,
        [
            "2024-12-28_10-00-03.tar.gz",
            "2024-12-28_10-00-01.tar.gz",
            "2024-12-28_10-00-05.tar.gz"
        ]
    );
    let first = &backups[2];
    assert_eq!(first.path, "/backups/Survival/2024-12-28_10-00-05.tar.gz");
    assert_eq!(first.size_bytes, 126);
    assert_eq!(first.size_formatted, "126 B");
    assert_eq!(first.created_at, "2024-12-28T10:00:04+00:00");
    assert_eq!(first.save_name, "Survival");
}

#[test]
fn an_unwritable_creation_time_fails_the_listing() {
    let (job, _) = list_backups(BACKUPS, "Survival");
    let job = match job.step(FsResponse::Kind(PathKind::Directory)) {
        Step::Ask(job, _) => job,
        other => panic!("{:?}", other),
    };
    let entry = |secs: i64, nanos: u32| DirEntry {
        name: Some("a.tar.gz".to_string()),
        kind: PathKind::File,
        symlink: false,
        meta: EntryMeta::Known(FileMeta { size: 2048, created: Timestamp { secs, nanos } }),
    };
    match job.clone().step(FsResponse::Entries(vec![entry(EPOCH, 500_000_000)])) {
        Step::Finished(infos) => {
            assert_eq!(infos[0].created_at, "2024-12-28T10:00:00.500+00:00");
            assert_eq!(infos[0].size_formatted, "2.00 KB");
        }
        other => panic!("{:?}", other),
    }
    assert_eq!(
        job.step(FsResponse::Entries(vec![entry(i64::MAX, 0)])),
        Step::Failed(BackupError::FileOp(FileOpsError::Io(
            "creation time is out of range".to_string()
        )))
    );
}

#[test]
fn test_get_backup_info_success() {
    let mut disk = setup();
    create_test_save(&mut disk, "/saves/Survival");
    let backup_result = backup_at(&mut disk, "Survival", 10, 0).unwrap();
    let backup_name = backup_result.backup_name;

    assert!(disk.has(&format!("/backups/Survival/{}", backup_name)));
    assert!(backup_name.ends_with(".tar.gz"));

    let info = disk
        .run(get_backup_info(BACKUPS, "Survival", &backup_name), BackupLookup::step_info)
        .unwrap();
    assert_eq!(info.name, backup_name);
    assert_eq!(info.save_name, "Survival");
    assert!(info.size_bytes > 0);
    assert_eq!(info.path, format!("/backups/Survival/{}", backup_name));
    assert_eq!(info.size_formatted, "126 B");
    assert_eq!(info.created_at, "2024-12-28T10:00:04+00:00");
}

#[test]
fn test_get_backup_info_not_found() {
    let mut disk = setup();
    let result =
        disk.run(get_backup_info(BACKUPS, "Survival", "NonExistent"), BackupLookup::step_info);
    assert!(matches!(result, Err(BackupError::BackupNotFound(_))));
    assert_eq!(result, Err(BackupError::BackupNotFound("Survival/NonExistent".to_string())));
}

#[test]
fn test_count_backups() {
    let mut disk = setup();
    create_test_save(&mut disk, "/saves/Survival");

    assert_eq!(count(&mut disk, "Survival"), 0);

    backup_at(&mut disk, "Survival", 10, 0).unwrap();
    assert_eq!(count(&mut disk, "Survival"), 1);

    backup_at(&mut disk, "Survival", 10, 2).unwrap();
    assert_eq!(count(&mut disk, "Survival"), 2);
}

#[test]
fn test_list_saves_with_backups() {
    let mut disk = setup();
    create_test_save(&mut disk, "/saves/Survival");
    create_test_save(&mut disk, "/saves/Builder");

    backup_at(&mut disk, "Survival", 10, 0).unwrap();
    backup_at(&mut disk, "Builder", 10, 1).unwrap();
    disk.write("/backups/stray.txt", b"x");

    let saves = disk.run(list_saves_with_backups(BACKUPS), SavesWithBackups::step).unwrap();
    assert_eq!(saves.len(), 2);
    assert!(saves.contains(&"Builder".to_string()));
    assert!(saves.contains(&"Survival".to_string()));
    assert_eq!(saves, vec!["Builder".to_string(), "Survival".to_string()]);

    let none = disk.run(list_saves_with_backups("/nowhere"), SavesWithBackups::step).unwrap();
    assert!(none.is_empty());
}

#[test]
fn test_backup_error_display() {
    let err = BackupError::SaveNotFound("TestSave".to_string());
    assert_eq!(err.to_string(), "Save directory not found: TestSave");

    let err2 = BackupError::InvalidBackupName("bad_name".to_string());
    assert_eq!(err2.to_string(), "Invalid backup name format: bad_name");
}

#[test]
fn backup_error_display_of_the_other_variants() {
    assert_eq!(
        BackupError::BackupNotFound("s/b".to_string()).to_string(),
        "Backup not found: s/b"
    );
    assert_eq!(
        BackupError::FileOp(FileOpsError::SourceNotFound("/p".to_string())).to_string(),
        "File operation error: Source path does not exist: /p"
    );
    assert_eq!(
        BackupError::Config(zomboid_backup::config::ConfigError::ConfigDirNotFound).to_string(),
        "Config error: Config directory not found"
    );
}

#[test]
fn test_multiple_backups_with_gc() {
    let mut disk = setup();
    create_test_save(&mut disk, "/saves/Survival");

    let mut last = None;
    for i in 0..5 {
        last = Some(backup_at(&mut disk, "Survival", 3, i).unwrap());
    }
    let last = last.unwrap();
    assert_eq!(last.retained_count, 3);
    assert_eq!(last.deleted_count, 1);

    assert_eq!(count(&mut disk, "Survival"), 3);

    let backups = disk.run(list_backups(BACKUPS, "Survival"), ListBackups::step).unwrap();
    assert_eq!(backups.len(), 3);
    let names: Vec<&str> = backups.iter().map(|b| b.name.as_str()).collect();
    assert_eq!(
        names,
        [
            "2024-12-28_10-00-04.tar.gz",
            "2024-12-28_10-00-03.tar.gz",
            "2024-12-28_10-00-02.tar.gz"
        ]
    );
}

#[test]
fn test_delete_backup_success() {
    let mut disk = setup();
    create_test_save(&mut disk, "/saves/Survival");
    let backup_name = backup_at(&mut disk, "Survival", 10, 0).unwrap().backup_name;
    assert_eq!(count(&mut disk, "Survival"), 1);

    disk.run(delete_backup(BACKUPS, "Survival", &backup_name), BackupLookup::step_delete).unwrap();

    assert_eq!(count(&mut disk, "Survival"), 0);
}

#[test]
fn test_delete_backup_not_found() {
    let mut disk = setup();
    let result =
        disk.run(delete_backup(BACKUPS, "Survival", "NonExistent"), BackupLookup::step_delete);
    assert!(matches!(result, Err(BackupError::BackupNotFound(_))));
    assert_eq!(result, Err(BackupError::BackupNotFound("Survival/NonExistent".to_string())));
    assert_eq!(disk.writes(), vec![]);
}

#[test]
fn test_delete_one_of_multiple_backups() {
    let mut disk = setup();
    create_test_save(&mut disk, "/saves/Survival");

    let backup1 = backup_at(&mut disk, "Survival", 10, 1).unwrap();
    let backup2 = backup_at(&mut disk, "Survival", 10, 2).unwrap();
    let backup3 = backup_at(&mut disk, "Survival", 10, 3).unwrap();
    assert_eq!(count(&mut disk, "Survival"), 3);

    disk.run(
        delete_backup(BACKUPS, "Survival", &backup2.backup_name),
        BackupLookup::step_delete,
    )
    .unwrap();

    assert_eq!(count(&mut disk, "Survival"), 2);
    let backups = disk.run(list_backups(BACKUPS, "Survival"), ListBackups::step).unwrap();
    assert_eq!(backups.len(), 2);
    assert!(backups.iter().any(|b| b.name == backup1.backup_name));
    assert!(backups.iter().any(|b| b.name == backup3.backup_name));
    assert!(!backups.iter().any(|b| b.name == backup2.backup_name));
}

// ---------------------------------------------------------------------------
// Restore
// ---------------------------------------------------------------------------

#[test]
fn test_generate_undo_snapshot_name_format() {
    let name = generate_undo_snapshot_name().unwrap();
    // Format: undo_{YYYY-MM-DD}_{HH-mm-ss}
    assert!(name.starts_with("undo_"));
    let parts: Vec<&str> = name.split('_').collect();
    assert_eq!(parts.len(), 3);
    assert!(parts[1].chars().filter(|&c| c == '-').count() == 2);
    assert!(parts[2].chars().filter(|&c| c == '-').count() == 2);
    assert!(name.ends_with(".tar.gz"));
}

#[test]
fn undo_snapshot_name_is_the_stamp_between_prefix_and_extension() {
    assert_eq!(
        undo_snapshot_name_from_stamp("2024-12-28_14-30-45"),
        "undo_2024-12-28_14-30-45.tar.gz"
    );
    assert_eq!(
        undo_snapshot_name_for(Timestamp { secs: EPOCH + 16_245, nanos: 0 }),
        Some("undo_2024-12-28_14-30-45.tar.gz".to_string())
    );
    assert_eq!(undo_snapshot_name_for(Timestamp { secs: i64::MIN, nanos: 0 }), None);
}

#[test]
fn test_get_undo_snapshot_dir() {
    let undo_dir = get_undo_snapshot_dir("/backups", "Survival");
    assert_eq!(Path::new(&undo_dir), Path::new("/backups/Survival_undo"));
    assert_eq!(get_undo_snapshot_dir("/backups", "sandbox/aaa"), "/backups/sandbox/aaa_undo");
}

#[test]
fn test_create_undo_snapshot_when_save_exists() {
    let mut disk = setup();
    create_test_save(&mut disk, "/saves/Survival");

    let name = generate_undo_snapshot_name().unwrap();
    let snapshot = disk
        .run(
            create_undo_snapshot("/saves/Survival", "/backups/Survival_undo", &name),
            UndoSnapshot::step,
        )
        .unwrap();

    assert!(snapshot.is_some());
    let snapshot_info = snapshot.unwrap();
    assert!(snapshot_info.name.starts_with("undo_"));
    assert!(snapshot_info.size_bytes > 0);
    assert!(!snapshot_info.size_formatted.is_empty());
    assert_eq!(snapshot_info.path, format!("/backups/Survival_undo/{}", name));
    assert_eq!(snapshot_info.save_name, "Survival");
    assert_eq!(snapshot_info.created_at, "2024-12-28T10:00:04+00:00");
}

#[test]
fn test_create_undo_snapshot_when_save_not_exists() {
    let mut disk = setup();
    let name = generate_undo_snapshot_name().unwrap();
    let snapshot = disk
        .run(
            create_undo_snapshot("/saves/Survival", "/backups/Survival_undo", &name),
            UndoSnapshot::step,
        )
        .unwrap();

    assert!(snapshot.is_none());
    assert_eq!(disk.writes(), vec![]);
}

#[test]
fn an_undo_snapshot_replaces_one_of_the_same_name() {
    let mut disk = setup();
    create_test_save(&mut disk, "/saves/Survival");
    let name = undo_snapshot_name_from_stamp(&stamp(0));
    let start = || create_undo_snapshot("/saves/Survival", "/backups/Survival_undo", &name);
    disk.run(start(), UndoSnapshot::step).unwrap();
    modify_save_content(&mut disk, "/saves/Survival", "later");
    let second = disk.run(start(), UndoSnapshot::step).unwrap().unwrap();
    assert_eq!(
        disk.archived(&second.path).get("save.bin").map(|d| d.as_slice()),
        Some(b"later".as_slice())
    );
}

#[test]
fn an_undo_snapshot_of_a_file_is_save_not_found() {
    let mut disk = setup();
    disk.write("/saves/Survival", b"a file");
    let name = undo_snapshot_name_from_stamp(&stamp(0));
    let result = disk.run(
        create_undo_snapshot("/saves/Survival", "/backups/Survival_undo", &name),
        UndoSnapshot::step,
    );
    assert_eq!(result, Err(RestoreError::SaveNotFound("/saves/Survival".to_string())));
}

#[test]
fn test_restore_backup_creates_undo_snapshot() {
    let mut disk = setup();
    create_test_save(&mut disk, "/saves/Survival");
    let first_content = read_save_content(&disk, "/saves/Survival");
    let first_tree = disk.contents("/saves/Survival");

    let backup_name = backup_at(&mut disk, "Survival", 10, 0).unwrap().backup_name;

    modify_save_content(&mut disk, "/saves/Survival", "modified game state");
    assert_ne!(read_save_content(&disk, "/saves/Survival"), first_content);
    let modified_tree = disk.contents("/saves/Survival");

    let restore_result = restore_at(&mut disk, "Survival", &backup_name, 1).unwrap();

    assert_eq!(restore_result.save_name, "Survival");
    assert_eq!(restore_result.backup_name, backup_name);
    assert!(restore_result.has_undo_snapshot);
    assert!(restore_result.undo_snapshot_path.is_some());
    assert_eq!(restore_result.save_path, "/saves/Survival");
    assert_eq!(restore_result.backup_path, format!("/backups/Survival/{}", backup_name));

    // The save is what the archive held.
    assert_eq!(read_save_content(&disk, "/saves/Survival"), first_content);
    assert_eq!(disk.contents("/saves/Survival"), first_tree);

    // The undo snapshot holds what the save was before.
    let undo_path = restore_result.undo_snapshot_path.unwrap();
    assert!(disk.has(&undo_path));
    assert!(undo_path.ends_with(".tar.gz"));
    assert_eq!(undo_path, "/backups/Survival_undo/undo_2024-12-28_10-00-01.tar.gz");
    assert_eq!(disk.archived(&undo_path), modified_tree);
}

#[test]
fn test_restore_backup_when_save_not_exists() {
    let mut disk = setup();
    create_test_save(&mut disk, "/saves/Survival");
    let tree = disk.contents("/saves/Survival");
    let backup_name = backup_at(&mut disk, "Survival", 10, 0).unwrap().backup_name;

    disk.run(delete_dir_recursive("/saves/Survival"), RemoveJob::step).unwrap();
    assert!(!disk.has("/saves/Survival"));

    let restore_result = restore_at(&mut disk, "Survival", &backup_name, 1).unwrap();

    assert_eq!(restore_result.save_name, "Survival");
    assert!(!restore_result.has_undo_snapshot);
    assert!(restore_result.undo_snapshot_path.is_none());

    assert!(disk.has("/saves/Survival"));
    assert_eq!(disk.contents("/saves/Survival"), tree);
    assert!(!disk.has("/backups/Survival_undo"));
}

#[test]
fn test_restore_backup_not_found() {
    let mut disk = setup();
    create_test_save(&mut disk, "/saves/Survival");
    let before = disk.nodes.clone();
    let result = restore_at(&mut disk, "Survival", "NonExistent", 0);
    assert!(matches!(result, Err(RestoreError::BackupNotFound(_))));
    assert_eq!(
        result,
        Err(RestoreError::BackupNotFound("/backups/Survival/NonExistent".to_string()))
    );
    assert_eq!(disk.nodes, before);
}

#[test]
fn restore_of_a_directory_is_backup_not_found() {
    let mut disk = setup();
    disk.mkdirs("/backups/Survival/folder");
    let result = restore_at(&mut disk, "Survival", "folder", 0);
    assert_eq!(
        result,
        Err(RestoreError::BackupNotFound("/backups/Survival/folder is not a file".to_string()))
    );
}

#[test]
fn a_failed_undo_snapshot_leaves_the_save_untouched() {
    let mut disk = setup();
    create_test_save(&mut disk, "/saves/Survival");
    let backup_name = backup_at(&mut disk, "Survival", 10, 0).unwrap().backup_name;
    modify_save_content(&mut disk, "/saves/Survival", "precious");
    let save_before = disk.tree("/saves/Survival");

    disk.refuse = Some("/backups/Survival_undo/undo_2024-12-28_10-00-01.tar.gz".to_string());
    let result = restore_at(&mut disk, "Survival", &backup_name, 1);
    assert_eq!(
        result,
        Err(RestoreError::FileOp(FileOpsError::Io("permission denied".to_string())))
    );
    assert_eq!(disk.tree("/saves/Survival"), save_before);
    assert!(!disk.log.iter().any(|r| matches!(r, FsRequest::RemoveDirAll { .. })));
    assert!(!disk.log.iter().any(|r| matches!(r, FsRequest::UnpackArchive { .. })));
}

#[test]
fn a_failed_extraction_leaves_the_undo_snapshot() {
    let mut disk = setup();
    create_test_save(&mut disk, "/saves/Survival");
    let backup_name = backup_at(&mut disk, "Survival", 10, 0).unwrap().backup_name;
    modify_save_content(&mut disk, "/saves/Survival", "precious");
    let save_before = disk.contents("/saves/Survival");

    let (state, first) = restore_backup(
        SAVES,
        BACKUPS,
        "Survival",
        &backup_name,
        &undo_snapshot_name_from_stamp(&stamp(1)),
    );
    // Everything goes well until the archive is to be unpacked.
    let mut state = state;
    let mut req = first;
    let result = loop {
        let resp = match &req {
            FsRequest::UnpackArchive { .. } => FsResponse::Failed("disk full".to_string()),
            other => disk.perform(other),
        };
        match state.step(resp) {
            Step::Ask(s, r) => {
                state = s;
                req = r;
            }
            Step::Finished(t) => break Ok(t),
            Step::Failed(e) => break Err(e),
        }
    };
    assert_eq!(result, Err(RestoreError::FileOp(FileOpsError::Io("disk full".to_string()))));
    assert!(!disk.has("/saves/Survival"));
    assert_eq!(
        disk.archived("/backups/Survival_undo/undo_2024-12-28_10-00-01.tar.gz"),
        save_before
    );
}

#[test]
fn restore_asks_in_strict_order() {
    let mut disk = setup();
    create_test_save(&mut disk, "/saves/Survival");
    let backup_name = backup_at(&mut disk, "Survival", 10, 0).unwrap().backup_name;
    disk.log.clear();
    restore_at(&mut disk, "Survival", &backup_name, 1).unwrap();
    let archive = format!("/backups/Survival/{}", backup_name);
    let undo = "/backups/Survival_undo/undo_2024-12-28_10-00-01.tar.gz".to_string();
    assert_eq!(
        disk.writes(),
        vec![
            FsRequest::CreateDirAll { path: "/backups/Survival_undo".to_string() },
            FsRequest::WriteArchive { src_dir: "/saves/Survival".to_string(), dst_file: undo },
            FsRequest::RemoveDirAll { path: "/saves/Survival".to_string() },
            FsRequest::UnpackArchive { src_file: archive, dst_dir: "/saves/Survival".to_string() },
        ]
    );
}

#[test]
fn test_list_undo_snapshots() {
    let mut disk = setup();
    create_test_save(&mut disk, "/saves/Survival");

    let backup_result = backup_at(&mut disk, "Survival", 10, 0).unwrap();
    modify_save_content(&mut disk, "/saves/Survival", "modified");
    restore_at(&mut disk, "Survival", &backup_result.backup_name, 1).unwrap();

    let backup_result2 = backup_at(&mut disk, "Survival", 10, 2).unwrap();
    modify_save_content(&mut disk, "/saves/Survival", "modified2");
    restore_at(&mut disk, "Survival", &backup_result2.backup_name, 3).unwrap();
    disk.write("/backups/Survival_undo/other.tar.gz", b"x");

    let snapshots =
        disk.run(list_undo_snapshots(BACKUPS, "Survival"), ListUndoSnapshots::step).unwrap();
    assert_eq!(snapshots.len(), 2);
    assert!(snapshots[0].name.starts_with("undo_"));
    assert!(snapshots[1].name.starts_with("undo_"));
    assert_eq!(snapshots[0].name, "undo_2024-12-28_10-00-03.tar.gz");
    assert_eq!(snapshots[1].name, "undo_2024-12-28_10-00-01.tar.gz");
    assert_eq!(snapshots[0].path, "/backups/Survival_undo/undo_2024-12-28_10-00-03.tar.gz");
    assert_eq!(snapshots[0].save_name, "Survival");
    assert!(snapshots[0].created_at > snapshots[1].created_at);
}

#[test]
fn test_list_undo_snapshots_empty() {
    let mut disk = setup();
    let snapshots =
        disk.run(list_undo_snapshots(BACKUPS, "Survival"), ListUndoSnapshots::step).unwrap();
    assert_eq!(snapshots.len(), 0);
}

#[test]
fn test_restore_from_undo_snapshot() {
    let mut disk = setup();
    create_test_save(&mut disk, "/saves/Survival");

    let backup_result = backup_at(&mut disk, "Survival", 10, 0).unwrap();
    modify_save_content(&mut disk, "/saves/Survival", "modified state");
    let restore_result = restore_at(&mut disk, "Survival", &backup_result.backup_name, 1).unwrap();

    modify_save_content(&mut disk, "/saves/Survival", "another modification");
    assert_eq!(read_save_content(&disk, "/saves/Survival"), "another modification");

    let undo_path = restore_result.undo_snapshot_path.unwrap();
    let snapshot_name = file_name(&undo_path).to_string();

    let undo_restore_result = disk
        .run(
            restore_from_undo_snapshot(SAVES, BACKUPS, "Survival", &snapshot_name),
            Restore::step,
        )
        .unwrap();

    assert_eq!(undo_restore_result.save_name, "Survival");
    assert!(!undo_restore_result.has_undo_snapshot);
    assert_eq!(undo_restore_result.undo_snapshot_path, None);
    assert_eq!(undo_restore_result.backup_name, snapshot_name);
    assert_eq!(undo_restore_result.backup_path, undo_path);

    assert_eq!(read_save_content(&disk, "/saves/Survival"), "modified state");
    // No further snapshot was made.
    let snapshots =
        disk.run(list_undo_snapshots(BACKUPS, "Survival"), ListUndoSnapshots::step).unwrap();
    assert_eq!(snapshots.len(), 1);
}

#[test]
fn test_delete_undo_snapshot() {
    let mut disk = setup();
    create_test_save(&mut disk, "/saves/Survival");

    let backup_result = backup_at(&mut disk, "Survival", 10, 0).unwrap();
    let restore_result = restore_at(&mut disk, "Survival", &backup_result.backup_name, 1).unwrap();

    let undo_path = restore_result.undo_snapshot_path.unwrap();
    let snapshot_name = file_name(&undo_path).to_string();
    assert!(disk.has(&undo_path));

    disk.run(delete_undo_snapshot(BACKUPS, "Survival", &snapshot_name), DeleteUndoSnapshot::step)
        .unwrap();

    assert!(!disk.has(&undo_path));
    let snapshots =
        disk.run(list_undo_snapshots(BACKUPS, "Survival"), ListUndoSnapshots::step).unwrap();
    assert_eq!(snapshots.len(), 0);
}

#[test]
fn test_delete_undo_snapshot_not_found() {
    let mut disk = setup();
    let result = disk
        .run(delete_undo_snapshot(BACKUPS, "Survival", "NonExistent"), DeleteUndoSnapshot::step);
    assert!(matches!(result, Err(RestoreError::BackupNotFound(_))));
    assert_eq!(
        result,
        Err(RestoreError::BackupNotFound("/backups/Survival_undo/NonExistent".to_string()))
    );
}

#[test]
fn test_restore_from_undo_snapshot_not_found() {
    let mut disk = setup();
    let result = disk.run(
        restore_from_undo_snapshot(SAVES, BACKUPS, "Survival", "NonExistent"),
        Restore::step,
    );
    assert!(matches!(result, Err(RestoreError::BackupNotFound(_))));
}

#[test]
fn test_restore_error_display() {
    let err = RestoreError::SaveNotFound("TestSave".to_string());
    assert_eq!(err.to_string(), "Save directory not found: TestSave");

    let err2 = RestoreError::BackupNotFound("test/path".to_string());
    assert_eq!(err2.to_string(), "Backup not found: test/path");

    let err3 = RestoreError::CurrentSaveNotFound("TestSave".to_string());
    assert_eq!(err3.to_string(), "Current save not found (nothing to snapshot): TestSave");
}

#[test]
fn restore_error_display_of_the_other_variants() {
    assert_eq!(
        RestoreError::UndoSnapshotFailed("why".to_string()).to_string(),
        "Failed to create undo snapshot: why"
    );
    assert_eq!(
        RestoreError::Backup(BackupError::BackupNotFound("b".to_string())).to_string(),
        "Backup error: Backup not found: b"
    );
    assert_eq!(
        RestoreError::FileOp(FileOpsError::NotADirectory("/d".to_string())).to_string(),
        "File operation error: Path is not a directory: /d"
    );
    assert_eq!(
        RestoreError::Config(zomboid_backup::config::ConfigError::Json("bad".to_string()))
            .to_string(),
        "Config error: JSON error: bad"
    );
}

#[test]
fn test_full_restore_cycle() {
    let mut disk = setup();
    create_test_save(&mut disk, "/saves/Survival");
    let v1_content = read_save_content(&disk, "/saves/Survival");

    let backup_v1 = backup_at(&mut disk, "Survival", 10, 0).unwrap();

    modify_save_content(&mut disk, "/saves/Survival", "version 2");
    let v2_content = read_save_content(&disk, "/saves/Survival");

    let backup_v2 = backup_at(&mut disk, "Survival", 10, 1).unwrap();

    modify_save_content(&mut disk, "/saves/Survival", "version 3");

    let restore_v2 = restore_at(&mut disk, "Survival", &backup_v2.backup_name, 2).unwrap();
    assert_eq!(read_save_content(&disk, "/saves/Survival"), v2_content);

    let undo_path = restore_v2.undo_snapshot_path.unwrap();
    let snapshot_name = file_name(&undo_path).to_string();

    disk.run(restore_from_undo_snapshot(SAVES, BACKUPS, "Survival", &snapshot_name), Restore::step)
        .unwrap();
    assert_eq!(read_save_content(&disk, "/saves/Survival"), "version 3");

    restore_at(&mut disk, "Survival", &backup_v1.backup_name, 3).unwrap();
    assert_eq!(read_save_content(&disk, "/saves/Survival"), v1_content);
}

#[test]
fn hello_world_scenario() {
    let mut disk = setup();
    disk.mkdirs("/saves/Game");
    disk.write("/saves/Game/file", b"hello");

    let a = backup_at(&mut disk, "Game", 10, 0).unwrap();
    assert_eq!(disk.archived(&a.backup_path).get("file"), Some(&b"hello".to_vec()));

    disk.write("/saves/Game/file", b"world");
    let b = backup_at(&mut disk, "Game", 10, 1).unwrap();
    assert_eq!(disk.archived(&b.backup_path).get("file"), Some(&b"world".to_vec()));
    assert_eq!((b.retained_count, b.deleted_count), (2, 0));

    let restored = restore_at(&mut disk, "Game", &a.backup_name, 2).unwrap();
    assert_eq!(disk.read("/saves/Game/file"), "hello");
    assert_eq!(disk.contents("/saves/Game").len(), 1);

    let snapshots = disk.run(list_undo_snapshots(BACKUPS, "Game"), ListUndoSnapshots::step).unwrap();
    assert_eq!(snapshots.len(), 1);
    assert_eq!(Some(snapshots[0].path.clone()), restored.undo_snapshot_path);
    assert_eq!(disk.archived(&snapshots[0].path).get("file"), Some(&b"world".to_vec()));

    disk.run(
        restore_from_undo_snapshot(SAVES, BACKUPS, "Game", &snapshots[0].name),
        Restore::step,
    )
    .unwrap();
    assert_eq!(disk.read("/saves/Game/file"), "world");
    let after = disk.run(list_undo_snapshots(BACKUPS, "Game"), ListUndoSnapshots::step).unwrap();
    assert_eq!(after.len(), 1);
}

#[test]
fn hierarchical_save_names_keep_their_layout() {
    let mut disk = setup();
    create_test_save(&mut disk, "/saves/sandbox/aaa");
    let made = backup_at(&mut disk, "sandbox/aaa", 10, 0).unwrap();
    assert_eq!(made.backup_path, "/backups/sandbox/aaa/2024-12-28_10-00-00.tar.gz");
    modify_save_content(&mut disk, "/saves/sandbox/aaa", "changed");
    let restored = restore_at(&mut disk, "sandbox/aaa", &made.backup_name, 1).unwrap();
    assert_eq!(
        restored.undo_snapshot_path,
        Some("/backups/sandbox/aaa_undo/undo_2024-12-28_10-00-01.tar.gz".to_string())
    );
    assert_eq!(read_save_content(&disk, "/saves/sandbox/aaa"), "game state");
}

// ---------------------------------------------------------------------------
// File operations
// ---------------------------------------------------------------------------

#[test]
fn archive_round_trip() {
    let mut disk = setup();
    create_test_save(&mut disk, "/saves/Survival");
    disk.mkdirs("/saves/Survival/empty");
    let tree = disk.tree("/saves/Survival");
    disk.run(create_tar_gz("/saves/Survival", "/out/deep/a.tar.gz"), CodecJob::step).unwrap();
    assert_eq!(disk.kind("/out/deep"), PathKind::Directory);
    disk.run(extract_tar_gz("/out/deep/a.tar.gz", "/copy/of/save"), CodecJob::step).unwrap();
    assert_eq!(disk.tree("/copy/of/save"), tree);
}

#[test]
fn archive_checks_source_and_destination() {
    let mut disk = setup();
    create_test_save(&mut disk, "/saves/Survival");
    assert_eq!(
        disk.run(create_tar_gz("/nowhere", "/backups/a.tar.gz"), CodecJob::step),
        Err(FileOpsError::SourceNotFound("/nowhere".to_string()))
    );
    disk.write("/backups/a.tar.gz", b"taken");
    assert_eq!(
        disk.run(create_tar_gz("/saves/Survival", "/backups/a.tar.gz"), CodecJob::step),
        Err(FileOpsError::DestinationExists("/backups/a.tar.gz".to_string()))
    );
    assert_eq!(
        disk.run(extract_tar_gz("/backups/none.tar.gz", "/saves/New"), CodecJob::step),
        Err(FileOpsError::SourceNotFound("/backups/none.tar.gz".to_string()))
    );
    assert_eq!(
        disk.run(extract_tar_gz("/backups/a.tar.gz", "/saves/Survival"), CodecJob::step),
        Err(FileOpsError::DestinationExists("/saves/Survival".to_string()))
    );
    assert_eq!(disk.read("/backups/a.tar.gz"), "taken");
}

#[test]
fn test_delete_dir_recursive_success() {
    let mut disk = setup();
    create_test_save(&mut disk, "/saves/Survival");
    disk.run(delete_dir_recursive("/saves/Survival"), RemoveJob::step).unwrap();
    assert!(!disk.has("/saves/Survival"));
    assert!(!disk.has("/saves/Survival/map/pchunk_0_0.dat"));
    assert!(disk.has("/saves"));
}

#[test]
fn test_delete_dir_recursive_not_found() {
    let mut disk = setup();
    let result = disk.run(delete_dir_recursive("/nonexistent/path"), RemoveJob::step);
    assert!(matches!(result, Err(FileOpsError::SourceNotFound(_))));
    assert_eq!(result, Err(FileOpsError::SourceNotFound("/nonexistent/path".to_string())));
}

#[test]
fn test_delete_dir_recursive_not_a_directory() {
    let mut disk = setup();
    disk.write("/saves/file.txt", b"test");
    let result = disk.run(delete_dir_recursive("/saves/file.txt"), RemoveJob::step);
    assert!(matches!(result, Err(FileOpsError::NotADirectory(_))));
    assert!(disk.has("/saves/file.txt"));
}

#[test]
fn delete_file_and_file_size() {
    let mut disk = setup();
    disk.write("/saves/file.txt", b"test");
    assert_eq!(
        disk.run(get_file_size("/saves/file.txt"), MetaJob::step),
        Ok(FileMeta { size: 4, created: Timestamp { secs: EPOCH + 1, nanos: 0 } })
    );
    assert_eq!(
        disk.run(get_file_size("/saves/none"), MetaJob::step),
        Err(FileOpsError::SourceNotFound("/saves/none".to_string()))
    );
    assert_eq!(disk.run(delete_file("/saves/file.txt"), RemoveJob::step), Ok(()));
    assert!(!disk.has("/saves/file.txt"));
    assert_eq!(
        disk.run(delete_file("/saves/file.txt"), RemoveJob::step),
        Err(FileOpsError::SourceNotFound("/saves/file.txt".to_string()))
    );
}

// ---------------------------------------------------------------------------
// Settings
// ---------------------------------------------------------------------------

#[test]
fn test_list_save_directories_nonexistent_path() {
    let mut disk = setup();
    let config = Config::with_save_path("/nonexistent/zomboid/saves".to_string());

    let result = disk.run_step(config.validate(), Validation::step);
    assert!(matches!(result, Err(FileOpsError::SourceNotFound(_))));
    assert_eq!(
        result,
        Err(FileOpsError::SourceNotFound("/nonexistent/zomboid/saves".to_string()))
    );
}

#[test]
fn test_list_save_directories_from_real_directory() {
    let mut disk = setup();
    disk.mkdirs("/saves/Survival1");
    disk.mkdirs("/saves/Survival2");
    disk.mkdirs("/saves/Builder");
    disk.write("/saves/readme.txt", b"test");

    let config = Config::with_save_path(SAVES.to_string());
    let save_path = config.get_save_path().unwrap();
    let saves = disk.run(list_save_directories(&save_path), SaveDirectories::step).unwrap();

    assert_eq!(saves.len(), 3);
    assert!(saves.contains(&"Builder".to_string()));
    assert!(saves.contains(&"Survival1".to_string()));
    assert!(saves.contains(&"Survival2".to_string()));
    assert_eq!(saves, ["Builder", "Survival1", "Survival2"]);
}

#[test]
fn test_config_validate_existing_save_path() {
    let mut disk = setup();
    let config = Config::with_save_path(SAVES.to_string());
    assert!(disk.run_step(config.validate(), Validation::step).is_ok());
}

#[test]
fn test_config_validate_non_directory_backup_path() {
    let mut disk = setup();
    disk.write("/backup.txt", b"test");

    let config = Config {
        save_path: Some(SAVES.to_string()),
        backup_path: Some("/backup.txt".to_string()),
        retention_count: 10,
        auto_check_updates: true,
        last_update_check: None,
        last_selected_save: None,
    };

    let result = disk.run_step(config.validate(), Validation::step);
    assert!(matches!(result, Err(FileOpsError::NotADirectory(_))));
    assert_eq!(result, Err(FileOpsError::NotADirectory("/backup.txt".to_string())));
}

#[test]
fn validate_accepts_a_backup_path_that_is_missing_or_a_directory() {
    let mut disk = setup();
    let missing = Config::with_paths(SAVES.to_string(), "/not/yet".to_string());
    assert_eq!(disk.run_step(missing.validate(), Validation::step), Ok(()));
    let present = Config::with_paths(SAVES.to_string(), BACKUPS.to_string());
    assert_eq!(disk.run_step(present.validate(), Validation::step), Ok(()));
    disk.write("/saves.txt", b"x");
    let file = Config::with_save_path("/saves.txt".to_string());
    assert_eq!(
        disk.run_step(file.validate(), Validation::step),
        Err(FileOpsError::NotADirectory("/saves.txt".to_string()))
    );
}

// ---------------------------------------------------------------------------
// Trees
// ---------------------------------------------------------------------------

/// base/file1.txt, base/subdir/file2.txt, base/subdir/nested/file3.txt
fn create_test_structure(disk: &mut Disk, base: &str) {
    disk.mkdirs(&format!("{}/subdir/nested", base));
    disk.write(&format!("{}/file1.txt", base), b"hello");
    disk.write(&format!("{}/subdir/file2.txt", base), b"world test content");
    disk.write(&format!("{}/subdir/nested/file3.txt", base), b"nested data here");
}

#[test]
fn test_copy_dir_recursive_success() {
    let mut disk = Disk::new();
    create_test_structure(&mut disk, "/src");
    disk.mkdirs("/dst");

    disk.run(copy_dir_recursive("/src", "/dst/copy"), CopyTree::step).unwrap();

    assert!(disk.has("/dst/copy/file1.txt"));
    assert!(disk.has("/dst/copy/subdir/file2.txt"));
    assert!(disk.has("/dst/copy/subdir/nested/file3.txt"));
    assert_eq!(disk.read("/src/file1.txt"), disk.read("/dst/copy/file1.txt"));
}

#[test]
fn test_copy_dir_recursive_source_not_found() {
    let mut disk = Disk::new();
    disk.mkdirs("/dst");
    let result = disk.run(copy_dir_recursive("/nonexistent/path", "/dst"), CopyTree::step);
    assert!(matches!(result, Err(FileOpsError::SourceNotFound(_))));
}

#[test]
fn test_copy_dir_recursive_destination_exists() {
    let mut disk = Disk::new();
    create_test_structure(&mut disk, "/src");
    disk.mkdirs("/dst");
    let result = disk.run(copy_dir_recursive("/src", "/dst"), CopyTree::step);
    assert!(matches!(result, Err(FileOpsError::DestinationExists(_))));
    assert_eq!(result, Err(FileOpsError::DestinationExists("/dst".to_string())));
    assert_eq!(disk.writes(), vec![]);
}

#[test]
fn test_copy_preserves_content() {
    let mut disk = Disk::new();
    create_test_structure(&mut disk, "/src");
    disk.mkdirs("/dst");

    disk.run(copy_dir_recursive("/src", "/dst/copy"), CopyTree::step).unwrap();

    assert_eq!(disk.read("/dst/copy/file1.txt"), "hello");
    assert_eq!(disk.read("/dst/copy/subdir/file2.txt"), "world test content");
    assert_eq!(disk.read("/dst/copy/subdir/nested/file3.txt"), "nested data here");
    assert_eq!(disk.contents("/dst/copy"), disk.contents("/src"));
}

#[test]
fn test_copy_deeply_nested_structure() {
    let mut disk = Disk::new();
    let mut current = "/src".to_string();
    for i in 0..10 {
        current = format!("{}/level_{}", current, i);
        disk.mkdirs(&current);
        disk.write(&format!("{}/file_{}.txt", current, i), format!("content_{}", i).as_bytes());
    }
    disk.mkdirs("/dst");

    disk.run(copy_dir_recursive("/src", "/dst/deep_copy"), CopyTree::step).unwrap();

    assert!(disk.has(
        "/dst/deep_copy/level_0/level_1/level_2/level_3/level_4/level_5/level_6/level_7/level_8/level_9/file_9.txt"
    ));
}

#[test]
fn copy_goes_through_the_listing_in_order_and_depth_first() {
    let mut disk = Disk::new();
    disk.mkdirs("/src/b/inner");
    disk.write("/src/a.txt", b"1");
    disk.write("/src/b/inner/x.txt", b"2");
    disk.write("/src/b/y.txt", b"3");
    disk.write("/src/c.txt", b"4");
    disk.run(copy_dir_recursive("/src", "/dst"), CopyTree::step).unwrap();
    let copy = |s: &str, d: &str| FsRequest::CopyFile {
        src_file: s.to_string(),
        dst_file: d.to_string(),
    };
    let mkdir = |p: &str| FsRequest::CreateDirAll { path: p.to_string() };
    assert_eq!(
        disk.writes(),
        vec![
            mkdir("/dst"),
            copy("/src/a.txt", "/dst/a.txt"),
            mkdir("/dst/b"),
            mkdir("/dst/b/inner"),
            copy("/src/b/inner/x.txt", "/dst/b/inner/x.txt"),
            copy("/src/b/y.txt", "/dst/b/y.txt"),
            copy("/src/c.txt", "/dst/c.txt"),
        ]
    );
}

#[test]
fn test_get_dir_size_success() {
    let mut disk = Disk::new();
    create_test_structure(&mut disk, "/src");
    // "hello", "world test content" and "nested data here"
    let size = disk.run(get_dir_size("/src"), SizeScan::step).unwrap();
    assert!(size >= 37);
    assert!(size < 1024);
    assert_eq!(size, 5 + 18 + 16);
}

#[test]
fn test_get_dir_size_empty_directory() {
    let mut disk = Disk::new();
    disk.mkdirs("/empty");
    let size = disk.run(get_dir_size("/empty"), SizeScan::step).unwrap();
    assert_eq!(size, 0);
}

#[test]
fn test_get_dir_size_not_found() {
    let mut disk = Disk::new();
    let result = disk.run(get_dir_size("/nonexistent/path"), SizeScan::step);
    assert!(matches!(result, Err(FileOpsError::SourceNotFound(_))));
}

#[test]
fn test_get_dir_size_not_a_directory() {
    let mut disk = Disk::new();
    disk.mkdirs("/tmp");
    disk.write("/tmp/file.txt", b"test");
    let result = disk.run(get_dir_size("/tmp/file.txt"), SizeScan::step);
    assert!(matches!(result, Err(FileOpsError::NotADirectory(_))));
}

#[test]
fn dir_size_passes_over_links_and_stops_at_the_largest_number() {
    let (scan, _) = get_dir_size("/d");
    let scan = match scan.step(FsResponse::Kind(PathKind::Directory)) {
        Step::Ask(scan, req) => {
            assert_eq!(req, FsRequest::ReadDir { path: "/d".to_string() });
            scan
        }
        other => panic!("{:?}", other),
    };
    let entry = |name: &str, kind, symlink, size| DirEntry {
        name: Some(name.to_string()),
        kind,
        symlink,
        meta: EntryMeta::Known(FileMeta { size, created: Timestamp { secs: 0, nanos: 0 } }),
    };
    let listing = vec![
        entry("a", PathKind::File, false, 10),
        entry("link", PathKind::File, true, 1000),
        entry("dirlink", PathKind::Directory, true, 0),
        entry("other", PathKind::Other, false, 500),
        entry("b", PathKind::File, false, 5),
    ];
    assert_eq!(scan.clone().step(FsResponse::Entries(listing)), Step::Finished(15));
    let huge = vec![
        entry("a", PathKind::File, false, u64::MAX - 1),
        entry("b", PathKind::File, false, 7),
    ];
    assert_eq!(scan.clone().step(FsResponse::Entries(huge)), Step::Finished(u64::MAX));
    let nameless = vec![DirEntry {
        name: None,
        kind: PathKind::Directory,
        symlink: false,
        meta: EntryMeta::Unreadable("x".to_string()),
    }];
    assert_eq!(
        scan.step(FsResponse::Entries(nameless)),
        Step::Failed(FileOpsError::Io("name is not valid Unicode".to_string()))
    );
}

// ---------------------------------------------------------------------------
// Saves
// ---------------------------------------------------------------------------

fn create_test_save_structure(disk: &mut Disk, save_dir: &str) {
    disk.mkdirs(&format!("{}/map", save_dir));
    disk.write(&format!("{}/save.bin", save_dir), b"game state");
    disk.write(&format!("{}/map/pchunk_0_0.dat", save_dir), b"map data");
}

fn entries_of(disk: &mut Disk) -> Vec<SaveEntry> {
    disk.run(list_save_entries(SAVES), SaveScan::step).unwrap()
}

#[test]
fn test_list_save_entries_two_level_structure() {
    let mut disk = setup();
    create_test_save_structure(&mut disk, "/saves/Survival/MySurvival");
    create_test_save_structure(&mut disk, "/saves/Builder/MyBuilder");

    let entries = entries_of(&mut disk);

    assert_eq!(entries.len(), 2);

    let survival_entry = entries.iter().find(|e| e.game_mode == "Survival").unwrap();
    assert_eq!(survival_entry.save_name, "MySurvival");
    assert_eq!(survival_entry.relative_path, "Survival/MySurvival");

    let builder_entry = entries.iter().find(|e| e.game_mode == "Builder").unwrap();
    assert_eq!(builder_entry.save_name, "MyBuilder");
    assert_eq!(builder_entry.relative_path, "Builder/MyBuilder");
    assert_eq!(entries[0].game_mode, "Builder");
}

#[test]
fn test_list_save_entries_flat_structure() {
    let mut disk = setup();
    create_test_save_structure(&mut disk, "/saves/OldSave");

    let entries = entries_of(&mut disk);

    assert_eq!(entries.len(), 1);
    assert_eq!(entries[0].game_mode, "");
    assert_eq!(entries[0].save_name, "OldSave");
    assert_eq!(entries[0].relative_path, "OldSave");
}

#[test]
fn test_list_save_entries_mixed_structure() {
    let mut disk = setup();
    create_test_save_structure(&mut disk, "/saves/OldSave");
    create_test_save_structure(&mut disk, "/saves/Survival/NewSave");

    let entries = entries_of(&mut disk);

    assert_eq!(entries.len(), 2);

    let flat_entry = entries.iter().find(|e| e.save_name == "OldSave").unwrap();
    assert_eq!(flat_entry.game_mode, "");

    let nested_entry = entries.iter().find(|e| e.save_name == "NewSave").unwrap();
    assert_eq!(nested_entry.game_mode, "Survival");
    assert_eq!(entries, {
        let mut sorted = entries.clone();
        sorted.sort();
        sorted
    });
}

#[test]
fn test_list_save_entries_nonexistent_path() {
    let mut disk = setup();
    let entries = disk.run(list_save_entries("/NonExistent"), SaveScan::step).unwrap();
    assert_eq!(entries.len(), 0);
}

#[test]
fn test_list_save_entries_by_game_mode() {
    let mut disk = setup();
    create_test_save_structure(&mut disk, "/saves/Survival/Save1");
    create_test_save_structure(&mut disk, "/saves/Survival/Save2");
    create_test_save_structure(&mut disk, "/saves/Builder/Build1");

    let grouped =
        disk.run(list_save_entries_by_game_mode(SAVES), SaveScan::step_grouped).unwrap();

    assert_eq!(grouped.len(), 2);
    let of = |mode: &str| grouped.iter().find(|g| g.game_mode == mode).unwrap();
    assert_eq!(of("Survival").saves.len(), 2);
    assert_eq!(of("Builder").saves.len(), 1);
}

#[test]
fn saves_without_a_game_mode_are_grouped_as_other() {
    let new = |m: &str, n: &str| SaveEntry::new(m.to_string(), n.to_string());
    let entries = vec![new("", "Old1"), new("Builder", "B"), new("", "Old2"), new("Other", "O")];
    assert_eq!(
        group_by_game_mode(&entries),
        vec![
            ModeGroup { game_mode: "(Other)".to_string(), saves: vec![new("", "Old1"), new("", "Old2")] },
            ModeGroup { game_mode: "Builder".to_string(), saves: vec![new("Builder", "B")] },
            ModeGroup { game_mode: "Other".to_string(), saves: vec![new("Other", "O")] },
        ]
    );
    assert_eq!(group_by_game_mode(&Vec::new()), vec![]);
}

#[test]
fn test_looks_like_save_directory_with_map_files() {
    let mut disk = setup();
    disk.mkdirs("/tmp/save/map");
    disk.write("/tmp/save/map/pchunk_0_0.dat", b"data");
    assert_eq!(disk.run(looks_like_save_directory("/tmp/save"), SaveCheck::step), Ok(true));
}

#[test]
fn test_looks_like_save_directory_with_save_bin() {
    let mut disk = setup();
    disk.mkdirs("/tmp/save");
    disk.write("/tmp/save/save.bin", b"data");
    assert_eq!(disk.run(looks_like_save_directory("/tmp/save"), SaveCheck::step), Ok(true));
}

#[test]
fn test_looks_like_save_directory_empty() {
    let mut disk = setup();
    disk.mkdirs("/tmp/save");
    assert_eq!(disk.run(looks_like_save_directory("/tmp/save"), SaveCheck::step), Ok(false));
}

#[test]
fn looks_like_save_directory_by_its_root_files() {
    let mut disk = setup();
    for (file, expected) in [
        ("map_p.bin", true),
        ("map_t.bin", true),
        ("map_.bin", true),
        ("other.bin", false),
        ("map_p.dat", false),
        ("save.bin.bak", false),
    ] {
        let dir = format!("/check/{}", file);
        disk.mkdirs(&dir);
        disk.write(&format!("{}/{}", dir, file), b"x");
        assert_eq!(
            disk.run(looks_like_save_directory(&dir), SaveCheck::step),
            Ok(expected),
            "{}",
            file
        );
    }
    assert_eq!(disk.run(looks_like_save_directory("/nowhere"), SaveCheck::step), Ok(false));
    disk.write("/check/file", b"x");
    assert_eq!(disk.run(looks_like_save_directory("/check/file"), SaveCheck::step), Ok(false));
    // A map directory without chunks does not make a save.
    disk.mkdirs("/maponly/map");
    disk.write("/maponly/map/readme.txt", b"x");
    assert_eq!(disk.run(looks_like_save_directory("/maponly"), SaveCheck::step), Ok(false));
    disk.write("/maponly/map/chunk.bin", b"x");
    assert_eq!(disk.run(looks_like_save_directory("/maponly"), SaveCheck::step), Ok(true));
}

fn file_entry(name: &str, kind: PathKind) -> DirEntry {
    DirEntry {
        name: Some(name.to_string()),
        kind,
        symlink: false,
        meta: EntryMeta::Known(FileMeta { size: 4, created: Timestamp { secs: 0, nanos: 0 } }),
    }
}

#[test]
fn test_looks_like_save_file() {
    assert!(looks_like_save_file(&file_entry("save.bin", PathKind::File)));
    assert!(looks_like_save_file(&file_entry("map_p.bin", PathKind::File)));
    assert!(looks_like_save_file(&file_entry("anything.bin", PathKind::File)));
    assert!(!looks_like_save_file(&file_entry("save.bin", PathKind::Directory)));
    assert!(!looks_like_save_file(&file_entry("save.bin", PathKind::Missing)));
}

#[test]
fn test_looks_like_save_file_non_bin() {
    assert!(!looks_like_save_file(&file_entry("readme.txt", PathKind::File)));
    assert!(!looks_like_save_file(&file_entry("bin", PathKind::File)));
}

#[test]
fn test_list_save_entries_ignores_non_save_directories() {
    let mut disk = setup();
    create_test_save_structure(&mut disk, "/saves/Survival/MySave");
    disk.mkdirs("/saves/EmptyFolder");
    disk.mkdirs("/saves/NotASave");
    disk.mkdirs("/saves/Survival/NotASaveEither");
    disk.write("/saves/readme.bin", b"x");

    let entries = entries_of(&mut disk);

    assert_eq!(entries.len(), 1);
    assert_eq!(entries[0].save_name, "MySave");
}

#[test]
fn a_scan_that_cannot_list_the_saves_directory_fails() {
    let (scan, _) = list_save_entries(SAVES);
    let scan = match scan.step(FsResponse::Kind(PathKind::Directory)) {
        Step::Ask(scan, _) => scan,
        other => panic!("{:?}", other),
    };
    assert_eq!(
        scan.step(FsResponse::Failed("denied".to_string())),
        Step::Failed(ConfigError::FileOp(FileOpsError::Io("denied".to_string())))
    );
}

// ---------------------------------------------------------------------------
// Schedule
// ---------------------------------------------------------------------------

#[test]
fn refresh_after_a_save_directory_is_deleted() {
    let mut disk = setup();
    disk.mkdirs("/saves/Survival");
    disk.mkdirs("/saves/Builder");
    disk.write("/saves/notes.txt", b"x");
    let mut manager = AutoBackupManager::new();
    for save in ["Survival", "Builder"] {
        let kind = disk.kind(&format!("{}/{}", SAVES, save));
        manager.enable_save(save, kind).unwrap();
    }
    assert!(manager.enable_save("Ghost", disk.kind("/saves/Ghost")).is_err());
    assert!(manager.enable_save("notes.txt", disk.kind("/saves/notes.txt")).is_err());

    disk.remove_tree("/saves/Survival");
    let names = disk.run(scan_save_root(SAVES), SaveRootScan::step).unwrap();
    assert_eq!(names, Some(vec!["Builder".to_string()]));
    manager.refresh_save_states(names);

    assert!(!manager.is_save_enabled("Survival"));
    assert!(manager.is_save_enabled("Builder"));
    let status = manager.get_status();
    assert_eq!(status.saves.len(), 1);
    assert_eq!(status.saves[0].save_name, "Builder");

    // A save root that is gone changes nothing.
    let gone = disk.run(scan_save_root("/nowhere"), SaveRootScan::step).unwrap();
    assert_eq!(gone, None);
    manager.refresh_save_states(gone);
    assert!(manager.is_save_enabled("Builder"));
}
