//! What the engines achieve on a disk on which nothing goes wrong.

use crate::backup::{
    archive_files, archive_name_like, lemma_archive_name, lemma_retention, BackupErrorView,
    BackupFileView, BackupResultView, CreateBackupStepView, CreateBackupView,
};
use crate::file_ops::{CodecJobView, MetaJobView};
use crate::fsio::{FsRequestView, FsResponseView, PathKind, StepView};
use crate::model::{below, Disk, Node, Tree};
use crate::paths::{display_text, join_spec, lemma_last_slash, parent_spec};
use crate::restore::{
    RestoreErrorView, RestorePlanView, RestoreResultView, RestoreStageView, RestoreStepView,
    RestoreView, SnapshotPlanView, SnapshotStageView, UndoSnapshotView,
};
use vstd::prelude::*;

verus! {

/// A backup waiting in `state` for the answer to `req`, run on `disk` for at
/// most `fuel + 1` requests: where it ended or got to, and the disk it
/// leaves.
pub open spec fn run_backup(state: CreateBackupView, req: FsRequestView, disk: Disk, fuel: nat)
    -> (CreateBackupStepView, Disk)
    decreases fuel,
{
    let out = state.step(disk.respond(req));
    let after = disk.apply(req);
    match out {
        StepView::Ask(s, r) => if fuel == 0 {
            (out, after)
        } else {
            run_backup(s, r, after, (fuel - 1) as nat)
        },
        _ => (out, after),
    }
}

/// A restore waiting in `state` for the answer to `req`, run on `disk` for
/// at most `fuel + 1` requests: where it ended or got to, and the disk it
/// leaves.
pub open spec fn run_restore(state: RestoreView, req: FsRequestView, disk: Disk, fuel: nat) -> (
    RestoreStepView,
    Disk,
)
    decreases fuel,
{
    let out = state.step(disk.respond(req));
    let after = disk.apply(req);
    match out {
        StepView::Ask(s, r) => if fuel == 0 {
            (out, after)
        } else {
            run_restore(s, r, after, (fuel - 1) as nat)
        },
        _ => (out, after),
    }
}

/// The parent of a path is a shorter path, so neither the path itself nor
/// anything below it.
pub proof fn lemma_parent_differs(path: Seq<char>)
    ensures
        parent_spec(path) != Some(path),
        parent_spec(path) is Some ==> parent_spec(path)->0.len() < path.len() && !below(
            parent_spec(path)->0,
            path,
        ),
{
    lemma_last_slash(path);
}

/// A backup of a save that does not exist ends with `SaveNotFound` after one
/// probe: the disk is as it was, so there is no archive that was not there
/// before.
pub proof fn lemma_backup_of_missing_save(
    disk: Disk,
    save_path: Seq<char>,
    backup_base_path: Seq<char>,
    retention_count: usize,
    save_name: Seq<char>,
    backup_name: Seq<char>,
    fuel: nat,
)
    requires
        disk.kind(join_spec(save_path, save_name)) == PathKind::Missing,
    ensures
        ({
            let start = CreateBackupView::begin(
                save_path,
                backup_base_path,
                retention_count,
                save_name,
                backup_name,
            );
            run_backup(start.0, start.1, disk, fuel) == (
                StepView::<CreateBackupView, BackupResultView, BackupErrorView>::Failed(
                    BackupErrorView::SaveNotFound(save_name),
                ),
                disk,
            )
        }),
{
}

/// The listing that the disk gives of the directory `dir`.
pub open spec fn listing_of(disk: Disk, dir: Seq<char>) -> Seq<crate::fsio::DirEntryView> {
    if disk.listings.contains_key(dir) {
        disk.listings[dir]
    } else {
        Seq::empty()
    }
}

/// A backup of a save that exists, under a name as the clock gives it, to a
/// path where nothing stands, where the listing of the save's backup
/// directory holds no more archives than are kept: it ends well with the
/// number of archives listed and 0; the new archive holds the files of the
/// save; the save is as it was; and nothing else on the disk changes but for
/// the backup directory and the archive's parent, which are created where
/// they are missing.
pub proof fn lemma_backup_keeps_all(
    disk: Disk,
    save_path: Seq<char>,
    backup_base_path: Seq<char>,
    retention_count: usize,
    save_name: Seq<char>,
    backup_name: Seq<char>,
    files: Tree,
    listed: Seq<BackupFileView>,
    fuel: nat,
)
    requires
        fuel >= 11,
        archive_name_like(backup_name),
        listed.len() <= retention_count,
        ({
            let job = CreateBackupView::begin(
                save_path,
                backup_base_path,
                retention_count,
                save_name,
                backup_name,
            ).0;
            &&& disk.nodes.contains_key(job.save_dir)
            &&& disk.nodes[job.save_dir] == Node::Directory(files)
            &&& !disk.nodes.contains_key(job.backup_path)
            &&& archive_files(listing_of(disk, job.store_dir), Seq::empty()) == Ok::<
                Seq<BackupFileView>,
                Seq<char>,
            >(listed)
        }),
    ensures
        ({
            let start = CreateBackupView::begin(
                save_path,
                backup_base_path,
                retention_count,
                save_name,
                backup_name,
            );
            let job = start.0;
            let end = run_backup(job, start.1, disk, fuel);
            &&& end.0 == StepView::<CreateBackupView, BackupResultView, BackupErrorView>::Finished(
                BackupResultView {
                    backup_path: display_text(job.backup_path),
                    backup_name,
                    retained_count: listed.len() as usize,
                    deleted_count: 0,
                },
            )
            &&& end.1.nodes.contains_key(job.backup_path)
            &&& end.1.nodes[job.backup_path] == Node::Archive(files)
            &&& forall|p: Seq<char>|
                p != job.backup_path && p != job.store_dir && parent_spec(job.backup_path)
                    != Some(p) ==> #[trigger] same_at(disk, end.1, p)
            &&& same_at(disk, end.1, job.save_dir)
        }),
{
    let start = CreateBackupView::begin(
        save_path,
        backup_base_path,
        retention_count,
        save_name,
        backup_name,
    );
    let job = start.0;
    lemma_archive_name(job.store_dir, backup_name);
    lemma_parent_differs(job.backup_path);
    lemma_retention(
        job.store_dir,
        retention_count,
        listing_of(disk, job.store_dir),
        listed,
    );
    let d1 = if disk.kind(job.store_dir) == PathKind::Missing {
        disk.with_dir(job.store_dir)
    } else {
        disk
    };
    let d2 = d1.with_parent_of(job.backup_path).apply(
        FsRequestView::WriteArchive { src_dir: job.save_dir, dst_file: job.backup_path },
    );
    assert(d1.nodes[job.save_dir] == Node::Directory(files));
    assert(d1.with_parent_of(job.backup_path).nodes[job.save_dir] == Node::Directory(files));
    assert(listing_of(d2, job.store_dir) == listing_of(disk, job.store_dir));
    reveal_with_fuel(run_backup, 12);
}

/// Whether the two disks have the same at `path`: nothing, or the same
/// thing.
pub open spec fn same_at(a: Disk, b: Disk, path: Seq<char>) -> bool {
    &&& a.nodes.contains_key(path) <==> b.nodes.contains_key(path)
    &&& a.nodes.contains_key(path) ==> a.nodes[path] == b.nodes[path]
}

/// Whether `path` is one that the making of the undo snapshot may change:
/// the snapshot itself, its directory, or the parent of the snapshot.
pub open spec fn touched_by_snapshot(plan: RestorePlanView, path: Seq<char>) -> bool {
    let sp = snapshot_plan(plan);
    path == sp.snapshot_path || path == sp.store_dir || parent_spec(sp.snapshot_path) == Some(
        path,
    )
}

/// The plan of a restore's undo snapshot.
pub open spec fn snapshot_plan(plan: RestorePlanView) -> SnapshotPlanView {
    let s = plan.snapshot->0;
    SnapshotPlanView {
        save_dir: plan.save_dir,
        store_dir: s.0,
        snapshot_name: s.1,
        snapshot_path: join_spec(s.0, s.1),
    }
}

/// The restore while its undo snapshot is in `stage`.
pub open spec fn snapshotting(plan: RestorePlanView, stage: SnapshotStageView) -> RestoreView {
    RestoreView {
        plan,
        stage: RestoreStageView::Snapshot(UndoSnapshotView { plan: snapshot_plan(plan), stage }),
        undo_path: None,
    }
}

/// What a restore reports at its end.
pub open spec fn restored(plan: RestorePlanView, undo_path: Option<Seq<char>>) -> RestoreStepView {
    StepView::Finished(
        RestoreResultView {
            save_path: plan.save_dir,
            save_name: plan.save_name,
            backup_path: plan.source_path,
            backup_name: plan.source_name,
            undo_snapshot_path: undo_path,
            has_undo_snapshot: undo_path is Some,
        },
    )
}

/// From the probe of the snapshot directory's save to the probe of the
/// snapshot's path: the snapshot directory is created where it is missing.
proof fn lemma_snapshot_prelude(plan: RestorePlanView, disk: Disk, fuel: nat)
    requires
        plan.snapshot is Some,
        disk.kind(plan.save_dir) == PathKind::Directory,
        fuel >= 3,
    ensures
        ({
            let sp = snapshot_plan(plan);
            let made = disk.kind(sp.store_dir) == PathKind::Missing;
            run_restore(
                snapshotting(plan, SnapshotStageView::ProbeSave),
                FsRequestView::Probe { path: plan.save_dir },
                disk,
                fuel,
            ) == run_restore(
                snapshotting(plan, SnapshotStageView::ProbeTarget),
                FsRequestView::Probe { path: sp.snapshot_path },
                if made {
                    disk.with_dir(sp.store_dir)
                } else {
                    disk
                },
                (fuel - if made {
                    3int
                } else {
                    2int
                }) as nat,
            )
        }),
{
    reveal_with_fuel(run_restore, 4);
}

/// From the probe of the snapshot's path to the start of its writing: a
/// snapshot of the same name is removed.
proof fn lemma_snapshot_clear(plan: RestorePlanView, disk: Disk, fuel: nat)
    requires
        plan.snapshot is Some,
        fuel >= 3,
    ensures
        ({
            let sp = snapshot_plan(plan);
            let stale = disk.kind(sp.snapshot_path) != PathKind::Missing;
            run_restore(
                snapshotting(plan, SnapshotStageView::ProbeTarget),
                FsRequestView::Probe { path: sp.snapshot_path },
                disk,
                fuel,
            ) == run_restore(
                snapshotting(
                    plan,
                    SnapshotStageView::Archive(
                        CodecJobView::begin(false, sp.save_dir, sp.snapshot_path).0,
                    ),
                ),
                FsRequestView::Probe { path: plan.save_dir },
                if stale {
                    disk.apply(FsRequestView::RemoveFile { path: sp.snapshot_path })
                } else {
                    disk
                },
                (fuel - if stale {
                    3int
                } else {
                    1int
                }) as nat,
            )
        }),
{
    reveal_with_fuel(run_restore, 4);
}

/// The number of requests that the codec makes from its first probe to its
/// transfer, on a disk where source and destination are as they must be.
pub open spec fn codec_requests(disk: Disk, dst: Seq<char>) -> int {
    match parent_spec(dst) {
        None => 3,
        Some(p) => if disk.kind(p) == PathKind::Missing {
            5
        } else {
            4
        },
    }
}

/// The writing of the snapshot: the save directory is archived at the
/// snapshot's path, in a directory that is created where it is missing.
proof fn lemma_snapshot_archive(plan: RestorePlanView, disk: Disk, fuel: nat)
    requires
        plan.snapshot is Some,
        disk.kind(plan.save_dir) == PathKind::Directory,
        disk.kind(snapshot_plan(plan).snapshot_path) == PathKind::Missing,
        fuel >= 5,
    ensures
        ({
            let sp = snapshot_plan(plan);
            run_restore(
                snapshotting(
                    plan,
                    SnapshotStageView::Archive(
                        CodecJobView::begin(false, sp.save_dir, sp.snapshot_path).0,
                    ),
                ),
                FsRequestView::Probe { path: plan.save_dir },
                disk,
                fuel,
            ) == run_restore(
                snapshotting(
                    plan,
                    SnapshotStageView::Measure(MetaJobView::begin(sp.snapshot_path).0),
                ),
                FsRequestView::Probe { path: sp.snapshot_path },
                disk.with_parent_of(sp.snapshot_path).apply(
                    FsRequestView::WriteArchive {
                        src_dir: plan.save_dir,
                        dst_file: sp.snapshot_path,
                    },
                ),
                (fuel - codec_requests(disk, sp.snapshot_path)) as nat,
            )
        }),
{
    reveal_with_fuel(run_restore, 6);
}

/// The measuring of the snapshot, after which the save directory is probed.
proof fn lemma_snapshot_measure(plan: RestorePlanView, disk: Disk, fuel: nat)
    requires
        plan.snapshot is Some,
        disk.kind(snapshot_plan(plan).snapshot_path) != PathKind::Missing,
        disk.dates(),
        fuel >= 2,
    ensures
        ({
            let sp = snapshot_plan(plan);
            run_restore(
                snapshotting(
                    plan,
                    SnapshotStageView::Measure(MetaJobView::begin(sp.snapshot_path).0),
                ),
                FsRequestView::Probe { path: sp.snapshot_path },
                disk,
                fuel,
            ) == run_restore(
                RestoreView {
                    plan,
                    stage: RestoreStageView::ProbeSave,
                    undo_path: Some(sp.snapshot_path),
                },
                FsRequestView::Probe { path: plan.save_dir },
                disk,
                (fuel - 2) as nat,
            )
        }),
{
    reveal_with_fuel(run_restore, 3);
}

/// The removal of the save directory, after which the archive is probed.
proof fn lemma_clear_save(
    plan: RestorePlanView,
    undo_path: Option<Seq<char>>,
    disk: Disk,
    fuel: nat,
)
    requires
        disk.kind(plan.save_dir) == PathKind::Directory,
        fuel >= 3,
    ensures
        run_restore(
            RestoreView { plan, stage: RestoreStageView::ProbeSave, undo_path },
            FsRequestView::Probe { path: plan.save_dir },
            disk,
            fuel,
        ) == run_restore(
            RestoreView {
                plan,
                stage: RestoreStageView::Extract(
                    CodecJobView::begin(true, plan.source_path, plan.save_dir).0,
                ),
                undo_path,
            },
            FsRequestView::Probe { path: plan.source_path },
            disk.apply(FsRequestView::RemoveDirAll { path: plan.save_dir }),
            (fuel - 3) as nat,
        ),
{
    reveal_with_fuel(run_restore, 4);
}

/// The unpacking of the archive into the save directory, which ends the
/// restore.
proof fn lemma_extract(plan: RestorePlanView, undo_path: Option<Seq<char>>, disk: Disk, fuel: nat)
    requires
        disk.kind(plan.source_path) != PathKind::Missing,
        disk.kind(plan.save_dir) == PathKind::Missing,
        fuel >= 4,
    ensures
        run_restore(
            RestoreView {
                plan,
                stage: RestoreStageView::Extract(
                    CodecJobView::begin(true, plan.source_path, plan.save_dir).0,
                ),
                undo_path,
            },
            FsRequestView::Probe { path: plan.source_path },
            disk,
            fuel,
        ) == (
            restored(plan, undo_path),
            disk.with_parent_of(plan.save_dir).apply(
                FsRequestView::UnpackArchive { src_file: plan.source_path, dst_dir: plan.save_dir },
            ),
        ),
{
    reveal_with_fuel(run_restore, 6);
}

/// A restore where the save does not exist: the archive is unpacked as the
/// save directory, no undo snapshot is made, and nothing else on the disk
/// changes but for the save's parent directory, which is created where it
/// is missing.
pub proof fn lemma_restore_without_save(
    disk: Disk,
    save_path: Seq<char>,
    backup_base_path: Seq<char>,
    save_name: Seq<char>,
    backup_name: Seq<char>,
    snapshot_name: Seq<char>,
    files: Tree,
    fuel: nat,
)
    requires
        fuel >= 8,
        ({
            let start = RestoreView::begin_backup(
                save_path,
                backup_base_path,
                save_name,
                backup_name,
                snapshot_name,
            );
            &&& disk.nodes.contains_key(start.0.plan.source_path)
            &&& disk.nodes[start.0.plan.source_path] == Node::Archive(files)
            &&& !disk.nodes.contains_key(start.0.plan.save_dir)
        }),
    ensures
        ({
            let start = RestoreView::begin_backup(
                save_path,
                backup_base_path,
                save_name,
                backup_name,
                snapshot_name,
            );
            let plan = start.0.plan;
            let end = run_restore(start.0, start.1, disk, fuel);
            &&& end.0 == restored(plan, None)
            &&& end.1.nodes.contains_key(plan.save_dir)
            &&& end.1.nodes[plan.save_dir] == Node::Directory(files)
            &&& forall|p: Seq<char>|
                p != plan.save_dir && parent_spec(plan.save_dir) != Some(p) ==> (
                #[trigger] end.1.nodes.contains_key(p) <==> disk.nodes.contains_key(p)) && (
                end.1.nodes.contains_key(p) ==> end.1.nodes[p] == disk.nodes[p])
        }),
{
    let start = RestoreView::begin_backup(
        save_path,
        backup_base_path,
        save_name,
        backup_name,
        snapshot_name,
    );
    let plan = start.0.plan;
    lemma_parent_differs(plan.save_dir);
    lemma_extract(plan, None, disk, (fuel - 3) as nat);
    reveal_with_fuel(run_restore, 4);
}

/// A restore where the save exists: afterwards the save directory holds the
/// files of the archive, the undo snapshot is an archive of the files that
/// the save held before, and the archive that was restored is still there.
/// The archive and the snapshot must not lie in the save directory, and the
/// snapshot's path must not be that of the archive.
pub proof fn lemma_restore_with_save(
    disk: Disk,
    save_path: Seq<char>,
    backup_base_path: Seq<char>,
    save_name: Seq<char>,
    backup_name: Seq<char>,
    snapshot_name: Seq<char>,
    archived: Tree,
    present: Tree,
    fuel: nat,
)
    requires
        fuel >= 24,
        disk.dates(),
        ({
            let plan = RestoreView::begin_backup(
                save_path,
                backup_base_path,
                save_name,
                backup_name,
                snapshot_name,
            ).0.plan;
            let snapshot_path = snapshot_plan(plan).snapshot_path;
            &&& disk.nodes.contains_key(plan.source_path)
            &&& disk.nodes[plan.source_path] == Node::Archive(archived)
            &&& disk.nodes.contains_key(plan.save_dir)
            &&& disk.nodes[plan.save_dir] == Node::Directory(present)
            &&& snapshot_path != plan.source_path
            &&& !below(snapshot_path, plan.save_dir)
            &&& !below(plan.source_path, plan.save_dir)
        }),
    ensures
        ({
            let start = RestoreView::begin_backup(
                save_path,
                backup_base_path,
                save_name,
                backup_name,
                snapshot_name,
            );
            let plan = start.0.plan;
            let snapshot_path = snapshot_plan(plan).snapshot_path;
            let end = run_restore(start.0, start.1, disk, fuel);
            &&& end.0 == restored(plan, Some(snapshot_path))
            &&& end.1.nodes.contains_key(plan.save_dir)
            &&& end.1.nodes[plan.save_dir] == Node::Directory(archived)
            &&& end.1.nodes.contains_key(snapshot_path)
            &&& end.1.nodes[snapshot_path] == Node::Archive(present)
            &&& end.1.nodes.contains_key(plan.source_path)
            &&& end.1.nodes[plan.source_path] == Node::Archive(archived)
            &&& forall|p: Seq<char>|
                below(p, plan.save_dir) && p != plan.save_dir ==> !(
                #[trigger] end.1.nodes.contains_key(p))
            &&& forall|p: Seq<char>|
                !below(p, plan.save_dir) && !touched_by_snapshot(plan, p) && parent_spec(
                    plan.save_dir,
                ) != Some(p) ==> same_at(disk, end.1, p)
        }),
{
    let start = RestoreView::begin_backup(
        save_path,
        backup_base_path,
        save_name,
        backup_name,
        snapshot_name,
    );
    let plan = start.0.plan;
    let sp = snapshot_plan(plan);
    let path = sp.snapshot_path;
    lemma_parent_differs(plan.save_dir);
    lemma_parent_differs(path);

    // The archive is probed, and the snapshot begins.
    let f1 = (fuel - 1) as nat;
    assert(run_restore(start.0, start.1, disk, fuel) == run_restore(
        snapshotting(plan, SnapshotStageView::ProbeSave),
        FsRequestView::Probe { path: plan.save_dir },
        disk,
        f1,
    )) by {
        reveal_with_fuel(run_restore, 2);
    }

    lemma_snapshot_prelude(plan, disk, f1);
    let made = disk.kind(sp.store_dir) == PathKind::Missing;
    let d2 = if made {
        disk.with_dir(sp.store_dir)
    } else {
        disk
    };
    let f2 = (f1 - if made {
        3int
    } else {
        2int
    }) as nat;

    lemma_snapshot_clear(plan, d2, f2);
    let stale = d2.kind(path) != PathKind::Missing;
    let d3 = if stale {
        d2.apply(FsRequestView::RemoveFile { path })
    } else {
        d2
    };
    let f3 = (f2 - if stale {
        3int
    } else {
        1int
    }) as nat;
    assert(d3.kind(path) == PathKind::Missing);
    assert(d3.nodes.contains_key(plan.save_dir) && d3.nodes[plan.save_dir] == Node::Directory(
        present,
    ));
    assert(d3.nodes.contains_key(plan.source_path) && d3.nodes[plan.source_path] == Node::Archive(
        archived,
    ));

    lemma_snapshot_archive(plan, d3, f3);
    let d4 = d3.with_parent_of(path).apply(
        FsRequestView::WriteArchive { src_dir: plan.save_dir, dst_file: path },
    );
    let f4 = (f3 - codec_requests(d3, path)) as nat;
    assert(d3.with_parent_of(path).nodes[plan.save_dir] == Node::Directory(present));
    assert(d4.nodes.contains_key(path) && d4.nodes[path] == Node::Archive(present));
    assert(d4.nodes.contains_key(plan.save_dir) && d4.nodes[plan.save_dir] == Node::Directory(
        present,
    ));
    assert(d4.nodes.contains_key(plan.source_path) && d4.nodes[plan.source_path] == Node::Archive(
        archived,
    ));

    lemma_snapshot_measure(plan, d4, f4);
    let f5 = (f4 - 2) as nat;

    lemma_clear_save(plan, Some(path), d4, f5);
    let d6 = d4.apply(FsRequestView::RemoveDirAll { path: plan.save_dir });
    let f6 = (f5 - 3) as nat;
    assert(d6.kind(plan.save_dir) == PathKind::Missing);
    assert(d6.nodes.contains_key(path) && d6.nodes[path] == Node::Archive(present));
    assert(d6.nodes.contains_key(plan.source_path) && d6.nodes[plan.source_path] == Node::Archive(
        archived,
    ));

    lemma_extract(plan, Some(path), d6, f6);
    let d7 = d6.with_parent_of(plan.save_dir).apply(
        FsRequestView::UnpackArchive { src_file: plan.source_path, dst_dir: plan.save_dir },
    );
    assert(d6.with_parent_of(plan.save_dir).nodes[plan.source_path] == Node::Archive(archived));
    assert(d7.nodes.contains_key(plan.save_dir) && d7.nodes[plan.save_dir] == Node::Directory(
        archived,
    ));
    assert(d7.nodes.contains_key(path) && d7.nodes[path] == Node::Archive(present));
    assert(d7.nodes.contains_key(plan.source_path) && d7.nodes[plan.source_path] == Node::Archive(
        archived,
    ));
    assert forall|p: Seq<char>| below(p, plan.save_dir) && p != plan.save_dir implies !(
    #[trigger] d7.nodes.contains_key(p)) by {
        assert(!d6.nodes.contains_key(p));
    }
    assert forall|p: Seq<char>|
        !below(p, plan.save_dir) && !touched_by_snapshot(plan, p) && parent_spec(plan.save_dir)
            != Some(p) implies same_at(disk, d7, p) by {
        assert(same_at(disk, d2, p));
        assert(same_at(d2, d3, p));
        assert(same_at(d3, d4, p));
        assert(same_at(d4, d6, p));
        assert(same_at(d6, d7, p));
    }
}

/// A restore from an undo snapshot where the save exists: afterwards the
/// save directory holds the files of the snapshot, which is still there,
/// and no undo snapshot is reported. The snapshot must not lie in the save
/// directory.
pub proof fn lemma_restore_from_undo_snapshot(
    disk: Disk,
    save_path: Seq<char>,
    backup_base_path: Seq<char>,
    save_name: Seq<char>,
    snapshot_name: Seq<char>,
    archived: Tree,
    fuel: nat,
)
    requires
        fuel >= 8,
        ({
            let plan = RestoreView::begin_undo(
                save_path,
                backup_base_path,
                save_name,
                snapshot_name,
            ).0.plan;
            &&& disk.nodes.contains_key(plan.source_path)
            &&& disk.nodes[plan.source_path] == Node::Archive(archived)
            &&& disk.kind(plan.save_dir) == PathKind::Directory
            &&& !below(plan.source_path, plan.save_dir)
        }),
    ensures
        ({
            let start = RestoreView::begin_undo(
                save_path,
                backup_base_path,
                save_name,
                snapshot_name,
            );
            let plan = start.0.plan;
            let end = run_restore(start.0, start.1, disk, fuel);
            &&& end.0 == restored(plan, None)
            &&& end.1.nodes.contains_key(plan.save_dir)
            &&& end.1.nodes[plan.save_dir] == Node::Directory(archived)
            &&& end.1.nodes.contains_key(plan.source_path)
            &&& end.1.nodes[plan.source_path] == Node::Archive(archived)
            &&& forall|p: Seq<char>|
                below(p, plan.save_dir) && p != plan.save_dir ==> !(
                #[trigger] end.1.nodes.contains_key(p))
            &&& forall|p: Seq<char>|
                !below(p, plan.save_dir) && parent_spec(plan.save_dir) != Some(p) ==> same_at(
                    disk,
                    end.1,
                    p,
                )
        }),
{
    let start = RestoreView::begin_undo(save_path, backup_base_path, save_name, snapshot_name);
    let plan = start.0.plan;
    lemma_parent_differs(plan.save_dir);
    let f1 = (fuel - 1) as nat;
    assert(run_restore(start.0, start.1, disk, fuel) == run_restore(
        RestoreView { plan, stage: RestoreStageView::ProbeSave, undo_path: None },
        FsRequestView::Probe { path: plan.save_dir },
        disk,
        f1,
    )) by {
        reveal_with_fuel(run_restore, 2);
    }
    lemma_clear_save(plan, None, disk, f1);
    let d2 = disk.apply(FsRequestView::RemoveDirAll { path: plan.save_dir });
    assert(d2.kind(plan.save_dir) == PathKind::Missing);
    assert(d2.nodes.contains_key(plan.source_path) && d2.nodes[plan.source_path] == Node::Archive(
        archived,
    ));
    lemma_extract(plan, None, d2, (f1 - 3) as nat);
    assert(d2.with_parent_of(plan.save_dir).nodes[plan.source_path] == Node::Archive(archived));
    let d3 = d2.with_parent_of(plan.save_dir).apply(
        FsRequestView::UnpackArchive { src_file: plan.source_path, dst_dir: plan.save_dir },
    );
    assert forall|p: Seq<char>| below(p, plan.save_dir) && p != plan.save_dir implies !(
    #[trigger] d3.nodes.contains_key(p)) by {
        assert(!d2.nodes.contains_key(p));
    }
    assert forall|p: Seq<char>|
        !below(p, plan.save_dir) && parent_spec(plan.save_dir) != Some(p) implies same_at(
        disk,
        d3,
        p,
    ) by {
        assert(same_at(disk, d2, p));
        assert(same_at(d2, d3, p));
    }
}

/// Whether a restore that makes an undo snapshot has not finished it yet:
/// it probes the archive or is at work on the snapshot, as a restore that
/// began with `begin_backup` is until then.
pub open spec fn snapshot_pending(state: RestoreView) -> bool {
    &&& state.plan.snapshot is Some
    &&& match state.stage {
        RestoreStageView::ProbeSource => true,
        RestoreStageView::Snapshot(job) => match job.stage {
            SnapshotStageView::Clear(removal) => !removal.tree,
            SnapshotStageView::Archive(codec) => !codec.unpack,
            _ => true,
        },
        _ => false,
    }
}

/// Whether the undo snapshot of the restore in `state` ends well with the
/// answer `resp`.
pub open spec fn snapshot_ended_well(state: RestoreView, resp: FsResponseView) -> bool {
    match state.stage {
        RestoreStageView::Snapshot(job) => job.step(resp) is Finished,
        _ => false,
    }
}

/// Whatever the answers are: while the undo snapshot is pending, a restore
/// asks neither for the removal of a directory nor for the unpacking of an
/// archive; it goes on to the probe of the save directory only when the
/// snapshot has ended well; and where the snapshot fails, the restore fails
/// with the same error.
pub proof fn lemma_nothing_destroyed_before_snapshot(state: RestoreView, resp: FsResponseView)
    requires
        snapshot_pending(state),
    ensures
        match state.step(resp) {
            StepView::Ask(next, req) => {
                &&& !(req is RemoveDirAll)
                &&& !(req is UnpackArchive)
                &&& snapshot_pending(next) || (next.stage is ProbeSave && snapshot_ended_well(
                    state,
                    resp,
                ))
            },
            _ => true,
        },
        state.stage matches RestoreStageView::Snapshot(job) ==> (job.step(resp) matches StepView::Failed(e)
            ==> state.step(resp) == StepView::<
            RestoreView,
            RestoreResultView,
            RestoreErrorView,
        >::Failed(e)),
{
}

/// A restore that began with `begin_backup` has its undo snapshot pending.
pub proof fn lemma_snapshot_pending_at_begin(
    save_path: Seq<char>,
    backup_base_path: Seq<char>,
    save_name: Seq<char>,
    backup_name: Seq<char>,
    snapshot_name: Seq<char>,
)
    ensures
        snapshot_pending(
            RestoreView::begin_backup(
                save_path,
                backup_base_path,
                save_name,
                backup_name,
                snapshot_name,
            ).0,
        ),
{
}

} // verus!
