use zomboid_backup::auto_backup::{
    is_due, note_run, scan_save_root, AutoBackupError, AutoBackupManager, LastRun,
    SaveAutoBackupState, Timer, TimerAction, TimerEvent,
    DEFAULT_AUTO_BACKUP_INTERVAL, MAX_AUTO_BACKUP_INTERVAL, MIN_AUTO_BACKUP_INTERVAL,
    POLL_PERIOD_SECONDS,
};
use zomboid_backup::backup::BackupError;
use zomboid_backup::clock::Timestamp;
use zomboid_backup::file_ops::FileOpsError;
use zomboid_backup::fsio::{FsRequest, FsResponse, PathKind, Step};

/// The instant `secs` seconds after 2024-12-28T10:00:00 UTC.
fn at(secs: i64) -> Timestamp {
    Timestamp { secs: 1_735_380_000 + secs, nanos: 0 }
}

const DIR: PathKind = PathKind::Directory;

#[test]
fn test_default_interval() {
    assert_eq!(DEFAULT_AUTO_BACKUP_INTERVAL, 300);
    assert_eq!(MIN_AUTO_BACKUP_INTERVAL, 60);
    assert_eq!(MAX_AUTO_BACKUP_INTERVAL, 86400);
}

#[test]
fn poll_period_is_shorter_than_any_interval() {
    assert_eq!(POLL_PERIOD_SECONDS, 10);
    assert!(POLL_PERIOD_SECONDS < MIN_AUTO_BACKUP_INTERVAL);
}

#[test]
fn test_auto_backup_manager_new() {
    let manager = AutoBackupManager::new();
    assert!(!manager.is_running());
}

#[test]
fn test_auto_backup_manager_default() {
    let manager = AutoBackupManager::default();
    assert!(!manager.is_running());
}

#[test]
fn test_set_interval_valid() {
    let mut manager = AutoBackupManager::new();
    assert!(manager.set_interval(120).is_ok());
    assert_eq!(manager.get_interval(), 120);
}

#[test]
fn test_set_interval_too_small() {
    let mut manager = AutoBackupManager::new();
    let result = manager.set_interval(30);
    assert!(matches!(result, Err(AutoBackupError::InvalidInterval(_))));
}

#[test]
fn test_set_interval_too_large() {
    let mut manager = AutoBackupManager::new();
    let result = manager.set_interval(100000);
    assert!(matches!(result, Err(AutoBackupError::InvalidInterval(_))));
}

#[test]
fn set_interval_bounds_are_inclusive() {
    let mut manager = AutoBackupManager::new();
    assert_eq!(
        manager.set_interval(59),
        Err(AutoBackupError::InvalidInterval(
            "Interval must be between 60 and 86400 seconds".to_string()
        ))
    );
    assert_eq!(manager.get_interval(), 300);
    assert!(matches!(manager.set_interval(86401), Err(AutoBackupError::InvalidInterval(_))));
    assert_eq!(manager.get_interval(), 300);
    assert_eq!(manager.set_interval(60), Ok(()));
    assert_eq!(manager.get_interval(), 60);
    assert_eq!(manager.set_interval(86400), Ok(()));
    assert_eq!(manager.get_interval(), 86400);
    assert!(manager.set_interval(0).is_err());
    assert!(manager.set_interval(u64::MAX).is_err());
    assert_eq!(manager.get_interval(), 86400);
}

#[test]
fn test_enable_save_success() {
    let mut manager = AutoBackupManager::new();
    assert!(manager.enable_save("Survival", PathKind::Directory).is_ok());
    assert!(manager.is_save_enabled("Survival"));
    assert!(!manager.is_save_enabled("NonExistent"));
}

#[test]
fn test_enable_save_not_found() {
    let mut manager = AutoBackupManager::new();
    let result = manager.enable_save("NonExistent", PathKind::Missing);
    assert!(matches!(result, Err(AutoBackupError::SaveNotFound(_))));
    assert_eq!(result, Err(AutoBackupError::SaveNotFound("NonExistent".to_string())));
    assert!(!manager.is_save_enabled("NonExistent"));
    assert!(manager.get_status().saves.is_empty());
}

#[test]
fn test_disable_save() {
    let mut manager = AutoBackupManager::new();
    // Disabling a save that was never enabled changes nothing.
    manager.disable_save("NonExistent");
    assert_eq!(manager, AutoBackupManager::new());
}

#[test]
fn enable_then_disable_keeps_the_entry() {
    let mut manager = AutoBackupManager::new();
    manager.enable_save_at("Survival", DIR, at(0)).unwrap();
    assert_eq!(
        manager.get_status().saves,
        vec![SaveAutoBackupState {
            save_name: "Survival".to_string(),
            enabled: true,
            last_backup_time: None,
            next_backup_time: Some("2024-12-28T10:00:00+00:00".to_string()),
        }]
    );
    manager.disable_save("Survival");
    assert!(!manager.is_save_enabled("Survival"));
    assert_eq!(
        manager.get_status().saves,
        vec![SaveAutoBackupState {
            save_name: "Survival".to_string(),
            enabled: false,
            last_backup_time: None,
            next_backup_time: None,
        }]
    );
}

#[test]
fn test_get_status() {
    let manager = AutoBackupManager::new();
    let status = manager.get_status();
    assert!(!status.is_running);
    assert_eq!(status.interval_seconds, DEFAULT_AUTO_BACKUP_INTERVAL);
    assert!(status.saves.is_empty());
    assert!(status.started_at.is_none());
}

#[test]
fn test_auto_backup_error_display() {
    let err = AutoBackupError::NotRunning;
    assert_eq!(err.to_string(), "Auto backup service is not running");

    let err2 = AutoBackupError::AlreadyRunning;
    assert_eq!(err2.to_string(), "Auto backup service is already running");

    let err3 = AutoBackupError::SaveNotFound("TestSave".to_string());
    assert_eq!(err3.to_string(), "Save not found: TestSave");
}

#[test]
fn auto_backup_error_display_of_the_other_variants() {
    assert_eq!(
        AutoBackupError::InvalidInterval("too short".to_string()).to_string(),
        "Invalid interval: too short"
    );
    assert_eq!(
        AutoBackupError::FileOp(FileOpsError::Io("x".to_string())).to_string(),
        "File operation error: IO error: x"
    );
    assert_eq!(
        AutoBackupError::Backup(BackupError::SaveNotFound("s".to_string())).to_string(),
        "Backup error: Save directory not found: s"
    );
}

#[test]
fn start_and_stop_follow_the_state_machine() {
    let mut manager = AutoBackupManager::new();
    assert_eq!(manager.stop(), Err(AutoBackupError::NotRunning));
    assert!(!manager.is_running());

    assert_eq!(manager.start_at(at(0)), Ok(()));
    assert!(manager.is_running());
    assert_eq!(
        manager.get_status().started_at,
        Some("2024-12-28T10:00:00+00:00".to_string())
    );

    assert_eq!(
        manager.start_at(at(3600)),
        Err(AutoBackupError::AlreadyRunning)
    );
    assert_eq!(
        manager.get_status().started_at,
        Some("2024-12-28T10:00:00+00:00".to_string())
    );

    assert_eq!(manager.stop(), Ok(()));
    assert!(!manager.is_running());
    assert_eq!(manager.get_status().started_at, None);
    assert_eq!(manager.stop(), Err(AutoBackupError::NotRunning));
}

#[test]
fn start_reads_the_clock() {
    let mut manager = AutoBackupManager::new();
    assert_eq!(manager.start(), Ok(()));
    let started = manager.get_status().started_at.unwrap();
    assert!(started.contains('T'));
    assert!(started.ends_with("+00:00"));
    assert_eq!(manager.start(), Err(AutoBackupError::AlreadyRunning));
}

#[test]
fn refresh_keeps_known_saves_and_drops_the_others() {
    let mut manager = AutoBackupManager::new();
    manager.enable_save_at("Survival", DIR, at(1)).unwrap();
    manager.enable_save_at("Builder", DIR, at(2)).unwrap();

    // The save root is missing: nothing changes.
    let before = manager.clone();
    manager.refresh_save_states(None);
    assert_eq!(manager, before);

    // Builder's directory is gone, Sandbox is new.
    manager.refresh_save_states(Some(vec!["Sandbox".to_string(), "Survival".to_string()]));
    assert!(manager.is_save_enabled("Survival"));
    assert!(!manager.is_save_enabled("Builder"));
    assert!(!manager.is_save_enabled("Sandbox"));
    assert_eq!(
        manager.get_status().saves,
        vec![
            SaveAutoBackupState {
                save_name: "Sandbox".to_string(),
                enabled: false,
                last_backup_time: None,
                next_backup_time: None,
            },
            SaveAutoBackupState {
                save_name: "Survival".to_string(),
                enabled: true,
                last_backup_time: None,
                next_backup_time: Some("2024-12-28T10:00:01+00:00".to_string()),
            },
        ]
    );
}

#[test]
fn cycle_lists_the_enabled_saves_while_running() {
    let mut manager = AutoBackupManager::new();
    manager.enable_save_at("A", DIR, at(0)).unwrap();
    manager.enable_save_at("B", DIR, at(0)).unwrap();
    manager.enable_save_at("C", DIR, at(0)).unwrap();
    manager.disable_save("B");
    assert_eq!(manager.cycle(), None);

    manager.start_at(at(0)).unwrap();
    manager.set_interval(120).unwrap();
    let cycle = manager.cycle().unwrap();
    assert_eq!(cycle.interval_seconds, 120);
    assert_eq!(cycle.saves, vec!["A".to_string(), "C".to_string()]);

    manager.stop().unwrap();
    assert_eq!(manager.cycle(), None);
}

#[test]
fn a_save_is_due_when_never_backed_up_or_after_the_interval() {
    let mut runs: Vec<LastRun> = Vec::new();
    assert!(is_due(&runs, "A", 60, 0));
    note_run(&mut runs, "A", 5_000);
    assert_eq!(runs, vec![LastRun { save_name: "A".to_string(), at_millis: 5_000 }]);
    assert!(!is_due(&runs, "A", 60, 5_000));
    assert!(!is_due(&runs, "A", 60, 64_999));
    assert!(is_due(&runs, "A", 60, 65_000));
    assert!(is_due(&runs, "B", 60, 5_000));
    // A clock that went back counts as no time passed.
    assert!(!is_due(&runs, "A", 60, 1_000));
    note_run(&mut runs, "A", 70_000);
    note_run(&mut runs, "B", 71_000);
    assert_eq!(
        runs,
        vec![
            LastRun { save_name: "A".to_string(), at_millis: 70_000 },
            LastRun { save_name: "B".to_string(), at_millis: 71_000 },
        ]
    );
    assert!(!is_due(&runs, "A", 60, 100_000));
    assert!(is_due(&runs, "A", 60, 130_000));
    assert!(!is_due(&runs, "A", u64::MAX, u64::MAX));
}

#[test]
fn record_backup_sets_the_times_of_a_known_save() {
    let mut manager = AutoBackupManager::new();
    manager.enable_save_at("A", DIR, at(0)).unwrap();
    let mut runs: Vec<LastRun> = Vec::new();
    manager.record_backup_at(&mut runs, "A", 300, 1_000, at(10));
    manager.record_backup_at(&mut runs, "Gone", 300, 2_000, at(20));
    assert_eq!(
        manager.get_status().saves,
        vec![SaveAutoBackupState {
            save_name: "A".to_string(),
            enabled: true,
            last_backup_time: Some("2024-12-28T10:00:10+00:00".to_string()),
            next_backup_time: Some("2024-12-28T10:05:10+00:00".to_string()),
        }]
    );
    assert_eq!(
        runs,
        vec![
            LastRun { save_name: "A".to_string(), at_millis: 1_000 },
            LastRun { save_name: "Gone".to_string(), at_millis: 2_000 },
        ]
    );

    manager.record_backup(&mut runs, "A", 300, 9_000);
    let state = &manager.get_status().saves[0];
    assert!(state.last_backup_time.as_ref().unwrap().ends_with("+00:00"));
    assert!(state.next_backup_time.as_ref().unwrap().ends_with("+00:00"));
    assert!(state.next_backup_time > state.last_backup_time);
    assert_eq!(runs[0], LastRun { save_name: "A".to_string(), at_millis: 9_000 });
}

#[test]
fn times_that_have_no_date_are_left_out() {
    let far = Timestamp { secs: i64::MAX, nanos: 0 };
    let mut manager = AutoBackupManager::new();
    assert_eq!(
        manager.start_at(far),
        Err(AutoBackupError::FileOp(FileOpsError::Io("time is out of range".to_string())))
    );
    assert!(!manager.is_running());
    assert_eq!(manager.enable_save_at("A", DIR, far), Ok(()));
    assert!(manager.is_save_enabled("A"));
    assert_eq!(manager.get_status().saves[0].next_backup_time, None);
    let mut runs = Vec::new();
    manager.record_backup_at(&mut runs, "A", 300, 0, far);
    assert_eq!(manager.get_status().saves[0].last_backup_time, None);
    // The last second that has a date, and the interval that leaves it.
    manager.record_backup_at(&mut runs, "A", u64::MAX, 0, at(0));
    assert_eq!(
        manager.get_status().saves[0].last_backup_time,
        Some("2024-12-28T10:00:00+00:00".to_string())
    );
    assert_eq!(manager.get_status().saves[0].next_backup_time, None);
    assert_eq!(at(0).plus_seconds(86400), Some(at(86400)));
    assert_eq!(far.plus_seconds(1), None);
    assert_eq!(Timestamp { secs: -5, nanos: 7 }.plus_seconds(5), Some(Timestamp { secs: 0, nanos: 7 }));
}

#[test]
fn only_a_directory_can_be_enabled() {
    for kind in [PathKind::Missing, PathKind::File, PathKind::Other] {
        let mut manager = AutoBackupManager::new();
        manager.enable_save_at("Known", DIR, at(0)).unwrap();
        let before = manager.clone();
        assert_eq!(
            manager.enable_save_at("Save", kind, at(5)),
            Err(AutoBackupError::SaveNotFound("Save".to_string()))
        );
        assert_eq!(
            manager.enable_save("Known", kind),
            Err(AutoBackupError::SaveNotFound("Known".to_string()))
        );
        assert_eq!(manager, before);
    }
}

#[test]
fn enabling_twice_keeps_one_state_per_save() {
    let mut manager = AutoBackupManager::new();
    manager.enable_save_at("A", DIR, at(0)).unwrap();
    manager.enable_save_at("B", DIR, at(0)).unwrap();
    manager.enable_save_at("A", DIR, at(7)).unwrap();
    manager.refresh_save_states(Some(vec!["B".to_string(), "A".to_string(), "B".to_string()]));
    let names: Vec<String> = manager.get_status().saves.into_iter().map(|s| s.save_name).collect();
    assert_eq!(names, ["B", "A"]);
}

#[test]
fn the_timer_works_through_a_cycle() {
    let mut manager = AutoBackupManager::new();
    for save in ["A", "B", "C"] {
        manager.enable_save_at(save, DIR, at(0)).unwrap();
    }
    manager.disable_save("B");
    manager.set_interval(60).unwrap();

    // A timer that wakes while the service does not run ends.
    let (timer, action) = manager.tick_at(Timer::new(), TimerEvent::Woke, 0, at(0));
    assert_eq!(action, TimerAction::End);
    assert_eq!(timer, Timer::new());

    manager.start_at(at(0)).unwrap();
    let (timer, action) = manager.tick_at(timer, TimerEvent::Woke, 1_000, at(1));
    assert_eq!(action, TimerAction::Backup("A".to_string()));
    assert_eq!(timer.saves, ["A", "C"]);
    assert_eq!(timer.interval_seconds, 60);

    // The backup of A fails: nothing is recorded, and C is tried.
    let before = manager.clone();
    let (timer, action) = manager.tick_at(timer, TimerEvent::BackupFailed, 2_000, at(2));
    assert_eq!(action, TimerAction::Backup("C".to_string()));
    assert_eq!(manager, before);
    assert!(timer.runs.is_empty());

    // The backup of C is made: it is recorded, and the timer rests.
    let (timer, action) = manager.tick_at(timer, TimerEvent::BackedUp, 3_000, at(3));
    assert_eq!(action, TimerAction::Rest(10));
    assert_eq!(timer.runs, vec![LastRun { save_name: "C".to_string(), at_millis: 3_000 }]);
    let c = manager.get_status().saves[2].clone();
    assert_eq!(c.last_backup_time, Some("2024-12-28T10:00:03+00:00".to_string()));
    assert_eq!(c.next_backup_time, Some("2024-12-28T10:01:03+00:00".to_string()));
    assert_eq!(manager.get_status().saves[0].last_backup_time, None);

    // After the rest A is tried again; C is not due.
    let (timer, action) = manager.tick_at(timer, TimerEvent::Woke, 13_000, at(13));
    assert_eq!(action, TimerAction::Backup("A".to_string()));
    let (timer, action) = manager.tick_at(timer, TimerEvent::BackedUp, 14_000, at(14));
    assert_eq!(action, TimerAction::Rest(10));

    // Nothing is due until an interval has passed.
    let (timer, action) = manager.tick_at(timer, TimerEvent::Woke, 24_000, at(24));
    assert_eq!(action, TimerAction::Rest(10));
    let (timer, action) = manager.tick_at(timer, TimerEvent::Woke, 63_000, at(63));
    assert_eq!(action, TimerAction::Backup("C".to_string()));

    let (timer, action) = manager.tick_at(timer, TimerEvent::BackedUp, 64_000, at(64));
    assert_eq!(action, TimerAction::Rest(10));
    let (timer, action) = manager.tick_at(timer, TimerEvent::Woke, 75_000, at(75));
    assert_eq!(action, TimerAction::Backup("A".to_string()));

    // Once the service is stopped the cycle at hand is finished, and the
    // timer ends at its next waking.
    manager.stop().unwrap();
    let (timer, action) = manager.tick_at(timer, TimerEvent::BackedUp, 76_000, at(76));
    assert_eq!(action, TimerAction::Rest(10));
    assert_eq!(
        manager.get_status().saves[0].last_backup_time,
        Some("2024-12-28T10:01:16+00:00".to_string())
    );
    let (_, action) = manager.tick(timer, TimerEvent::Woke, 86_000);
    assert_eq!(action, TimerAction::End);
}

#[test]
fn a_scan_of_the_save_root_that_fails_is_a_file_error() {
    let (scan, first) = scan_save_root("/saves");
    assert_eq!(first, FsRequest::Probe { path: "/saves".to_string() });
    let scan = match scan.step(FsResponse::Kind(PathKind::Directory)) {
        Step::Ask(scan, req) => {
            assert_eq!(req, FsRequest::ReadDir { path: "/saves".to_string() });
            scan
        }
        other => panic!("{:?}", other),
    };
    assert_eq!(
        scan.clone().step(FsResponse::Failed("denied".to_string())),
        Step::Failed(AutoBackupError::FileOp(FileOpsError::Io("denied".to_string())))
    );
    assert_eq!(scan.step(FsResponse::Entries(Vec::new())), Step::Finished(Some(Vec::new())));
}
