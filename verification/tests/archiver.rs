use contact_manager::archiver::{ArchiveStatus, ArchiverState, ARCHIVE_TOTAL_STEPS};

#[test]
fn start_from_idle_runs_with_zero_progress() {
    let mut s = ArchiverState::default();
    assert_eq!(s.status(), ArchiveStatus::Waiting);
    assert_eq!(s.progress(), 0);
    let launched = s.start();
    assert!(launched);
    assert_eq!(s.status(), ArchiveStatus::Running);
    assert_eq!(s.progress(), 0);
}

#[test]
fn progress_is_monotone_across_steps() {
    let mut s = ArchiverState::default();
    s.start();
    let mut last = s.progress();
    for i in 0..ARCHIVE_TOTAL_STEPS {
        s.run_step(i);
        let now = s.snapshot().progress();
        assert!(now >= last);
        last = now;
    }
    assert_eq!(last, 100);
}

#[test]
fn final_step_completes_and_stays_until_reset() {
    let mut s = ArchiverState::default();
    s.start();
    s.run_all_steps();
    assert_eq!(s.status(), ArchiveStatus::Complete);
    assert_eq!(s.progress(), 100);
    // start leaves a completed state alone
    assert!(!s.start());
    assert_eq!(s.status(), ArchiveStatus::Complete);
    assert_eq!(s.progress(), 100);
    s.reset();
    assert_eq!(s.status(), ArchiveStatus::Waiting);
}

#[test]
fn start_is_a_noop_while_running_or_complete() {
    let mut s = ArchiverState::default();
    s.start();
    s.run_step(3);
    let before = s.snapshot();
    assert!(!s.start());
    assert_eq!(s.status(), before.status());
    assert_eq!(s.progress(), before.progress());

    s.run_finish();
    let before = s.snapshot();
    assert!(!s.start());
    assert_eq!(s.status(), before.status());
    assert_eq!(s.progress(), before.progress());
}

#[test]
fn reset_rearms_start_from_any_status() {
    // from Waiting
    let mut s = ArchiverState::default();
    s.reset();
    assert_eq!(s.status(), ArchiveStatus::Waiting);
    assert!(s.start());

    // from Running
    let mut s = ArchiverState::default();
    s.start();
    s.run_step(0);
    s.reset();
    assert_eq!(s.status(), ArchiveStatus::Waiting);
    assert!(s.start());
    assert_eq!(s.progress(), 0);

    // from Complete
    let mut s = ArchiverState::default();
    s.start();
    s.run_all_steps();
    s.reset();
    assert_eq!(s.status(), ArchiveStatus::Waiting);
    assert!(s.start());
    assert_eq!(s.status(), ArchiveStatus::Running);
}

#[test]
fn whole_lifecycle_scenario() {
    let mut s = ArchiverState::default();
    assert_eq!(s.status(), ArchiveStatus::Waiting);
    assert_eq!(s.progress(), 0);
    assert!(s.start());
    let snap = s.snapshot();
    assert_eq!(snap.status(), ArchiveStatus::Running);
    assert!(snap.progress() <= 100);
    s.run_all_steps();
    let snap = s.snapshot();
    assert_eq!(snap.status(), ArchiveStatus::Complete);
    assert_eq!(snap.progress(), 100);
    s.reset();
    assert_eq!(s.snapshot().status(), ArchiveStatus::Waiting);
}

#[test]
fn double_start_launches_exactly_one_runner() {
    let mut s = ArchiverState::default();
    let mut launch_count = 0;
    if s.start() {
        launch_count += 1;
    }
    if s.start() {
        launch_count += 1;
    }
    assert_eq!(launch_count, 1);
}

#[test]
fn status_labels() {
    let mut s = ArchiverState::default();
    assert_eq!(s.status_label(), "Waiting");
    s.start();
    assert_eq!(s.status_label(), "Running");
    s.run_finish();
    assert_eq!(s.status_label(), "Complete");
    assert_eq!(s.archive_file(), "db/contacts.db");
}

#[test]
fn runner_steps_write_their_own_progress() {
    // the runner writes step + 1 even over a concurrent reset
    let mut s = ArchiverState::default();
    s.start();
    s.run_step(4);
    assert_eq!(s.progress(), 50);
    s.reset();
    s.run_step(5);
    assert_eq!(s.status(), ArchiveStatus::Waiting);
    assert_eq!(s.progress(), 60);
}
