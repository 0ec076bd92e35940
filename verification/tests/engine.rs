use patcher::checkpoint::{filter_manifest, CheckpointRecord};
use patcher::manifest::ManifestEntry;
use patcher::pipeline::{
    ApplyTarget, CheckpointLoad, DownloadOutcome, FetchOutcome, IdleStep, PackageInfo, Pipeline,
};
use patcher::status::{Command, Outcome, StatusEvent};

fn entry(index: u64, name: &str) -> ManifestEntry {
    ManifestEntry { index, file_name: String::from(name) }
}

fn five_entry_body() -> String {
    String::from("1 p1.thor\n2 p2.thor\n3 p3.thor\n4 p4.thor\n5 p5.thor\n")
}

/// Drives a fresh engine to the start of the download phase.
fn engine_downloading(body: &str, checkpoint: Option<CheckpointRecord>) -> Pipeline {
    let mut engine = Pipeline::new(false, String::from("data.grf"));
    assert!(matches!(engine.on_idle_command(Some(Command::Start)), IdleStep::Begin));
    assert!(engine.on_manifest(FetchOutcome::Body(String::from(body))));
    let ev = engine.on_checkpoint(CheckpointLoad::Loaded(checkpoint));
    assert!(matches!(ev, Some(StatusEvent::DownloadProgress(0, _))));
    engine
}

/// Downloads every pending entry and enters the apply phase.
fn engine_applying(body: &str, checkpoint: Option<CheckpointRecord>) -> Pipeline {
    let mut engine = engine_downloading(body, checkpoint);
    while !engine.download_complete() {
        let ev = engine.on_download_outcome(DownloadOutcome::Completed);
        assert!(matches!(ev, Some(StatusEvent::DownloadProgress(_, _))));
    }
    engine.begin_apply();
    engine
}

/// Applies the next pending package onto the file tree, successfully.
fn apply_one_to_tree(engine: &mut Pipeline) -> Option<(CheckpointRecord, StatusEvent)> {
    assert!(engine.on_cancel_poll(false));
    let header = PackageInfo { targets_archive: false, declared_archive_name: String::new() };
    assert!(engine.on_package_opened(Ok(header)));
    engine.on_apply_result(Ok(()))
}

#[test]
fn filter_with_matching_checkpoint_keeps_newer_entries() {
    let m = vec![entry(1, "a"), entry(2, "b"), entry(3, "c"), entry(4, "d")];
    let c = CheckpointRecord { last_applied_index: 2 };
    let filtered = filter_manifest(&m, &Some(c));
    let kept: Vec<u64> = filtered.iter().map(|e| e.index).collect();
    assert_eq!(kept, vec![3, 4]);
}

#[test]
fn filter_with_stale_checkpoint_keeps_everything() {
    let m = vec![entry(10, "a"), entry(20, "b")];
    let c = CheckpointRecord { last_applied_index: 15 };
    let filtered = filter_manifest(&m, &Some(c));
    let kept: Vec<u64> = filtered.iter().map(|e| e.index).collect();
    assert_eq!(kept, vec![10, 20]);
}

#[test]
fn filter_without_checkpoint_keeps_everything() {
    let m = vec![entry(1, "a"), entry(2, "b")];
    let filtered = filter_manifest(&m, &None);
    assert_eq!(filtered.len(), 2);
}

#[test]
fn idle_engine_discards_cancel_and_waits() {
    let mut engine = Pipeline::new(false, String::from("data.grf"));
    assert!(matches!(engine.on_idle_command(Some(Command::Cancel)), IdleStep::Wait));
    assert!(!engine.is_terminal());
    assert!(matches!(engine.on_idle_command(Some(Command::Start)), IdleStep::Begin));
}

#[test]
fn closed_channel_while_idle_ends_without_status() {
    let mut engine = Pipeline::new(false, String::from("data.grf"));
    assert!(matches!(engine.on_idle_command(None), IdleStep::Exit));
    assert!(engine.is_terminal());
    assert!(engine.terminal_status().is_none());
}

#[test]
fn fetch_failure_is_fatal_before_any_download() {
    let mut engine = Pipeline::new(false, String::from("data.grf"));
    engine.on_idle_command(Some(Command::Start));
    assert!(!engine.on_manifest(FetchOutcome::NotFound));
    assert!(engine.is_terminal());
    match engine.terminal_status() {
        Some(StatusEvent::Error(m)) => assert_eq!(
            m.as_str(),
            "Failed to retrieve the patch list: patch list file not found on the remote server."
        ),
        other => panic!("expected an error status, got {:?}", status_kind(&other)),
    }
}

#[test]
fn unresolved_patcher_name_is_fatal() {
    let mut engine = Pipeline::new(false, String::from("data.grf"));
    engine.on_idle_command(Some(Command::Start));
    assert!(engine.on_manifest(FetchOutcome::Body(five_entry_body())));
    assert!(engine.on_checkpoint(CheckpointLoad::PathUnresolved).is_none());
    match engine.terminal_status() {
        Some(StatusEvent::Error(m)) => {
            assert_eq!(m.as_str(), "Failed to resolve patcher name.")
        },
        other => panic!("expected an error status, got {:?}", status_kind(&other)),
    }
}

#[test]
fn second_run_with_fresh_checkpoint_applies_nothing() {
    // first run: everything applies, the checkpoint follows each entry
    let mut first = engine_applying(&five_entry_body(), None);
    let mut last = None;
    for _ in 0..5 {
        if let Some((rec, _ev)) = apply_one_to_tree(&mut first) {
            last = Some(rec);
        }
    }
    assert!(first.is_terminal());
    assert!(matches!(first.terminal_status(), Some(StatusEvent::Ready)));
    let checkpoint = last.expect("five applies must checkpoint");
    assert_eq!(checkpoint.last_applied_index, 5);

    // second run against the unchanged manifest: an empty pass, immediately ready
    let mut second = engine_downloading(&five_entry_body(), Some(checkpoint));
    assert!(second.download_complete());
    assert!(matches!(second.begin_apply(), StatusEvent::ApplyProgress(0, 0)));
    assert!(second.is_terminal());
    assert_eq!(second.applied, 0);
    assert_eq!(second.downloaded, 0);
    assert!(matches!(second.terminal_status(), Some(StatusEvent::Ready)));
}

#[test]
fn cancellation_during_download_applies_nothing() {
    let mut engine = engine_downloading(&five_entry_body(), None);
    // entry 1 downloads; cancellation wins the race while entry 2 transfers
    engine.on_download_outcome(DownloadOutcome::Completed);
    assert_eq!(engine.next_download().file_name.as_str(), "p2.thor");
    assert!(engine.on_download_outcome(DownloadOutcome::Cancelled).is_none());
    assert!(engine.is_terminal());
    assert_eq!(engine.applied, 0);
    assert!(engine.last_checkpoint.is_none());
    assert!(matches!(engine.terminal_status(), Some(StatusEvent::Cancelled)));
}

#[test]
fn cancellation_between_apply_steps_keeps_committed_prefix() {
    let mut engine = engine_applying(&five_entry_body(), None);
    apply_one_to_tree(&mut engine);
    apply_one_to_tree(&mut engine);
    // signalled after entry 2, before entry 3 starts
    assert!(!engine.on_cancel_poll(true));
    assert!(engine.is_terminal());
    assert_eq!(engine.applied, 2);
    assert_eq!(engine.last_checkpoint.map(|c| c.last_applied_index), Some(2));
    assert!(matches!(engine.terminal_status(), Some(StatusEvent::Cancelled)));
}

#[test]
fn transfer_failure_names_the_file_and_applies_nothing() {
    let mut engine = engine_downloading(&five_entry_body(), None);
    engine.on_download_outcome(DownloadOutcome::Completed);
    let ev = engine.on_download_outcome(DownloadOutcome::TransferFailed(String::from(
        "connection reset",
    )));
    assert!(ev.is_none());
    assert!(engine.is_terminal());
    assert_eq!(engine.applied, 0);
    assert!(engine.last_checkpoint.is_none());
    match engine.terminal_status() {
        Some(StatusEvent::Error(m)) => assert_eq!(
            m.as_str(),
            "Failed to download patches: could not download file 'p2.thor': connection reset."
        ),
        other => panic!("expected an error status, got {:?}", status_kind(&other)),
    }
}

#[test]
fn apply_failure_keeps_checkpoint_and_resumes_there() {
    let mut engine = engine_applying(&five_entry_body(), None);
    apply_one_to_tree(&mut engine);
    apply_one_to_tree(&mut engine);
    // entry 3 opens, then the filesystem fails while applying it
    assert!(engine.on_cancel_poll(false));
    let header = PackageInfo { targets_archive: false, declared_archive_name: String::new() };
    assert!(engine.on_package_opened(Ok(header)));
    assert!(engine.on_apply_result(Err(String::from("permission denied"))).is_none());
    assert!(engine.is_terminal());
    assert_eq!(engine.applied, 2);
    assert_eq!(engine.last_checkpoint.map(|c| c.last_applied_index), Some(2));
    match engine.terminal_status() {
        Some(StatusEvent::Error(m)) => assert_eq!(
            m.as_str(),
            "Failed to apply patches: could not apply patch 'p3.thor': permission denied."
        ),
        other => panic!("expected an error status, got {:?}", status_kind(&other)),
    }

    // a later run filtered against that checkpoint starts at entry 3
    let manifest = vec![
        entry(1, "p1.thor"),
        entry(2, "p2.thor"),
        entry(3, "p3.thor"),
        entry(4, "p4.thor"),
        entry(5, "p5.thor"),
    ];
    let filtered = filter_manifest(&manifest, &engine.last_checkpoint);
    let kept: Vec<u64> = filtered.iter().map(|e| e.index).collect();
    assert_eq!(kept, vec![3, 4, 5]);
}

#[test]
fn unreadable_package_is_fatal_naming_the_entry() {
    let mut engine = engine_applying(&five_entry_body(), None);
    assert!(engine.on_cancel_poll(false));
    assert!(!engine.on_package_opened(Err(String::from("bad magic"))));
    match engine.terminal_status() {
        Some(StatusEvent::Error(m)) => assert_eq!(
            m.as_str(),
            "Failed to apply patches: cannot read 'p1.thor': bad magic."
        ),
        other => panic!("expected an error status, got {:?}", status_kind(&other)),
    }
}

#[test]
fn archive_package_resolves_declared_name() {
    let mut engine = engine_applying("1 p1.thor\n", None);
    assert!(engine.on_cancel_poll(false));
    let header = PackageInfo {
        targets_archive: true,
        declared_archive_name: String::from("custom.grf"),
    };
    assert!(engine.on_package_opened(Ok(header)));
    match engine.apply_target() {
        Some(ApplyTarget::Archive { name, in_place }) => {
            assert_eq!(name.as_str(), "custom.grf");
            assert!(!*in_place);
        },
        _ => panic!("expected an archive target"),
    }
}

#[test]
fn archive_package_falls_back_to_default_name() {
    let mut engine = Pipeline::new(true, String::from("data.grf"));
    engine.on_idle_command(Some(Command::Start));
    assert!(engine.on_manifest(FetchOutcome::Body(String::from("1 p1.thor\n"))));
    engine.on_checkpoint(CheckpointLoad::Loaded(None));
    engine.on_download_outcome(DownloadOutcome::Completed);
    engine.begin_apply();
    assert!(engine.on_cancel_poll(false));
    let header = PackageInfo { targets_archive: true, declared_archive_name: String::new() };
    assert!(engine.on_package_opened(Ok(header)));
    match engine.apply_target() {
        Some(ApplyTarget::Archive { name, in_place }) => {
            assert_eq!(name.as_str(), "data.grf");
            assert!(*in_place);
        },
        _ => panic!("expected an archive target"),
    }
}

#[test]
fn archive_failure_names_the_archive() {
    let mut engine = engine_applying("1 p1.thor\n", None);
    assert!(engine.on_cancel_poll(false));
    let header = PackageInfo {
        targets_archive: true,
        declared_archive_name: String::from("custom.grf"),
    };
    assert!(engine.on_package_opened(Ok(header)));
    assert!(engine.on_apply_result(Err(String::from("merge failed"))).is_none());
    match engine.terminal_status() {
        Some(StatusEvent::Error(m)) => assert_eq!(
            m.as_str(),
            "Failed to apply patches: could not patch 'custom.grf': merge failed."
        ),
        other => panic!("expected an error status, got {:?}", status_kind(&other)),
    }
}

#[test]
fn transport_failure_on_manifest_is_fatal() {
    let mut engine = Pipeline::new(false, String::from("data.grf"));
    engine.on_idle_command(Some(Command::Start));
    assert!(!engine.on_manifest(FetchOutcome::TransportFailed(String::from("dns error"))));
    match engine.terminal_status() {
        Some(StatusEvent::Error(m)) => {
            assert_eq!(m.as_str(), "Failed to retrieve the patch list: dns error.")
        },
        other => panic!("expected an error status, got {:?}", status_kind(&other)),
    }
}

#[test]
fn invalid_manifest_body_is_fatal() {
    let mut engine = Pipeline::new(false, String::from("data.grf"));
    engine.on_idle_command(Some(Command::Start));
    assert!(!engine.on_manifest(FetchOutcome::InvalidBody));
    match engine.terminal_status() {
        Some(StatusEvent::Error(m)) => {
            assert_eq!(m.as_str(), "Failed to retrieve the patch list: invalid response body.")
        },
        other => panic!("expected an error status, got {:?}", status_kind(&other)),
    }
}

#[test]
fn temp_file_failure_is_fatal() {
    let mut engine = engine_downloading(&five_entry_body(), None);
    let ev = engine.on_download_outcome(DownloadOutcome::TempFileFailed(String::from("no space")));
    assert!(ev.is_none());
    match engine.terminal_status() {
        Some(StatusEvent::Error(m)) => assert_eq!(
            m.as_str(),
            "Failed to download patches: could not create a temporary file: no space."
        ),
        other => panic!("expected an error status, got {:?}", status_kind(&other)),
    }
}

#[test]
fn invalid_file_name_is_fatal_naming_the_entry() {
    let mut engine = engine_downloading(&five_entry_body(), None);
    engine.on_download_outcome(DownloadOutcome::Completed);
    assert!(engine.on_download_outcome(DownloadOutcome::InvalidFileName).is_none());
    match engine.terminal_status() {
        Some(StatusEvent::Error(m)) => assert_eq!(
            m.as_str(),
            "Failed to download patches: invalid file name 'p2.thor' given in the patch list."
        ),
        other => panic!("expected an error status, got {:?}", status_kind(&other)),
    }
}

#[test]
fn missing_patch_file_is_fatal_naming_the_entry() {
    let mut engine = engine_downloading(&five_entry_body(), None);
    assert!(engine.on_download_outcome(DownloadOutcome::NotFound).is_none());
    match engine.terminal_status() {
        Some(StatusEvent::Error(m)) => assert_eq!(
            m.as_str(),
            "Failed to download patches: patch file 'p1.thor' not found on the remote server."
        ),
        other => panic!("expected an error status, got {:?}", status_kind(&other)),
    }
}

#[test]
fn stale_checkpoint_downloads_everything_again() {
    let mut engine = engine_downloading(
        &five_entry_body(),
        Some(CheckpointRecord { last_applied_index: 99 }),
    );
    assert!(!engine.download_complete());
    assert_eq!(engine.pending.len(), 5);
}

#[test]
fn progress_events_count_completed_steps() {
    let mut engine = engine_downloading("1 a\n2 b\n3 c\n", None);
    let ev = engine.on_download_outcome(DownloadOutcome::Completed);
    assert!(matches!(ev, Some(StatusEvent::DownloadProgress(1, 3))));
    let ev = engine.on_download_outcome(DownloadOutcome::Completed);
    assert!(matches!(ev, Some(StatusEvent::DownloadProgress(2, 3))));
    let ev = engine.on_download_outcome(DownloadOutcome::Completed);
    assert!(matches!(ev, Some(StatusEvent::DownloadProgress(3, 3))));
    assert!(matches!(engine.begin_apply(), StatusEvent::ApplyProgress(0, 3)));
    let (rec, ev) = apply_one_to_tree(&mut engine).unwrap();
    assert_eq!(rec.last_applied_index, 1);
    assert!(matches!(ev, StatusEvent::ApplyProgress(1, 3)));
}

#[test]
fn checkpoint_follows_every_successful_apply() {
    let mut engine = engine_applying("7 a\n9 b\n12 c\n", None);
    let (rec, _) = apply_one_to_tree(&mut engine).unwrap();
    assert_eq!(rec.last_applied_index, 7);
    let (rec, _) = apply_one_to_tree(&mut engine).unwrap();
    assert_eq!(rec.last_applied_index, 9);
    let (rec, _) = apply_one_to_tree(&mut engine).unwrap();
    assert_eq!(rec.last_applied_index, 12);
    assert!(engine.is_terminal());
    assert!(matches!(engine.outcome, Some(Outcome::Ready)));
}

fn status_kind(s: &Option<StatusEvent>) -> &'static str {
    match s {
        None => "none",
        Some(StatusEvent::DownloadProgress(_, _)) => "download progress",
        Some(StatusEvent::ApplyProgress(_, _)) => "apply progress",
        Some(StatusEvent::Ready) => "ready",
        Some(StatusEvent::Error(_)) => "error",
        Some(StatusEvent::Cancelled) => "cancelled",
    }
}
