use replay_agent::validate::FileMeta;
use replay_agent::watcher::FileWatcher;
use replay_agent::watcher::FsEventKind;
use replay_agent::watcher::WatchError;
use replay_agent::watcher::should_process;

#[test]
fn fresh_watcher_is_stopped() {
    let w = FileWatcher::new();
    let state = w.get_state();
    assert!(!state.is_watching);
    assert!(!state.is_paused);
    assert!(state.pending_files.is_empty());
    assert!(state.last_event_at.is_none());
}

#[test]
fn start_while_running_fails() {
    let mut w = FileWatcher::new();
    assert!(w.start(String::from("/tmp/replays")).is_ok());
    assert!(w.get_state().is_watching);
    let again = w.start(String::from("/tmp/other"));
    assert_eq!(again, Err(WatchError::AlreadyRunning));
    assert_eq!(WatchError::AlreadyRunning.message(), "Watcher already running");
    // the failed start changed nothing
    assert!(w.get_state().is_watching);
}

#[test]
fn stop_pause_resume_are_idempotent() {
    let mut w = FileWatcher::new();
    assert!(w.stop().is_ok());
    assert!(w.pause().is_ok());
    assert!(w.get_state().is_paused);
    assert!(w.pause().is_ok());
    assert!(w.resume().is_ok());
    assert!(!w.get_state().is_paused);
    assert!(w.resume().is_ok());
    assert!(w.start(String::from("/tmp/replays")).is_ok());
    assert!(w.stop().is_ok());
    assert!(!w.get_state().is_watching);
    assert!(w.stop().is_ok());
}

#[test]
fn duplicate_events_admit_only_one_upload() {
    let mut w = FileWatcher::new();
    w.start(String::from("/tmp/replays")).unwrap();
    let path = "/tmp/replays/game.replay";
    assert!(w.should_consider(FsEventKind::Create, path));
    assert!(w.add_pending(path));
    // a rapid duplicate event for the same path while the upload is pending
    assert!(!w.should_consider(FsEventKind::Create, path));
    assert!(!w.add_pending(path));
    assert_eq!(w.get_state().pending_files.len(), 1);
    // after the terminal outcome the path can be dispatched afresh
    w.remove_from_pending(path);
    assert!(!w.is_pending(path));
    assert!(w.add_pending(path));
    assert_eq!(w.get_state().pending_files.len(), 1);
}

#[test]
fn paused_watcher_considers_nothing() {
    let mut w = FileWatcher::new();
    w.start(String::from("/tmp/replays")).unwrap();
    w.pause().unwrap();
    assert!(!w.should_consider(FsEventKind::Create, "/tmp/replays/a.replay"));
    w.resume().unwrap();
    assert!(w.should_consider(FsEventKind::Create, "/tmp/replays/a.replay"));
}

#[test]
fn stopped_watcher_considers_nothing() {
    let w = FileWatcher::new();
    assert!(!w.should_consider(FsEventKind::Create, "/tmp/replays/a.replay"));
}

#[test]
fn event_kind_filter() {
    assert!(should_process(FsEventKind::Create));
    assert!(should_process(FsEventKind::Modify));
    assert!(should_process(FsEventKind::Access));
    assert!(!should_process(FsEventKind::Remove));
    assert!(!should_process(FsEventKind::Other));
}

#[test]
fn pending_set_keeps_other_entries_on_removal() {
    let mut w = FileWatcher::new();
    assert!(w.add_pending("/r/a.replay"));
    assert!(w.add_pending("/r/b.replay"));
    assert!(w.add_pending("/r/c.replay"));
    w.remove_from_pending("/r/b.replay");
    let pending = w.get_state().pending_files;
    assert_eq!(pending, vec![String::from("/r/a.replay"), String::from("/r/c.replay")]);
}

#[test]
fn one_valid_detection_dispatches_exactly_once() {
    // a valid file under the size limit, still there and non-empty after
    // the settle delay, passes validation once and is dispatched once
    let mut w = FileWatcher::new();
    w.start(String::from("/tmp/replays")).unwrap();
    let path = "/tmp/replays/2024-10-11-game.replay";
    let meta = Some(FileMeta { is_file: true, len: 1_048_576 });
    assert!(w.should_consider(FsEventKind::Create, path));
    let validated = replay_agent::validate::validate_file(path, &meta, true, &meta);
    assert_eq!(validated.as_deref(), Some(path));
    assert!(w.add_pending(path));
    // the same detection cannot dispatch a second task
    assert!(!w.add_pending(path));
}
