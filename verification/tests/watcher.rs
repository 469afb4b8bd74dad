use md_preview::watcher::{FileWatcher, WatchAction, WatchEvent, DEBOUNCE_SECS, WATCH_ERROR};

#[test]
fn watcher_keeps_its_path() {
    let watcher = FileWatcher::new("notes/doc.md".to_string());
    assert_eq!(watcher.filepath(), "notes/doc.md");
}

#[test]
fn each_notification_sends_one_signal_with_the_path() {
    let watcher = FileWatcher::new("doc.md".to_string());
    for _ in 0..5 {
        assert_eq!(watcher.watch(WatchEvent::Notified), WatchAction::Send("doc.md".to_string()));
    }
}

#[test]
fn failed_setup_ends_the_watch_with_the_error() {
    let watcher = FileWatcher::new("doc.md".to_string());
    let error = "No such file or directory (os error 2)".to_string();
    assert_eq!(watcher.watch(WatchEvent::SetupFailed(error.clone())), WatchAction::Fail(error));
}

#[test]
fn failed_receive_is_reported_and_sends_nothing() {
    let watcher = FileWatcher::new("doc.md".to_string());
    assert_eq!(
        watcher.watch(WatchEvent::ReceiveFailed("RecvError".to_string())),
        WatchAction::Report("Error: RecvError".to_string())
    );
    assert_eq!(WATCH_ERROR, "Error: ");
}

#[test]
fn watch_goes_on_after_a_failed_receive() {
    let watcher = FileWatcher::new("doc.md".to_string());
    watcher.watch(WatchEvent::ReceiveFailed("RecvError".to_string()));
    assert_eq!(watcher.watch(WatchEvent::Notified), WatchAction::Send("doc.md".to_string()));
}

#[test]
fn debounce_window_is_two_seconds() {
    assert_eq!(DEBOUNCE_SECS, 2);
}
