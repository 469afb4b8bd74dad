use md_preview::render::{RenderAction, RenderOutcome, Renderer};
use md_preview::server::{Server, ServeAction};
use md_preview::watcher::{FileWatcher, WatchAction, WatchEvent};

/// Carries one notification through the three workers, as the program's
/// loops do: the watcher sends a signal, the render worker takes it and
/// renders from `read`, the store takes the outcome.
fn process_change(
    watcher: &FileWatcher,
    renderer: &mut Renderer,
    server: &mut Server,
    read: Result<String, String>,
) {
    let signal = match watcher.watch(WatchEvent::Notified) {
        WatchAction::Send(path) => path,
        other => panic!("a notification sends a signal, got {:?}", other),
    };
    let outcome: RenderOutcome = match renderer.render_on_recv(Ok(signal)) {
        RenderAction::Read(path) => {
            assert_eq!(path, watcher.filepath());
            renderer.finish(read).unwrap()
        }
        other => panic!("a signal starts a render, got {:?}", other),
    };
    assert_eq!(server.serve(Ok(outcome)), ServeAction::Continue);
}

#[test]
fn snapshot_is_the_render_of_the_last_signal() {
    let watcher = FileWatcher::new("doc.md".to_string());
    let mut renderer = Renderer::new();
    let mut server = Server::new("doc.md".to_string(), Ok("zero".to_string()));
    for text in ["first", "second", "third"] {
        process_change(&watcher, &mut renderer, &mut server, Ok(text.to_string()));
        assert_eq!(server.content_handler(), format!("<p>{}</p>\n", text));
    }
    assert_eq!(server.content_handler(), "<p>third</p>\n");
    assert_eq!(
        server.hash_handler(),
        "7bd452b27d0aa8ae057e446af3349117444b0a5463e6d4669e03ed5df220c01f"
    );
}

#[test]
fn read_during_a_render_sees_the_previous_snapshot() {
    let watcher = FileWatcher::new("doc.md".to_string());
    let mut renderer = Renderer::new();
    let mut server = Server::new("doc.md".to_string(), Ok("first".to_string()));

    let signal = match watcher.watch(WatchEvent::Notified) {
        WatchAction::Send(path) => path,
        other => panic!("a notification sends a signal, got {:?}", other),
    };
    renderer.render_on_recv(Ok(signal));
    assert!(renderer.in_progress());
    assert_eq!(server.content_handler(), "<p>first</p>\n");
    assert_eq!(
        server.hash_handler(),
        "23e2d37d27d30395877d617b640720ac31058bfdc0d7baf1adc28e562b919df0"
    );

    let outcome = renderer.finish(Ok("second".to_string())).unwrap();
    assert_eq!(server.content_handler(), "<p>first</p>\n");

    server.serve(Ok(outcome));
    assert_eq!(server.content_handler(), "<p>second</p>\n");
}

#[test]
fn missing_file_at_startup_is_contained() {
    let message = "No such file or directory (os error 2)".to_string();
    let watcher = FileWatcher::new("missing.md".to_string());
    let mut renderer = Renderer::new();
    let mut server = Server::new("missing.md".to_string(), Err(message.clone()));
    assert_eq!(server.content_handler(), message);

    process_change(&watcher, &mut renderer, &mut server, Ok("# Hello".to_string()));
    assert_eq!(server.content_handler(), "<h1>Hello</h1>\n");
}

#[test]
fn later_failure_is_served_and_later_success_replaces_it() {
    let watcher = FileWatcher::new("doc.md".to_string());
    let mut renderer = Renderer::new();
    let mut server = Server::new("doc.md".to_string(), Ok("first".to_string()));
    process_change(
        &watcher,
        &mut renderer,
        &mut server,
        Err("stream did not contain valid UTF-8".to_string()),
    );
    assert_eq!(server.content_handler(), "stream did not contain valid UTF-8");
    assert_eq!(server.hash_handler(), "stream did not contain valid UTF-8");
    process_change(&watcher, &mut renderer, &mut server, Ok("second".to_string()));
    assert_eq!(server.content_handler(), "<p>second</p>\n");
}

#[test]
fn three_edits_in_one_window_give_at_most_three_signals() {
    // The notification source gathers the three edits of one burst into
    // `delivered` notifications, at most three; the file holds "third" when
    // each of them is rendered.
    for delivered in 0..=3usize {
        let watcher = FileWatcher::new("doc.md".to_string());
        let mut renderer = Renderer::new();
        let mut server = Server::new("doc.md".to_string(), Ok("zero".to_string()));
        let mut signals = 0;
        for _ in 0..delivered {
            if let WatchAction::Send(_) = watcher.watch(WatchEvent::Notified) {
                signals += 1;
            }
            process_change(&watcher, &mut renderer, &mut server, Ok("third".to_string()));
        }
        assert_eq!(signals, delivered);
        assert!(signals <= 3);
        let expected = if delivered == 0 { "<p>zero</p>\n" } else { "<p>third</p>\n" };
        assert_eq!(server.content_handler(), expected);
    }
}

#[test]
fn signal_channel_failure_never_reaches_the_snapshot() {
    let watcher = FileWatcher::new("doc.md".to_string());
    let mut renderer = Renderer::new();
    let mut server = Server::new("doc.md".to_string(), Ok("zero".to_string()));
    process_change(&watcher, &mut renderer, &mut server, Ok("first".to_string()));

    let action = renderer.render_on_recv(Err("RecvError".to_string()));
    assert_eq!(action, RenderAction::Fail("Error reading from channel: RecvError".to_string()));
    assert_eq!(renderer.finish(Ok("second".to_string())), None);
    assert_eq!(server.content_handler(), "<p>first</p>\n");
    assert_eq!(
        server.hash_handler(),
        "23e2d37d27d30395877d617b640720ac31058bfdc0d7baf1adc28e562b919df0"
    );
}

#[test]
fn outcome_channel_failure_stops_the_update_loop_and_keeps_the_last_render() {
    let watcher = FileWatcher::new("doc.md".to_string());
    let mut renderer = Renderer::new();
    let mut server = Server::new("doc.md".to_string(), Ok("zero".to_string()));
    for text in ["first", "second", "third"] {
        process_change(&watcher, &mut renderer, &mut server, Ok(text.to_string()));
    }
    assert_eq!(
        server.serve(Err("RecvError".to_string())),
        ServeAction::Stop("Error receiving from channel: RecvError".to_string())
    );
    assert_eq!(server.content_handler(), "<p>third</p>\n");
    assert_eq!(
        server.hash_handler(),
        "7bd452b27d0aa8ae057e446af3349117444b0a5463e6d4669e03ed5df220c01f"
    );
}
