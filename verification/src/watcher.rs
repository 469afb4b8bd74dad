//! The file watcher's decisions: what to do with each thing the operating
//! system's notification source reports.

use vstd::prelude::*;
use vstd::string::*;

verus! {

/// Seconds over which the notification source is asked to gather the events
/// of one burst of writes.
pub const DEBOUNCE_SECS: u64 = 2;

/// What stands before the error text in the report of a failed receive.
pub const WATCH_ERROR: &'static str = "Error: ";

/// What the notification source reported.
#[derive(Debug, PartialEq, Eq)]
pub enum WatchEvent {
    /// The watch on the file could not be set up; the text of the error.
    SetupFailed(String),
    /// The source delivered an event for the watched file.
    Notified,
    /// Receiving from the source failed; the text of the error.
    ReceiveFailed(String),
}

/// A [`WatchEvent`] as texts.
pub ghost enum WatchEventView {
    SetupFailed(Seq<char>),
    Notified,
    ReceiveFailed(Seq<char>),
}

impl View for WatchEvent {
    type V = WatchEventView;

    open spec fn view(&self) -> WatchEventView {
        match self {
            WatchEvent::SetupFailed(text) => WatchEventView::SetupFailed(text@),
            WatchEvent::Notified => WatchEventView::Notified,
            WatchEvent::ReceiveFailed(text) => WatchEventView::ReceiveFailed(text@),
        }
    }
}

/// What the watcher does about an event.
#[derive(Debug, PartialEq, Eq)]
pub enum WatchAction {
    /// Stop watching: the watch failed with this error.
    Fail(String),
    /// Send this change signal, the watched file's path, to the render
    /// worker, and go on watching.
    Send(String),
    /// Report this message, send nothing, and go on watching.
    Report(String),
}

/// A [`WatchAction`] as texts.
pub ghost enum WatchActionView {
    Fail(Seq<char>),
    Send(Seq<char>),
    Report(Seq<char>),
}

impl View for WatchAction {
    type V = WatchActionView;

    open spec fn view(&self) -> WatchActionView {
        match self {
            WatchAction::Fail(text) => WatchActionView::Fail(text@),
            WatchAction::Send(path) => WatchActionView::Send(path@),
            WatchAction::Report(message) => WatchActionView::Report(message@),
        }
    }
}

/// The watcher of one file.
pub struct FileWatcher {
    filepath: String,
}

impl View for FileWatcher {
    /// The watched file's path.
    type V = Seq<char>;

    closed spec fn view(&self) -> Seq<char> {
        self.filepath@
    }
}

impl FileWatcher {
    /// The action for an event, for the watcher of `filepath`: one change
    /// signal for each delivered event, none for an error.
    pub open spec fn spec_watch(filepath: Seq<char>, event: WatchEventView) -> WatchActionView {
        match event {
            WatchEventView::SetupFailed(text) => WatchActionView::Fail(text),
            WatchEventView::Notified => WatchActionView::Send(filepath),
            WatchEventView::ReceiveFailed(text) => WatchActionView::Report(WATCH_ERROR@ + text),
        }
    }

    /// A watcher of the file at `filepath`.
    pub fn new(filepath: String) -> (watcher: FileWatcher)
        ensures
            watcher@ == filepath@,
    {
        FileWatcher { filepath }
    }

    /// The watched file's path.
    pub fn filepath(&self) -> (path: &str)
        ensures
            path@ == self@,
    {
        self.filepath.as_str()
    }

    /// Decides what to do about one event.
    ///
    /// A watch that could not be set up ends the watcher with the error.
    /// Every delivered event sends exactly one change signal, which carries
    /// the watched path. A failed receive is reported and sends nothing.
    pub fn watch(&self, event: WatchEvent) -> (action: WatchAction)
        ensures
            action@ == Self::spec_watch(self@, event@),
    {
        match event {
            WatchEvent::SetupFailed(text) => WatchAction::Fail(text),
            WatchEvent::Notified => WatchAction::Send(self.filepath.clone()),
            WatchEvent::ReceiveFailed(text) => {
                let mut message = WATCH_ERROR.to_owned();
                message.append(text.as_str());
                WatchAction::Report(message)
            },
        }
    }
}

} // verus!
