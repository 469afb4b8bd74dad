//! The pipeline as a whole: how the watcher's signals, the render worker's
//! outcomes and the snapshot store's updates follow one another, and what
//! holds of the snapshot that readers see.

use crate::render::{recv_failure, render_spec, OutcomeView, RenderActionView, Renderer};
use crate::server::{content_body, hash_body, ServeActionView, Server, SERVE_ERROR};
use crate::watcher::{FileWatcher, WatchActionView, WatchEventView};
use vstd::prelude::*;

verus! {

/// What reading the source file gave: its text, or the error's message.
pub type ReadView = Result<Seq<char>, Seq<char>>;

/// The states of the three workers: the watcher's file, the render worker's
/// render in progress, and the store's snapshot.
pub ghost struct Pipeline {
    pub watched: Seq<char>,
    pub rendering: Option<Seq<char>>,
    pub snapshot: OutcomeView,
}

impl Pipeline {
    /// The pipeline at startup, when the store rendered the file at `path`
    /// for the first time from `first_read` and no render is in progress.
    pub open spec fn start(path: Seq<char>, first_read: ReadView) -> Pipeline {
        Pipeline { watched: path, rendering: None, snapshot: render_spec(path, first_read) }
    }

    /// What the render worker receives when the watcher is notified of a
    /// change: the signal that the watcher sends.
    pub open spec fn signal(self) -> Seq<char> {
        match FileWatcher::spec_watch(self.watched, WatchEventView::Notified) {
            WatchActionView::Send(path) => path,
            _ => self.watched,
        }
    }

    /// The render worker takes the watcher's signal: a render is in
    /// progress, the snapshot is untouched.
    pub open spec fn take_signal(self) -> Pipeline {
        Pipeline { rendering: Renderer::spec_on_recv(Ok(self.signal())).0, ..self }
    }

    /// The outcome that the render worker sends once its file was read.
    pub open spec fn outcome(self, read: ReadView) -> Option<OutcomeView> {
        Renderer::spec_finish(self.rendering, read)
    }

    /// The render worker completes its render: none is in progress, the
    /// snapshot is still untouched.
    pub open spec fn finish_render(self) -> Pipeline {
        Pipeline { rendering: None, ..self }
    }

    /// The store takes what the render worker sent, if anything.
    pub open spec fn store(self, sent: Option<OutcomeView>) -> Pipeline {
        match sent {
            Some(outcome) => Pipeline {
                snapshot: Server::spec_serve(self.snapshot, Ok(outcome)),
                ..self
            },
            None => self,
        }
    }

    /// The store takes the outcomes that the render worker sent, in the
    /// order in which it sent them.
    pub open spec fn store_all(self, sent: Seq<OutcomeView>) -> Pipeline
        decreases sent.len(),
    {
        if sent.len() == 0 {
            self
        } else {
            self.store_all(sent.drop_last()).store(Some(sent.last()))
        }
    }

    /// One change signal processed to the end: taken by the render worker,
    /// rendered from `read`, and stored.
    pub open spec fn process_change(self, read: ReadView) -> Pipeline {
        let taken = self.take_signal();
        taken.finish_render().store(taken.outcome(read))
    }

    /// Change signals processed one after the other, each to the end before
    /// the next; `reads[i]` is what reading the file gave at the time of
    /// signal `i`.
    pub open spec fn process_changes(self, reads: Seq<ReadView>) -> Pipeline
        decreases reads.len(),
    {
        if reads.len() == 0 {
            self
        } else {
            self.process_changes(reads.drop_last()).process_change(reads.last())
        }
    }

    /// The signal channel fails at the render worker with the error `text`:
    /// whatever render was in progress is given up, and nothing reaches the
    /// store.
    pub open spec fn signal_channel_fails(self, text: Seq<char>) -> Pipeline {
        Pipeline { rendering: Renderer::spec_on_recv(Err(text)).0, ..self }
    }

    /// The outcome channel fails at the store with the error `text`.
    pub open spec fn outcome_channel_fails(self, text: Seq<char>) -> Pipeline {
        Pipeline { snapshot: Server::spec_serve(self.snapshot, Err(text)), ..self }
    }

    /// What a reader of the content endpoint gets.
    pub open spec fn read_content(self) -> Seq<char> {
        content_body(self.snapshot)
    }

    /// What a reader of the fingerprint endpoint gets.
    pub open spec fn read_hash(self) -> Seq<char> {
        hash_body(self.snapshot)
    }
}

/// Processing changes never changes which file is watched, and leaves no
/// render in progress when none was.
pub proof fn lemma_process_changes_keeps_file(pipeline: Pipeline, reads: Seq<ReadView>)
    ensures
        pipeline.process_changes(reads).watched == pipeline.watched,
        pipeline.rendering is None ==> pipeline.process_changes(reads).rendering is None,
    decreases reads.len(),
{
    if reads.len() > 0 {
        lemma_process_changes_keeps_file(pipeline, reads.drop_last());
    }
}

/// Freshness: after any number of change signals, one or more, each processed
/// to the end before the next, the snapshot is the render of what the file
/// held at the time of the last signal, and readers get that render.
pub proof fn lemma_snapshot_freshness(pipeline: Pipeline, reads: Seq<ReadView>)
    requires
        reads.len() > 0,
    ensures
        pipeline.process_changes(reads).snapshot == render_spec(pipeline.watched, reads.last()),
        pipeline.process_changes(reads).read_content() == content_body(
            render_spec(pipeline.watched, reads.last()),
        ),
        pipeline.process_changes(reads).read_hash() == hash_body(
            render_spec(pipeline.watched, reads.last()),
        ),
{
    lemma_process_changes_keeps_file(pipeline, reads.drop_last());
}

/// With no change signal the snapshot stays the first render.
pub proof fn lemma_snapshot_initial(path: Seq<char>, first_read: ReadView)
    ensures
        Pipeline::start(path, first_read).process_changes(Seq::empty()).snapshot == render_spec(
            path,
            first_read,
        ),
{
}

/// A read while a render is in progress: from the moment the render worker
/// takes a signal until the store takes the outcome, both endpoints answer
/// from the snapshot as it was before the signal, whatever the render will
/// give.
pub proof fn lemma_read_during_render(pipeline: Pipeline)
    ensures
        pipeline.take_signal().rendering is Some,
        pipeline.take_signal().read_content() == pipeline.read_content(),
        pipeline.take_signal().read_hash() == pipeline.read_hash(),
        pipeline.take_signal().finish_render().read_content() == pipeline.read_content(),
        pipeline.take_signal().finish_render().read_hash() == pipeline.read_hash(),
{
}

/// Last writer wins: when the store has taken a run of outcomes in the order
/// in which they were sent, the snapshot is the last of them, whatever the
/// earlier ones and the snapshot before them were.
pub proof fn lemma_store_in_order(pipeline: Pipeline, sent: Seq<OutcomeView>)
    requires
        sent.len() > 0,
    ensures
        pipeline.store_all(sent).snapshot == sent.last(),
        pipeline.store_all(sent).read_content() == content_body(sent.last()),
        pipeline.store_all(sent).read_hash() == hash_body(sent.last()),
{
}

/// A failure of the signal channel is fatal to the render worker and is no
/// render: the worker stops with an error, has no render in progress and no
/// outcome to send whatever is read afterwards, and the snapshot and both
/// endpoints stay as they were.
pub proof fn lemma_signal_channel_failure_is_fatal(
    pipeline: Pipeline,
    text: Seq<char>,
    read: ReadView,
)
    ensures
        Renderer::spec_on_recv(Err(text)).1 == RenderActionView::Fail(recv_failure(text)),
        pipeline.signal_channel_fails(text).rendering is None,
        pipeline.signal_channel_fails(text).outcome(read) is None,
        pipeline.signal_channel_fails(text).snapshot == pipeline.snapshot,
        pipeline.signal_channel_fails(text).read_content() == pipeline.read_content(),
        pipeline.signal_channel_fails(text).read_hash() == pipeline.read_hash(),
{
}

/// A failure of the outcome channel is fatal to the update loop and is
/// never written into the snapshot: the loop stops, and after any run of
/// outcomes, one or more, taken before the failure, the snapshot is still
/// the last of them.
pub proof fn lemma_outcome_channel_failure_is_fatal(
    pipeline: Pipeline,
    sent: Seq<OutcomeView>,
    text: Seq<char>,
)
    requires
        sent.len() > 0,
    ensures
        Server::spec_action(Err(text)) == ServeActionView::Stop(SERVE_ERROR@ + text),
        pipeline.outcome_channel_fails(text).snapshot == pipeline.snapshot,
        pipeline.store_all(sent).outcome_channel_fails(text).snapshot == sent.last(),
{
}

/// The update loop goes on after every outcome it takes.
pub proof fn lemma_update_loop_goes_on(outcome: OutcomeView)
    ensures
        Server::spec_action(Ok(outcome)) == ServeActionView::Continue,
{
}

/// Once the store took an outcome, both endpoints answer from it.
pub proof fn lemma_read_after_store(pipeline: Pipeline, outcome: OutcomeView)
    ensures
        pipeline.store(Some(outcome)).read_content() == content_body(outcome),
        pipeline.store(Some(outcome)).read_hash() == hash_body(outcome),
{
}

/// Containment of a failed read: when the source file cannot be read at
/// startup, the first snapshot is the failure with the error's message, and
/// both endpoints answer with that message.
pub proof fn lemma_error_containment(path: Seq<char>, message: Seq<char>)
    ensures
        Pipeline::start(path, Err(message)).snapshot is Err,
        Pipeline::start(path, Err(message)).snapshot->Err_0 == message,
        Pipeline::start(path, Err(message)).read_content() == message,
        Pipeline::start(path, Err(message)).read_hash() == message,
{
}

/// A later failure is contained in the same way, and a later success
/// replaces it: the snapshot after a change is the render of that change
/// alone, whatever the snapshot held before.
pub proof fn lemma_change_replaces_snapshot(pipeline: Pipeline, read: ReadView)
    ensures
        pipeline.process_change(read).snapshot == render_spec(pipeline.watched, read),
{
}

} // verus!
