//! The snapshot store: the most recent render outcome, and what the two read
//! endpoints answer from it.

use crate::render::{outcome_view, render, render_spec, OutcomeView, RenderOutcome};
use crate::text::text_result;
use vstd::prelude::*;
use vstd::string::*;

verus! {

/// The loopback address on which the endpoints listen.
pub const LISTEN_ADDR: [u8; 4] = [127, 0, 0, 1];

/// Port on which the content endpoint listens.
pub const LISTEN_PORT: u16 = 3000;

/// Port on which the fingerprint endpoint listens.
pub const HASH_PORT: u16 = 3001;

/// What stands before the channel's error text in the error with which the
/// update loop stops when it cannot receive.
pub const SERVE_ERROR: &'static str = "Error receiving from channel: ";

/// What the content endpoint answers for a snapshot: the rendered content,
/// or the failure's message.
pub open spec fn content_body(snapshot: OutcomeView) -> Seq<char> {
    match snapshot {
        Ok(rendered) => rendered.contents,
        Err(message) => message,
    }
}

/// What the fingerprint endpoint answers for a snapshot: the content's
/// fingerprint, or the failure's message.
pub open spec fn hash_body(snapshot: OutcomeView) -> Seq<char> {
    match snapshot {
        Ok(rendered) => rendered.hash,
        Err(message) => message,
    }
}

/// What the update loop received, as texts.
pub open spec fn received_view(received: Result<RenderOutcome, String>) -> Result<
    OutcomeView,
    Seq<char>,
> {
    match received {
        Ok(outcome) => Ok(outcome_view(outcome)),
        Err(text) => Err(text@),
    }
}

/// What the update loop does after a receive.
#[derive(Debug, PartialEq, Eq)]
pub enum ServeAction {
    /// Receive again.
    Continue,
    /// Stop for good with this error: the outcome channel failed.
    Stop(String),
}

/// A [`ServeAction`] as texts.
pub ghost enum ServeActionView {
    Continue,
    Stop(Seq<char>),
}

impl View for ServeAction {
    type V = ServeActionView;

    open spec fn view(&self) -> ServeActionView {
        match self {
            ServeAction::Continue => ServeActionView::Continue,
            ServeAction::Stop(error) => ServeActionView::Stop(error@),
        }
    }
}

/// The store of the current snapshot. It always holds an outcome: the first
/// one is rendered when the store is made.
pub struct Server {
    rendered: RenderOutcome,
}

impl View for Server {
    /// The snapshot.
    type V = OutcomeView;

    closed spec fn view(&self) -> OutcomeView {
        outcome_view(self.rendered)
    }
}

impl Server {
    /// The snapshot after the update loop received `received`: a delivered
    /// outcome replaces the snapshot whatever it held, a failed receive
    /// leaves it as it was.
    pub open spec fn spec_serve(
        snapshot: OutcomeView,
        received: Result<OutcomeView, Seq<char>>,
    ) -> OutcomeView {
        match received {
            Ok(outcome) => outcome,
            Err(_) => snapshot,
        }
    }

    /// What the update loop does after it received `received`: it goes on
    /// after an outcome and stops after a failed receive, with the error's
    /// text behind a fixed prefix.
    pub open spec fn spec_action(received: Result<OutcomeView, Seq<char>>) -> ServeActionView {
        match received {
            Ok(_) => ServeActionView::Continue,
            Err(text) => ServeActionView::Stop(SERVE_ERROR@ + text),
        }
    }

    /// A store whose first snapshot is the render of the file at `filepath`
    /// from the result of reading it. Where that render succeeded, its
    /// fingerprint is that of its contents, 64 characters long.
    pub fn new(filepath: String, read: Result<String, String>) -> (server: Server)
        ensures
            server@ == render_spec(filepath@, text_result(read)),
            server@ matches Ok(rendered) ==> rendered.wf(),
    {
        Server { rendered: render(filepath, read) }
    }

    /// Takes what the update loop received from the outcome channel: an
    /// outcome, or the text of the channel's error.
    ///
    /// An outcome overwrites the snapshot, with no regard to what it held,
    /// and the loop goes on. An error is fatal to the loop: the snapshot
    /// stays as it was, so that readers keep the last render, and the loop
    /// is told to stop with an error that names the channel's.
    pub fn serve(&mut self, received: Result<RenderOutcome, String>) -> (action: ServeAction)
        ensures
            final(self)@ == Self::spec_serve(old(self)@, received_view(received)),
            action@ == Self::spec_action(received_view(received)),
    {
        match received {
            Ok(outcome) => {
                self.rendered = outcome;
                ServeAction::Continue
            },
            Err(text) => {
                let mut message = SERVE_ERROR.to_owned();
                message.append(text.as_str());
                ServeAction::Stop(message)
            },
        }
    }

    /// Body of the answer to a request for the content: the rendered content
    /// of the snapshot, or its failure message.
    pub fn content_handler(&self) -> (body: String)
        ensures
            body@ == content_body(self@),
    {
        match &self.rendered {
            Ok(rendered) => rendered.contents.clone(),
            Err(message) => message.clone(),
        }
    }

    /// Body of the answer to a request for the fingerprint: the fingerprint
    /// of the snapshot's content, or its failure message.
    pub fn hash_handler(&self) -> (body: String)
        ensures
            body@ == hash_body(self@),
    {
        match &self.rendered {
            Ok(rendered) => rendered.hash.clone(),
            Err(message) => message.clone(),
        }
    }
}

} // verus!
