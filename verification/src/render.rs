//! Rendering: from what was read of a source file to a render outcome, and
//! the render worker's decisions.

use crate::fingerprint::{fingerprint, generate_hash, FINGERPRINT_LEN};
use crate::markdown::{markdown_html, markdown_to_html};
use crate::text::text_result;
use vstd::prelude::*;
use vstd::string::*;

verus! {

/// A successful render of one source file.
#[derive(Debug, PartialEq, Eq)]
pub struct Rendered {
    /// Path of the source file.
    pub path: String,
    /// The HTML rendered from the file's text.
    pub contents: String,
    /// Fingerprint of `contents`.
    pub hash: String,
}

/// The three texts of a [`Rendered`].
pub ghost struct RenderedView {
    pub path: Seq<char>,
    pub contents: Seq<char>,
    pub hash: Seq<char>,
}

impl View for Rendered {
    type V = RenderedView;

    open spec fn view(&self) -> RenderedView {
        RenderedView { path: self.path@, contents: self.contents@, hash: self.hash@ }
    }
}

impl RenderedView {
    /// The fingerprint is that of the contents and has the fixed length.
    pub open spec fn wf(self) -> bool {
        &&& self.hash == fingerprint(self.contents)
        &&& self.hash.len() == FINGERPRINT_LEN
    }
}

/// The result of one render attempt: the render, or the message of the
/// failure.
pub type RenderOutcome = Result<Rendered, String>;

/// A [`RenderOutcome`] as texts.
pub type OutcomeView = Result<RenderedView, Seq<char>>;

/// The texts of an outcome.
pub open spec fn outcome_view(outcome: RenderOutcome) -> OutcomeView {
    match outcome {
        Ok(rendered) => Ok(rendered@),
        Err(message) => Err(message@),
    }
}

/// The texts of an outcome that may be absent.
pub open spec fn outcome_option_view(outcome: Option<RenderOutcome>) -> Option<OutcomeView> {
    match outcome {
        Some(o) => Some(outcome_view(o)),
        None => None,
    }
}

/// The outcome of rendering the file at `path`, given what reading it gave:
/// a failed read is the failure itself, a text is converted and
/// fingerprinted.
pub open spec fn render_spec(path: Seq<char>, read: Result<Seq<char>, Seq<char>>) -> OutcomeView {
    match read {
        Ok(text) => Ok(
            RenderedView {
                path,
                contents: markdown_html(text),
                hash: fingerprint(markdown_html(text)),
            },
        ),
        Err(message) => Err(message),
    }
}

/// Renders the file at `filepath` from the result of reading it: the file's
/// text, or the message of the error that kept it from being read.
///
/// A read failure becomes the failure outcome with the same message. A text
/// always renders: the outcome holds the path, the HTML of the text and the
/// fingerprint of that HTML, 64 hexadecimal digits.
pub fn render(filepath: String, read: Result<String, String>) -> (outcome: RenderOutcome)
    ensures
        outcome_view(outcome) == render_spec(filepath@, text_result(read)),
        outcome matches Ok(rendered) ==> rendered@.wf(),
{
    match read {
        Ok(text) => {
            let contents = markdown_to_html(text.as_str());
            match generate_hash(contents.clone()) {
                Ok(hash) => Ok(Rendered { path: filepath, contents, hash }),
                Err(message) => Err(message),
            }
        },
        Err(message) => Err(message),
    }
}

/// Two files whose texts render to the same HTML have the same fingerprint,
/// whatever their paths and whatever their texts.
pub proof fn lemma_fingerprint_determinism(
    path1: Seq<char>,
    text1: Seq<char>,
    path2: Seq<char>,
    text2: Seq<char>,
)
    requires
        markdown_html(text1) == markdown_html(text2),
    ensures
        render_spec(path1, Ok(text1)) is Ok,
        render_spec(path2, Ok(text2)) is Ok,
        render_spec(path1, Ok(text1))->Ok_0.hash == render_spec(path2, Ok(text2))->Ok_0.hash,
{
}

/// Two renders with the same contents have the same fingerprint.
pub proof fn lemma_same_contents_same_hash(a: RenderedView, b: RenderedView)
    requires
        a.wf(),
        b.wf(),
        a.contents == b.contents,
    ensures
        a.hash == b.hash,
{
}

/// What the render worker does next.
#[derive(Debug, PartialEq, Eq)]
pub enum RenderAction {
    /// Read the file at this path and hand the result to
    /// [`Renderer::finish`], whose outcome is sent on.
    Read(String),
    /// Stop for good with this error: the signal channel failed. Nothing is
    /// sent on, so the snapshot keeps the last render.
    Fail(String),
}

/// A [`RenderAction`] as texts.
pub ghost enum RenderActionView {
    Read(Seq<char>),
    Fail(Seq<char>),
}

impl View for RenderAction {
    type V = RenderActionView;

    open spec fn view(&self) -> RenderActionView {
        match self {
            RenderAction::Read(path) => RenderActionView::Read(path@),
            RenderAction::Fail(error) => RenderActionView::Fail(error@),
        }
    }
}

/// What stands before the channel's error text in the error with which the
/// render worker stops when it cannot receive.
pub const RECV_FAILED: &'static str = "Error reading from channel: ";

/// The error of a receive that failed with the channel error `text`.
pub open spec fn recv_failure(text: Seq<char>) -> Seq<char> {
    RECV_FAILED@ + text
}

/// The render worker: it takes one change signal at a time, asks for the
/// file to be read, and turns what was read into the outcome to send. Only
/// renders become outcomes: a failure of the signal channel ends the worker.
pub struct Renderer {
    pending: Option<String>,
}

impl View for Renderer {
    /// The path of the render in progress, if there is one.
    type V = Option<Seq<char>>;

    closed spec fn view(&self) -> Option<Seq<char>> {
        match self.pending {
            Some(path) => Some(path@),
            None => None,
        }
    }
}

impl Renderer {
    /// The worker after a receive, and what it does next: a signal starts
    /// the render of its path, a failed receive stops the worker with no
    /// render in progress and no outcome to send.
    pub open spec fn spec_on_recv(received: Result<Seq<char>, Seq<char>>) -> (
        Option<Seq<char>>,
        RenderActionView,
    ) {
        match received {
            Ok(path) => (Some(path), RenderActionView::Read(path)),
            Err(text) => (None, RenderActionView::Fail(recv_failure(text))),
        }
    }

    /// The outcome to send once the file of the render in progress was read,
    /// if a render is in progress.
    pub open spec fn spec_finish(
        pending: Option<Seq<char>>,
        read: Result<Seq<char>, Seq<char>>,
    ) -> Option<OutcomeView> {
        match pending {
            Some(path) => Some(render_spec(path, read)),
            None => None,
        }
    }

    /// A worker with no render in progress.
    pub fn new() -> (renderer: Renderer)
        ensures
            renderer@ is None,
    {
        Renderer { pending: None }
    }

    /// Whether a render is in progress.
    pub fn in_progress(&self) -> (busy: bool)
        ensures
            busy == (self@ is Some),
    {
        self.pending.is_some()
    }

    /// Takes what the worker received from the signal channel: the path of
    /// a changed file, or the text of the channel's error.
    ///
    /// A path starts a render: the worker remembers it and asks for the
    /// file to be read. An error is fatal to the worker: no render is in
    /// progress, no outcome is made of it, and the worker is told to stop
    /// with an error that names it.
    pub fn render_on_recv(&mut self, received: Result<String, String>) -> (action: RenderAction)
        ensures
            (final(self)@, action@) == Self::spec_on_recv(text_result(received)),
    {
        match received {
            Ok(path) => {
                self.pending = Some(path.clone());
                RenderAction::Read(path)
            },
            Err(text) => {
                self.pending = None;
                let mut message = RECV_FAILED.to_owned();
                message.append(text.as_str());
                RenderAction::Fail(message)
            },
        }
    }

    /// Completes the render in progress with the result of reading its file
    /// and returns the outcome to send; with no render in progress there is
    /// nothing to send. Either way no render is in progress afterwards.
    pub fn finish(&mut self, read: Result<String, String>) -> (outcome: Option<RenderOutcome>)
        ensures
            final(self)@ is None,
            outcome_option_view(outcome) == Self::spec_finish(old(self)@, text_result(read)),
            outcome matches Some(Ok(rendered)) ==> rendered@.wf(),
    {
        match self.pending.take() {
            Some(path) => Some(render(path, read)),
            None => None,
        }
    }
}

} // verus!
