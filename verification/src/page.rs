//! What a pipeline step asks of a browser page, and what comes back.

use vstd::prelude::*;

use crate::error::{CliError, ErrorView};
use crate::json::{Json, JsonView};

verus! {

/// The view of a text that may be missing.
pub open spec fn opt_text(s: Option<String>) -> Option<Seq<char>> {
    match s {
        Some(t) => Some(t@),
        None => None,
    }
}

/// What a snapshot shows.
#[derive(Debug, PartialEq, Eq)]
pub struct SnapshotOptions {
    pub selector: Option<String>,
    pub include_hidden: bool,
}

pub ghost struct SnapshotOptionsView {
    pub selector: Option<Seq<char>>,
    pub include_hidden: bool,
}

impl View for SnapshotOptions {
    type V = SnapshotOptionsView;

    open spec fn view(&self) -> SnapshotOptionsView {
        SnapshotOptionsView {
            selector: opt_text(self.selector),
            include_hidden: self.include_hidden,
        }
    }
}

/// What a screenshot shows, and where it is stored.
#[derive(Debug, PartialEq, Eq)]
pub struct ScreenshotOptions {
    pub path: Option<String>,
    pub full_page: bool,
    pub selector: Option<String>,
}

pub ghost struct ScreenshotOptionsView {
    pub path: Option<Seq<char>>,
    pub full_page: bool,
    pub selector: Option<Seq<char>>,
}

impl View for ScreenshotOptions {
    type V = ScreenshotOptionsView;

    open spec fn view(&self) -> ScreenshotOptionsView {
        ScreenshotOptionsView {
            path: opt_text(self.path),
            full_page: self.full_page,
            selector: opt_text(self.selector),
        }
    }
}

/// How a page is scrolled.
#[derive(Debug, Clone, Copy, PartialEq, Eq, Structural)]
pub struct AutoScrollOptions {
    pub max_scrolls: u32,
    pub delay_ms: u64,
}

/// What a step asks for.
#[derive(Debug, PartialEq, Eq)]
pub enum Action {
    /// Render a template in the default context.
    Render(String),
    /// Open a URL.
    Goto(String),
    /// Click an element.
    Click(String),
    /// Type a text into an element.
    TypeText { selector: String, text: String },
    /// Let some milliseconds pass.
    WaitForTimeout(u64),
    /// Wait until an element is there.
    WaitForSelector(String),
    /// Run a script in the page.
    Evaluate(String),
    /// Take a snapshot.
    Snapshot(Option<SnapshotOptions>),
    /// Take a screenshot.
    Screenshot(Option<ScreenshotOptions>),
    /// Scroll the page.
    AutoScroll(AutoScrollOptions),
    /// Hand over the requests that were intercepted.
    InterceptedRequests,
}

/// The mathematical value of an [`Action`].
pub ghost enum ActionView {
    Render(Seq<char>),
    Goto(Seq<char>),
    Click(Seq<char>),
    TypeText { selector: Seq<char>, text: Seq<char> },
    WaitForTimeout(u64),
    WaitForSelector(Seq<char>),
    Evaluate(Seq<char>),
    Snapshot(Option<SnapshotOptionsView>),
    Screenshot(Option<ScreenshotOptionsView>),
    AutoScroll(AutoScrollOptions),
    InterceptedRequests,
}

impl View for Action {
    type V = ActionView;

    open spec fn view(&self) -> ActionView {
        match self {
            Action::Render(s) => ActionView::Render(s@),
            Action::Goto(s) => ActionView::Goto(s@),
            Action::Click(s) => ActionView::Click(s@),
            Action::TypeText { selector, text } => ActionView::TypeText {
                selector: selector@,
                text: text@,
            },
            Action::WaitForTimeout(ms) => ActionView::WaitForTimeout(*ms),
            Action::WaitForSelector(s) => ActionView::WaitForSelector(s@),
            Action::Evaluate(s) => ActionView::Evaluate(s@),
            Action::Snapshot(None) => ActionView::Snapshot(None),
            Action::Snapshot(Some(o)) => ActionView::Snapshot(Some(o@)),
            Action::Screenshot(None) => ActionView::Screenshot(None),
            Action::Screenshot(Some(o)) => ActionView::Screenshot(Some(o@)),
            Action::AutoScroll(o) => ActionView::AutoScroll(*o),
            Action::InterceptedRequests => ActionView::InterceptedRequests,
        }
    }
}

/// What comes back for an action.
#[derive(Debug, PartialEq, Eq)]
pub enum Reply {
    /// It was done.
    Unit,
    /// A document.
    Value(Json),
    /// An image.
    Bytes(Vec<u8>),
    /// The intercepted requests.
    Requests(Vec<serde_json::Value>),
    /// It failed.
    Failed(CliError),
}

/// The mathematical value of a [`Reply`].
pub ghost enum ReplyView {
    Unit,
    Value(JsonView),
    Bytes(Seq<u8>),
    Requests(Seq<serde_json::Value>),
    Failed(ErrorView),
}

impl View for Reply {
    type V = ReplyView;

    open spec fn view(&self) -> ReplyView {
        match self {
            Reply::Unit => ReplyView::Unit,
            Reply::Value(v) => ReplyView::Value(v@),
            Reply::Bytes(b) => ReplyView::Bytes(b@),
            Reply::Requests(list) => ReplyView::Requests(list@),
            Reply::Failed(e) => ReplyView::Failed(e@),
        }
    }
}

/// No block of memory is larger than this, so neither is an image.
pub open spec fn fits_in_memory(bytes: Seq<u8>) -> bool {
    bytes.len() <= isize::MAX
}

/// The replies that an action can have.
pub open spec fn answers(action: ActionView, reply: ReplyView) -> bool {
    match reply {
        ReplyView::Failed(_) => true,
        ReplyView::Unit => match action {
            ActionView::Goto(_)
            | ActionView::Click(_)
            | ActionView::TypeText { .. }
            | ActionView::WaitForTimeout(_)
            | ActionView::WaitForSelector(_)
            | ActionView::AutoScroll(_) => true,
            _ => false,
        },
        ReplyView::Value(_) => match action {
            ActionView::Render(_) | ActionView::Evaluate(_) | ActionView::Snapshot(_) => true,
            _ => false,
        },
        ReplyView::Bytes(bytes) => action is Screenshot && fits_in_memory(bytes),
        ReplyView::Requests(_) => action is InterceptedRequests,
    }
}

} // verus!
