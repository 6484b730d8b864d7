//! What the session asks its driver to do, and what the driver reports back.

use vstd::prelude::*;

verus! {

/// A key of the host keyboard.
#[derive(Clone, Copy, Debug, PartialEq, Eq, Structural)]
pub enum Key {
    Tab,
    RightArrow,
    DownArrow,
    Return,
}

/// How an element of the page is looked up.
#[derive(Debug, PartialEq, Eq)]
pub enum Selector {
    /// By a CSS selector.
    Css(String),
    /// By its `id` attribute.
    Id(String),
}

/// A [`Selector`] with its text as a sequence of characters.
pub enum SelectorView {
    Css(Seq<char>),
    Id(Seq<char>),
}

impl View for Selector {
    type V = SelectorView;

    open spec fn view(&self) -> SelectorView {
        match self {
            Selector::Css(text) => SelectorView::Css(text@),
            Selector::Id(text) => SelectorView::Id(text@),
        }
    }
}

/// One thing for the driver to do. Each is a single call on the remote
/// browser, the host keyboard, the clock or the process table.
#[derive(Debug, PartialEq, Eq)]
pub enum Action {
    /// Launch the remote browser as [`crate::infra::browser::launch::LaunchOptions`] says.
    Launch,
    /// Navigate the focused window to an address.
    Goto(String),
    /// Reload the focused window.
    Refresh,
    /// Let this many milliseconds pass.
    Sleep(u64),
    /// Run a script in the focused window with these arguments.
    Execute { script: String, arguments: Vec<String> },
    /// Find the first element that the selector names and click it.
    Click(Selector),
    /// Report the handle of the focused window.
    CurrentWindow,
    /// Open a new tab and report its handle.
    NewTab,
    /// Give the focus to the window with this handle.
    SwitchToWindow(String),
    /// Press and release these keys on the host keyboard, in order.
    KeyClicks(Vec<Key>),
    /// Play a key sequence, in the notation of the keyboard driver.
    KeySequence(String),
    /// End every process with this name.
    Terminate(String),
    /// Start a process and do not wait for it.
    Spawn { program: String, arguments: Vec<String> },
}

/// An [`Action`] with its text as sequences of characters.
pub enum ActionView {
    Launch,
    Goto(Seq<char>),
    Refresh,
    Sleep(u64),
    Execute { script: Seq<char>, arguments: Seq<Seq<char>> },
    Click(SelectorView),
    CurrentWindow,
    NewTab,
    SwitchToWindow(Seq<char>),
    KeyClicks(Seq<Key>),
    KeySequence(Seq<char>),
    Terminate(Seq<char>),
    Spawn { program: Seq<char>, arguments: Seq<Seq<char>> },
}

impl View for Action {
    type V = ActionView;

    open spec fn view(&self) -> ActionView {
        match self {
            Action::Launch => ActionView::Launch,
            Action::Goto(url) => ActionView::Goto(url@),
            Action::Refresh => ActionView::Refresh,
            Action::Sleep(millis) => ActionView::Sleep(*millis),
            Action::Execute { script, arguments } => ActionView::Execute {
                script: script@,
                arguments: arguments.deep_view(),
            },
            Action::Click(selector) => ActionView::Click(selector@),
            Action::CurrentWindow => ActionView::CurrentWindow,
            Action::NewTab => ActionView::NewTab,
            Action::SwitchToWindow(handle) => ActionView::SwitchToWindow(handle@),
            Action::KeyClicks(keys) => ActionView::KeyClicks(keys@),
            Action::KeySequence(sequence) => ActionView::KeySequence(sequence@),
            Action::Terminate(name) => ActionView::Terminate(name@),
            Action::Spawn { program, arguments } => ActionView::Spawn {
                program: program@,
                arguments: arguments.deep_view(),
            },
        }
    }
}

/// Which of the actions one is, without what it carries.
#[derive(Clone, Copy, Debug, PartialEq, Eq, Structural)]
pub enum ActionKind {
    Launch,
    Goto,
    Refresh,
    Sleep,
    Execute,
    Click,
    CurrentWindow,
    NewTab,
    SwitchToWindow,
    KeyClicks,
    KeySequence,
    Terminate,
    Spawn,
}

impl ActionView {
    /// Which of the actions this is.
    pub open spec fn kind(self) -> ActionKind {
        match self {
            ActionView::Launch => ActionKind::Launch,
            ActionView::Goto(_) => ActionKind::Goto,
            ActionView::Refresh => ActionKind::Refresh,
            ActionView::Sleep(_) => ActionKind::Sleep,
            ActionView::Execute { .. } => ActionKind::Execute,
            ActionView::Click(_) => ActionKind::Click,
            ActionView::CurrentWindow => ActionKind::CurrentWindow,
            ActionView::NewTab => ActionKind::NewTab,
            ActionView::SwitchToWindow(_) => ActionKind::SwitchToWindow,
            ActionView::KeyClicks(_) => ActionKind::KeyClicks,
            ActionView::KeySequence(_) => ActionKind::KeySequence,
            ActionView::Terminate(_) => ActionKind::Terminate,
            ActionView::Spawn { .. } => ActionKind::Spawn,
        }
    }
}

impl Action {
    /// Which of the actions this is.
    pub fn kind(&self) -> (kind: ActionKind)
        ensures
            kind == self@.kind(),
    {
        match self {
            Action::Launch => ActionKind::Launch,
            Action::Goto(_) => ActionKind::Goto,
            Action::Refresh => ActionKind::Refresh,
            Action::Sleep(_) => ActionKind::Sleep,
            Action::Execute { .. } => ActionKind::Execute,
            Action::Click(_) => ActionKind::Click,
            Action::CurrentWindow => ActionKind::CurrentWindow,
            Action::NewTab => ActionKind::NewTab,
            Action::SwitchToWindow(_) => ActionKind::SwitchToWindow,
            Action::KeyClicks(_) => ActionKind::KeyClicks,
            Action::KeySequence(_) => ActionKind::KeySequence,
            Action::Terminate(_) => ActionKind::Terminate,
            Action::Spawn { .. } => ActionKind::Spawn,
        }
    }
}

impl DeepView for Action {
    type V = ActionView;

    open spec fn deep_view(&self) -> ActionView {
        self@
    }
}

/// What the probing script found in the page.
#[derive(Clone, Copy, Debug, PartialEq, Eq, Structural)]
pub enum Observation {
    /// The embedded player is there, with this number as its state.
    Player(i64),
    /// No embedded player, but the video element of the stream mode.
    Video { ended: bool },
    /// Neither of them.
    Nothing,
}

/// What the driver reports when an [`Action`] has ended.
#[derive(Debug, PartialEq, Eq)]
pub enum Event {
    /// The action was carried out and has nothing to tell.
    Completed,
    /// The action could not be carried out.
    Failed,
    /// The action was carried out and names a window.
    Window(String),
    /// The action was carried out and tells what it found in the page.
    Observed(Observation),
}

/// An [`Event`] with its text as a sequence of characters.
pub enum EventView {
    Completed,
    Failed,
    Window(Seq<char>),
    Observed(Observation),
}

impl View for Event {
    type V = EventView;

    open spec fn view(&self) -> EventView {
        match self {
            Event::Completed => EventView::Completed,
            Event::Failed => EventView::Failed,
            Event::Window(handle) => EventView::Window(handle@),
            Event::Observed(observation) => EventView::Observed(*observation),
        }
    }
}

} // verus!
