//! Live streams, which are opened on their own page.

use crate::infra::browser::action::{Action, ActionView};
use vstd::prelude::*;
use vstd::string::*;

verus! {

/// Key sequence that switches the stream page to its theatre layout: `t`
/// with the alternate key held down.
pub const THEATRE_MODE_KEYS: &'static str = "{+ALT}t{-ALT}";

/// Pause between loading the stream page and the theatre keystroke, in
/// milliseconds.
pub const PAGE_SETTLE_MILLIS: u64 = 200;

/// The keystroke that toggles the theatre layout. The page has no control for
/// it that could be clicked reliably.
pub fn toggle_theatre_mode() -> (action: Action)
    ensures
        action@ == ActionView::KeySequence(THEATRE_MODE_KEYS@),
{
    Action::KeySequence(String::from_str(THEATRE_MODE_KEYS))
}

/// What [`open_live`] asks for.
pub open spec fn live_script(stream_url: Seq<char>) -> Seq<ActionView> {
    seq![
        ActionView::Goto(stream_url),
        ActionView::Sleep(PAGE_SETTLE_MILLIS),
        ActionView::KeySequence(THEATRE_MODE_KEYS@),
    ]
}

/// How a live stream is opened in the focused tab: the tab goes to the stream
/// itself, and once the page has settled the theatre layout is switched on.
pub fn open_live(stream_url: &str) -> (script: Vec<Action>)
    ensures
        script.deep_view() == live_script(stream_url@),
{
    let mut script: Vec<Action> = Vec::new();
    script.push(Action::Goto(String::from_str(stream_url)));
    script.push(Action::Sleep(PAGE_SETTLE_MILLIS));
    script.push(toggle_theatre_mode());
    assert(script.deep_view() =~= live_script(stream_url@));
    script
}

} // verus!
