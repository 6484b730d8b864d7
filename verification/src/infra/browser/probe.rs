//! The probe: whether a video is active in the shared tab. It only reads.

use crate::infra::browser::action::{Action, ActionView, Event, EventView, Observation};
use crate::infra::browser::machine::SessionView;
use crate::infra::browser::Browser;
use crate::text::equals;
use vstd::prelude::*;
use vstd::string::*;

verus! {

/// Script that looks into the page. It gives the state number of the
/// embedded player if there is one, else the `ended` flag of the video
/// element of the stream mode if there is one, else nothing.
pub const PROBE_SCRIPT: &'static str =
    "if (window.player) { return window.player.getPlayerState() } const stremioVideo = document.getElementById(\"stremio-stream-video\"); if (stremioVideo) { return stremioVideo.ended } return null";

/// The states of the embedded player.
#[derive(Clone, Copy, Debug, PartialEq, Eq, Structural)]
pub enum PlayerState {
    Unstarted,
    Ended,
    Playing,
    Paused,
    Buffering,
    Cued,
}

/// The state that a state number of the embedded player stands for.
pub open spec fn state_of(code: int) -> Option<PlayerState> {
    if code == -1 {
        Some(PlayerState::Unstarted)
    } else if code == 0 {
        Some(PlayerState::Ended)
    } else if code == 1 {
        Some(PlayerState::Playing)
    } else if code == 2 {
        Some(PlayerState::Paused)
    } else if code == 3 {
        Some(PlayerState::Buffering)
    } else if code == 5 {
        Some(PlayerState::Cued)
    } else {
        None
    }
}

/// Reads a state number of the embedded player.
pub fn player_state(code: i64) -> (state: Option<PlayerState>)
    ensures
        state == state_of(code as int),
{
    if code == -1 {
        Some(PlayerState::Unstarted)
    } else if code == 0 {
        Some(PlayerState::Ended)
    } else if code == 1 {
        Some(PlayerState::Playing)
    } else if code == 2 {
        Some(PlayerState::Paused)
    } else if code == 3 {
        Some(PlayerState::Buffering)
    } else if code == 5 {
        Some(PlayerState::Cued)
    } else {
        None
    }
}

/// Whether what was found in the page is an active video. The embedded
/// player is active while it plays, is paused or buffers; the video element
/// is active until it has ended; a page with neither shows nothing.
pub open spec fn active(observation: Observation) -> bool {
    match observation {
        Observation::Player(code) => state_of(code as int) == Some(PlayerState::Playing)
            || state_of(code as int) == Some(PlayerState::Paused) || state_of(code as int) == Some(
            PlayerState::Buffering,
        ),
        Observation::Video { ended } => !ended,
        Observation::Nothing => false,
    }
}

/// Decides whether what was found in the page is an active video.
pub fn is_active(observation: Observation) -> (r: bool)
    ensures
        r == active(observation),
{
    match observation {
        Observation::Player(code) => match player_state(code) {
            Some(PlayerState::Playing) | Some(PlayerState::Paused) | Some(PlayerState::Buffering) => true,
            _ => false,
        },
        Observation::Video { ended } => !ended,
        Observation::Nothing => false,
    }
}

/// The steps of a probe, in their order.
#[derive(Clone, Copy, Debug, PartialEq, Eq, Structural)]
pub enum ProbeStage {
    /// The probe asks which window has the focus.
    Locating,
    /// The probe gives the focus to the shared tab.
    Focusing,
    /// The probe looks into the page.
    Querying,
}

/// A probe failed although the session shares a tab: the remote session
/// refused the step that the probe was at.
#[derive(Clone, Copy, Debug, PartialEq, Eq, Structural)]
pub struct ProbeError {
    pub stage: ProbeStage,
}

/// A probe between two actions.
#[derive(Debug, PartialEq, Eq)]
pub struct Probe {
    browser: Browser,
    stage: ProbeStage,
}

/// What a probe answers: the next action, or what it found.
#[derive(Debug, PartialEq, Eq)]
pub enum ProbeStep {
    /// The driver is to carry the action out and report to the probe.
    Perform(Probe, Action),
    /// The probe is over. The session is free again, and unchanged.
    Finished(Browser, Result<bool, ProbeError>),
}

/// A [`ProbeStep`] as the contracts see it.
pub enum ProbeStepView {
    Perform(SessionView, ProbeStage, ActionView),
    Finished(SessionView, Result<bool, ProbeError>),
}

impl Probe {
    /// The session that the probe reads.
    pub closed spec fn session(self) -> SessionView {
        self.browser@
    }

    /// The step that the probe is at.
    pub closed spec fn stage(self) -> ProbeStage {
        self.stage
    }

    #[verifier::type_invariant]
    spec fn well_formed(self) -> bool {
        self.browser@.wf()
    }
}

impl View for ProbeStep {
    type V = ProbeStepView;

    open spec fn view(&self) -> ProbeStepView {
        match self {
            ProbeStep::Perform(probe, action) => ProbeStepView::Perform(
                probe.session(),
                probe.stage(),
                action@,
            ),
            ProbeStep::Finished(browser, outcome) => ProbeStepView::Finished(browser@, *outcome),
        }
    }
}

/// The look into the page.
pub open spec fn query() -> ActionView {
    ActionView::Execute { script: PROBE_SCRIPT@, arguments: seq![] }
}

/// The first step of a probe. A session that shares no tab shows nothing,
/// and is not asked.
pub open spec fn probe_begin(session: SessionView) -> ProbeStepView {
    if session.driver && session.video_tab is Some {
        ProbeStepView::Perform(session, ProbeStage::Locating, ActionView::CurrentWindow)
    } else {
        ProbeStepView::Finished(session, Ok(false))
    }
}

/// The step of a probe that follows a report of the driver. The focus goes
/// to the shared tab unless it is there, then the page is looked into. A
/// step that the remote session refuses fails the probe; it shares a tab, so
/// the failure is no sign of an idle session.
pub open spec fn probe_advance(
    session: SessionView,
    stage: ProbeStage,
    event: EventView,
) -> ProbeStepView {
    match (stage, event) {
        (ProbeStage::Locating, EventView::Window(focused)) => if session.video_tab == Some(
            focused,
        ) {
            ProbeStepView::Perform(session, ProbeStage::Querying, query())
        } else if session.video_tab is Some {
            ProbeStepView::Perform(
                session,
                ProbeStage::Focusing,
                ActionView::SwitchToWindow(session.video_tab->Some_0),
            )
        } else {
            ProbeStepView::Finished(session, Ok(false))
        },
        (ProbeStage::Focusing, EventView::Completed) => ProbeStepView::Perform(
            session,
            ProbeStage::Querying,
            query(),
        ),
        (ProbeStage::Querying, EventView::Observed(observation)) => ProbeStepView::Finished(
            session,
            Ok(active(observation)),
        ),
        _ => ProbeStepView::Finished(session, Err(ProbeError { stage })),
    }
}

impl ProbeStepView {
    /// The session as the step leaves it.
    pub open spec fn session(self) -> SessionView {
        match self {
            ProbeStepView::Perform(session, _, _) => session,
            ProbeStepView::Finished(session, _) => session,
        }
    }
}

/// A probe only reads: whatever the driver reports, the session stays as it
/// is. And a session that shares no tab is found idle without a question to
/// the driver.
pub proof fn lemma_probe_only_reads(session: SessionView, stage: ProbeStage, event: EventView)
    ensures
        probe_begin(session).session() == session,
        probe_advance(session, stage, event).session() == session,
        session.video_tab is None ==> probe_begin(session) == ProbeStepView::Finished(
            session,
            Ok(false),
        ),
{
}

/// The look into the page, as an action.
fn look() -> (action: Action)
    ensures
        action@ == query(),
{
    let arguments: Vec<String> = Vec::new();
    assert(arguments.deep_view() =~= Seq::<Seq<char>>::empty());
    Action::Execute { script: String::from_str(PROBE_SCRIPT), arguments }
}

impl Browser {
    /// Begins to find out whether a video is active in the shared tab, and
    /// answers with the first step. The session goes with the probe and
    /// comes back unchanged when it ends.
    pub fn is_video_playing(self) -> (step: ProbeStep)
        ensures
            step@ == probe_begin(self@),
    {
        let sharing = self.is_open() && self.video_tab().is_some();
        if sharing {
            ProbeStep::Perform(Probe { browser: self, stage: ProbeStage::Locating }, Action::CurrentWindow)
        } else {
            ProbeStep::Finished(self, Ok(false))
        }
    }
}

impl Probe {
    /// Takes the driver's report on the action handed out last and answers
    /// with the next step of the probe.
    pub fn resume(self, event: Event) -> (step: ProbeStep)
        ensures
            step@ == probe_advance(self.session(), self.stage(), event@),
    {
        proof {
            use_type_invariant(&self);
        }
        let Probe { browser, stage } = self;
        match (stage, event) {
            (ProbeStage::Locating, Event::Window(focused)) => {
                let next = match browser.video_tab() {
                    Some(tab) => if equals(tab.as_str(), focused.as_str()) {
                        Some((ProbeStage::Querying, look()))
                    } else {
                        Some((ProbeStage::Focusing, Action::SwitchToWindow(tab.clone())))
                    },
                    None => None,
                };
                match next {
                    Some((stage, action)) => ProbeStep::Perform(Probe { browser, stage }, action),
                    None => ProbeStep::Finished(browser, Ok(false)),
                }
            },
            (ProbeStage::Focusing, Event::Completed) => ProbeStep::Perform(
                Probe { browser, stage: ProbeStage::Querying },
                look(),
            ),
            (ProbeStage::Querying, Event::Observed(observation)) => ProbeStep::Finished(
                browser,
                Ok(is_active(observation)),
            ),
            _ => ProbeStep::Finished(browser, Err(ProbeError { stage })),
        }
    }
}

} // verus!
