//! The playback as a state machine over plain values: what is asked for
//! first, and what follows each report of the driver. The session and the
//! playback in `infra::browser` run exactly this machine.

use crate::infra::browser::action::{ActionKind, ActionView, EventView};
use crate::infra::browser::plan::{
    classification_error, first_script, join_click, join_script, reuse_script, Destination,
    PlayErrorView, ScriptView, JOIN_BACKOFF_MILLIS, SETTLE_MILLIS,
};
use crate::infra::browser::youtube::YoutubeUrlErrorView;
use crate::infra::browser::SourceKindView;
use vstd::prelude::*;

verus! {

/// What is known of the remote browser.
pub struct SessionView {
    /// Whether the browser has been launched.
    pub driver: bool,
    /// The window that is in the call, once the call has been joined.
    pub discord_window: Option<Seq<char>>,
    /// The tab that is shared into the call, once a video has been shared.
    pub video_tab: Option<Seq<char>>,
}

impl SessionView {
    /// A session before its first playback.
    pub open spec fn closed() -> SessionView {
        SessionView { driver: false, discord_window: None, video_tab: None }
    }

    /// Only a launched browser is in a call, and only from inside a call is a
    /// tab shared.
    pub open spec fn wf(self) -> bool {
        &&& self.discord_window is Some ==> self.driver
        &&& self.video_tab is Some ==> self.discord_window is Some
    }

    /// Whether everything that `earlier` had achieved is still there.
    pub open spec fn keeps(self, earlier: SessionView) -> bool {
        &&& earlier.driver ==> self.driver
        &&& earlier.discord_window is Some ==> self.discord_window == earlier.discord_window
        &&& earlier.video_tab is Some ==> self.video_tab == earlier.video_tab
    }
}

/// The stretches of a playback, in their order.
#[derive(Clone, Copy, Debug, PartialEq, Eq, Structural)]
pub enum Phase {
    /// The browser is being launched.
    Launching,
    /// The browser logs in and joins the call.
    Joining,
    /// The page settles before the tabs are touched.
    Settling,
    /// The tab for the first video is being opened.
    Creating,
    /// The video is being opened, and its tab shared if it is the first.
    Showing,
}

impl Phase {
    /// Whether the call has been joined by the time of this stretch.
    pub open spec fn past_join(self) -> bool {
        self is Settling || self is Creating || self is Showing
    }

    /// Position of the stretch in the order of a playback.
    pub open spec fn rank(self) -> nat {
        match self {
            Phase::Launching => 0,
            Phase::Joining => 1,
            Phase::Settling => 2,
            Phase::Creating => 3,
            Phase::Showing => 4,
        }
    }
}

/// What a playback carries along from stretch to stretch.
pub struct ContextView {
    /// The call that the video is for.
    pub destination: Destination,
    /// The login token, if one was supplied.
    pub token: Option<Seq<char>>,
    /// The port of the local file service, if one was supplied.
    pub port: Option<Seq<char>>,
    /// How the link was classified.
    pub source: Result<SourceKindView, YoutubeUrlErrorView>,
    /// Whether joining the call has failed once in this playback.
    pub retried: bool,
    /// The tab opened for the first video, once it is there.
    pub fresh_tab: Option<Seq<char>>,
}

/// A playback between two actions.
pub struct PlaybackView {
    /// The session as this playback has brought it on.
    pub session: SessionView,
    /// What the playback carries along.
    pub context: ContextView,
    /// The stretch that the playback is in.
    pub phase: Phase,
    /// The kind of the action that the driver is carrying out.
    pub in_flight: ActionKind,
    /// The actions of this stretch that follow the one in flight.
    pub pending: Seq<ActionView>,
    /// The error that ends the playback when this stretch is through, if any.
    pub verdict: Option<PlayErrorView>,
}

/// What a playback answers: the next action, or how it ended.
pub enum StepView {
    /// The driver is to carry the action out and report back.
    Perform(PlaybackView, ActionView),
    /// The playback is over, and the session is free again.
    Finished(SessionView, Result<(), PlayErrorView>),
}

/// What a failed action leads to.
pub enum Recovery {
    /// The action is tried once more after a pause.
    Retry,
    /// The playback ends with this error.
    Abort(PlayErrorView),
}

impl PlaybackView {
    /// The kind of the last action of the stretch.
    pub open spec fn last_kind(self) -> ActionKind {
        if self.pending.len() == 0 {
            self.in_flight
        } else {
            self.pending.last().kind()
        }
    }

    /// What holds of every playback that the machine reaches: the session is
    /// as far as the stretch needs it and no further, and a stretch that is to
    /// yield a window ends on an action that reports one.
    pub open spec fn wf(self) -> bool {
        &&& self.session.wf()
        &&& !(self.phase is Launching) ==> self.session.driver
        &&& self.phase.past_join() ==> self.session.discord_window is Some
        &&& self.phase is Creating || self.phase is Showing ==> self.context.source is Ok
        &&& self.phase is Launching ==> self.in_flight is Launch && self.pending.len() == 0
            && self.verdict is None
        &&& self.phase is Creating ==> self.in_flight is NewTab && self.pending.len() == 0
            && self.verdict is None
        &&& self.phase is Joining && self.verdict is None ==> self.last_kind() is CurrentWindow
        &&& self.phase is Joining ==> self.session.discord_window is None
        &&& self.phase is Creating ==> self.session.video_tab is None
        &&& self.context.fresh_tab is Some ==> self.session.video_tab is None
    }
}

impl StepView {
    /// The session as the step leaves it.
    pub open spec fn session(self) -> SessionView {
        match self {
            StepView::Perform(playback, _) => playback.session,
            StepView::Finished(session, _) => session,
        }
    }

    /// Whether the step is one that the machine can reach: its playback is
    /// well formed and holds the kind of the action handed out.
    pub open spec fn wf(self) -> bool {
        match self {
            StepView::Perform(playback, action) => playback.wf() && playback.in_flight
                == action.kind(),
            StepView::Finished(session, _) => session.wf(),
        }
    }

    /// Whether the step lies behind the joining of the call: the playback is
    /// over or in a stretch that follows it.
    pub open spec fn past_join(self) -> bool {
        match self {
            StepView::Perform(playback, _) => playback.phase.past_join(),
            StepView::Finished(_, _) => true,
        }
    }
}

/// Whether a report says that the action of this kind was carried out. The
/// two actions that ask for a window are carried out only if one is named.
pub open spec fn succeeded(in_flight: ActionKind, event: EventView) -> bool {
    match in_flight {
        ActionKind::CurrentWindow | ActionKind::NewTab => event is Window,
        _ => !(event is Failed),
    }
}

/// What the failure of an action leads to. A failed launch ends the playback
/// and leaves the session closed. In the joining stretch the click that joins
/// is tried a second time, and every other failure there is a failure to
/// join. Later on, the transcoder's failures are told from the remote
/// session's.
pub open spec fn recovery(phase: Phase, in_flight: ActionKind, retried: bool) -> Recovery {
    match phase {
        Phase::Launching => Recovery::Abort(PlayErrorView::SessionOpen),
        Phase::Joining => if in_flight is Click && !retried {
            Recovery::Retry
        } else {
            Recovery::Abort(PlayErrorView::Join)
        },
        _ => if in_flight is Terminate || in_flight is Spawn {
            Recovery::Abort(PlayErrorView::TranscodeSpawn)
        } else {
            Recovery::Abort(PlayErrorView::Remote)
        },
    }
}

/// The one pause of the settling stretch.
pub open spec fn settle_script() -> ScriptView {
    ScriptView { actions: seq![ActionView::Sleep(SETTLE_MILLIS)], verdict: None }
}

/// Begins a stretch: its first action goes to the driver, the others wait.
/// A stretch without actions ends the playback at once with its verdict.
pub open spec fn enter(
    session: SessionView,
    context: ContextView,
    phase: Phase,
    script: ScriptView,
) -> StepView {
    if script.actions.len() == 0 {
        StepView::Finished(
            session,
            match script.verdict {
                Some(error) => Err(error),
                None => Ok(()),
            },
        )
    } else {
        StepView::Perform(
            PlaybackView {
                session,
                context,
                phase,
                in_flight: script.actions[0].kind(),
                pending: script.actions.skip(1),
                verdict: script.verdict,
            },
            script.actions[0],
        )
    }
}

/// What follows a launched browser: the call is joined unless this session
/// has done so before.
pub open spec fn after_launch(session: SessionView, context: ContextView) -> StepView {
    if session.discord_window is None {
        enter(session, context, Phase::Joining, join_script(context.destination, context.token))
    } else {
        enter(session, context, Phase::Settling, settle_script())
    }
}

/// What follows the settling: a link that could not be classified ends the
/// playback; a further video goes into the shared tab; the first video gets a
/// new tab.
pub open spec fn after_settling(session: SessionView, context: ContextView) -> StepView {
    match context.source {
        Err(error) => StepView::Finished(session, Err(classification_error(error))),
        Ok(source) => match session.video_tab {
            Some(video_tab) => enter(
                session,
                context,
                Phase::Showing,
                reuse_script(video_tab, source, context.port),
            ),
            None => enter(
                session,
                context,
                Phase::Creating,
                ScriptView { actions: seq![ActionView::NewTab], verdict: None },
            ),
        },
    }
}

/// What follows the new tab: the video is opened in it and the tab shared.
pub open spec fn after_creating(
    session: SessionView,
    context: ContextView,
    new_tab: Seq<char>,
) -> StepView {
    match (context.source, session.discord_window) {
        (Ok(source), Some(main_window)) => enter(
            session,
            ContextView { fresh_tab: Some(new_tab), ..context },
            Phase::Showing,
            first_script(new_tab, main_window, source, context.port),
        ),
        (Err(error), _) => StepView::Finished(session, Err(classification_error(error))),
        (_, None) => StepView::Finished(session, Err(PlayErrorView::Join)),
    }
}

/// What follows a stretch whose actions were all carried out and which has
/// no verdict; `event` is the report of its last action. Here, and only
/// here, the session moves on: it is launched, it has joined, it shares.
pub open spec fn phase_done(playback: PlaybackView, event: EventView) -> StepView {
    let session = playback.session;
    let context = playback.context;
    match playback.phase {
        Phase::Launching => after_launch(SessionView { driver: true, ..session }, context),
        Phase::Joining => match event {
            EventView::Window(main_window) => enter(
                SessionView { discord_window: Some(main_window), ..session },
                context,
                Phase::Settling,
                settle_script(),
            ),
            _ => StepView::Finished(session, Err(PlayErrorView::Join)),
        },
        Phase::Settling => after_settling(session, context),
        Phase::Creating => match event {
            EventView::Window(new_tab) => after_creating(session, context, new_tab),
            _ => StepView::Finished(session, Err(PlayErrorView::Remote)),
        },
        Phase::Showing => StepView::Finished(
            match context.fresh_tab {
                Some(new_tab) => SessionView { video_tab: Some(new_tab), ..session },
                None => session,
            },
            Ok(()),
        ),
    }
}

/// What a playback carries along when it begins.
pub open spec fn fresh_context(
    destination: Destination,
    token: Option<Seq<char>>,
    port: Option<Seq<char>>,
    source: Result<SourceKindView, YoutubeUrlErrorView>,
) -> ContextView {
    ContextView { destination, token, port, source, retried: false, fresh_tab: None }
}

/// The first step of a playback on a session.
pub open spec fn begin(
    session: SessionView,
    destination: Destination,
    token: Option<Seq<char>>,
    port: Option<Seq<char>>,
    source: Result<SourceKindView, YoutubeUrlErrorView>,
) -> StepView {
    let context = fresh_context(destination, token, port, source);
    if !session.driver {
        enter(
            session,
            context,
            Phase::Launching,
            ScriptView { actions: seq![ActionView::Launch], verdict: None },
        )
    } else {
        after_launch(session, context)
    }
}

/// The step that follows a report of the driver.
pub open spec fn advance(playback: PlaybackView, event: EventView) -> StepView {
    if !succeeded(playback.in_flight, event) {
        match recovery(playback.phase, playback.in_flight, playback.context.retried) {
            Recovery::Retry => StepView::Perform(
                PlaybackView {
                    context: ContextView { retried: true, ..playback.context },
                    in_flight: ActionKind::Sleep,
                    pending: seq![join_click(playback.context.destination.channel_id)]
                        + playback.pending,
                    ..playback
                },
                ActionView::Sleep(JOIN_BACKOFF_MILLIS),
            ),
            Recovery::Abort(error) => StepView::Finished(playback.session, Err(error)),
        }
    } else if playback.pending.len() > 0 {
        StepView::Perform(
            PlaybackView {
                in_flight: playback.pending[0].kind(),
                pending: playback.pending.skip(1),
                ..playback
            },
            playback.pending[0],
        )
    } else {
        match playback.verdict {
            Some(error) => StepView::Finished(playback.session, Err(error)),
            None => phase_done(playback, event),
        }
    }
}

/// Where a playback stands after a series of reports. Reports that arrive
/// after the end change nothing.
pub open spec fn run(step: StepView, events: Seq<EventView>) -> StepView
    decreases events.len(),
{
    if events.len() == 0 {
        step
    } else {
        match step {
            StepView::Perform(playback, _) => run(advance(playback, events[0]), events.skip(1)),
            StepView::Finished(_, _) => step,
        }
    }
}

/// A playback begun on a well-formed session is well formed, and takes
/// nothing from the session.
pub proof fn lemma_begin_wf(
    session: SessionView,
    destination: Destination,
    token: Option<Seq<char>>,
    port: Option<Seq<char>>,
    source: Result<SourceKindView, YoutubeUrlErrorView>,
)
    requires
        session.wf(),
    ensures
        begin(session, destination, token, port, source).wf(),
        begin(session, destination, token, port, source).session() == session,
{
}

/// Every step of a well-formed playback is well formed: the session never
/// shares a tab from outside a call, nor is in a call without a browser.
pub proof fn lemma_advance_wf(playback: PlaybackView, event: EventView)
    requires
        playback.wf(),
    ensures
        advance(playback, event).wf(),
{
    if succeeded(playback.in_flight, event) && playback.pending.len() > 0 {
        let next = playback.pending.skip(1);
        if next.len() > 0 {
            assert(next.last() == playback.pending.last());
        }
    }
}

/// No step takes back what the session has achieved: a browser stays
/// launched, a joined call stays joined through the same window, a shared tab
/// stays the shared tab. This holds of steps that fail too.
pub proof fn lemma_advance_keeps(playback: PlaybackView, event: EventView)
    requires
        playback.wf(),
    ensures
        advance(playback, event).session().keeps(playback.session),
{
}

/// The session records an achievement only when the stretch that achieves it
/// is through: it counts as launched when the launch was carried out, as
/// joined when the joining stretch has named its window, and as sharing when
/// the first video has been opened and its tab shared.
pub proof fn lemma_session_moves_when_a_stretch_is_through(playback: PlaybackView, event: EventView)
    requires
        playback.wf(),
        advance(playback, event).session() != playback.session,
    ensures
        succeeded(playback.in_flight, event),
        playback.pending.len() == 0,
        playback.verdict is None,
        playback.phase is Launching || playback.phase is Joining || playback.phase is Showing,
        playback.phase is Launching ==> advance(playback, event).session() == (SessionView {
            driver: true,
            ..playback.session
        }),
        playback.phase is Joining ==> event is Window && advance(playback, event).session() == (
        SessionView { discord_window: Some(event->Window_0), ..playback.session }),
        playback.phase is Showing ==> playback.context.fresh_tab is Some && advance(
            playback,
            event,
        ).session() == (SessionView {
            video_tab: playback.context.fresh_tab,
            ..playback.session
        }),
{
}

/// On a session that has joined the call, a playback begins behind the
/// joining: it neither launches nor logs in nor joins.
pub proof fn lemma_joined_session_skips_join(
    session: SessionView,
    destination: Destination,
    token: Option<Seq<char>>,
    port: Option<Seq<char>>,
    source: Result<SourceKindView, YoutubeUrlErrorView>,
)
    requires
        session.wf(),
        session.discord_window is Some,
    ensures
        begin(session, destination, token, port, source).past_join(),
{
}

/// A playback that is behind the joining stays behind it.
pub proof fn lemma_past_join_stays(playback: PlaybackView, event: EventView)
    requires
        playback.phase.past_join(),
    ensures
        advance(playback, event).past_join(),
{
}

/// Whatever the driver reports, a playback on a session that has joined the
/// call never enters the launching or the joining stretch, and leaves the
/// session joined through the same window. So of any two playbacks in a row
/// on a joined session neither repeats the login and the joining.
pub proof fn lemma_joined_session_never_rejoins(
    session: SessionView,
    destination: Destination,
    token: Option<Seq<char>>,
    port: Option<Seq<char>>,
    source: Result<SourceKindView, YoutubeUrlErrorView>,
    events: Seq<EventView>,
)
    requires
        session.wf(),
        session.discord_window is Some,
    ensures
        run(begin(session, destination, token, port, source), events).past_join(),
        run(begin(session, destination, token, port, source), events).session().keeps(session),
        run(begin(session, destination, token, port, source), events).wf(),
{
    let first = begin(session, destination, token, port, source);
    lemma_begin_wf(session, destination, token, port, source);
    lemma_run_past_join(first, events);
    lemma_run_keeps(first, events);
    lemma_run_wf(first, events);
}

/// Behind the joining, any series of reports leaves the playback behind it.
pub proof fn lemma_run_past_join(step: StepView, events: Seq<EventView>)
    requires
        step.past_join(),
    ensures
        run(step, events).past_join(),
    decreases events.len(),
{
    if events.len() > 0 {
        if let StepView::Perform(playback, _) = step {
            lemma_past_join_stays(playback, events[0]);
            lemma_run_past_join(advance(playback, events[0]), events.skip(1));
        }
    }
}

/// Any series of reports leaves the session with all it had achieved.
pub proof fn lemma_run_keeps(step: StepView, events: Seq<EventView>)
    requires
        step.wf(),
    ensures
        run(step, events).session().keeps(step.session()),
    decreases events.len(),
{
    if events.len() > 0 {
        if let StepView::Perform(playback, _) = step {
            lemma_advance_keeps(playback, events[0]);
            lemma_advance_wf(playback, events[0]);
            lemma_run_keeps(advance(playback, events[0]), events.skip(1));
        }
    }
}

/// Any series of reports leaves a well-formed playback well formed.
pub proof fn lemma_run_wf(step: StepView, events: Seq<EventView>)
    requires
        step.wf(),
    ensures
        run(step, events).wf(),
    decreases events.len(),
{
    if events.len() > 0 {
        if let StepView::Perform(playback, _) = step {
            lemma_advance_wf(playback, events[0]);
            lemma_run_wf(advance(playback, events[0]), events.skip(1));
        }
    }
}

/// Whether an action of this kind belongs to opening a tab or to sharing one:
/// the new tab, the click that opens the picker, and the keys that pick.
pub open spec fn shares(kind: ActionKind) -> bool {
    kind is NewTab || kind is Click || kind is KeyClicks
}

impl PlaybackView {
    /// Whether the playback shows its video in the tab that is shared
    /// already: it has opened no tab, and neither the action in flight nor
    /// one that waits opens or shares one.
    pub open spec fn reuses_tab(self) -> bool {
        &&& self.session.video_tab is Some
        &&& self.context.fresh_tab is None
        &&& self.phase is Settling || self.phase is Showing
        &&& !shares(self.in_flight)
        &&& forall|i: int| 0 <= i < self.pending.len() ==> !shares(#[trigger] self.pending[i].kind())
    }
}

impl StepView {
    /// Whether the step belongs to a playback that shows its video in the
    /// tab that is shared already, or ends one.
    pub open spec fn reuses_tab(self) -> bool {
        match self {
            StepView::Perform(playback, _) => playback.reuses_tab(),
            StepView::Finished(session, _) => session.video_tab is Some,
        }
    }
}

/// On a session that shares a tab, a playback begins with the settling, and
/// opens and shares nothing.
pub proof fn lemma_sharing_session_begins_in_its_tab(
    session: SessionView,
    destination: Destination,
    token: Option<Seq<char>>,
    port: Option<Seq<char>>,
    source: Result<SourceKindView, YoutubeUrlErrorView>,
)
    requires
        session.wf(),
        session.video_tab is Some,
    ensures
        begin(session, destination, token, port, source).reuses_tab(),
{
}

/// A playback that shows its video in the shared tab goes on doing so.
pub proof fn lemma_reuse_stays(playback: PlaybackView, event: EventView)
    requires
        playback.reuses_tab(),
    ensures
        advance(playback, event).reuses_tab(),
{
    if succeeded(playback.in_flight, event) {
        if playback.pending.len() > 0 {
            let next = playback.pending.skip(1);
            assert forall|i: int| 0 <= i < next.len() implies !shares(#[trigger] next[i].kind()) by {
                assert(next[i] == playback.pending[i + 1]);
            }
        } else if playback.verdict is None && playback.phase is Settling {
            if let Ok(source) = playback.context.source {
                let script = reuse_script(
                    playback.session.video_tab->Some_0,
                    source,
                    playback.context.port,
                );
                assert forall|i: int| 0 <= i < script.actions.len() implies !shares(
                    #[trigger] script.actions[i].kind(),
                ) by {}
                let rest = script.actions.skip(1);
                assert forall|i: int| 0 <= i < rest.len() implies !shares(#[trigger] rest[i].kind()) by {
                    assert(rest[i] == script.actions[i + 1]);
                }
            }
        }
    }
}

/// Whatever the driver reports, a playback on a session that shares a tab
/// opens no tab and shares none: every action it asks for is of another
/// kind, and the session goes on sharing the same tab. So the sharing is
/// set up once for all videos.
pub proof fn lemma_sharing_session_never_shares_again(
    session: SessionView,
    destination: Destination,
    token: Option<Seq<char>>,
    port: Option<Seq<char>>,
    source: Result<SourceKindView, YoutubeUrlErrorView>,
    events: Seq<EventView>,
)
    requires
        session.wf(),
        session.video_tab is Some,
    ensures
        run(begin(session, destination, token, port, source), events).reuses_tab(),
        run(begin(session, destination, token, port, source), events).session().video_tab
            == session.video_tab,
        match run(begin(session, destination, token, port, source), events) {
            StepView::Perform(_, action) => !shares(action.kind()),
            StepView::Finished(_, _) => true,
        },
{
    let first = begin(session, destination, token, port, source);
    lemma_begin_wf(session, destination, token, port, source);
    lemma_sharing_session_begins_in_its_tab(session, destination, token, port, source);
    lemma_run_reuses(first, events);
    lemma_run_keeps(first, events);
    lemma_run_wf(first, events);
}

/// Any series of reports leaves a playback in the shared tab.
pub proof fn lemma_run_reuses(step: StepView, events: Seq<EventView>)
    requires
        step.reuses_tab(),
    ensures
        run(step, events).reuses_tab(),
    decreases events.len(),
{
    if events.len() > 0 {
        if let StepView::Perform(playback, _) = step {
            lemma_reuse_stays(playback, events[0]);
            lemma_run_reuses(advance(playback, events[0]), events.skip(1));
        }
    }
}

/// How far a playback is from its end at most: stretches to come weigh more
/// than a second attempt to join, and that more than the actions that wait.
pub open spec fn distance(step: StepView) -> (nat, nat, nat) {
    match step {
        StepView::Perform(playback, _) => (
            (5 - playback.phase.rank()) as nat,
            if playback.context.retried {
                0
            } else {
                1
            },
            playback.pending.len() + 1,
        ),
        StepView::Finished(_, _) => (0, 0, 0),
    }
}

/// Whether the first distance is shorter than the second, in the order of
/// the dictionary.
pub open spec fn shorter(a: (nat, nat, nat), b: (nat, nat, nat)) -> bool {
    a.0 < b.0 || (a.0 == b.0 && (a.1 < b.1 || (a.1 == b.1 && a.2 < b.2)))
}

/// Every report brings a playback nearer to its end, so each playback runs to
/// completion or failure.
pub proof fn lemma_advance_comes_nearer(playback: PlaybackView, event: EventView, action: ActionView)
    ensures
        shorter(
            distance(advance(playback, event)),
            distance(StepView::Perform(playback, action)),
        ),
{
}

} // verus!
