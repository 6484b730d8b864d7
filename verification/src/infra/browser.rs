//! The shared browser session that shows videos in a call.
//!
//! A link is first classified by where the video comes from. The session then
//! shows it: it launches the browser and joins the call if that has not
//! happened yet, opens the video in the tab that is shared into the call, and
//! shares that tab when it is the first video.

pub mod action;
pub mod launch;
pub mod machine;
pub mod plan;
pub mod probe;
pub mod stremio;
pub mod twitch;
pub mod youtube;

use crate::infra::browser::action::{Action, ActionKind, ActionView, Event};
use crate::infra::browser::machine::{
    advance, after_creating, after_launch, after_settling, begin, lemma_advance_keeps,
    lemma_advance_wf, lemma_begin_wf, recovery, settle_script, succeeded, ContextView, Phase,
    PlaybackView, Recovery, SessionView, StepView,
};
use crate::infra::browser::plan::{
    append_actions, first, join, join_voice_channel, play_error_of, reuse, Destination, PlayError,
    PlayErrorView, Script, ScriptView, JOIN_BACKOFF_MILLIS, SETTLE_MILLIS,
};
use crate::infra::browser::youtube::{
    get_video_id_from_youtube_url, is_watch_link, video_id, video_id_outcome, YoutubeUrlError,
    YoutubeUrlErrorView, SCHEME,
};
use crate::text::{option_view, starts_with};
use vstd::prelude::*;

verus! {

/// Every link to a live stream begins with these characters.
pub const LIVE_PREFIX: &'static str = "https://twitch.tv";

/// Every link to a stream of the local stream server begins with these
/// characters.
pub const STREAM_SERVER_PREFIX: &'static str = "http://127.0.0.1:11470";

/// Whether a link points to a live stream.
pub fn is_twitch_link(url: &str) -> (r: bool)
    ensures
        r == LIVE_PREFIX@.is_prefix_of(url@),
{
    starts_with(url, LIVE_PREFIX)
}

/// Whether a link points to the local stream server.
pub fn is_stremio_stream_link(url: &str) -> (r: bool)
    ensures
        r == STREAM_SERVER_PREFIX@.is_prefix_of(url@),
{
    starts_with(url, STREAM_SERVER_PREFIX)
}

/// Where a video comes from, with what opening it needs.
#[derive(Debug, PartialEq, Eq)]
pub enum SourceKind {
    /// A video of the video site, known by its id.
    YouTube { video_id: String },
    /// A live stream, known by its address.
    Twitch { stream_url: String },
    /// A stream of the local stream server, known by its address.
    Stremio { stream_url: String },
}

/// A [`SourceKind`] with its text as sequences of characters.
pub enum SourceKindView {
    YouTube { video_id: Seq<char> },
    Twitch { stream_url: Seq<char> },
    Stremio { stream_url: Seq<char> },
}

impl View for SourceKind {
    type V = SourceKindView;

    open spec fn view(&self) -> SourceKindView {
        match self {
            SourceKind::YouTube { video_id } => SourceKindView::YouTube { video_id: video_id@ },
            SourceKind::Twitch { stream_url } => SourceKindView::Twitch { stream_url: stream_url@ },
            SourceKind::Stremio { stream_url } => SourceKindView::Stremio {
                stream_url: stream_url@,
            },
        }
    }
}

/// A classification with its text as sequences of characters.
pub open spec fn classified_view(classified: Result<SourceKind, YoutubeUrlError>) -> Result<
    SourceKindView,
    YoutubeUrlErrorView,
> {
    match classified {
        Ok(source) => Ok(source@),
        Err(error) => Err(error@),
    }
}

/// The source of a link. The three kinds are tried in a fixed order, so
/// exactly one answer applies.
pub open spec fn classification(url: Seq<char>) -> Result<SourceKindView, YoutubeUrlErrorView> {
    if LIVE_PREFIX@.is_prefix_of(url) {
        Ok(SourceKindView::Twitch { stream_url: url })
    } else if STREAM_SERVER_PREFIX@.is_prefix_of(url) {
        Ok(SourceKindView::Stremio { stream_url: url })
    } else {
        match video_id_outcome(url) {
            Ok(video_id) => Ok(SourceKindView::YouTube { video_id }),
            Err(error) => Err(error),
        }
    }
}

/// Classifies a link by where its video comes from.
pub fn classify(url: &str) -> (r: Result<SourceKind, YoutubeUrlError>)
    ensures
        classified_view(r) == classification(url@),
{
    if is_twitch_link(url) {
        Ok(SourceKind::Twitch { stream_url: url.to_owned() })
    } else if is_stremio_stream_link(url) {
        Ok(SourceKind::Stremio { stream_url: url.to_owned() })
    } else {
        match get_video_id_from_youtube_url(url) {
            Ok(video_id) => Ok(SourceKind::YouTube { video_id }),
            Err(error) => Err(error),
        }
    }
}

/// Classification answers every link, and says which answer by the link
/// alone: a live-stream prefix gives a live stream; else a stream-server
/// prefix gives a stream of the stream server; else a watch link gives the
/// video whose id its query holds, or the error of a watch link without id;
/// every other link is unsupported.
pub proof fn lemma_classification_cases(url: Seq<char>)
    ensures
        LIVE_PREFIX@.is_prefix_of(url) ==> classification(url) == Ok::<
            SourceKindView,
            YoutubeUrlErrorView,
        >(SourceKindView::Twitch { stream_url: url }),
        !LIVE_PREFIX@.is_prefix_of(url) && STREAM_SERVER_PREFIX@.is_prefix_of(url)
            ==> classification(url) == Ok::<SourceKindView, YoutubeUrlErrorView>(
            SourceKindView::Stremio { stream_url: url },
        ),
        !LIVE_PREFIX@.is_prefix_of(url) && !STREAM_SERVER_PREFIX@.is_prefix_of(url)
            && is_watch_link(url) ==> classification(url) == match video_id(url) {
            Some(video_id) => Ok::<SourceKindView, YoutubeUrlErrorView>(
                SourceKindView::YouTube { video_id },
            ),
            None => Err(YoutubeUrlErrorView::UnableToGetVideoId(url)),
        },
        !LIVE_PREFIX@.is_prefix_of(url) && !STREAM_SERVER_PREFIX@.is_prefix_of(url)
            && !is_watch_link(url) ==> classification(url) == Err::<
            SourceKindView,
            YoutubeUrlErrorView,
        >(YoutubeUrlErrorView::UnsupportedUrl(url)),
{
}

/// No link is of the stream server and of another kind at once. A live
/// stream's link may be a watch link as well; it is a live stream all the
/// same, because that is asked first.
pub proof fn lemma_stream_server_links_are_nothing_else(url: Seq<char>)
    ensures
        !(STREAM_SERVER_PREFIX@.is_prefix_of(url) && LIVE_PREFIX@.is_prefix_of(url)),
        !(STREAM_SERVER_PREFIX@.is_prefix_of(url) && is_watch_link(url)),
{
    reveal_strlit("https://twitch.tv");
    reveal_strlit("http://127.0.0.1:11470");
    reveal_strlit("https://");
    if STREAM_SERVER_PREFIX@.is_prefix_of(url) {
        assert(url[4] == STREAM_SERVER_PREFIX@[4]);
    }
    if LIVE_PREFIX@.is_prefix_of(url) {
        assert(url[4] == LIVE_PREFIX@[4]);
    }
    if SCHEME@.is_prefix_of(url) {
        assert(url[4] == SCHEME@[4]);
    }
}

/// The values that the surroundings supply to a playback. One that is
/// missing fails the playback at the step that needs it.
#[derive(Debug, PartialEq, Eq)]
pub struct Settings {
    /// The token that logs the browser in.
    pub self_bot_token: Option<String>,
    /// The port of the local file service with the player page.
    pub video_stream_api_port: Option<String>,
}

/// What the session has achieved so far.
#[derive(Debug, PartialEq, Eq)]
struct Inner {
    /// Whether the browser has been launched.
    driver: bool,
    /// The window that is in the call, once the call has been joined.
    discord_window: Option<String>,
    /// The tab that is shared into the call, once a video has been shared.
    video_tab: Option<String>,
}

/// The one browser session that all videos are shown through. It is closed
/// until its first playback, which launches the browser and joins the call;
/// the first playback that gets so far shares a tab, and every later one
/// shows its video in that tab.
///
/// A playback takes the session with it and hands it back when it ends, so
/// no second playback and no probe can run in between.
#[derive(Debug, PartialEq, Eq)]
pub struct Browser {
    inner: Inner,
}

impl View for Browser {
    type V = SessionView;

    closed spec fn view(&self) -> SessionView {
        SessionView {
            driver: self.inner.driver,
            discord_window: option_view(self.inner.discord_window),
            video_tab: option_view(self.inner.video_tab),
        }
    }
}

/// What a playback carries along from stretch to stretch.
#[derive(Debug, PartialEq, Eq)]
struct Context {
    destination: Destination,
    settings: Settings,
    source: Result<SourceKind, YoutubeUrlError>,
    retried: bool,
    fresh_tab: Option<String>,
}

impl View for Context {
    type V = ContextView;

    closed spec fn view(&self) -> ContextView {
        ContextView {
            destination: self.destination,
            token: option_view(self.settings.self_bot_token),
            port: option_view(self.settings.video_stream_api_port),
            source: classified_view(self.source),
            retried: self.retried,
            fresh_tab: option_view(self.fresh_tab),
        }
    }
}

/// A playback between two actions: it waits for the driver's report on the
/// action that it handed out last.
#[derive(Debug, PartialEq, Eq)]
pub struct Playback {
    browser: Browser,
    context: Context,
    phase: Phase,
    in_flight: ActionKind,
    pending: Vec<Action>,
    verdict: Option<PlayError>,
}

impl View for Playback {
    type V = PlaybackView;

    closed spec fn view(&self) -> PlaybackView {
        PlaybackView {
            session: self.browser@,
            context: self.context@,
            phase: self.phase,
            in_flight: self.in_flight,
            pending: self.pending.deep_view(),
            verdict: match self.verdict {
                Some(error) => Some(error@),
                None => None,
            },
        }
    }
}

/// What a playback answers: the next action, or how it ended.
#[derive(Debug, PartialEq, Eq)]
pub enum Step {
    /// The driver is to carry the action out and report to the playback.
    Perform(Playback, Action),
    /// The playback is over. The session is free again.
    Finished(Browser, Result<(), PlayError>),
}

/// The outcome of a playback as the contracts see it.
pub open spec fn play_outcome_view(outcome: Result<(), PlayError>) -> Result<(), PlayErrorView> {
    match outcome {
        Ok(()) => Ok(()),
        Err(error) => Err(error@),
    }
}

impl View for Step {
    type V = StepView;

    open spec fn view(&self) -> StepView {
        match self {
            Step::Perform(playback, action) => StepView::Perform(playback@, action@),
            Step::Finished(browser, outcome) => StepView::Finished(browser@, play_outcome_view(*outcome)),
        }
    }
}

/// Begins a stretch: hands its first action out and keeps the others.
fn enter(browser: Browser, context: Context, phase: Phase, script: Script) -> (step: Step)
    requires
        crate::infra::browser::machine::enter(browser@, context@, phase, script@).wf(),
    ensures
        step@ == crate::infra::browser::machine::enter(browser@, context@, phase, script@),
{
    let Script { actions, verdict } = script;
    let mut pending = actions;
    if pending.len() == 0 {
        match verdict {
            Some(error) => Step::Finished(browser, Err(error)),
            None => Step::Finished(browser, Ok(())),
        }
    } else {
        let ghost all = pending.deep_view();
        let next = pending.remove(0);
        assert(pending.deep_view() =~= all.skip(1));
        assert(next@ == all[0]);
        let in_flight = next.kind();
        Step::Perform(Playback { browser, context, phase, in_flight, pending, verdict }, next)
    }
}

/// The one pause of the settling stretch.
fn settle() -> (script: Script)
    ensures
        script@ == settle_script(),
{
    let mut actions: Vec<Action> = Vec::new();
    actions.push(Action::Sleep(SETTLE_MILLIS));
    assert(actions.deep_view() =~= seq![ActionView::Sleep(SETTLE_MILLIS)]);
    Script { actions, verdict: None }
}

/// A stretch of one action.
fn single(action: Action) -> (script: Script)
    ensures
        script@ == (ScriptView { actions: seq![action@], verdict: None }),
{
    let mut actions: Vec<Action> = Vec::new();
    actions.push(action);
    assert(actions.deep_view() =~= seq![action@]);
    Script { actions, verdict: None }
}

/// Goes on behind the launch: into the call, or past it if it was joined.
fn enter_after_launch(browser: Browser, context: Context) -> (step: Step)
    requires
        after_launch(browser@, context@).wf(),
    ensures
        step@ == after_launch(browser@, context@),
{
    if browser.inner.discord_window.is_none() {
        let script = join(context.destination, &context.settings.self_bot_token);
        enter(browser, context, Phase::Joining, script)
    } else {
        enter(browser, context, Phase::Settling, settle())
    }
}

/// Goes on behind the settling: into the shared tab, or to a new one.
fn enter_after_settling(browser: Browser, context: Context) -> (step: Step)
    requires
        after_settling(browser@, context@).wf(),
    ensures
        step@ == after_settling(browser@, context@),
{
    let Context { destination, settings, source, retried, fresh_tab } = context;
    match source {
        Err(error) => Step::Finished(browser, Err(play_error_of(error))),
        Ok(source) => {
            let script = match &browser.inner.video_tab {
                Some(video_tab) => Some(
                    reuse(video_tab.as_str(), &source, &settings.video_stream_api_port),
                ),
                None => None,
            };
            let context = Context { destination, settings, source: Ok(source), retried, fresh_tab };
            match script {
                Some(script) => enter(browser, context, Phase::Showing, script),
                None => enter(browser, context, Phase::Creating, single(Action::NewTab)),
            }
        },
    }
}

/// Goes on behind the new tab: shows the video in it and shares it.
fn enter_after_creating(browser: Browser, context: Context, new_tab: String) -> (step: Step)
    requires
        after_creating(browser@, context@, new_tab@).wf(),
    ensures
        step@ == after_creating(browser@, context@, new_tab@),
{
    let Context { destination, settings, source, retried, fresh_tab } = context;
    match source {
        Err(error) => Step::Finished(browser, Err(play_error_of(error))),
        Ok(source) => {
            let script = match &browser.inner.discord_window {
                Some(main_window) => Some(
                    first(
                        new_tab.as_str(),
                        main_window.as_str(),
                        &source,
                        &settings.video_stream_api_port,
                    ),
                ),
                None => None,
            };
            match script {
                Some(script) => enter(
                    browser,
                    Context { destination, settings, source: Ok(source), retried, fresh_tab: Some(new_tab) },
                    Phase::Showing,
                    script,
                ),
                None => Step::Finished(browser, Err(PlayError::Join)),
            }
        },
    }
}

/// Whether a report says that the action in flight was carried out.
fn reported(in_flight: ActionKind, event: &Event) -> (r: bool)
    ensures
        r == succeeded(in_flight, event@),
{
    match in_flight {
        ActionKind::CurrentWindow | ActionKind::NewTab => match event {
            Event::Window(_) => true,
            _ => false,
        },
        _ => match event {
            Event::Failed => false,
            _ => true,
        },
    }
}

/// The error that a failure ends the playback with, or nothing where the
/// failed action is tried again.
fn recover(phase: Phase, in_flight: ActionKind, retried: bool) -> (r: Option<PlayError>)
    ensures
        match r {
            Some(error) => recovery(phase, in_flight, retried) == Recovery::Abort(error@),
            None => recovery(phase, in_flight, retried) is Retry,
        },
{
    match phase {
        Phase::Launching => Some(PlayError::SessionOpen),
        Phase::Joining => match in_flight {
            ActionKind::Click => if retried {
                Some(PlayError::Join)
            } else {
                None
            },
            _ => Some(PlayError::Join),
        },
        _ => match in_flight {
            ActionKind::Terminate | ActionKind::Spawn => Some(PlayError::TranscodeSpawn),
            _ => Some(PlayError::Remote),
        },
    }
}

impl Browser {
    #[verifier::type_invariant]
    spec fn well_formed(self) -> bool {
        self@.wf()
    }

    /// A session before its first playback: nothing is launched yet.
    pub fn new() -> (browser: Browser)
        ensures
            browser@ == SessionView::closed(),
    {
        Browser { inner: Inner { driver: false, discord_window: None, video_tab: None } }
    }

    /// Whether the browser has been launched.
    pub fn is_open(&self) -> (r: bool)
        ensures
            r == self@.driver,
    {
        self.inner.driver
    }

    /// Whether the call has been joined.
    pub fn is_joined(&self) -> (r: bool)
        ensures
            r == self@.discord_window is Some,
    {
        self.inner.discord_window.is_some()
    }

    /// Whether a tab is shared into the call.
    pub fn is_sharing(&self) -> (r: bool)
        ensures
            r == self@.video_tab is Some,
    {
        self.inner.video_tab.is_some()
    }

    /// The tab that is shared into the call, if there is one.
    pub fn video_tab(&self) -> (tab: &Option<String>)
        ensures
            option_view(*tab) == self@.video_tab,
            self@.wf(),
    {
        proof {
            use_type_invariant(self);
        }
        &self.inner.video_tab
    }

    /// Begins to show the video of a link in a call, and answers with the
    /// first step. A closed session is launched first, a session outside the
    /// call joins it first, and a session in the call goes on at once; the
    /// link is classified here and now, though a link that cannot be shown
    /// ends the playback only when the session is in the call.
    pub fn play_video_on_discord(self, destination: Destination, url: &str, settings: Settings) -> (step:
        Step)
        ensures
            step@ == begin(
                self@,
                destination,
                option_view(settings.self_bot_token),
                option_view(settings.video_stream_api_port),
                classification(url@),
            ),
            step@.wf(),
    {
        proof {
            use_type_invariant(&self);
            lemma_begin_wf(
                self@,
                destination,
                option_view(settings.self_bot_token),
                option_view(settings.video_stream_api_port),
                classification(url@),
            );
        }
        let source = classify(url);
        let context = Context { destination, settings, source, retried: false, fresh_tab: None };
        if !self.inner.driver {
            enter(self, context, Phase::Launching, single(Action::Launch))
        } else {
            enter_after_launch(self, context)
        }
    }

    /// Stops the video that is playing. Nothing is done yet: what stopping
    /// means is not decided.
    pub fn stop_current_video(&self) {
    }
}

impl Playback {
    #[verifier::type_invariant]
    spec fn well_formed(self) -> bool {
        self@.wf()
    }

    /// The stretch that the playback is in.
    pub fn phase(&self) -> (phase: Phase)
        ensures
            phase == self@.phase,
    {
        self.phase
    }

    /// Takes the driver's report on the action handed out last and answers
    /// with the next step. An action that was carried out is followed by the
    /// next of its stretch, and the last of a stretch by the first of the
    /// next stretch; there the session records what the stretch achieved. An
    /// action that failed ends the playback, but for the click that joins the
    /// call, which is tried once more after a pause. What the session had
    /// recorded before a failure stays recorded.
    pub fn resume(self, event: Event) -> (step: Step)
        ensures
            step@ == advance(self@, event@),
            step@.wf(),
            step@.session().keeps(self@.session),
    {
        proof {
            use_type_invariant(&self);
            use_type_invariant(&self.browser);
            lemma_advance_wf(self@, event@);
            lemma_advance_keeps(self@, event@);
        }
        let Playback { browser, context, phase, in_flight, pending, verdict } = self;
        let mut pending = pending;
        if !reported(in_flight, &event) {
            match recover(phase, in_flight, context.retried) {
                Some(error) => Step::Finished(browser, Err(error)),
                None => {
                    let Context { destination, settings, source, retried, fresh_tab } = context;
                    let mut again: Vec<Action> = Vec::new();
                    again.push(join_voice_channel(destination.channel_id));
                    assert(again.deep_view() =~= seq![
                        crate::infra::browser::plan::join_click(destination.channel_id),
                    ]);
                    append_actions(&mut again, pending);
                    Step::Perform(
                        Playback {
                            browser,
                            context: Context { destination, settings, source, retried: true, fresh_tab },
                            phase,
                            in_flight: ActionKind::Sleep,
                            pending: again,
                            verdict,
                        },
                        Action::Sleep(JOIN_BACKOFF_MILLIS),
                    )
                },
            }
        } else if pending.len() > 0 {
            let ghost all = pending.deep_view();
            let next = pending.remove(0);
            assert(pending.deep_view() =~= all.skip(1));
            assert(next@ == all[0]);
            let in_flight = next.kind();
            Step::Perform(Playback { browser, context, phase, in_flight, pending, verdict }, next)
        } else {
            match verdict {
                Some(error) => Step::Finished(browser, Err(error)),
                None => {
                    let Browser { inner } = browser;
                    let Inner { driver, discord_window, video_tab } = inner;
                    match phase {
                        Phase::Launching => enter_after_launch(
                            Browser { inner: Inner { driver: true, discord_window, video_tab } },
                            context,
                        ),
                        Phase::Joining => match event {
                            Event::Window(main_window) => enter(
                                Browser {
                                    inner: Inner {
                                        driver,
                                        discord_window: Some(main_window),
                                        video_tab,
                                    },
                                },
                                context,
                                Phase::Settling,
                                settle(),
                            ),
                            _ => Step::Finished(
                                Browser { inner: Inner { driver, discord_window, video_tab } },
                                Err(PlayError::Join),
                            ),
                        },
                        Phase::Settling => enter_after_settling(
                            Browser { inner: Inner { driver, discord_window, video_tab } },
                            context,
                        ),
                        Phase::Creating => match event {
                            Event::Window(new_tab) => enter_after_creating(
                                Browser { inner: Inner { driver, discord_window, video_tab } },
                                context,
                                new_tab,
                            ),
                            _ => Step::Finished(
                                Browser { inner: Inner { driver, discord_window, video_tab } },
                                Err(PlayError::Remote),
                            ),
                        },
                        Phase::Showing => match context.fresh_tab {
                            Some(new_tab) => Step::Finished(
                                Browser {
                                    inner: Inner { driver, discord_window, video_tab: Some(new_tab) },
                                },
                                Ok(()),
                            ),
                            None => Step::Finished(
                                Browser { inner: Inner { driver, discord_window, video_tab } },
                                Ok(()),
                            ),
                        },
                    }
                },
            }
        }
    }
}

} // verus!
