//! The scripts of a playback: for each stretch of it, the actions to carry
//! out one after the other, and how the stretch ends when they are done.

use crate::infra::browser::action::{Action, ActionView, Key, Selector, SelectorView};
use crate::infra::browser::stremio::{
    kill_ffmpeg, open_stream_in_ffmpeg, start_script, stream_page, TRANSCODER,
};
use crate::infra::browser::twitch::{live_script, open_live};
use crate::infra::browser::youtube::{open_video, player_page, YoutubeUrlError, YoutubeUrlErrorView};
use crate::infra::browser::{SourceKind, SourceKindView};
use crate::text::{decimal, push_decimal};
use vstd::prelude::*;
use vstd::string::*;

verus! {

/// Pause between two steps on the remote page, in milliseconds. The page
/// gives no sign of being ready.
pub const SETTLE_MILLIS: u64 = 200;

/// Time given to the page to pick the login up, in milliseconds.
pub const LOGIN_MILLIS: u64 = 3000;

/// Pause before the one second attempt to join the call, in milliseconds.
pub const JOIN_BACKOFF_MILLIS: u64 = 1000;

/// Home page of the call service.
pub const HOME_URL: &'static str = "https://discord.com";

/// Beginning of the address of a channel.
pub const CHANNELS_URL: &'static str = "https://discord.com/channels/";

/// Script that logs the page in. It writes the token, its one argument, into
/// the page's persistent storage again and again, because nothing tells when
/// the page reads it.
pub const LOGIN_SCRIPT: &'static str =
    "function login(token) { setInterval(() => { document.body.appendChild(document.createElement `iframe`).contentWindow.localStorage.token = `\"${token}\"` }, 50); } login(arguments[0])";

/// Beginning of the selector of a channel's entry in the channel list.
pub const CHANNEL_SELECTOR_HEAD: &'static str = "a[data-list-item-id='channels___";

/// End of the selector of a channel's entry in the channel list.
pub const CHANNEL_SELECTOR_TAIL: &'static str = "']";

/// The `id` of the control that changes what is shared.
pub const CHANGE_WINDOWS_ID: &'static str = "manage-streams-change-windows";

/// Selector of the control that opens the picker of what to share.
pub const SHARE_SELECTOR: &'static str = "button[aria-label=\"Share Your Screen\"]";

/// The call that a video is to be shown in.
#[derive(Clone, Copy, Debug, PartialEq, Eq, Structural)]
pub struct Destination {
    /// The community that the channel belongs to.
    pub guild_id: u64,
    /// The channel in which the call takes place.
    pub channel_id: u64,
}

/// A value that the surroundings supply.
#[derive(Clone, Copy, Debug, PartialEq, Eq, Structural)]
pub enum Setting {
    /// The token that logs the browser in.
    SelfBotToken,
    /// The port of the local file service with the player page.
    VideoStreamApiPort,
}

/// Why a playback ended without showing its video.
#[derive(Debug, PartialEq, Eq)]
pub enum PlayError {
    /// The remote browser could not be launched.
    SessionOpen,
    /// Logging in, reaching the channel or joining the call failed.
    Join,
    /// The link belongs to no supported source. Holds the link.
    UnsupportedUrl(String),
    /// The link is a watch link without a video id. Holds the link.
    VideoIdNotFound(String),
    /// The transcoder could not be ended or started.
    TranscodeSpawn,
    /// A value that a step needs was not supplied.
    MissingSetting(Setting),
    /// The remote session refused a step of showing the video.
    Remote,
}

/// A [`PlayError`] with its text as a sequence of characters.
pub enum PlayErrorView {
    SessionOpen,
    Join,
    UnsupportedUrl(Seq<char>),
    VideoIdNotFound(Seq<char>),
    TranscodeSpawn,
    MissingSetting(Setting),
    Remote,
}

impl View for PlayError {
    type V = PlayErrorView;

    open spec fn view(&self) -> PlayErrorView {
        match self {
            PlayError::SessionOpen => PlayErrorView::SessionOpen,
            PlayError::Join => PlayErrorView::Join,
            PlayError::UnsupportedUrl(url) => PlayErrorView::UnsupportedUrl(url@),
            PlayError::VideoIdNotFound(url) => PlayErrorView::VideoIdNotFound(url@),
            PlayError::TranscodeSpawn => PlayErrorView::TranscodeSpawn,
            PlayError::MissingSetting(setting) => PlayErrorView::MissingSetting(*setting),
            PlayError::Remote => PlayErrorView::Remote,
        }
    }
}

/// The playback error that a failed classification becomes.
pub open spec fn classification_error(error: YoutubeUrlErrorView) -> PlayErrorView {
    match error {
        YoutubeUrlErrorView::UnsupportedUrl(url) => PlayErrorView::UnsupportedUrl(url),
        YoutubeUrlErrorView::UnableToGetVideoId(url) => PlayErrorView::VideoIdNotFound(url),
    }
}

/// Turns a failed classification into the error of the playback.
pub fn play_error_of(error: YoutubeUrlError) -> (r: PlayError)
    ensures
        r@ == classification_error(error@),
{
    match error {
        YoutubeUrlError::UnsupportedUrl(url) => PlayError::UnsupportedUrl(url),
        YoutubeUrlError::UnableToGetVideoId(url) => PlayError::VideoIdNotFound(url),
    }
}

/// A script as the contracts see it: the actions in order, and the error that
/// ends the playback once they are done, if the stretch cannot be completed.
pub struct ScriptView {
    pub actions: Seq<ActionView>,
    pub verdict: Option<PlayErrorView>,
}

/// A stretch of a playback: the actions in order, and the error that ends
/// the playback once they are done, if the stretch cannot be completed.
pub struct Script {
    pub actions: Vec<Action>,
    pub verdict: Option<PlayError>,
}

impl View for Script {
    type V = ScriptView;

    open spec fn view(&self) -> ScriptView {
        ScriptView {
            actions: self.actions.deep_view(),
            verdict: match self.verdict {
                Some(error) => Some(error@),
                None => None,
            },
        }
    }
}

/// Address of a channel of a community.
pub open spec fn channel_url(destination: Destination) -> Seq<char> {
    CHANNELS_URL@ + decimal(destination.guild_id as nat) + "/"@ + decimal(
        destination.channel_id as nat,
    )
}

/// Selector of a channel's entry in the channel list. A click on it joins the
/// call of that channel.
pub open spec fn channel_selector(channel_id: u64) -> Seq<char> {
    CHANNEL_SELECTOR_HEAD@ + decimal(channel_id as nat) + CHANNEL_SELECTOR_TAIL@
}

/// The click that joins the call of a channel.
pub open spec fn join_click(channel_id: u64) -> ActionView {
    ActionView::Click(SelectorView::Css(channel_selector(channel_id)))
}

/// The keys that pick the video tab in the picker of what to share. The
/// picker belongs to the host, not to the page, so only the keyboard reaches
/// it: over to the list of tabs, down to the newest tab, and confirm.
pub open spec fn picker_keys() -> Seq<Key> {
    seq![
        Key::Tab,
        Key::RightArrow,
        Key::RightArrow,
        Key::Tab,
        Key::DownArrow,
        Key::DownArrow,
        Key::Return,
    ]
}

/// From the home page to inside the call: log in, give the login time, reload,
/// go to the channel, join its call and ask which window this is. Without a
/// token the stretch ends where the login would begin.
pub open spec fn join_script(destination: Destination, token: Option<Seq<char>>) -> ScriptView {
    match token {
        None => ScriptView {
            actions: seq![ActionView::Goto(HOME_URL@), ActionView::Sleep(SETTLE_MILLIS)],
            verdict: Some(PlayErrorView::MissingSetting(Setting::SelfBotToken)),
        },
        Some(token) => ScriptView {
            actions: seq![
                ActionView::Goto(HOME_URL@),
                ActionView::Sleep(SETTLE_MILLIS),
                ActionView::Execute { script: LOGIN_SCRIPT@, arguments: seq![token] },
                ActionView::Sleep(LOGIN_MILLIS),
                ActionView::Refresh,
                ActionView::Sleep(SETTLE_MILLIS),
                ActionView::Goto(channel_url(destination)),
                ActionView::Sleep(SETTLE_MILLIS),
                join_click(destination.channel_id),
                ActionView::CurrentWindow,
            ],
            verdict: None,
        },
    }
}

/// How a source is opened in the focused tab. The two sources that go through
/// the player page need the port of the local file service; without it a
/// video of the video site does nothing, and a stream still ends the running
/// transcoder before it gives up.
pub open spec fn opening_script(source: SourceKindView, port: Option<Seq<char>>) -> ScriptView {
    match source {
        SourceKindView::Twitch { stream_url } => ScriptView {
            actions: live_script(stream_url),
            verdict: None,
        },
        SourceKindView::YouTube { video_id } => match port {
            Some(port) => ScriptView {
                actions: seq![ActionView::Goto(player_page(port, video_id))],
                verdict: None,
            },
            None => ScriptView {
                actions: seq![],
                verdict: Some(PlayErrorView::MissingSetting(Setting::VideoStreamApiPort)),
            },
        },
        SourceKindView::Stremio { stream_url } => match port {
            Some(port) => ScriptView {
                actions: start_script(stream_url).push(ActionView::Goto(stream_page(port))),
                verdict: None,
            },
            None => ScriptView {
                actions: seq![ActionView::Terminate(TRANSCODER@)],
                verdict: Some(PlayErrorView::MissingSetting(Setting::VideoStreamApiPort)),
            },
        },
    }
}

/// Shares the video tab into the call, from the window that is in the call:
/// open the picker, wait for it, and pick the tab with the keyboard.
pub open spec fn share_script(main_window: Seq<char>) -> Seq<ActionView> {
    seq![
        ActionView::SwitchToWindow(main_window),
        ActionView::Click(SelectorView::Css(SHARE_SELECTOR@)),
        ActionView::Sleep(SETTLE_MILLIS),
        ActionView::KeyClicks(picker_keys()),
    ]
}

/// A further video: it is opened in the tab that is already shared, so the
/// sharing, which cannot be asked for twice, stays as it is.
pub open spec fn reuse_script(video_tab: Seq<char>, source: SourceKindView, port: Option<Seq<char>>) -> ScriptView {
    let opening = opening_script(source, port);
    ScriptView {
        actions: seq![ActionView::SwitchToWindow(video_tab), ActionView::Sleep(SETTLE_MILLIS)]
            + opening.actions,
        verdict: opening.verdict,
    }
}

/// The first video: it is opened in the new tab, and the tab is then shared
/// from the window that is in the call. If the video cannot be opened the tab
/// is not shared.
pub open spec fn first_script(
    new_tab: Seq<char>,
    main_window: Seq<char>,
    source: SourceKindView,
    port: Option<Seq<char>>,
) -> ScriptView {
    let opening = opening_script(source, port);
    ScriptView {
        actions: if opening.verdict is None {
            seq![ActionView::SwitchToWindow(new_tab)] + opening.actions + share_script(
                main_window,
            )
        } else {
            seq![ActionView::SwitchToWindow(new_tab)] + opening.actions
        },
        verdict: opening.verdict,
    }
}

/// Moves the actions of `tail` behind those of `script`.
pub fn append_actions(script: &mut Vec<Action>, tail: Vec<Action>)
    ensures
        final(script).deep_view() == old(script).deep_view() + tail.deep_view(),
{
    let mut tail = tail;
    let ghost moved = tail;
    script.append(&mut tail);
    assert(script.deep_view() =~= old(script).deep_view() + moved.deep_view());
}

/// The address of a channel of a community.
pub fn channel_address(destination: Destination) -> (address: String)
    ensures
        address@ == channel_url(destination),
{
    let mut address = String::from_str(CHANNELS_URL);
    push_decimal(&mut address, destination.guild_id);
    address.append("/");
    push_decimal(&mut address, destination.channel_id);
    address
}

/// Logs the page in with a token.
pub fn login(token: &str) -> (action: Action)
    ensures
        action@ == (ActionView::Execute { script: LOGIN_SCRIPT@, arguments: seq![token@] }),
{
    let mut arguments: Vec<String> = Vec::new();
    arguments.push(String::from_str(token));
    assert(arguments.deep_view() =~= seq![token@]);
    Action::Execute { script: String::from_str(LOGIN_SCRIPT), arguments }
}

/// Joins the call of a channel by a click on the channel's entry.
pub fn join_voice_channel(channel_id: u64) -> (action: Action)
    ensures
        action@ == join_click(channel_id),
{
    let mut selector = String::from_str(CHANNEL_SELECTOR_HEAD);
    push_decimal(&mut selector, channel_id);
    selector.append(CHANNEL_SELECTOR_TAIL);
    Action::Click(Selector::Css(selector))
}

/// Opens the picker of what to share.
pub fn open_discord_screen_share_screen_selection() -> (action: Action)
    ensures
        action@ == ActionView::Click(SelectorView::Css(SHARE_SELECTOR@)),
{
    Action::Click(Selector::Css(String::from_str(SHARE_SELECTOR)))
}

/// Opens the picker of what to share while something is shared already.
pub fn click_on_change_windows() -> (action: Action)
    ensures
        action@ == ActionView::Click(SelectorView::Id(CHANGE_WINDOWS_ID@)),
{
    Action::Click(Selector::Id(String::from_str(CHANGE_WINDOWS_ID)))
}

/// Shares the first video tab into the call, from the window that is in the
/// call.
pub fn screen_share_video_tab_number_1(main_window: &str) -> (script: Vec<Action>)
    ensures
        script.deep_view() == share_script(main_window@),
{
    let mut keys: Vec<Key> = Vec::new();
    keys.push(Key::Tab);
    keys.push(Key::RightArrow);
    keys.push(Key::RightArrow);
    keys.push(Key::Tab);
    keys.push(Key::DownArrow);
    keys.push(Key::DownArrow);
    keys.push(Key::Return);
    assert(keys@ =~= picker_keys());
    let mut script: Vec<Action> = Vec::new();
    script.push(Action::SwitchToWindow(String::from_str(main_window)));
    script.push(open_discord_screen_share_screen_selection());
    script.push(Action::Sleep(SETTLE_MILLIS));
    script.push(Action::KeyClicks(keys));
    assert(script.deep_view() =~= share_script(main_window@));
    script
}

/// The stretch from the home page to inside the call.
pub fn join(destination: Destination, token: &Option<String>) -> (script: Script)
    ensures
        script@ == join_script(
            destination,
            match token {
                Some(token) => Some(token@),
                None => None,
            },
        ),
{
    let mut actions: Vec<Action> = Vec::new();
    actions.push(Action::Goto(String::from_str(HOME_URL)));
    actions.push(Action::Sleep(SETTLE_MILLIS));
    match token {
        None => {
            assert(actions.deep_view() =~= seq![
                ActionView::Goto(HOME_URL@),
                ActionView::Sleep(SETTLE_MILLIS),
            ]);
            Script {
                actions,
                verdict: Some(PlayError::MissingSetting(Setting::SelfBotToken)),
            }
        },
        Some(token) => {
            actions.push(login(token.as_str()));
            actions.push(Action::Sleep(LOGIN_MILLIS));
            actions.push(Action::Refresh);
            actions.push(Action::Sleep(SETTLE_MILLIS));
            actions.push(Action::Goto(channel_address(destination)));
            actions.push(Action::Sleep(SETTLE_MILLIS));
            actions.push(join_voice_channel(destination.channel_id));
            actions.push(Action::CurrentWindow);
            assert(actions.deep_view() =~= join_script(destination, Some(token@)).actions);
            Script { actions, verdict: None }
        },
    }
}

/// How a source is opened in the focused tab.
pub fn opening(source: &SourceKind, port: &Option<String>) -> (script: Script)
    ensures
        script@ == opening_script(
            source@,
            match port {
                Some(port) => Some(port@),
                None => None,
            },
        ),
{
    match source {
        SourceKind::Twitch { stream_url } => Script {
            actions: open_live(stream_url.as_str()),
            verdict: None,
        },
        SourceKind::YouTube { video_id } => match port {
            Some(port) => Script {
                actions: open_video(video_id.as_str(), port.as_str()),
                verdict: None,
            },
            None => {
                let actions: Vec<Action> = Vec::new();
                assert(actions.deep_view() =~= Seq::<ActionView>::empty());
                Script {
                    actions,
                    verdict: Some(PlayError::MissingSetting(Setting::VideoStreamApiPort)),
                }
            },
        },
        SourceKind::Stremio { stream_url } => match port {
            Some(port) => Script {
                actions: open_stream_in_ffmpeg(stream_url.as_str(), port.as_str()),
                verdict: None,
            },
            None => {
                let mut actions: Vec<Action> = Vec::new();
                actions.push(kill_ffmpeg());
                assert(actions.deep_view() =~= seq![ActionView::Terminate(TRANSCODER@)]);
                Script {
                    actions,
                    verdict: Some(PlayError::MissingSetting(Setting::VideoStreamApiPort)),
                }
            },
        },
    }
}

/// The stretch that shows a further video in the shared tab.
pub fn reuse(video_tab: &str, source: &SourceKind, port: &Option<String>) -> (script: Script)
    ensures
        script@ == reuse_script(
            video_tab@,
            source@,
            match port {
                Some(port) => Some(port@),
                None => None,
            },
        ),
{
    let Script { actions: tail, verdict } = opening(source, port);
    let mut actions: Vec<Action> = Vec::new();
    actions.push(Action::SwitchToWindow(String::from_str(video_tab)));
    actions.push(Action::Sleep(SETTLE_MILLIS));
    assert(actions.deep_view() =~= seq![
        ActionView::SwitchToWindow(video_tab@),
        ActionView::Sleep(SETTLE_MILLIS),
    ]);
    append_actions(&mut actions, tail);
    Script { actions, verdict }
}

/// The stretch that shows the first video in a new tab and shares the tab.
pub fn first(new_tab: &str, main_window: &str, source: &SourceKind, port: &Option<String>) -> (script:
    Script)
    ensures
        script@ == first_script(
            new_tab@,
            main_window@,
            source@,
            match port {
                Some(port) => Some(port@),
                None => None,
            },
        ),
{
    let Script { actions: tail, verdict } = opening(source, port);
    let mut actions: Vec<Action> = Vec::new();
    actions.push(Action::SwitchToWindow(String::from_str(new_tab)));
    assert(actions.deep_view() =~= seq![ActionView::SwitchToWindow(new_tab@)]);
    append_actions(&mut actions, tail);
    if verdict.is_none() {
        append_actions(&mut actions, screen_share_video_tab_number_1(main_window));
    }
    Script { actions, verdict }
}

} // verus!
