use playback_bot::infra::browser::action::{Action, Event, Key, Observation, Selector};
use playback_bot::infra::browser::machine::Phase;
use playback_bot::infra::browser::plan::{Destination, PlayError, Setting};
use playback_bot::infra::browser::probe::{ProbeError, ProbeStage, ProbeStep, PROBE_SCRIPT};
use playback_bot::infra::browser::{Browser, Settings, Step};

const CALL: Destination = Destination { guild_id: 11, channel_id: 2042 };

fn settings() -> Settings {
    Settings {
        self_bot_token: Some("SECRET-REDACTED".to_owned()),
        video_stream_api_port: Some("3000".to_owned()),
    }
}

/// Drives a playback with a driver that carries every action out, naming
/// windows as they come, and gives the actions that were asked for.
fn drive(mut step: Step, windows: &[&str]) -> (Browser, Result<(), PlayError>, Vec<Action>) {
    let mut asked = Vec::new();
    let mut windows = windows.iter();
    loop {
        match step {
            Step::Finished(browser, outcome) => return (browser, outcome, asked),
            Step::Perform(playback, action) => {
                let event = match action {
                    Action::CurrentWindow | Action::NewTab => {
                        Event::Window(windows.next().expect("a window").to_string())
                    }
                    _ => Event::Completed,
                };
                asked.push(action);
                step = playback.resume(event);
            }
        }
    }
}

fn join_actions() -> Vec<Action> {
    vec![
        Action::Goto("https://discord.com".to_owned()),
        Action::Sleep(200),
        Action::Execute {
            script: playback_bot::infra::browser::plan::LOGIN_SCRIPT.to_owned(),
            arguments: vec!["SECRET-REDACTED".to_owned()],
        },
        Action::Sleep(3000),
        Action::Refresh,
        Action::Sleep(200),
        Action::Goto("https://discord.com/channels/11/2042".to_owned()),
        Action::Sleep(200),
        Action::Click(Selector::Css("a[data-list-item-id='channels___2042']".to_owned())),
        Action::CurrentWindow,
    ]
}

fn share_actions(main: &str) -> Vec<Action> {
    vec![
        Action::SwitchToWindow(main.to_owned()),
        Action::Click(Selector::Css("button[aria-label=\"Share Your Screen\"]".to_owned())),
        Action::Sleep(200),
        Action::KeyClicks(vec![
            Key::Tab,
            Key::RightArrow,
            Key::RightArrow,
            Key::Tab,
            Key::DownArrow,
            Key::DownArrow,
            Key::Return,
        ]),
    ]
}

#[test]
fn first_video_opens_joins_and_shares_once_and_second_reuses_the_tab() {
    let browser = Browser::new();
    assert!(!browser.is_open() && !browser.is_joined() && !browser.is_sharing());

    let step =
        browser.play_video_on_discord(CALL, "https://example-video.test/watch?v=abc123", settings());
    let (browser, outcome, asked) = drive(step, &["main", "tab"]);
    assert_eq!(outcome, Ok(()));
    let mut expected = vec![Action::Launch];
    expected.extend(join_actions());
    expected.push(Action::Sleep(200));
    expected.push(Action::NewTab);
    expected.push(Action::SwitchToWindow("tab".to_owned()));
    expected.push(Action::Goto(
        "http://localhost:3000/static/index.html?youtube_video_id=abc123".to_owned(),
    ));
    expected.extend(share_actions("main"));
    assert_eq!(asked, expected);
    assert!(browser.is_open() && browser.is_joined() && browser.is_sharing());
    assert_eq!(browser.video_tab(), &Some("tab".to_owned()));

    let step = browser.play_video_on_discord(CALL, "https://twitch.tv/somechannel", settings());
    let (browser, outcome, asked) = drive(step, &[]);
    assert_eq!(outcome, Ok(()));
    assert_eq!(
        asked,
        vec![
            Action::Sleep(200),
            Action::SwitchToWindow("tab".to_owned()),
            Action::Sleep(200),
            Action::Goto("https://twitch.tv/somechannel".to_owned()),
            Action::Sleep(200),
            Action::KeySequence("{+ALT}t{-ALT}".to_owned()),
        ]
    );
    assert_eq!(browser.video_tab(), &Some("tab".to_owned()));
    assert_eq!(asked.iter().filter(|action| **action == Action::Launch).count(), 0);
    assert_eq!(asked.iter().filter(|action| matches!(action, Action::KeyClicks(_))).count(), 0);
}

#[test]
fn unsupported_link_leaves_a_joined_session_as_it_is() {
    let step = Browser::new().play_video_on_discord(
        CALL,
        "https://example-video.test/watch?v=abc123",
        settings(),
    );
    let (browser, outcome, _) = drive(step, &["main", "tab"]);
    assert_eq!(outcome, Ok(()));

    let step = browser.play_video_on_discord(CALL, "https://not-a-video.test/", settings());
    let (browser, outcome, asked) = drive(step, &[]);
    assert_eq!(outcome, Err(PlayError::UnsupportedUrl("https://not-a-video.test/".to_owned())));
    assert_eq!(asked, vec![Action::Sleep(200)]);
    assert!(browser.is_open() && browser.is_joined() && browser.is_sharing());
    assert_eq!(browser.video_tab(), &Some("tab".to_owned()));
}

#[test]
fn unsupported_link_on_a_closed_session_still_joins() {
    let step =
        Browser::new().play_video_on_discord(CALL, "https://not-a-video.test/", settings());
    let (browser, outcome, asked) = drive(step, &["main"]);
    assert_eq!(outcome, Err(PlayError::UnsupportedUrl("https://not-a-video.test/".to_owned())));
    assert_eq!(asked.len(), 12);
    assert!(browser.is_open() && browser.is_joined() && !browser.is_sharing());
}

#[test]
fn watch_link_without_id_ends_the_playback_with_its_own_error() {
    let url = "https://www.youtube.com/watch?list=abc";
    let step = Browser::new().play_video_on_discord(CALL, url, settings());
    let (_, outcome, _) = drive(step, &["main"]);
    assert_eq!(outcome, Err(PlayError::VideoIdNotFound(url.to_owned())));
}

#[test]
fn failed_launch_leaves_the_session_closed() {
    let step = Browser::new().play_video_on_discord(CALL, "https://twitch.tv/a", settings());
    let Step::Perform(playback, action) = step else { panic!("a first action") };
    assert_eq!(action, Action::Launch);
    assert_eq!(playback.phase(), Phase::Launching);
    let Step::Finished(browser, outcome) = playback.resume(Event::Failed) else {
        panic!("the end")
    };
    assert_eq!(outcome, Err(PlayError::SessionOpen));
    assert!(!browser.is_open());
    assert_eq!(browser, Browser::new());
}

/// Carries out every action until the playback asks for one of the given
/// kind for the `nth` time, and hands the playback back at that point.
fn until(
    mut step: Step,
    mut wanted: impl FnMut(&Action) -> bool,
) -> (playback_bot::infra::browser::Playback, Action) {
    loop {
        match step {
            Step::Finished(..) => panic!("ended early"),
            Step::Perform(playback, action) => {
                if wanted(&action) {
                    return (playback, action);
                }
                let event = match action {
                    Action::CurrentWindow => Event::Window("main".to_owned()),
                    Action::NewTab => Event::Window("tab".to_owned()),
                    _ => Event::Completed,
                };
                step = playback.resume(event);
            }
        }
    }
}

#[test]
fn join_is_tried_a_second_time_after_a_pause() {
    let step = Browser::new().play_video_on_discord(CALL, "https://twitch.tv/a", settings());
    let (playback, click) = until(step, |action| matches!(action, Action::Click(_)));
    assert_eq!(playback.phase(), Phase::Joining);
    let Step::Perform(playback, pause) = playback.resume(Event::Failed) else {
        panic!("a pause")
    };
    assert_eq!(pause, Action::Sleep(1000));
    let Step::Perform(playback, again) = playback.resume(Event::Completed) else {
        panic!("a second click")
    };
    assert_eq!(again, click);
    let Step::Perform(playback, window) = playback.resume(Event::Completed) else {
        panic!("the window")
    };
    assert_eq!(window, Action::CurrentWindow);
    let Step::Perform(playback, settle) = playback.resume(Event::Window("main".to_owned()))
    else {
        panic!("the settling")
    };
    assert_eq!(settle, Action::Sleep(200));
    assert_eq!(playback.phase(), Phase::Settling);
}

#[test]
fn join_fails_for_good_after_the_second_attempt() {
    let step = Browser::new().play_video_on_discord(CALL, "https://twitch.tv/a", settings());
    let (playback, _) = until(step, |action| matches!(action, Action::Click(_)));
    let Step::Perform(playback, _) = playback.resume(Event::Failed) else { panic!("a pause") };
    let Step::Perform(playback, _) = playback.resume(Event::Completed) else {
        panic!("a second click")
    };
    let Step::Finished(browser, outcome) = playback.resume(Event::Failed) else {
        panic!("the end")
    };
    assert_eq!(outcome, Err(PlayError::Join));
    assert!(browser.is_open() && !browser.is_joined());

    let step = browser.play_video_on_discord(CALL, "https://twitch.tv/a", settings());
    let Step::Perform(playback, action) = step else { panic!("a first action") };
    assert_eq!(action, Action::Goto("https://discord.com".to_owned()));
    assert_eq!(playback.phase(), Phase::Joining);
}

#[test]
fn other_failures_while_joining_are_not_retried() {
    let step = Browser::new().play_video_on_discord(CALL, "https://twitch.tv/a", settings());
    let (playback, _) = until(step, |action| matches!(action, Action::Refresh));
    let Step::Finished(browser, outcome) = playback.resume(Event::Failed) else {
        panic!("the end")
    };
    assert_eq!(outcome, Err(PlayError::Join));
    assert!(browser.is_open() && !browser.is_joined());
}

#[test]
fn window_question_without_a_window_fails_the_join() {
    let step = Browser::new().play_video_on_discord(CALL, "https://twitch.tv/a", settings());
    let (playback, _) = until(step, |action| matches!(action, Action::CurrentWindow));
    let Step::Finished(browser, outcome) = playback.resume(Event::Completed) else {
        panic!("the end")
    };
    assert_eq!(outcome, Err(PlayError::Join));
    assert!(!browser.is_joined());
}

#[test]
fn missing_token_ends_the_join_where_the_login_would_begin() {
    let settings = Settings { self_bot_token: None, video_stream_api_port: Some("1".to_owned()) };
    let step = Browser::new().play_video_on_discord(CALL, "https://twitch.tv/a", settings);
    let (browser, outcome, asked) = drive(step, &[]);
    assert_eq!(outcome, Err(PlayError::MissingSetting(Setting::SelfBotToken)));
    assert_eq!(
        asked,
        vec![Action::Launch, Action::Goto("https://discord.com".to_owned()), Action::Sleep(200)]
    );
    assert!(browser.is_open() && !browser.is_joined());
}

#[test]
fn missing_port_fails_the_sources_that_need_the_player_page() {
    let no_port =
        || Settings { self_bot_token: Some("t".to_owned()), video_stream_api_port: None };
    let step = Browser::new().play_video_on_discord(
        CALL,
        "https://example-video.test/watch?v=abc123",
        no_port(),
    );
    let (browser, outcome, asked) = drive(step, &["main", "tab"]);
    assert_eq!(outcome, Err(PlayError::MissingSetting(Setting::VideoStreamApiPort)));
    assert_eq!(asked.last(), Some(&Action::SwitchToWindow("tab".to_owned())));
    assert!(browser.is_joined() && !browser.is_sharing());

    let step = browser.play_video_on_discord(CALL, "http://127.0.0.1:11470/x/1", no_port());
    let (browser, outcome, asked) = drive(step, &["tab2"]);
    assert_eq!(outcome, Err(PlayError::MissingSetting(Setting::VideoStreamApiPort)));
    assert_eq!(asked.last(), Some(&Action::Terminate("ffmpeg".to_owned())));
    assert!(!browser.is_sharing());

    let step = browser.play_video_on_discord(CALL, "https://twitch.tv/a", no_port());
    let (browser, outcome, _) = drive(step, &["tab3"]);
    assert_eq!(outcome, Ok(()));
    assert_eq!(browser.video_tab(), &Some("tab3".to_owned()));
}

#[test]
fn stream_of_the_stream_server_replaces_the_transcoder() {
    let step = Browser::new().play_video_on_discord(CALL, "https://twitch.tv/a", settings());
    let (browser, _, _) = drive(step, &["main", "tab"]);
    let url = "http://127.0.0.1:11470/9d6bc3eab9687dcfe75b2933e7b46872726580aa/1";
    let step = browser.play_video_on_discord(CALL, url, settings());
    let (_, outcome, asked) = drive(step, &[]);
    assert_eq!(outcome, Ok(()));
    let arguments: Vec<String> = [
        "-i",
        url,
        "-listen",
        "1",
        "-preset",
        "fast",
        "-f",
        "mp4",
        "-crf",
        "20",
        "-movflags",
        "frag_keyframe+empty_moov",
        "http://localhost:3001/video_stream",
    ]
    .iter()
    .map(|argument| argument.to_string())
    .collect();
    assert_eq!(
        asked,
        vec![
            Action::Sleep(200),
            Action::SwitchToWindow("tab".to_owned()),
            Action::Sleep(200),
            Action::Terminate("ffmpeg".to_owned()),
            Action::Spawn { program: "ffmpeg".to_owned(), arguments },
            Action::Goto("http://localhost:3000/static/index.html?is_stremio_video=1".to_owned()),
        ]
    );
}

#[test]
fn transcoder_failures_have_their_own_error() {
    for failing in ["terminate", "spawn"] {
        let step = Browser::new().play_video_on_discord(
            CALL,
            "http://127.0.0.1:11470/x/1",
            settings(),
        );
        let (playback, _) = until(step, |action| match action {
            Action::Terminate(_) => failing == "terminate",
            Action::Spawn { .. } => failing == "spawn",
            _ => false,
        });
        let Step::Finished(browser, outcome) = playback.resume(Event::Failed) else {
            panic!("the end")
        };
        assert_eq!(outcome, Err(PlayError::TranscodeSpawn));
        assert!(browser.is_joined() && !browser.is_sharing());
    }
}

#[test]
fn failure_while_showing_keeps_what_was_achieved() {
    let step = Browser::new().play_video_on_discord(CALL, "https://twitch.tv/a", settings());
    let (playback, _) = until(step, |action| matches!(action, Action::KeyClicks(_)));
    assert_eq!(playback.phase(), Phase::Showing);
    let Step::Finished(browser, outcome) = playback.resume(Event::Failed) else {
        panic!("the end")
    };
    assert_eq!(outcome, Err(PlayError::Remote));
    assert!(browser.is_open() && browser.is_joined() && !browser.is_sharing());
}

#[test]
fn new_tab_without_a_window_is_a_remote_failure() {
    let step = Browser::new().play_video_on_discord(CALL, "https://twitch.tv/a", settings());
    let (playback, _) = until(step, |action| matches!(action, Action::NewTab));
    assert_eq!(playback.phase(), Phase::Creating);
    let Step::Finished(_, outcome) = playback.resume(Event::Completed) else {
        panic!("the end")
    };
    assert_eq!(outcome, Err(PlayError::Remote));
}

#[test]
fn probe_of_a_session_without_shared_tab_says_idle_and_asks_nothing() {
    let ProbeStep::Finished(browser, outcome) = Browser::new().is_video_playing() else {
        panic!("an answer")
    };
    assert_eq!(outcome, Ok(false));
    assert_eq!(browser, Browser::new());
}

fn sharing() -> Browser {
    let step = Browser::new().play_video_on_discord(CALL, "https://twitch.tv/a", settings());
    let (browser, outcome, _) = drive(step, &["main", "tab"]);
    assert_eq!(outcome, Ok(()));
    browser
}

fn probe(focused: &str, observation: Observation) -> (Result<bool, ProbeError>, Vec<Action>) {
    let mut asked = Vec::new();
    let mut step = sharing().is_video_playing();
    loop {
        match step {
            ProbeStep::Finished(browser, outcome) => {
                assert_eq!(browser, sharing());
                return (outcome, asked);
            }
            ProbeStep::Perform(probe, action) => {
                let event = match action {
                    Action::CurrentWindow => Event::Window(focused.to_owned()),
                    Action::Execute { .. } => Event::Observed(observation),
                    _ => Event::Completed,
                };
                asked.push(action);
                step = probe.resume(event);
            }
        }
    }
}

#[test]
fn probe_focuses_the_shared_tab_only_when_it_must() {
    let query = Action::Execute { script: PROBE_SCRIPT.to_owned(), arguments: vec![] };
    let (outcome, asked) = probe("tab", Observation::Player(1));
    assert_eq!(outcome, Ok(true));
    assert_eq!(asked, vec![Action::CurrentWindow, query]);

    let query = Action::Execute { script: PROBE_SCRIPT.to_owned(), arguments: vec![] };
    let (outcome, asked) = probe("main", Observation::Player(1));
    assert_eq!(outcome, Ok(true));
    assert_eq!(
        asked,
        vec![Action::CurrentWindow, Action::SwitchToWindow("tab".to_owned()), query]
    );
}

#[test]
fn probe_reads_the_states_of_the_player() {
    for (code, active) in
        [(-1, false), (0, false), (1, true), (2, true), (3, true), (4, false), (5, false), (99, false)]
    {
        assert_eq!(probe("tab", Observation::Player(code)).0, Ok(active), "state {code}");
    }
    assert_eq!(probe("tab", Observation::Video { ended: false }).0, Ok(true));
    assert_eq!(probe("tab", Observation::Video { ended: true }).0, Ok(false));
    assert_eq!(probe("tab", Observation::Nothing).0, Ok(false));
}

#[test]
fn probe_failures_on_a_sharing_session_are_errors() {
    let ProbeStep::Perform(probe, _) = sharing().is_video_playing() else { panic!("a step") };
    let ProbeStep::Finished(_, outcome) = probe.resume(Event::Failed) else { panic!("the end") };
    assert_eq!(outcome, Err(ProbeError { stage: ProbeStage::Locating }));

    let ProbeStep::Perform(probe, _) = sharing().is_video_playing() else { panic!("a step") };
    let ProbeStep::Perform(probe, _) = probe.resume(Event::Window("main".to_owned())) else {
        panic!("a switch")
    };
    let ProbeStep::Finished(_, outcome) = probe.resume(Event::Failed) else { panic!("the end") };
    assert_eq!(outcome, Err(ProbeError { stage: ProbeStage::Focusing }));

    let ProbeStep::Perform(probe, _) = sharing().is_video_playing() else { panic!("a step") };
    let ProbeStep::Perform(probe, _) = probe.resume(Event::Window("tab".to_owned())) else {
        panic!("a query")
    };
    let ProbeStep::Finished(_, outcome) = probe.resume(Event::Completed) else {
        panic!("the end")
    };
    assert_eq!(outcome, Err(ProbeError { stage: ProbeStage::Querying }));
}
