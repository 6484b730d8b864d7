//! Streams of the local stream server. The browser cannot play their
//! container format, so a transcoder process repackages the stream and serves
//! the result on a fixed local address, which the player page reads.

use crate::infra::browser::action::{Action, ActionView};
use crate::infra::browser::youtube::PLAYER_HOST;
use vstd::prelude::*;
use vstd::string::*;

verus! {

/// Name of the transcoder program, and of its processes.
pub const TRANSCODER: &'static str = "ffmpeg";

/// Where the transcoder serves the repackaged stream.
pub const STREAM_ENDPOINT: &'static str = "http://localhost:3001/video_stream";

/// Path and query of the player page when it is to read the repackaged
/// stream.
pub const PLAYER_STREAM_QUERY: &'static str = "/static/index.html?is_stremio_video=1";

/// The arguments of the transcoder for one stream: read the stream, serve one
/// client over HTTP, encode quickly into fragmented MP4 at constant quality.
pub open spec fn transcoder_arguments(url: Seq<char>) -> Seq<Seq<char>> {
    seq![
        "-i"@,
        url,
        "-listen"@,
        "1"@,
        "-preset"@,
        "fast"@,
        "-f"@,
        "mp4"@,
        "-crf"@,
        "20"@,
        "-movflags"@,
        "frag_keyframe+empty_moov"@,
        STREAM_ENDPOINT@,
    ]
}

/// Address of the player page that plays the repackaged stream.
pub open spec fn stream_page(port: Seq<char>) -> Seq<char> {
    PLAYER_HOST@ + port + PLAYER_STREAM_QUERY@
}

/// Ends the transcoder if one is running. Asking for it when none runs is no
/// failure.
pub fn kill_ffmpeg() -> (action: Action)
    ensures
        action@ == ActionView::Terminate(TRANSCODER@),
{
    Action::Terminate(String::from_str(TRANSCODER))
}

/// Starts a transcoder on `url` without waiting for its stream.
pub fn spawn_ffmpeg(url: &str) -> (action: Action)
    ensures
        action@ == (ActionView::Spawn {
            program: TRANSCODER@,
            arguments: transcoder_arguments(url@),
        }),
{
    let mut arguments: Vec<String> = Vec::new();
    arguments.push(String::from_str("-i"));
    arguments.push(String::from_str(url));
    arguments.push(String::from_str("-listen"));
    arguments.push(String::from_str("1"));
    arguments.push(String::from_str("-preset"));
    arguments.push(String::from_str("fast"));
    arguments.push(String::from_str("-f"));
    arguments.push(String::from_str("mp4"));
    arguments.push(String::from_str("-crf"));
    arguments.push(String::from_str("20"));
    arguments.push(String::from_str("-movflags"));
    arguments.push(String::from_str("frag_keyframe+empty_moov"));
    arguments.push(String::from_str(STREAM_ENDPOINT));
    assert(arguments.deep_view() =~= transcoder_arguments(url@));
    Action::Spawn { program: String::from_str(TRANSCODER), arguments }
}

/// What [`start`] asks for.
pub open spec fn start_script(url: Seq<char>) -> Seq<ActionView> {
    seq![
        ActionView::Terminate(TRANSCODER@),
        ActionView::Spawn { program: TRANSCODER@, arguments: transcoder_arguments(url) },
    ]
}

/// Replaces the running transcoder, if any, by one for `url`: first every
/// transcoder is ended, then the new one is started.
pub fn start(url: &str) -> (script: Vec<Action>)
    ensures
        script.deep_view() == start_script(url@),
{
    let mut script: Vec<Action> = Vec::new();
    script.push(kill_ffmpeg());
    script.push(spawn_ffmpeg(url));
    assert(script.deep_view() =~= start_script(url@));
    script
}

/// How a stream of the stream server is opened in the focused tab: the
/// transcoder is replaced by one for this stream, then the tab goes to the
/// player page in its stream mode. The page must bear that the stream is not
/// there at once.
pub fn open_stream_in_ffmpeg(url: &str, port: &str) -> (script: Vec<Action>)
    ensures
        script.deep_view() == start_script(url@).push(ActionView::Goto(stream_page(port@))),
{
    let mut script = start(url);
    let mut address = String::from_str(PLAYER_HOST);
    address.append(port);
    address.append(PLAYER_STREAM_QUERY);
    script.push(Action::Goto(address));
    assert(script.deep_view() =~= start_script(url@).push(ActionView::Goto(stream_page(port@))));
    script
}

/// How many transcoders live once `action` has been carried out, when `live`
/// of them lived before.
pub open spec fn live_after(live: nat, action: ActionView) -> nat {
    match action {
        ActionView::Terminate(name) => if name == TRANSCODER@ {
            0
        } else {
            live
        },
        ActionView::Spawn { program, .. } => if program == TRANSCODER@ {
            live + 1
        } else {
            live
        },
        _ => live,
    }
}

/// How many transcoders live once a whole script has been carried out.
pub open spec fn live_after_all(live: nat, script: Seq<ActionView>) -> nat
    decreases script.len(),
{
    if script.len() == 0 {
        live
    } else {
        live_after(live_after_all(live, script.drop_last()), script.last())
    }
}

/// However many transcoders lived before, exactly one lives after a start:
/// the start ends them all before it starts its own.
pub proof fn lemma_start_leaves_one(live: nat, url: Seq<char>)
    ensures
        live_after_all(live, start_script(url)) == 1,
        start_script(url)[0] == ActionView::Terminate(TRANSCODER@),
{
    let script = start_script(url);
    assert(script.drop_last() =~= seq![ActionView::Terminate(TRANSCODER@)]);
    assert(script.drop_last().drop_last() =~= Seq::<ActionView>::empty());
    reveal_with_fuel(live_after_all, 3);
}

/// Two starts in a row leave one transcoder, not two, and it is the second
/// start that ended the first one's process: its first action is the
/// termination.
pub proof fn lemma_start_twice_leaves_one(live: nat, first: Seq<char>, second: Seq<char>)
    ensures
        live_after_all(live_after_all(live, start_script(first)), start_script(second)) == 1,
        live_after(live_after_all(live, start_script(first)), start_script(second)[0]) == 0,
{
    lemma_start_leaves_one(live, first);
    lemma_start_leaves_one(live_after_all(live, start_script(first)), second);
}

} // verus!
