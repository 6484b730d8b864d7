use playback_bot::infra::browser::plan::Destination;
use playback_bot::infra::browser::probe::{ProbeError, ProbeStage};
use playback_bot::video::{watch, Video, VideoRequest, Watch, ACKNOWLEDGMENT, TICK_MILLIS};

const CALL: Destination = Destination { guild_id: 1, channel_id: 2 };

fn request(url: &str) -> VideoRequest<Destination> {
    VideoRequest { destination: CALL, url: url.to_owned() }
}

#[test]
fn requests_leave_in_the_order_in_which_they_came() {
    let mut video: Video<Destination> = Video::new();
    assert_eq!(video.len(), 0);
    for url in ["a", "b", "c"] {
        assert_eq!(video.play(CALL, url), ACKNOWLEDGMENT);
    }
    assert_eq!(video.len(), 3);
    assert_eq!(video.check_if_theres_a_video_to_play(Ok(false)), Ok(Some(request("a"))));
    assert_eq!(video.play(CALL, "d"), "Added to queue");
    assert_eq!(video.check_if_theres_a_video_to_play(Ok(false)), Ok(Some(request("b"))));
    assert_eq!(video.check_if_theres_a_video_to_play(Ok(false)), Ok(Some(request("c"))));
    assert_eq!(video.check_if_theres_a_video_to_play(Ok(false)), Ok(Some(request("d"))));
    assert_eq!(video.check_if_theres_a_video_to_play(Ok(false)), Ok(None));
    assert_eq!(video.len(), 0);
}

#[test]
fn nothing_leaves_while_a_video_plays() {
    let mut video = Video::new();
    video.play(CALL, "a");
    video.play(CALL, "b");
    for _ in 0..3 {
        assert_eq!(video.check_if_theres_a_video_to_play(Ok(true)), Ok(None));
        assert_eq!(video.len(), 2);
    }
    assert_eq!(video.check_if_theres_a_video_to_play(Ok(false)), Ok(Some(request("a"))));
    assert_eq!(video.check_if_theres_a_video_to_play(Ok(true)), Ok(None));
    assert_eq!(video.len(), 1);
}

#[test]
fn failed_probe_is_handed_on_and_keeps_the_queue() {
    let mut video = Video::new();
    video.play(CALL, "a");
    let error = ProbeError { stage: ProbeStage::Querying };
    assert_eq!(video.check_if_theres_a_video_to_play(Err(error)), Err(error));
    assert_eq!(video.len(), 1);
    assert_eq!(video.check_if_theres_a_video_to_play(Ok(false)), Ok(Some(request("a"))));
}

#[test]
fn enqueue_succeeds_on_a_long_queue() {
    let mut video = Video::new();
    for i in 0..10_000 {
        video.play(CALL, &i.to_string());
    }
    assert_eq!(video.len(), 10_000);
    for i in 0..10_000 {
        assert_eq!(
            video.check_if_theres_a_video_to_play(Ok(false)),
            Ok(Some(request(&i.to_string())))
        );
    }
}

#[test]
fn skip_and_stop_do_nothing() {
    let mut video = Video::new();
    video.play(CALL, "a");
    video.skip_current_video();
    video.stop();
    assert_eq!(video.len(), 1);
}

#[test]
fn loop_goes_on_while_the_queue_has_an_owner() {
    assert_eq!(watch(true), Watch::LookThenSleep(1000));
    assert_eq!(TICK_MILLIS, 1000);
    assert_eq!(watch(false), Watch::Quit);
}
