//! The queue of videos that wait for the shared session. Requests leave it in
//! the order in which they came, one at a time, and only while nothing plays.

use crate::infra::browser::probe::ProbeError;
use std::collections::VecDeque;
use vstd::prelude::*;
use vstd::string::*;

verus! {

/// What the one who asks for a video is told at once, whatever becomes of the
/// video later.
pub const ACKNOWLEDGMENT: &'static str = "Added to queue";

/// Time between two looks at the queue, in milliseconds.
pub const TICK_MILLIS: u64 = 1000;

/// A wish to see one video. What says where it is to be shown is the
/// caller's, and the queue does not look into it.
#[derive(Debug, PartialEq, Eq)]
pub struct VideoRequest<C> {
    /// Where the video is to be shown.
    pub destination: C,
    /// The link to the video.
    pub url: String,
}

/// A [`VideoRequest`] with its link as a sequence of characters.
pub struct VideoRequestView<C> {
    pub destination: C,
    pub url: Seq<char>,
}

impl<C> View for VideoRequest<C> {
    type V = VideoRequestView<C>;

    open spec fn view(&self) -> VideoRequestView<C> {
        VideoRequestView { destination: self.destination, url: self.url@ }
    }
}

impl<C> DeepView for VideoRequest<C> {
    type V = VideoRequestView<C>;

    open spec fn deep_view(&self) -> VideoRequestView<C> {
        self@
    }
}

/// What one look at the queue leads to.
pub struct Tick<R> {
    /// The queue after the look.
    pub queue: Seq<R>,
    /// The request to play now, if any.
    pub play: Option<R>,
}

/// One look at the queue: its head leaves it to be played if nothing plays;
/// while a video plays, the queue waits as it is.
pub open spec fn tick<R>(queue: Seq<R>, playing: bool) -> Tick<R> {
    if !playing && queue.len() > 0 {
        Tick { queue: queue.skip(1), play: Some(queue[0]) }
    } else {
        Tick { queue, play: None }
    }
}

/// The queue after a series of looks, one for each answer of the probe.
pub open spec fn queue_after<R>(queue: Seq<R>, probes: Seq<bool>) -> Seq<R>
    decreases probes.len(),
{
    if probes.len() == 0 {
        queue
    } else {
        tick(queue_after(queue, probes.drop_last()), probes.last()).queue
    }
}

/// What each of a series of looks gave to play.
pub open spec fn played<R>(queue: Seq<R>, probes: Seq<bool>) -> Seq<Option<R>>
    decreases probes.len(),
{
    if probes.len() == 0 {
        seq![]
    } else {
        played(queue, probes.drop_last()).push(
            tick(queue_after(queue, probes.drop_last()), probes.last()).play,
        )
    }
}

/// As many answers of the probe, all saying that nothing plays.
pub open spec fn idle(looks: nat) -> Seq<bool> {
    Seq::new(looks, |i: int| false)
}

/// The videos that wait for the session, oldest first.
#[derive(Debug, PartialEq, Eq)]
pub struct Video<C> {
    queue: VecDeque<VideoRequest<C>>,
}

impl<C> View for Video<C> {
    type V = Seq<VideoRequestView<C>>;

    closed spec fn view(&self) -> Seq<VideoRequestView<C>> {
        self.queue.deep_view()
    }
}

impl<C> Video<C> {
    /// An empty queue.
    pub fn new() -> (video: Video<C>)
        ensures
            video@ == Seq::<VideoRequestView<C>>::empty(),
    {
        let video = Video { queue: VecDeque::new() };
        assert(video@ =~= Seq::<VideoRequestView<C>>::empty());
        video
    }

    /// How many videos wait.
    pub fn len(&self) -> (n: usize)
        ensures
            n == self@.len(),
    {
        self.queue.len()
    }

    /// Puts a video at the end of the queue and acknowledges it. This never
    /// fails and never waits for a playback, however long the queue is and
    /// whatever plays.
    pub fn play(&mut self, destination: C, url: &str) -> (acknowledgment: &'static str)
        ensures
            final(self)@ == old(self)@.push(VideoRequestView { destination, url: url@ }),
            acknowledgment@ == ACKNOWLEDGMENT@,
    {
        self.queue.push_back(VideoRequest { destination, url: String::from_str(url) });
        assert(self@ =~= old(self)@.push(VideoRequestView { destination, url: url@ }));
        ACKNOWLEDGMENT
    }

    /// Goes on to the next video. Nothing is done yet: what skipping means is
    /// not decided.
    pub fn skip_current_video(&self) {
    }

    /// Stops the video that plays. Nothing is done yet: what stopping means
    /// is not decided.
    pub fn stop(&self) {
    }

    /// One look at the queue, given what the probe said. If nothing plays,
    /// the oldest request leaves the queue to be played now; it does not come
    /// back, whether its playback succeeds or not. While a video plays, and
    /// when the probe failed, the queue stays as it is; the probe's failure
    /// is handed on to be logged.
    pub fn check_if_theres_a_video_to_play(&mut self, probe: Result<bool, ProbeError>) -> (r: Result<
        Option<VideoRequest<C>>,
        ProbeError,
    >)
        ensures
            match probe {
                Ok(playing) => r is Ok && final(self)@ == tick(old(self)@, playing).queue
                    && request_view(r->Ok_0) == tick(old(self)@, playing).play,
                Err(error) => r == Err::<Option<VideoRequest<C>>, ProbeError>(error) && final(self)@
                    == old(self)@,
            },
    {
        match probe {
            Err(error) => Err(error),
            Ok(true) => Ok(None),
            Ok(false) => {
                let head = self.queue.pop_front();
                proof {
                    if head is Some {
                        assert(self@ =~= old(self)@.skip(1));
                    }
                }
                Ok(head)
            },
        }
    }
}

/// A request that may be missing, as the contracts see it.
pub open spec fn request_view<C>(request: Option<VideoRequest<C>>) -> Option<VideoRequestView<C>> {
    match request {
        Some(request) => Some(request@),
        None => None,
    }
}

/// What the loop that looks at the queue does next.
#[derive(Clone, Copy, Debug, PartialEq, Eq, Structural)]
pub enum Watch {
    /// The queue's owner is gone: the loop ends.
    Quit,
    /// The loop looks at the queue, then sleeps this many milliseconds.
    LookThenSleep(u64),
}

/// Decides whether the loop that looks at the queue goes on. It goes on as
/// long as the queue has an owner, and ends at the first look after.
pub fn watch(owner_alive: bool) -> (r: Watch)
    ensures
        r == if owner_alive {
            Watch::LookThenSleep(TICK_MILLIS)
        } else {
            Watch::Quit
        },
{
    if owner_alive {
        Watch::LookThenSleep(TICK_MILLIS)
    } else {
        Watch::Quit
    }
}

/// A look while a video plays hands out nothing and leaves the queue as it
/// is: no second playback begins beside the first.
pub proof fn lemma_nothing_starts_while_playing<R>(queue: Seq<R>)
    ensures
        tick(queue, true).play is None,
        tick(queue, true).queue == queue,
{
}

/// In any series of looks, each look for which the probe said that a video
/// plays hands out nothing.
pub proof fn lemma_single_flight<R>(queue: Seq<R>, probes: Seq<bool>, i: int)
    requires
        0 <= i < probes.len(),
        probes[i],
    ensures
        played(queue, probes).len() == probes.len(),
        played(queue, probes)[i] is None,
    decreases probes.len(),
{
    lemma_played_len(queue, probes);
    if i < probes.len() - 1 {
        lemma_single_flight(queue, probes.drop_last(), i);
        lemma_played_len(queue, probes.drop_last());
    }
}

/// Each look gives one answer.
pub proof fn lemma_played_len<R>(queue: Seq<R>, probes: Seq<bool>)
    ensures
        played(queue, probes).len() == probes.len(),
    decreases probes.len(),
{
    if probes.len() > 0 {
        lemma_played_len(queue, probes.drop_last());
    }
}

/// Requests leave the queue in the order in which they came: as long as
/// nothing plays, the first look hands out the oldest request, the next look
/// the one after it, and so on until the queue is empty, and nothing ever
/// else.
pub proof fn lemma_first_in_first_out<R>(queue: Seq<R>, looks: nat)
    ensures
        played(queue, idle(looks)).len() == looks,
        forall|i: int|
            0 <= i < looks ==> #[trigger] played(queue, idle(looks))[i] == if i < queue.len() {
                Some(queue[i])
            } else {
                None
            },
        queue_after(queue, idle(looks)) == if looks <= queue.len() {
            queue.skip(looks as int)
        } else {
            Seq::<R>::empty()
        },
    decreases looks,
{
    if looks > 0 {
        let before = (looks - 1) as nat;
        lemma_first_in_first_out(queue, before);
        assert(idle(looks).drop_last() =~= idle(before));
        let rest = queue_after(queue, idle(before));
        if before < queue.len() {
            assert(rest[0] == queue[before as int]);
            assert(rest.skip(1) =~= queue.skip(looks as int));
        } else {
            assert(rest.len() == 0);
        }
        assert(queue_after(queue, idle(looks)) =~= if looks <= queue.len() {
            queue.skip(looks as int)
        } else {
            Seq::<R>::empty()
        });
    }
}

/// A request that joins the queue waits behind all that came before it, and
/// changes nothing for them.
pub proof fn lemma_enqueue_keeps_order<R>(queue: Seq<R>, request: R, looks: nat)
    requires
        looks <= queue.len(),
    ensures
        played(queue.push(request), idle(looks)) == played(queue, idle(looks)),
        played(queue.push(request), idle(queue.len() + 1)).last() == Some(request),
{
    lemma_first_in_first_out(queue, looks);
    lemma_first_in_first_out(queue.push(request), looks);
    lemma_first_in_first_out(queue.push(request), queue.len() + 1);
    assert(played(queue.push(request), idle(looks)) =~= played(queue, idle(looks)));
}

} // verus!
