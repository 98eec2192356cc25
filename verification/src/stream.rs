//! The live stream: changes of the catalog and a steady heartbeat, merged
//! into the frames of one long response, in the order they arrive.

use vstd::prelude::*;
use vstd::string::StringExecFns;

use crate::http::{Body, BodyView, ContentType, Header, Response, ResponseView, Status};

verus! {

/// The time between two heartbeats, in milliseconds.
pub const HEARTBEAT_MILLIS: u64 = 1000;

/// For how many seconds a cache may keep the response that opens a stream.
pub const STREAM_MAX_AGE: u32 = 29;

/// What can happen to an open stream.
#[derive(Clone, Debug, PartialEq, Eq)]
pub enum StreamEvent {
    /// The storage announced a change, with this payload.
    Change(String),
    /// The heartbeat timer fired.
    Tick,
    /// The subscription to the storage's announcements broke.
    SubscriptionFailed,
    /// The client went away.
    Disconnected,
}

/// The mathematical value of a [`StreamEvent`].
pub enum StreamEventView {
    Change(Seq<char>),
    Tick,
    SubscriptionFailed,
    Disconnected,
}

impl DeepView for StreamEvent {
    type V = StreamEventView;

    open spec fn deep_view(&self) -> StreamEventView {
        match self {
            StreamEvent::Change(payload) => StreamEventView::Change(payload@),
            StreamEvent::Tick => StreamEventView::Tick,
            StreamEvent::SubscriptionFailed => StreamEventView::SubscriptionFailed,
            StreamEvent::Disconnected => StreamEventView::Disconnected,
        }
    }
}

/// The frame of a heartbeat.
pub open spec fn ping() -> Seq<char> {
    "event: ping\n\n"@
}

/// The frame that an event is sent as: the payload of a change as it came, a
/// heartbeat as [`ping`]. An event that ends the stream has no frame.
pub open spec fn frame_of(event: StreamEventView) -> Option<Seq<char>> {
    match event {
        StreamEventView::Change(payload) => Some(payload),
        StreamEventView::Tick => Some(ping()),
        StreamEventView::SubscriptionFailed => None,
        StreamEventView::Disconnected => None,
    }
}

/// The frames that a stream sends while these events arrive: one for each
/// event, in the order of arrival, up to the first event that ends it.
pub open spec fn frames(events: Seq<StreamEventView>) -> Seq<Seq<char>>
    decreases events.len(),
{
    if events.len() == 0 {
        Seq::empty()
    } else {
        match frame_of(events[0]) {
            Some(frame) => seq![frame] + frames(events.drop_first()),
            None => Seq::empty(),
        }
    }
}

/// The response that opens a stream: an event stream that caches may keep
/// for [`STREAM_MAX_AGE`] seconds, on a connection that stays open.
pub open spec fn stream_reply() -> ResponseView {
    ResponseView {
        status: Status::Success,
        headers: seq![
            Header::ContentType(ContentType::EventStream),
            Header::CachePublic(STREAM_MAX_AGE),
            Header::KeepAlive,
        ],
        body: BodyView::Stream,
    }
}

/// Makes the response that opens a stream.
pub fn stream_response() -> (response: Response)
    ensures
        response.deep_view() == stream_reply(),
{
    let mut headers: Vec<Header> = Vec::new();
    headers.push(Header::ContentType(ContentType::EventStream));
    headers.push(Header::CachePublic(STREAM_MAX_AGE));
    headers.push(Header::KeepAlive);
    assert(headers@ =~= seq![
        Header::ContentType(ContentType::EventStream),
        Header::CachePublic(STREAM_MAX_AGE),
        Header::KeepAlive,
    ]);
    Response { status: Status::Success, headers, body: Body::Stream }
}

/// One client's stream: open until an event ends it.
#[derive(Debug)]
pub struct Bridge {
    live: bool,
}

impl Bridge {
    /// Whether the stream is still open.
    pub closed spec fn live(self) -> bool {
        self.live
    }

    /// A stream that was just opened.
    pub fn open() -> (bridge: Bridge)
        ensures
            bridge.live(),
    {
        Bridge { live: true }
    }

    /// Whether the stream is still open. Once it is not, the subscription and
    /// the timer behind it are to be released.
    pub fn is_live(&self) -> (live: bool)
        ensures
            live == self.live(),
    {
        self.live
    }

    /// Takes in an event and returns the frame to send for it. An open stream
    /// sends the frame of the event, and closes on an event that has none.
    /// A closed stream sends nothing and stays closed.
    pub fn on_event(&mut self, event: StreamEvent) -> (frame: Option<String>)
        ensures
            frame.deep_view() == if old(self).live() {
                frame_of(event.deep_view())
            } else {
                None
            },
            final(self).live() == (old(self).live() && frame_of(event.deep_view()) is Some),
    {
        if !self.live {
            return None;
        }
        match event {
            StreamEvent::Change(payload) => Some(payload),
            StreamEvent::Tick => Some(String::from_str("event: ping\n\n")),
            StreamEvent::SubscriptionFailed => {
                self.live = false;
                None
            },
            StreamEvent::Disconnected => {
                self.live = false;
                None
            },
        }
    }
}

/// What a stream sends while it takes in these events one by one, as
/// [`Bridge::on_event`] does, starting open or closed.
pub open spec fn relayed(live: bool, events: Seq<StreamEventView>) -> Seq<Seq<char>>
    decreases events.len(),
{
    if events.len() == 0 {
        Seq::empty()
    } else if live && frame_of(events[0]) is Some {
        seq![frame_of(events[0])->0] + relayed(true, events.drop_first())
    } else {
        relayed(false, events.drop_first())
    }
}

/// A stream that is taken through its events one by one sends the frames of
/// those before the first that ends it, and after that nothing, whatever
/// arrives.
pub proof fn law_nothing_follows_the_end(events: Seq<StreamEventView>)
    ensures
        relayed(true, events) == frames(events),
        relayed(false, events) == Seq::<Seq<char>>::empty(),
    decreases events.len(),
{
    if events.len() > 0 {
        law_nothing_follows_the_end(events.drop_first());
    }
}

/// Frames go out in the order of arrival, none held back and none added:
/// where the first `n` events each have a frame and the stream ends or the
/// events run out after them, the frames sent are those `n`, in that order.
pub proof fn law_frames_follow_arrival(events: Seq<StreamEventView>, n: int)
    requires
        0 <= n <= events.len(),
        forall|j: int| 0 <= j < n ==> frame_of(#[trigger] events[j]) is Some,
        n < events.len() ==> frame_of(events[n]) is None,
    ensures
        frames(events) == Seq::new(n as nat, |j: int| frame_of(events[j])->0),
    decreases n,
{
    if n == 0 {
        assert(frames(events) =~= Seq::new(0, |j: int| frame_of(events[j])->0));
    } else {
        let rest = events.drop_first();
        assert(frame_of(events[0]) is Some);
        assert forall|j: int| 0 <= j < n - 1 implies frame_of(#[trigger] rest[j]) is Some by {
            assert(rest[j] == events[j + 1]);
        }
        if n < events.len() {
            assert(rest[n - 1] == events[n]);
        }
        law_frames_follow_arrival(rest, n - 1);
        assert(frames(events) =~= Seq::new(n as nat, |j: int| frame_of(events[j])->0)) by {
            assert forall|j: int| 0 < j < n implies rest[j - 1] == events[j] by {}
        }
    }
}

/// While the storage announces no change, a stream sends heartbeats and
/// nothing else.
pub proof fn law_quiet_stream_only_pings(events: Seq<StreamEventView>)
    requires
        forall|j: int| 0 <= j < events.len() ==> !((#[trigger] events[j]) is Change),
    ensures
        forall|i: int| 0 <= i < frames(events).len() ==> (#[trigger] frames(events)[i]) == ping(),
        events.len() > 0 && events[0] is Tick ==> frames(events).len() >= 1,
    decreases events.len(),
{
    if events.len() > 0 {
        let rest = events.drop_first();
        assert forall|j: int| 0 <= j < rest.len() implies !((#[trigger] rest[j]) is Change) by {
            assert(rest[j] == events[j + 1]);
        }
        law_quiet_stream_only_pings(rest);
        assert(!(events[0] is Change));
        assert forall|i: int| 0 <= i < frames(events).len() implies (#[trigger] frames(
            events,
        )[i]) == ping() by {
            if i > 0 {
                assert(frames(events)[i] == frames(rest)[i - 1]);
            }
        }
    }
}

} // verus!
