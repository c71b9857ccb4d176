//! The decisions of the relay: what the server does with each read from a
//! peer, what the sending task does with each queued packet, how the client
//! paces its sends, and the end-to-end latency the client reports.
//!
//! The reads, sends and waits themselves are I/O; each function here maps one
//! event to the action to perform.

use crate::video::{FrameView, Message, MessageUnion, MessageView, VideoFrameView, video_message};
use vstd::prelude::*;

verus! {

/// What one read from a peer's stream gave the server.
pub enum PeerRead {
    /// The stream yielded nothing.
    Nothing,
    /// Reading failed.
    Failed,
    /// A packet arrived; `Some` of its message where it parsed.
    Packet(Option<Message>),
}

/// What the server does after a read.
#[derive(Debug, Clone, Copy, PartialEq, Eq, Structural)]
pub enum PeerAction {
    /// Read again.
    ReadAgain,
    /// Send the packet back to the peer as received, then read again.
    Echo,
    /// Stop serving this stream.
    Stop,
}

/// What the sending task does with the next item of its queue.
pub enum SendAction<P> {
    /// Write this packet to the stream.
    Write(P),
    /// The queue is closed: stop.
    Stop,
}

/// What the client does once a frame is sent.
#[derive(Debug, Clone, Copy, PartialEq, Eq, Structural)]
pub enum PaceAction {
    /// Sleep this many nanoseconds, the rest of the frame period.
    Sleep(u128),
    /// The send took the whole frame period: report that sending is slow.
    Late,
}

/// A message is echoed when it carries a video frame stamped with a positive time.
pub open spec fn echoes(msg: MessageView) -> bool {
    msg.video_frame matches Some(vf) && vf.timestamp > 0
}

/// Whether the server sends `msg` back to its sender: only video frames that
/// carry a positive send timestamp are.
pub fn should_echo(msg: &Message) -> (b: bool)
    ensures
        b == echoes(msg@),
        b == (msg.union matches Some(MessageUnion::VideoFrame(vf)) && vf.timestamp > 0),
{
    match &msg.union {
        Some(MessageUnion::VideoFrame(vf)) => vf.timestamp > 0,
        None => false,
    }
}

/// Whether a message is echoed depends only on its video frame's stamp: any
/// video frame stamped with a positive time is echoed, whatever it carries
/// (VP9 frames, or a payload this library does not model), and a message
/// without a video frame never is.
pub proof fn lemma_echo_depends_only_on_stamp(
    payload: Option<Seq<FrameView>>,
    other: Option<Seq<FrameView>>,
    stamp: i64,
)
    ensures
        echoes(MessageView { video_frame: Some(VideoFrameView { vp9s: payload, timestamp: stamp }) })
            == (stamp > 0),
        echoes(MessageView { video_frame: Some(VideoFrameView { vp9s: payload, timestamp: stamp }) })
            == echoes(
            MessageView { video_frame: Some(VideoFrameView { vp9s: other, timestamp: stamp }) },
        ),
        !echoes(MessageView { video_frame: None }),
        peer_read_action_on(
            MessageView { video_frame: Some(VideoFrameView { vp9s: payload, timestamp: stamp }) },
        ) == (if stamp > 0 {
            PeerAction::Echo
        } else {
            PeerAction::ReadAgain
        }),
{
}

/// The server echoes a video message built by the client exactly when the
/// client stamped it with a positive send time; an unstamped one (stamp 0) is
/// never echoed.
pub proof fn lemma_echoes_exactly_stamped(frames: Seq<FrameView>, stamp: i64)
    ensures
        echoes(video_message(frames, stamp)) == (stamp > 0),
        peer_read_action_on(video_message(frames, stamp)) == (if stamp > 0 {
            PeerAction::Echo
        } else {
            PeerAction::ReadAgain
        }),
{
}

/// The server's action on a packet that parsed to the message `msg`.
pub open spec fn peer_read_action_on(msg: MessageView) -> PeerAction {
    if echoes(msg) {
        PeerAction::Echo
    } else {
        PeerAction::ReadAgain
    }
}

/// The server's action after the read `read`.
pub fn peer_step(read: &PeerRead) -> (a: PeerAction)
    ensures
        match read {
            PeerRead::Nothing => a == PeerAction::ReadAgain,
            PeerRead::Failed => a == PeerAction::Stop,
            PeerRead::Packet(None) => a == PeerAction::ReadAgain,
            PeerRead::Packet(Some(msg)) => a == peer_read_action_on(msg@),
        },
{
    match read {
        PeerRead::Nothing => PeerAction::ReadAgain,
        PeerRead::Failed => PeerAction::Stop,
        PeerRead::Packet(None) => PeerAction::ReadAgain,
        PeerRead::Packet(Some(msg)) => if should_echo(msg) {
            PeerAction::Echo
        } else {
            PeerAction::ReadAgain
        },
    }
}

/// The sending task's action on the next item of its queue: write a packet,
/// or stop once the queue is closed (`None`).
pub fn send_step<P>(next: Option<P>) -> (a: SendAction<P>)
    ensures
        match next {
            Some(packet) => a matches SendAction::Write(out) && out == packet,
            None => a is Stop,
        },
{
    match next {
        Some(packet) => SendAction::Write(packet),
        None => SendAction::Stop,
    }
}

/// The client's pacing after a send that took `elapsed_nanos` of a frame
/// period of `period_nanos`: sleep for the rest of the period, or report a
/// late send where none is left.
pub fn pace_step(elapsed_nanos: u128, period_nanos: u128) -> (a: PaceAction)
    ensures
        elapsed_nanos < period_nanos ==> a == PaceAction::Sleep((period_nanos - elapsed_nanos) as u128),
        elapsed_nanos >= period_nanos ==> a == PaceAction::Late,
{
    if elapsed_nanos < period_nanos {
        PaceAction::Sleep(period_nanos - elapsed_nanos)
    } else {
        PaceAction::Late
    }
}

/// The end-to-end latency the client reports for a message echoed back to it
/// at Unix time `now` (ms): `now` minus the frame's stamp; `None` for a
/// message without a video frame.
pub fn e2e_latency(now: i64, msg: &Message) -> (latency: Option<i64>)
    requires
        msg@.video_frame matches Some(vf) ==> i64::MIN <= now - vf.timestamp <= i64::MAX,
    ensures
        match msg@.video_frame {
            Some(vf) => latency == Some((now - vf.timestamp) as i64),
            None => latency is None,
        },
{
    match &msg.union {
        Some(MessageUnion::VideoFrame(vf)) => Some(now - vf.timestamp),
        None => None,
    }
}

} // verus!
