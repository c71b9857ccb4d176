//! Video frame messages, and how the client stamps them for latency probing.
//!
//! The types follow the message schema of the relay: a `Message` carries a
//! `VideoFrame`, which carries a batch of VP9-encoded frames and a send
//! timestamp (0 where the frame is not stamped).

use crate::clock::{elapsed_secs, get_time, instant_now};
use std::time::Instant;
use vstd::prelude::*;

verus! {

/// Presentation timestamp given to every frame the client sends.
pub const FRAME_PTS: i64 = 25;

/// A message is stamped with the send time once more than this many whole
/// seconds have passed since the last stamped one.
pub const MARK_SEND_INTERVAL: u64 = 1;

/// One encoded video frame.
pub struct EncodedVideoFrame {
    pub data: Vec<u8>,
    pub key: bool,
    pub pts: i64,
}

/// A batch of encoded video frames.
pub struct EncodedVideoFrames {
    pub frames: Vec<EncodedVideoFrame>,
}

/// The encodings a video frame can carry.
pub enum VideoFrameUnion {
    Vp9s(EncodedVideoFrames),
}

/// A video frame: its encoded content and the time it was stamped at.
pub struct VideoFrame {
    pub union: Option<VideoFrameUnion>,
    pub timestamp: i64,
}

/// The payloads a message can carry.
pub enum MessageUnion {
    VideoFrame(VideoFrame),
}

/// A message between client and server.
pub struct Message {
    pub union: Option<MessageUnion>,
}

/// Mathematical value of an `EncodedVideoFrame`.
pub struct FrameView {
    pub data: Seq<u8>,
    pub key: bool,
    pub pts: i64,
}

/// Mathematical value of a `VideoFrame`: its VP9 batch, if any, and its timestamp.
pub struct VideoFrameView {
    pub vp9s: Option<Seq<FrameView>>,
    pub timestamp: i64,
}

/// Mathematical value of a `Message`: its video frame, if any.
pub struct MessageView {
    pub video_frame: Option<VideoFrameView>,
}

impl View for EncodedVideoFrame {
    type V = FrameView;

    open spec fn view(&self) -> FrameView {
        FrameView { data: self.data@, key: self.key, pts: self.pts }
    }
}

impl View for EncodedVideoFrames {
    type V = Seq<FrameView>;

    open spec fn view(&self) -> Seq<FrameView> {
        self.frames@.map_values(|f: EncodedVideoFrame| f@)
    }
}

impl View for VideoFrame {
    type V = VideoFrameView;

    open spec fn view(&self) -> VideoFrameView {
        VideoFrameView {
            vp9s: match self.union {
                Some(VideoFrameUnion::Vp9s(batch)) => Some(batch@),
                None => None,
            },
            timestamp: self.timestamp,
        }
    }
}

impl View for Message {
    type V = MessageView;

    open spec fn view(&self) -> MessageView {
        MessageView {
            video_frame: match self.union {
                Some(MessageUnion::VideoFrame(vf)) => Some(vf@),
                None => None,
            },
        }
    }
}

/// The message that carries the VP9 batch `frames` stamped with `timestamp`.
pub open spec fn video_message(frames: Seq<FrameView>, timestamp: i64) -> MessageView {
    MessageView {
        video_frame: Some(VideoFrameView { vp9s: Some(frames), timestamp: timestamp }),
    }
}

/// The views of a vector of frames.
pub open spec fn frames_view(frames: Seq<EncodedVideoFrame>) -> Seq<FrameView> {
    frames.map_values(|f: EncodedVideoFrame| f@)
}

/// The VP9 batch a message carries, if it carries a video frame with one.
pub open spec fn batch_of(msg: Message) -> Option<Seq<EncodedVideoFrame>> {
    match msg.union {
        Some(MessageUnion::VideoFrame(vf)) => match vf.union {
            Some(VideoFrameUnion::Vp9s(batch)) => Some(batch.frames@),
            None => None,
        },
        None => None,
    }
}

/// The send-time stamp of a message's video frame, if it carries one.
pub open spec fn stamp_of(msg: Message) -> Option<i64> {
    match msg.union {
        Some(MessageUnion::VideoFrame(vf)) => Some(vf.timestamp),
        None => None,
    }
}

/// `msg` is a video message whose VP9 batch is exactly the frames `frames`,
/// in order and unchanged, stamped with `timestamp`.
pub open spec fn carries(msg: Message, frames: Seq<EncodedVideoFrame>, timestamp: i64) -> bool {
    batch_of(msg) == Some(frames) && stamp_of(msg) == Some(timestamp)
}

/// A video message's view holds its frames element for element, each frame
/// with its data, key flag and presentation time, and its stamp as given.
pub proof fn lemma_video_message_carries_frames(frames: Seq<EncodedVideoFrame>, stamp: i64)
    ensures
        video_message(frames_view(frames), stamp).video_frame is Some,
        video_message(frames_view(frames), stamp).video_frame.unwrap().timestamp == stamp,
        video_message(frames_view(frames), stamp).video_frame.unwrap().vp9s is Some,
        video_message(frames_view(frames), stamp).video_frame.unwrap().vp9s.unwrap().len()
            == frames.len(),
        forall|i: int|
            0 <= i < frames.len() ==> #[trigger] video_message(
                frames_view(frames),
                stamp,
            ).video_frame.unwrap().vp9s.unwrap()[i] == (FrameView {
                data: frames[i].data@,
                key: frames[i].key,
                pts: frames[i].pts,
            }),
{
}

/// The stamping rule: a message built `elapsed` whole seconds after the last
/// stamp carries the time `now` and moves the mark once `elapsed` is 2 or
/// more; at 0 or 1 second it carries 0 and the mark stays.
pub proof fn lemma_stamp_due_after_two_seconds(elapsed: u64, now: i64)
    ensures
        elapsed >= 2 ==> stamp_for(elapsed, now) == now,
        elapsed <= 1 ==> stamp_for(elapsed, now) == 0,
{
}

/// Wraps the bytes of one picture as a key frame with presentation time `FRAME_PTS`.
pub fn create_frame(frame: Vec<u8>) -> (f: EncodedVideoFrame)
    ensures
        f@ == (FrameView { data: frame@, key: true, pts: FRAME_PTS }),
{
    EncodedVideoFrame { data: frame, key: true, pts: FRAME_PTS }
}

/// Whether a message is due for a send-time stamp, `elapsed` whole seconds
/// after the last stamp.
pub fn mark_due(elapsed: u64) -> (due: bool)
    ensures
        due == (elapsed > MARK_SEND_INTERVAL),
{
    elapsed > MARK_SEND_INTERVAL
}

/// The message that carries the VP9 batch `vp9s`, stamped with `timestamp`
/// (0 for no stamp).
pub fn video_frame_message(vp9s: Vec<EncodedVideoFrame>, timestamp: i64) -> (msg: Message)
    ensures
        msg@ == video_message(frames_view(vp9s@), timestamp),
        carries(msg, vp9s@, timestamp),
{
    let vf = VideoFrame {
        union: Some(VideoFrameUnion::Vp9s(EncodedVideoFrames { frames: vp9s })),
        timestamp: timestamp,
    };
    Message { union: Some(MessageUnion::VideoFrame(vf)) }
}

/// The send-time stamp of a message built `elapsed` whole seconds after the
/// last stamp, at Unix time `now` (ms): `now` where a stamp is due, 0 otherwise.
pub open spec fn stamp_for(elapsed: u64, now: i64) -> i64 {
    if elapsed > MARK_SEND_INTERVAL {
        now
    } else {
        0
    }
}

/// The message for the batch `vp9s`, built `elapsed` whole seconds after the
/// last stamp at Unix time `now` (ms), and whether the stamp mark moves to now:
/// where more than `MARK_SEND_INTERVAL` seconds have passed the message is
/// stamped with `now` and the mark moves; otherwise the stamp is 0 and the
/// mark stays.
pub fn create_msg_at(vp9s: Vec<EncodedVideoFrame>, elapsed: u64, now: i64) -> (r: (Message, bool))
    ensures
        r.0@ == video_message(frames_view(vp9s@), stamp_for(elapsed, now)),
        r.1 == (elapsed > MARK_SEND_INTERVAL),
        elapsed >= 2 ==> carries(r.0, vp9s@, now) && r.1,
        elapsed <= 1 ==> carries(r.0, vp9s@, 0) && !r.1,
{
    let due = mark_due(elapsed);
    let stamp: i64 = if due {
        now
    } else {
        0
    };
    (video_frame_message(vp9s, stamp), due)
}

/// Builds the message for the batch `vp9s` with `create_msg_at`, from the
/// whole seconds elapsed since `last_send_marked` and, where a stamp is due,
/// the current Unix time in milliseconds; `last_send_marked` moves to now
/// exactly where the stamp was due.
pub fn create_msg(vp9s: Vec<EncodedVideoFrame>, last_send_marked: &mut Instant) -> (msg: Message)
    ensures
        exists|elapsed: u64, now: i64|
            {
                &&& msg@ == video_message(frames_view(vp9s@), stamp_for(elapsed, now))
                &&& elapsed <= MARK_SEND_INTERVAL ==> *final(last_send_marked) == *old(
                    last_send_marked,
                )
            },
        batch_of(msg) == Some(vp9s@),
{
    let elapsed = elapsed_secs(last_send_marked);
    let now: i64 = if mark_due(elapsed) {
        get_time()
    } else {
        0
    };
    let (msg, moved) = create_msg_at(vp9s, elapsed, now);
    if moved {
        *last_send_marked = instant_now();
    }
    msg
}

} // verus!
