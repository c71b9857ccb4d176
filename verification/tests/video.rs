use hbb_common::video::{
    create_frame, create_msg, create_msg_at, mark_due, video_frame_message, Message, MessageUnion,
    VideoFrame, VideoFrameUnion, FRAME_PTS, MARK_SEND_INTERVAL,
};
use std::time::{Duration, Instant};

fn video_frame(msg: &Message) -> &VideoFrame {
    match &msg.union {
        Some(MessageUnion::VideoFrame(vf)) => vf,
        None => panic!("no video frame"),
    }
}

fn vp9_datas(vf: &VideoFrame) -> Vec<Vec<u8>> {
    match &vf.union {
        Some(VideoFrameUnion::Vp9s(batch)) => batch.frames.iter().map(|f| f.data.clone()).collect(),
        None => panic!("no vp9 batch"),
    }
}

#[test]
fn create_frame_makes_key_frame() {
    let f = create_frame(vec![9, 8, 7]);
    assert_eq!(f.data, vec![9, 8, 7]);
    assert!(f.key);
    assert_eq!(f.pts, 25);
    assert_eq!(FRAME_PTS, 25);
}

#[test]
fn mark_due_after_more_than_interval() {
    assert_eq!(MARK_SEND_INTERVAL, 1);
    assert!(!mark_due(0));
    assert!(!mark_due(1));
    assert!(mark_due(2));
    assert!(mark_due(u64::MAX));
}

#[test]
fn video_frame_message_carries_batch_and_stamp() {
    let msg = video_frame_message(vec![create_frame(vec![1]), create_frame(vec![2, 3])], 42);
    let vf = video_frame(&msg);
    assert_eq!(vf.timestamp, 42);
    assert_eq!(vp9_datas(vf), vec![vec![1], vec![2, 3]]);
}

#[test]
fn create_msg_soon_after_mark_is_unstamped() {
    let start = Instant::now();
    let mut last = start;
    let msg = create_msg(vec![create_frame(vec![5; 4])], &mut last);
    let vf = video_frame(&msg);
    assert_eq!(vf.timestamp, 0);
    assert_eq!(last, start);
    assert_eq!(vp9_datas(vf), vec![vec![5; 4]]);
}

#[test]
fn create_msg_long_after_mark_is_stamped() {
    let start = Instant::now().checked_sub(Duration::from_secs(3)).unwrap();
    let mut last = start;
    let msg = create_msg(vec![create_frame(vec![6])], &mut last);
    let vf = video_frame(&msg);
    assert!(vf.timestamp > 1_600_000_000_000);
    assert!(last > start);
    assert!(last.elapsed() < Duration::from_secs(1));
    assert_eq!(vp9_datas(vf), vec![vec![6]]);
}

#[test]
fn create_msg_at_stamps_only_after_more_than_interval() {
    for elapsed in [0u64, 1] {
        let (msg, moved) = create_msg_at(vec![create_frame(vec![1])], elapsed, 1_700_000_000_000);
        assert_eq!(video_frame(&msg).timestamp, 0);
        assert!(!moved);
        assert_eq!(vp9_datas(video_frame(&msg)), vec![vec![1]]);
    }
    for elapsed in [2u64, 3600] {
        let (msg, moved) = create_msg_at(vec![create_frame(vec![2])], elapsed, 1_700_000_000_000);
        assert_eq!(video_frame(&msg).timestamp, 1_700_000_000_000);
        assert!(moved);
        assert_eq!(vp9_datas(video_frame(&msg)), vec![vec![2]]);
    }
}

#[test]
fn create_msg_one_and_a_half_seconds_after_mark_is_unstamped() {
    let start = Instant::now().checked_sub(Duration::from_millis(1500)).unwrap();
    let mut last = start;
    let msg = create_msg(vec![], &mut last);
    assert_eq!(video_frame(&msg).timestamp, 0);
    assert_eq!(last, start);
}
