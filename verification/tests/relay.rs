use hbb_common::relay::{
    e2e_latency, pace_step, peer_step, send_step, should_echo, PaceAction, PeerAction, PeerRead,
    SendAction,
};
use hbb_common::video::{create_frame, video_frame_message, Message};

fn stamped(ts: i64) -> Message {
    video_frame_message(vec![create_frame(vec![1, 2])], ts)
}

#[test]
fn only_positively_stamped_video_frames_are_echoed() {
    assert!(should_echo(&stamped(1)));
    assert!(should_echo(&stamped(1_725_029_869_000)));
    assert!(!should_echo(&stamped(0)));
    assert!(!should_echo(&stamped(-5)));
    assert!(!should_echo(&Message { union: None }));
}

#[test]
fn peer_step_follows_each_read() {
    assert_eq!(peer_step(&PeerRead::Nothing), PeerAction::ReadAgain);
    assert_eq!(peer_step(&PeerRead::Failed), PeerAction::Stop);
    assert_eq!(peer_step(&PeerRead::Packet(None)), PeerAction::ReadAgain);
    assert_eq!(peer_step(&PeerRead::Packet(Some(stamped(0)))), PeerAction::ReadAgain);
    assert_eq!(peer_step(&PeerRead::Packet(Some(stamped(3)))), PeerAction::Echo);
    assert_eq!(peer_step(&PeerRead::Packet(Some(Message { union: None }))), PeerAction::ReadAgain);
}

#[test]
fn send_step_writes_until_queue_closes() {
    match send_step(Some(vec![4, 5])) {
        SendAction::Write(data) => assert_eq!(data, vec![4, 5]),
        SendAction::Stop => panic!("expected a write"),
    }
    assert!(matches!(send_step::<Vec<u8>>(None), SendAction::Stop));
}

#[test]
fn e2e_latency_is_now_minus_stamp() {
    assert_eq!(e2e_latency(1_000_250, &stamped(1_000_000)), Some(250));
    assert_eq!(e2e_latency(10, &stamped(0)), Some(10));
    assert_eq!(e2e_latency(10, &Message { union: None }), None);
}

#[test]
fn pace_step_sleeps_for_rest_of_period() {
    assert_eq!(pace_step(0, 40_000_000), PaceAction::Sleep(40_000_000));
    assert_eq!(pace_step(15_000_000, 40_000_000), PaceAction::Sleep(25_000_000));
    assert_eq!(pace_step(39_999_999, 40_000_000), PaceAction::Sleep(1));
}

#[test]
fn pace_step_reports_late_send() {
    assert_eq!(pace_step(40_000_000, 40_000_000), PaceAction::Late);
    assert_eq!(pace_step(90_000_000, 40_000_000), PaceAction::Late);
}
