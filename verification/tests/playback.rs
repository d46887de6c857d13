use virtual_camera::playback::{Command, DecodedFrame, Event, PassEnd, Playback};

const SECOND: u128 = 1_000_000_000;

fn tell(playback: &mut Playback, event: Event) {
    assert!(playback.admits(event));
    playback.step(event);
}

fn frame(pts: Option<i64>) -> DecodedFrame {
    DecodedFrame { width: 640, height: 480, planar_420: true, pts }
}

fn received(pts: i64) -> Event {
    Event::FrameReceived(Some(frame(Some(pts))))
}

fn packet(now: u128) -> Event {
    Event::PacketRead { stream: 3, now }
}

/// Opens the file and begins a pass over stream 3.
fn open(playback: &mut Playback, now: u128) {
    assert_eq!(playback.command, Command::OpenInput);
    tell(playback, Event::Opened(true));
    assert_eq!(playback.command, Command::FindVideoStream);
    tell(playback, Event::StreamFound(Some(3)));
    assert_eq!(playback.command, Command::CreateDecoder);
    tell(playback, Event::DecoderCreated { ok: true, now });
    assert_eq!(playback.command, Command::ReadPacket);
}

/// Plays one frame to its end and returns its distance from the start of the
/// pass.
fn play(playback: &mut Playback, pts: i64) -> i64 {
    assert_eq!(playback.command, Command::ReceiveFrame);
    tell(playback, received(pts));
    let ticks = match playback.command {
        Command::EncodeFrame { pts: p, ticks } => {
            assert_eq!(p, pts);
            ticks
        }
        other => panic!("{other:?}"),
    };
    tell(playback, Event::FrameEncoded(true));
    assert_eq!(playback.command, Command::AwaitFrame { pts, ticks });
    tell(playback, Event::FrameDue);
    assert_eq!(playback.command, Command::PublishFrame { pts, ticks });
    tell(playback, Event::FramePublished(true));
    assert_eq!(playback.command, Command::ReceiveFrame);
    ticks
}

fn send(playback: &mut Playback, now: u128) {
    tell(playback, packet(now));
    assert_eq!(playback.command, Command::SendPacket);
    tell(playback, Event::PacketSent(true));
    assert_eq!(playback.command, Command::ReceiveFrame);
}

#[test]
fn playback_begins_by_opening_the_file() {
    let playback = Playback::new();
    assert_eq!(playback.command, Command::OpenInput);
    assert_eq!(playback.start_pts, None);
    assert_eq!(playback.loop_start_pts, None);
    assert_eq!(playback.last_pts, None);
}

#[test]
fn setup_failures_are_retried_after_a_second() {
    let wait = Command::Backoff { seconds: 1 };
    let mut playback = Playback::new();
    tell(&mut playback, Event::Opened(false));
    assert_eq!(playback.command, wait);
    tell(&mut playback, Event::BackedOff);
    tell(&mut playback, Event::Opened(true));
    tell(&mut playback, Event::StreamFound(None));
    assert_eq!(playback.command, wait);
    tell(&mut playback, Event::BackedOff);
    tell(&mut playback, Event::Opened(true));
    tell(&mut playback, Event::StreamFound(Some(0)));
    tell(&mut playback, Event::DecoderCreated { ok: false, now: 0 });
    assert_eq!(playback.command, wait);
    tell(&mut playback, Event::BackedOff);
    assert_eq!(playback, Playback::new());
}

#[test]
fn passes_follow_one_another_without_a_gap() {
    let mut playback = Playback::new();
    let mut offset: i64 = 0;
    let mut due = Vec::new();
    for _ in 0..3 {
        open(&mut playback, 0);
        send(&mut playback, 0);
        for pts in [100, 140, 180] {
            due.push(offset + play(&mut playback, pts));
        }
        tell(&mut playback, Event::FrameReceived(None));
        tell(&mut playback, Event::PacketsExhausted);
        let done = Command::FinishPass { end: PassEnd::StreamEnded, duration: Some(80) };
        assert_eq!(playback.command, done);
        offset += 80;
        tell(&mut playback, Event::PassFinished);
        assert_eq!(playback.start_pts, Some(100));
        assert_eq!(playback.loop_start_pts, None);
    }
    assert_eq!(due, vec![0, 40, 80, 80, 120, 160, 160, 200, 240]);
}

#[test]
fn pass_without_frames_has_no_duration() {
    let mut playback = Playback::new();
    open(&mut playback, 0);
    tell(&mut playback, Event::PacketsExhausted);
    let done = Command::FinishPass { end: PassEnd::StreamEnded, duration: None };
    assert_eq!(playback.command, done);
}

#[test]
fn frames_without_timestamp_count_as_zero() {
    let mut playback = Playback::new();
    open(&mut playback, 0);
    send(&mut playback, 0);
    tell(&mut playback, Event::FrameReceived(Some(frame(None))));
    assert_eq!(playback.command, Command::EncodeFrame { pts: 0, ticks: 0 });
    assert_eq!(playback.last_pts, Some(0));
}

#[test]
fn earlier_timestamps_give_negative_distances() {
    let mut playback = Playback::new();
    open(&mut playback, 0);
    send(&mut playback, 0);
    assert_eq!(play(&mut playback, 50), 0);
    assert_eq!(play(&mut playback, 20), -30);
}

#[test]
fn packets_of_other_streams_are_passed_over() {
    let mut playback = Playback::new();
    open(&mut playback, 0);
    let before = playback;
    tell(&mut playback, Event::PacketRead { stream: 2, now: 100 * SECOND });
    assert_eq!(playback, before);
}

#[test]
fn six_seconds_without_a_packet_restart_the_stream() {
    let mut playback = Playback::new();
    open(&mut playback, SECOND);
    let mut late = playback;
    tell(&mut playback, packet(7 * SECOND - 1));
    assert_eq!(playback.command, Command::SendPacket);
    assert_eq!(playback.last_packet_time, 7 * SECOND - 1);
    tell(&mut late, packet(7 * SECOND));
    let stalled = Command::FinishPass { end: PassEnd::Stalled, duration: None };
    assert_eq!(late.command, stalled);
    let mut back = Playback::new();
    open(&mut back, 10 * SECOND);
    tell(&mut back, packet(SECOND));
    assert_eq!(back.command, Command::SendPacket);
}

#[test]
fn thousand_packets_without_a_frame_are_decoded() {
    let mut playback = Playback::new();
    open(&mut playback, 0);
    for _ in 0..1000 {
        send(&mut playback, 0);
        tell(&mut playback, Event::FrameReceived(None));
    }
    tell(&mut playback, packet(0));
    let none = Command::FinishPass { end: PassEnd::NoValidFrames, duration: None };
    assert_eq!(playback.command, none);
    assert_eq!(playback.packet_count, 1001);
}

#[test]
fn packets_after_the_first_frame_are_not_limited() {
    let mut playback = Playback::new();
    open(&mut playback, 0);
    send(&mut playback, 0);
    play(&mut playback, 5);
    assert_eq!(playback.packet_count, 0);
    tell(&mut playback, Event::FrameReceived(None));
    for _ in 0..1500 {
        send(&mut playback, 0);
        tell(&mut playback, Event::FrameReceived(None));
    }
    assert_eq!(playback.command, Command::ReadPacket);
    assert_eq!(playback.packet_count, 1500);
}

#[test]
fn refused_packet_ends_the_pass() {
    let mut playback = Playback::new();
    open(&mut playback, 0);
    send(&mut playback, 0);
    play(&mut playback, 10);
    play(&mut playback, 25);
    tell(&mut playback, Event::FrameReceived(None));
    tell(&mut playback, packet(0));
    tell(&mut playback, Event::PacketSent(false));
    let refused = Command::FinishPass { end: PassEnd::DecodeError, duration: Some(15) };
    assert_eq!(playback.command, refused);
}

#[test]
fn empty_frames_are_ignored() {
    let mut playback = Playback::new();
    open(&mut playback, 0);
    send(&mut playback, 0);
    let before = playback;
    for (width, height) in [(0, 480), (640, 0), (0, 0)] {
        let empty = DecodedFrame { width, height, planar_420: true, pts: Some(1) };
        tell(&mut playback, Event::FrameReceived(Some(empty)));
        assert_eq!(playback, before);
    }
}

#[test]
fn other_formats_are_converted_with_one_scaler() {
    let mut playback = Playback::new();
    open(&mut playback, 0);
    send(&mut playback, 0);
    let rgb = |pts| DecodedFrame { width: 2, height: 2, planar_420: false, pts: Some(pts) };
    tell(&mut playback, Event::FrameReceived(Some(rgb(7))));
    assert_eq!(playback.command, Command::CreateScaler { raw_pts: Some(7) });
    assert_eq!(playback.packet_count, 0);
    tell(&mut playback, Event::ScalerCreated(false));
    assert_eq!(playback.command, Command::ReceiveFrame);
    tell(&mut playback, Event::FrameReceived(Some(rgb(8))));
    tell(&mut playback, Event::ScalerCreated(true));
    assert_eq!(playback.command, Command::ScaleFrame { raw_pts: Some(8) });
    tell(&mut playback, Event::FrameScaled(false));
    assert_eq!(playback.loop_start_pts, None);
    tell(&mut playback, Event::FrameReceived(Some(rgb(9))));
    assert_eq!(playback.command, Command::ScaleFrame { raw_pts: Some(9) });
    tell(&mut playback, Event::FrameScaled(true));
    assert_eq!(playback.command, Command::EncodeFrame { pts: 9, ticks: 0 });
}

#[test]
fn frames_that_fail_are_skipped() {
    let mut playback = Playback::new();
    open(&mut playback, 0);
    send(&mut playback, 0);
    tell(&mut playback, received(1));
    tell(&mut playback, Event::FrameEncoded(false));
    assert_eq!(playback.command, Command::ReceiveFrame);
    assert_eq!(playback.last_pts, Some(1));
    tell(&mut playback, received(2));
    tell(&mut playback, Event::FrameEncoded(true));
    tell(&mut playback, Event::FrameDue);
    tell(&mut playback, Event::FramePublished(false));
    assert_eq!(playback.command, Command::ReceiveFrame);
    assert_eq!(playback.last_pts, Some(2));
}

#[test]
fn events_that_do_not_answer_are_not_admitted() {
    let mut playback = Playback::new();
    assert!(!playback.admits(Event::BackedOff));
    assert!(!playback.admits(Event::PassFinished));
    open(&mut playback, 0);
    assert!(!playback.admits(Event::Opened(true)));
    send(&mut playback, 0);
    play(&mut playback, i64::MIN);
    assert!(!playback.admits(received(0)));
    assert!(playback.admits(received(-1)));
}
