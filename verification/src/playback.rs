//! The endless playback of one video file as a state machine.
//!
//! A [`Playback`] always holds the one [`Command`] that is to be carried out
//! next. The caller carries it out (opens the file, decodes a packet, waits,
//! publishes a frame) and reports what came of it as an [`Event`];
//! [`Playback::step`] then decides how to go on. Timestamps are counted in
//! ticks of the stream's time base, clock readings in nanoseconds since a
//! moment that the caller fixes once.

use vstd::prelude::*;

verus! {

/// Seconds to wait before the file is opened again after a failed attempt.
pub const RETRY_SECONDS: u64 = 1;

/// A pause between two video packets of more whole seconds than this restarts
/// the stream.
pub const STALL_SECONDS: u128 = 5;

/// Nanoseconds in one second.
pub const NANOS_PER_SECOND: u128 = 1_000_000_000;

/// Video packets that one pass may decode before its first frame.
pub const PACKETS_BEFORE_FIRST_FRAME: u32 = 1000;

/// Why a pass through the file came to its end.
#[derive(Clone, Copy, Debug, PartialEq, Eq, Structural)]
pub enum PassEnd {
    /// The file has no more packets.
    StreamEnded,
    /// No video packet arrived for too long.
    Stalled,
    /// Too many packets were decoded without a single frame.
    NoValidFrames,
    /// The decoder refused a packet.
    DecodeError,
}

/// What is to be done next.
#[derive(Clone, Copy, Debug, PartialEq, Eq, Structural)]
pub enum Command {
    /// Open the file.
    OpenInput,
    /// Choose the best video stream of the opened file.
    FindVideoStream,
    /// Create a decoder for the chosen stream.
    CreateDecoder,
    /// Wait before the next attempt to open the file.
    Backoff { seconds: u64 },
    /// Read the next packet.
    ReadPacket,
    /// Hand the packet to the decoder.
    SendPacket,
    /// Ask the decoder for its next frame.
    ReceiveFrame,
    /// Create the converter to planar 4:2:0 for the frame in hand.
    CreateScaler { raw_pts: Option<i64> },
    /// Convert the frame in hand to planar 4:2:0.
    ScaleFrame { raw_pts: Option<i64> },
    /// Turn the frame in hand into a message.
    EncodeFrame { pts: i64, ticks: i64 },
    /// Wait until the frame in hand is due.
    AwaitFrame { pts: i64, ticks: i64 },
    /// Publish the message in hand.
    PublishFrame { pts: i64, ticks: i64 },
    /// Close the pass, adding its duration to the time played so far.
    FinishPass { end: PassEnd, duration: Option<i64> },
}

/// A frame as the decoder hands it out.
#[derive(Clone, Copy, Debug, PartialEq, Eq, Structural)]
pub struct DecodedFrame {
    pub width: u32,
    pub height: u32,
    /// Whether the pixels are planar 4:2:0 already.
    pub planar_420: bool,
    /// The presentation timestamp, where the frame has one.
    pub pts: Option<i64>,
}

/// What came of a command.
#[derive(Clone, Copy, Debug, PartialEq, Eq, Structural)]
pub enum Event {
    /// Whether the file could be opened.
    Opened(bool),
    /// The index of the video stream, where the file has one.
    StreamFound(Option<usize>),
    /// Whether the decoder could be created, and when.
    DecoderCreated { ok: bool, now: u128 },
    /// The wait is over.
    BackedOff,
    /// A packet of the given stream was read at the given moment.
    PacketRead { stream: usize, now: u128 },
    /// The file has no more packets.
    PacketsExhausted,
    /// Whether the decoder took the packet.
    PacketSent(bool),
    /// The frame that the decoder handed out, if any.
    FrameReceived(Option<DecodedFrame>),
    /// Whether the converter could be created.
    ScalerCreated(bool),
    /// Whether the frame could be converted.
    FrameScaled(bool),
    /// Whether the frame could be turned into a message.
    FrameEncoded(bool),
    /// The frame is due.
    FrameDue,
    /// Whether the message could be published.
    FramePublished(bool),
    /// The pass is closed.
    PassFinished,
}

/// The state of the playback.
#[derive(Clone, Copy, Debug, PartialEq, Eq, Structural)]
pub struct Playback {
    /// What is to be done next.
    pub command: Command,
    /// The timestamp of the very first frame.
    pub start_pts: Option<i64>,
    /// The timestamp of the first frame of this pass.
    pub loop_start_pts: Option<i64>,
    /// The timestamp of the latest frame of this pass.
    pub last_pts: Option<i64>,
    /// Video packets read since the latest frame, or since the pass began.
    pub packet_count: u32,
    /// When the latest video packet was read, or when the pass began.
    pub last_packet_time: u128,
    /// The stream that is played.
    pub video_stream: usize,
    /// Whether this pass has a converter already.
    pub scaler_ready: bool,
}

/// Whether `event` reports on `command`.
pub open spec fn answers(event: Event, command: Command) -> bool {
    match command {
        Command::OpenInput => event is Opened,
        Command::FindVideoStream => event is StreamFound,
        Command::CreateDecoder => event is DecoderCreated,
        Command::Backoff { .. } => event is BackedOff,
        Command::ReadPacket => event is PacketRead || event is PacketsExhausted,
        Command::SendPacket => event is PacketSent,
        Command::ReceiveFrame => event is FrameReceived,
        Command::CreateScaler { .. } => event is ScalerCreated,
        Command::ScaleFrame { .. } => event is FrameScaled,
        Command::EncodeFrame { .. } => event is FrameEncoded,
        Command::AwaitFrame { .. } => event is FrameDue,
        Command::PublishFrame { .. } => event is FramePublished,
        Command::FinishPass { .. } => event is PassFinished,
    }
}

/// The timestamp that a frame counts with: zero where it carries none.
pub open spec fn pts_or_zero(pts: Option<i64>) -> i64 {
    match pts {
        Some(p) => p,
        None => 0,
    }
}

/// Whether more than the permitted whole seconds passed between two readings
/// of the clock.
pub open spec fn stalled(earlier: u128, now: u128) -> bool {
    now - earlier >= (STALL_SECONDS + 1) * NANOS_PER_SECOND
}

impl Playback {
    /// The state in which playback begins.
    pub open spec fn initial() -> Playback {
        Playback {
            command: Command::OpenInput,
            start_pts: None,
            loop_start_pts: None,
            last_pts: None,
            packet_count: 0,
            last_packet_time: 0,
            video_stream: 0,
            scaler_ready: false,
        }
    }

    /// The same state with another command.
    pub open spec fn then_do(self, command: Command) -> Playback {
        Playback { command, ..self }
    }

    /// The timestamp from which this pass counts once a frame with `pts` is
    /// taken into it.
    pub open spec fn origin(self, pts: i64) -> i64 {
        match self.loop_start_pts {
            Some(start) => start,
            None => pts,
        }
    }

    /// Whether the distance of `pts` from the start of the pass can be counted
    /// in ticks of sixty-four bits.
    pub open spec fn countable(self, pts: Option<i64>) -> bool {
        i64::MIN <= pts_or_zero(pts) - self.origin(pts_or_zero(pts)) <= i64::MAX
    }

    /// The ticks between the first and the latest frame of this pass.
    pub open spec fn pass_duration(self) -> Option<i64> {
        match (self.loop_start_pts, self.last_pts) {
            (Some(start), Some(last)) => Some((last - start) as i64),
            _ => None,
        }
    }

    /// The state once the pass has ended.
    pub open spec fn end_pass(self, end: PassEnd) -> Playback {
        self.then_do(Command::FinishPass { end, duration: self.pass_duration() })
    }

    /// The state once a packet of the video stream was read at `now`.
    pub open spec fn take_packet(self, now: u128) -> Playback {
        let counted = Playback {
            packet_count: if self.packet_count < u32::MAX {
                (self.packet_count + 1) as u32
            } else {
                u32::MAX
            },
            ..self
        };
        let timed = Playback { last_packet_time: now, ..counted };
        if stalled(self.last_packet_time, now) {
            counted.end_pass(PassEnd::Stalled)
        } else if counted.packet_count > PACKETS_BEFORE_FIRST_FRAME && self.loop_start_pts is None {
            timed.end_pass(PassEnd::NoValidFrames)
        } else {
            timed.then_do(Command::SendPacket)
        }
    }

    /// The state once a frame that is ready for its message was taken into the
    /// pass.
    pub open spec fn take_frame(self, pts: Option<i64>) -> Playback {
        let p = pts_or_zero(pts);
        Playback {
            command: Command::EncodeFrame { pts: p, ticks: (p - self.origin(p)) as i64 },
            start_pts: if self.start_pts is None {
                Some(p)
            } else {
                self.start_pts
            },
            loop_start_pts: Some(self.origin(p)),
            last_pts: Some(p),
            ..self
        }
    }

    /// The state once the decoder handed out a frame.
    pub open spec fn take_decoded(self, frame: DecodedFrame) -> Playback {
        let counted = Playback { packet_count: 0, ..self };
        if frame.width == 0 || frame.height == 0 {
            self
        } else if frame.planar_420 {
            counted.take_frame(frame.pts)
        } else if self.scaler_ready {
            counted.then_do(Command::ScaleFrame { raw_pts: frame.pts })
        } else {
            counted.then_do(Command::CreateScaler { raw_pts: frame.pts })
        }
    }

    /// The state once a decoder for the stream exists: a new pass.
    pub open spec fn begin_pass(self, now: u128) -> Playback {
        Playback {
            command: Command::ReadPacket,
            loop_start_pts: None,
            last_pts: None,
            packet_count: 0,
            last_packet_time: now,
            scaler_ready: false,
            ..self
        }
    }

    /// The state once a pass is closed.
    pub open spec fn between_passes(self) -> Playback {
        Playback {
            command: Command::OpenInput,
            loop_start_pts: None,
            last_pts: None,
            packet_count: 0,
            scaler_ready: false,
            ..self
        }
    }

    /// How playback goes on after `event`.
    pub open spec fn next(self, event: Event) -> Playback {
        let backoff = Command::Backoff { seconds: RETRY_SECONDS };
        match (self.command, event) {
            (Command::OpenInput, Event::Opened(ok)) => self.then_do(
                if ok {
                    Command::FindVideoStream
                } else {
                    backoff
                },
            ),
            (Command::FindVideoStream, Event::StreamFound(None)) => self.then_do(backoff),
            (Command::FindVideoStream, Event::StreamFound(Some(index))) => Playback {
                command: Command::CreateDecoder,
                video_stream: index,
                ..self
            },
            (Command::CreateDecoder, Event::DecoderCreated { ok, now }) => if ok {
                self.begin_pass(now)
            } else {
                self.then_do(backoff)
            },
            (Command::Backoff { .. }, Event::BackedOff) => self.then_do(Command::OpenInput),
            (Command::ReadPacket, Event::PacketsExhausted) => self.end_pass(PassEnd::StreamEnded),
            (Command::ReadPacket, Event::PacketRead { stream, now }) => if stream
                == self.video_stream {
                self.take_packet(now)
            } else {
                self
            },
            (Command::SendPacket, Event::PacketSent(ok)) => if ok {
                self.then_do(Command::ReceiveFrame)
            } else {
                self.end_pass(PassEnd::DecodeError)
            },
            (Command::ReceiveFrame, Event::FrameReceived(None)) => self.then_do(
                Command::ReadPacket,
            ),
            (Command::ReceiveFrame, Event::FrameReceived(Some(frame))) => self.take_decoded(frame),
            (Command::CreateScaler { raw_pts }, Event::ScalerCreated(ok)) => if ok {
                Playback { command: Command::ScaleFrame { raw_pts }, scaler_ready: true, ..self }
            } else {
                self.then_do(Command::ReceiveFrame)
            },
            (Command::ScaleFrame { raw_pts }, Event::FrameScaled(ok)) => if ok {
                self.take_frame(raw_pts)
            } else {
                self.then_do(Command::ReceiveFrame)
            },
            (Command::EncodeFrame { pts, ticks }, Event::FrameEncoded(ok)) => self.then_do(
                if ok {
                    Command::AwaitFrame { pts, ticks }
                } else {
                    Command::ReceiveFrame
                },
            ),
            (Command::AwaitFrame { pts, ticks }, Event::FrameDue) => self.then_do(
                Command::PublishFrame { pts, ticks },
            ),
            (Command::PublishFrame { .. }, Event::FramePublished(_)) => self.then_do(
                Command::ReceiveFrame,
            ),
            (Command::FinishPass { .. }, Event::PassFinished) => self.between_passes(),
            _ => self,
        }
    }

    /// Whether `event` can be reported now: it answers the command, and a frame
    /// that it brings can be counted.
    pub open spec fn accepts(self, event: Event) -> bool {
        &&& answers(event, self.command)
        &&& match (self.command, event) {
            (Command::ReceiveFrame, Event::FrameReceived(Some(frame))) => frame.width > 0
                && frame.height > 0 && frame.planar_420 ==> self.countable(frame.pts),
            (Command::ScaleFrame { raw_pts }, Event::FrameScaled(true)) => self.countable(raw_pts),
            _ => true,
        }
    }

    /// Whether no pass is under way.
    pub open spec fn idle(self) -> bool {
        match self.command {
            Command::OpenInput | Command::FindVideoStream | Command::CreateDecoder => true,
            Command::Backoff { .. } => true,
            _ => false,
        }
    }

    /// What holds of every state of the playback.
    pub open spec fn wf(self) -> bool {
        &&& self.loop_start_pts is Some <==> self.last_pts is Some
        &&& self.idle() ==> self.loop_start_pts is None
        &&& self.loop_start_pts is Some ==> {
            &&& self.start_pts is Some
            &&& i64::MIN <= self.last_pts->0 - self.loop_start_pts->0 <= i64::MAX
        }
        &&& self.loop_start_pts is None ==> self.packet_count <= PACKETS_BEFORE_FIRST_FRAME + 1
        &&& self.loop_start_pts is None && !(self.command is FinishPass) ==> self.packet_count
            <= PACKETS_BEFORE_FIRST_FRAME
        &&& match self.command {
            Command::Backoff { seconds } => seconds == RETRY_SECONDS,
            Command::CreateScaler { .. } => !self.scaler_ready,
            Command::ScaleFrame { .. } => self.scaler_ready,
            Command::EncodeFrame { pts, ticks } => self.holds_frame(pts, ticks),
            Command::AwaitFrame { pts, ticks } => self.holds_frame(pts, ticks),
            Command::PublishFrame { pts, ticks } => self.holds_frame(pts, ticks),
            Command::FinishPass { duration, .. } => duration == self.pass_duration(),
            _ => true,
        }
    }

    /// Whether `pts` is the latest frame of the pass and `ticks` its distance
    /// from the first.
    pub open spec fn holds_frame(self, pts: i64, ticks: i64) -> bool {
        &&& self.loop_start_pts is Some
        &&& self.last_pts == Some(pts)
        &&& ticks == pts - self.loop_start_pts->0
    }

    /// Playback before anything was done.
    pub fn new() -> (r: Playback)
        ensures
            r == Playback::initial(),
            r.wf(),
    {
        Playback {
            command: Command::OpenInput,
            start_pts: None,
            loop_start_pts: None,
            last_pts: None,
            packet_count: 0,
            last_packet_time: 0,
            video_stream: 0,
            scaler_ready: false,
        }
    }

    /// Whether `event` can be reported now.
    pub fn admits(&self, event: Event) -> (r: bool)
        ensures
            r == self.accepts(event),
    {
        match (self.command, event) {
            (Command::OpenInput, Event::Opened(_)) => true,
            (Command::FindVideoStream, Event::StreamFound(_)) => true,
            (Command::CreateDecoder, Event::DecoderCreated { .. }) => true,
            (Command::Backoff { .. }, Event::BackedOff) => true,
            (Command::ReadPacket, Event::PacketRead { .. }) => true,
            (Command::ReadPacket, Event::PacketsExhausted) => true,
            (Command::SendPacket, Event::PacketSent(_)) => true,
            (Command::ReceiveFrame, Event::FrameReceived(None)) => true,
            (Command::ReceiveFrame, Event::FrameReceived(Some(frame))) => {
                frame.width == 0 || frame.height == 0 || !frame.planar_420
                    || self.can_count(frame.pts)
            },
            (Command::CreateScaler { .. }, Event::ScalerCreated(_)) => true,
            (Command::ScaleFrame { raw_pts }, Event::FrameScaled(ok)) => {
                !ok || self.can_count(raw_pts)
            },
            (Command::EncodeFrame { .. }, Event::FrameEncoded(_)) => true,
            (Command::AwaitFrame { .. }, Event::FrameDue) => true,
            (Command::PublishFrame { .. }, Event::FramePublished(_)) => true,
            (Command::FinishPass { .. }, Event::PassFinished) => true,
            _ => false,
        }
    }

    /// Whether a frame's distance from the start of the pass fits in ticks.
    fn can_count(&self, pts: Option<i64>) -> (r: bool)
        ensures
            r == self.countable(pts),
    {
        let p: i64 = match pts {
            Some(p) => p,
            None => 0,
        };
        match self.loop_start_pts {
            Some(start) => p.checked_sub(start).is_some(),
            None => true,
        }
    }

    /// Decides how to go on after `event`.
    pub fn step(&mut self, event: Event)
        requires
            old(self).wf(),
            old(self).accepts(event),
        ensures
            *final(self) == old(self).next(event),
            final(self).wf(),
    {
        match (self.command, event) {
            (Command::OpenInput, Event::Opened(ok)) => {
                self.command = if ok {
                    Command::FindVideoStream
                } else {
                    Command::Backoff { seconds: RETRY_SECONDS }
                };
            },
            (Command::FindVideoStream, Event::StreamFound(found)) => {
                match found {
                    Some(index) => {
                        self.video_stream = index;
                        self.command = Command::CreateDecoder;
                    },
                    None => {
                        self.command = Command::Backoff { seconds: RETRY_SECONDS };
                    },
                }
            },
            (Command::CreateDecoder, Event::DecoderCreated { ok, now }) => {
                if ok {
                    self.packet_count = 0;
                    self.last_packet_time = now;
                    self.scaler_ready = false;
                    self.command = Command::ReadPacket;
                } else {
                    self.command = Command::Backoff { seconds: RETRY_SECONDS };
                }
            },
            (Command::Backoff { .. }, Event::BackedOff) => {
                self.command = Command::OpenInput;
            },
            (Command::ReadPacket, Event::PacketsExhausted) => {
                self.finish(PassEnd::StreamEnded);
            },
            (Command::ReadPacket, Event::PacketRead { stream, now }) => {
                if stream == self.video_stream {
                    self.on_packet(now);
                }
            },
            (Command::SendPacket, Event::PacketSent(ok)) => {
                if ok {
                    self.command = Command::ReceiveFrame;
                } else {
                    self.finish(PassEnd::DecodeError);
                }
            },
            (Command::ReceiveFrame, Event::FrameReceived(None)) => {
                self.command = Command::ReadPacket;
            },
            (Command::ReceiveFrame, Event::FrameReceived(Some(frame))) => {
                self.on_decoded(frame);
            },
            (Command::CreateScaler { raw_pts }, Event::ScalerCreated(ok)) => {
                if ok {
                    self.scaler_ready = true;
                    self.command = Command::ScaleFrame { raw_pts };
                } else {
                    self.command = Command::ReceiveFrame;
                }
            },
            (Command::ScaleFrame { raw_pts }, Event::FrameScaled(ok)) => {
                if ok {
                    self.on_frame(raw_pts);
                } else {
                    self.command = Command::ReceiveFrame;
                }
            },
            (Command::EncodeFrame { pts, ticks }, Event::FrameEncoded(ok)) => {
                self.command = if ok {
                    Command::AwaitFrame { pts, ticks }
                } else {
                    Command::ReceiveFrame
                };
            },
            (Command::AwaitFrame { pts, ticks }, Event::FrameDue) => {
                self.command = Command::PublishFrame { pts, ticks };
            },
            (Command::PublishFrame { .. }, Event::FramePublished(_)) => {
                self.command = Command::ReceiveFrame;
            },
            (Command::FinishPass { .. }, Event::PassFinished) => {
                self.loop_start_pts = None;
                self.last_pts = None;
                self.packet_count = 0;
                self.scaler_ready = false;
                self.command = Command::OpenInput;
            },
            _ => {},
        }
    }

    /// Counts a packet of the video stream and decides whether to decode it.
    fn on_packet(&mut self, now: u128)
        requires
            old(self).wf(),
            old(self).command is ReadPacket,
        ensures
            *final(self) == old(self).take_packet(now),
            final(self).wf(),
    {
        // The count matters before the first frame only, where it is small.
        self.packet_count = self.packet_count.saturating_add(1);
        let since: u128 = now.saturating_sub(self.last_packet_time);
        if since / NANOS_PER_SECOND > STALL_SECONDS {
            self.finish(PassEnd::Stalled);
            return;
        }
        self.last_packet_time = now;
        if self.packet_count > PACKETS_BEFORE_FIRST_FRAME && self.loop_start_pts.is_none() {
            self.finish(PassEnd::NoValidFrames);
            return;
        }
        self.command = Command::SendPacket;
    }

    /// Decides what a frame from the decoder needs.
    fn on_decoded(&mut self, frame: DecodedFrame)
        requires
            old(self).wf(),
            old(self).command is ReceiveFrame,
            old(self).accepts(Event::FrameReceived(Some(frame))),
        ensures
            *final(self) == old(self).take_decoded(frame),
            final(self).wf(),
    {
        if frame.width == 0 || frame.height == 0 {
            return;
        }
        self.packet_count = 0;
        if frame.planar_420 {
            self.on_frame(frame.pts);
        } else if self.scaler_ready {
            self.command = Command::ScaleFrame { raw_pts: frame.pts };
        } else {
            self.command = Command::CreateScaler { raw_pts: frame.pts };
        }
    }

    /// Takes a frame into the pass.
    fn on_frame(&mut self, pts: Option<i64>)
        requires
            old(self).wf(),
            old(self).countable(pts),
            old(self).command is ReceiveFrame || old(self).command is ScaleFrame,
        ensures
            *final(self) == old(self).take_frame(pts),
            final(self).wf(),
    {
        let p: i64 = match pts {
            Some(p) => p,
            None => 0,
        };
        if self.start_pts.is_none() {
            self.start_pts = Some(p);
        }
        let start: i64 = match self.loop_start_pts {
            Some(start) => start,
            None => p,
        };
        self.loop_start_pts = Some(start);
        self.last_pts = Some(p);
        self.command = Command::EncodeFrame { pts: p, ticks: p - start };
    }

    /// Ends the pass.
    fn finish(&mut self, end: PassEnd)
        requires
            old(self).loop_start_pts is Some <==> old(self).last_pts is Some,
            old(self).loop_start_pts is Some ==> i64::MIN <= old(self).last_pts->0
                - old(self).loop_start_pts->0 <= i64::MAX,
        ensures
            *final(self) == old(self).end_pass(end),
    {
        let duration: Option<i64> = match (self.loop_start_pts, self.last_pts) {
            (Some(start), Some(last)) => Some(last - start),
            _ => None,
        };
        self.command = Command::FinishPass { end, duration };
    }
}

} // verus!
