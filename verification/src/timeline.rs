//! Laws of the playback: what holds of every run of a [`Playback`].

use vstd::prelude::*;

use crate::playback::{
    Command, DecodedFrame, Event, PassEnd, Playback, PACKETS_BEFORE_FIRST_FRAME, RETRY_SECONDS,
};

verus! {

/// The virtual clock of a playback, in ticks.
pub struct Timeline {
    /// The duration of all finished passes together.
    pub offset: int,
    /// When the latest frame is due: `offset` and its distance from the first
    /// frame of its pass.
    pub due: Option<int>,
}

impl Timeline {
    /// The clock before anything was played.
    pub open spec fn start() -> Timeline {
        Timeline { offset: 0, due: None }
    }

    /// The clock after playback moved to the state `after`.
    pub open spec fn follow(self, after: Playback) -> Timeline {
        match after.command {
            Command::EncodeFrame { ticks, .. } => Timeline {
                due: Some(self.offset + ticks),
                ..self
            },
            Command::FinishPass { duration: Some(d), .. } => Timeline {
                offset: self.offset + d,
                ..self
            },
            _ => self,
        }
    }

    /// What ties the clock to the state of the playback.
    pub open spec fn in_step(self, playback: Playback) -> bool {
        match playback.loop_start_pts {
            None => match self.due {
                Some(due) => due == self.offset,
                None => self.offset == 0,
            },
            Some(start) => self.due == Some(
                if playback.command is FinishPass {
                    self.offset
                } else {
                    self.offset + (playback.last_pts->0 - start)
                },
            ),
        }
    }
}

/// Whether every event of a run can be reported when its turn comes.
pub open spec fn admissible(playback: Playback, events: Seq<Event>) -> bool
    decreases events.len(),
{
    events.len() == 0 || {
        &&& playback.accepts(events.first())
        &&& admissible(playback.next(events.first()), events.drop_first())
    }
}

/// The state and the clock at the end of a run.
pub open spec fn run(playback: Playback, clock: Timeline, events: Seq<Event>) -> (
    Playback,
    Timeline,
)
    decreases events.len(),
{
    if events.len() == 0 {
        (playback, clock)
    } else {
        let after = playback.next(events.first());
        run(after, clock.follow(after), events.drop_first())
    }
}

/// Every state that follows a valid state is valid.
pub proof fn law_states_stay_valid(playback: Playback, event: Event)
    requires
        playback.wf(),
        playback.accepts(event),
    ensures
        playback.next(event).wf(),
{
}

/// One step keeps the clock tied to the state.
proof fn lemma_step_in_step(playback: Playback, clock: Timeline, event: Event)
    requires
        playback.wf(),
        clock.in_step(playback),
        playback.accepts(event),
    ensures
        clock.follow(playback.next(event)).in_step(playback.next(event)),
{
}

/// After any run the state is valid and the clock is tied to it: the latest
/// frame is due after all finished passes, at its own distance from the first
/// frame of its pass, and once a pass is closed the clock stands where the
/// last frame of the pass was due.
pub proof fn law_runs_keep_time(playback: Playback, clock: Timeline, events: Seq<Event>)
    requires
        playback.wf(),
        clock.in_step(playback),
        admissible(playback, events),
    ensures
        run(playback, clock, events).0.wf(),
        run(playback, clock, events).1.in_step(run(playback, clock, events).0),
    decreases events.len(),
{
    if events.len() > 0 {
        let event = events.first();
        let after = playback.next(event);
        law_states_stay_valid(playback, event);
        lemma_step_in_step(playback, clock, event);
        law_runs_keep_time(after, clock.follow(after), events.drop_first());
    }
}

/// Looping is seamless: in any run from the beginning, the first frame of a
/// pass is due at the very tick at which the latest frame before it was due,
/// with no gap and no jump back. The very first frame is due at once.
pub proof fn law_seamless_looping(events: Seq<Event>, event: Event)
    requires
        admissible(Playback::initial(), events),
        run(Playback::initial(), Timeline::start(), events).0.accepts(event),
        run(Playback::initial(), Timeline::start(), events).0.loop_start_pts is None,
        run(Playback::initial(), Timeline::start(), events).0.next(event).command is EncodeFrame,
    ensures
        ({
            let (playback, clock) = run(Playback::initial(), Timeline::start(), events);
            let due = clock.follow(playback.next(event)).due;
            &&& clock.due is Some ==> due == clock.due
            &&& clock.due is None ==> due == Some(0int)
        }),
{
    law_runs_keep_time(Playback::initial(), Timeline::start(), events);
}

/// Within a pass frames keep their distances: two frames taken one after the
/// other are due as many ticks apart as their timestamps are.
pub proof fn law_frame_distances_kept(playback: Playback, clock: Timeline, event: Event)
    requires
        playback.wf(),
        clock.in_step(playback),
        playback.accepts(event),
        playback.loop_start_pts is Some,
        playback.next(event).command is EncodeFrame,
    ensures
        clock.due is Some,
        clock.follow(playback.next(event)).due == Some(
            clock.due->0 + (playback.next(event).last_pts->0 - playback.last_pts->0),
        ),
{
}

/// Time never runs backwards: where the timestamps within a pass do not
/// decrease, no frame is due before the frame that precedes it, whether or not
/// a pass ends between the two.
pub proof fn law_time_never_runs_backwards(playback: Playback, clock: Timeline, event: Event)
    requires
        playback.wf(),
        clock.in_step(playback),
        playback.accepts(event),
        playback.last_pts is Some && playback.next(event).command is EncodeFrame
            ==> playback.next(event).last_pts->0 >= playback.last_pts->0,
    ensures
        clock.due is Some ==> {
            &&& clock.follow(playback.next(event)).due is Some
            &&& clock.follow(playback.next(event)).due->0 >= clock.due->0
        },
{
}

/// A pass lasts exactly until its latest frame is due.
pub proof fn law_pass_lasts_to_its_latest_frame(playback: Playback, clock: Timeline, event: Event)
    requires
        playback.wf(),
        clock.in_step(playback),
        playback.accepts(event),
        playback.next(event).command is FinishPass,
    ensures
        playback.loop_start_pts is Some ==> {
            &&& clock.due is Some
            &&& clock.follow(playback.next(event)).offset == clock.due->0
        },
        playback.loop_start_pts is None ==> clock.follow(playback.next(event)).offset
            == clock.offset,
{
}

/// Playback never gets stuck: in every valid state some event can be reported.
pub proof fn law_never_stuck(playback: Playback)
    requires
        playback.wf(),
    ensures
        exists|event: Event| playback.accepts(event),
{
    let event = match playback.command {
        Command::OpenInput => Event::Opened(false),
        Command::FindVideoStream => Event::StreamFound(None),
        Command::CreateDecoder => Event::DecoderCreated { ok: false, now: 0 },
        Command::Backoff { .. } => Event::BackedOff,
        Command::ReadPacket => Event::PacketsExhausted,
        Command::SendPacket => Event::PacketSent(false),
        Command::ReceiveFrame => Event::FrameReceived(None),
        Command::CreateScaler { .. } => Event::ScalerCreated(false),
        Command::ScaleFrame { .. } => Event::FrameScaled(false),
        Command::EncodeFrame { .. } => Event::FrameEncoded(false),
        Command::AwaitFrame { .. } => Event::FrameDue,
        Command::PublishFrame { .. } => Event::FramePublished(false),
        Command::FinishPass { .. } => Event::PassFinished,
    };
    assert(playback.accepts(event));
}

/// A failure to open the file, to find its video stream or to create the
/// decoder leads back to opening the file, after the wait and nothing else.
pub proof fn law_setup_failures_are_retried(playback: Playback, event: Event)
    requires
        playback.wf(),
        playback.accepts(event),
        event == Event::Opened(false) || event == Event::StreamFound(None) || (
        event matches Event::DecoderCreated { ok: false, .. }),
    ensures
        playback.next(event).command == (Command::Backoff { seconds: RETRY_SECONDS }),
        playback.next(event).accepts(Event::BackedOff),
        playback.next(event).next(Event::BackedOff) == playback.then_do(Command::OpenInput),
{
}

/// However a pass ends, the file is opened again right after, and what is known
/// of the very first frame is kept.
pub proof fn law_passes_repeat(playback: Playback, event: Event)
    requires
        playback.wf(),
        playback.accepts(event),
        playback.next(event).command is FinishPass,
    ensures
        playback.next(event).accepts(Event::PassFinished),
        ({
            let again = playback.next(event).next(Event::PassFinished);
            &&& again.command == Command::OpenInput
            &&& again.start_pts == playback.start_pts
            &&& again.loop_start_pts is None
            &&& again.last_pts is None
        }),
{
}

/// A frame that cannot be converted, turned into a message or published is
/// skipped: the next frame is asked for, and the pass goes on as it stood.
pub proof fn law_failed_frames_are_skipped(playback: Playback, event: Event)
    requires
        playback.wf(),
        playback.accepts(event),
        event == Event::ScalerCreated(false) || event == Event::FrameScaled(false) || event
            == Event::FrameEncoded(false) || event == Event::FramePublished(false),
    ensures
        playback.next(event) == playback.then_do(Command::ReceiveFrame),
{
}

/// A frame without width or height changes nothing.
pub proof fn law_empty_frames_are_ignored(playback: Playback, frame: DecodedFrame)
    requires
        playback.wf(),
        playback.command is ReceiveFrame,
        frame.width == 0 || frame.height == 0,
    ensures
        playback.accepts(Event::FrameReceived(Some(frame))),
        playback.next(Event::FrameReceived(Some(frame))) == playback,
{
}

/// Packets of other streams change nothing.
pub proof fn law_other_streams_are_ignored(playback: Playback, stream: usize, now: u128)
    requires
        playback.wf(),
        playback.command is ReadPacket,
        stream != playback.video_stream,
    ensures
        playback.accepts(Event::PacketRead { stream, now }),
        playback.next(Event::PacketRead { stream, now }) == playback,
{
}

/// A frame is published only once it is due, and waited for only once it is a
/// message; timestamp and distance stay those with which it was taken.
pub proof fn law_published_frames_were_encoded_and_due(playback: Playback, event: Event)
    requires
        playback.wf(),
        playback.accepts(event),
    ensures
        playback.next(event).command matches Command::PublishFrame { pts, ticks } ==> {
            &&& playback.command == (Command::AwaitFrame { pts, ticks })
            &&& event == Event::FrameDue
        },
        playback.next(event).command matches Command::AwaitFrame { pts, ticks } ==> {
            &&& playback.command == (Command::EncodeFrame { pts, ticks })
            &&& event == Event::FrameEncoded(true)
        },
{
}

/// A pass without a frame decodes a bounded number of packets: while the pass
/// has no frame, a packet is decoded only as one of the first
/// `PACKETS_BEFORE_FIRST_FRAME`, and the packet after them ends the pass.
pub proof fn law_packets_before_first_frame(playback: Playback, now: u128)
    requires
        playback.wf(),
        playback.command is ReadPacket,
        playback.loop_start_pts is None,
    ensures
        ({
            let event = Event::PacketRead { stream: playback.video_stream, now };
            let after = playback.next(event);
            &&& playback.accepts(event)
            &&& after.packet_count == playback.packet_count + 1
            &&& after.command is SendPacket ==> after.packet_count <= PACKETS_BEFORE_FIRST_FRAME
            &&& after.packet_count > PACKETS_BEFORE_FIRST_FRAME ==> after.command is FinishPass
        }),
{
}

/// A video packet ends the pass as stalled exactly if six seconds or more went
/// by since the one before it.
pub proof fn law_stall_restarts(playback: Playback, now: u128)
    requires
        playback.wf(),
        playback.command is ReadPacket,
    ensures
        ({
            let after = playback.next(Event::PacketRead { stream: playback.video_stream, now });
            (after.command matches Command::FinishPass { end: PassEnd::Stalled, .. })
                <==> now >= playback.last_packet_time + 6_000_000_000
        }),
{
}

/// The state that playback has come to once all of `events` were reported.
pub open spec fn state_after(events: Seq<Event>) -> Playback
    decreases events.len(),
{
    if events.len() == 0 {
        Playback::initial()
    } else {
        state_after(events.drop_last()).next(events.last())
    }
}

/// Whether playback can be told `events`, one after the other, from its
/// beginning.
pub open spec fn possible(events: Seq<Event>) -> bool
    decreases events.len(),
{
    events.len() == 0 || {
        &&& possible(events.drop_last())
        &&& state_after(events.drop_last()).accepts(events.last())
    }
}

/// The stream that was found last.
pub open spec fn chosen(events: Seq<Event>) -> Option<usize>
    decreases events.len(),
{
    if events.len() == 0 {
        None
    } else {
        match events.last() {
            Event::StreamFound(Some(index)) => Some(index),
            _ => chosen(events.drop_last()),
        }
    }
}

/// Whether the latest event is a packet of the chosen stream.
pub open spec fn ends_in_video_packet(events: Seq<Event>) -> bool {
    events.len() > 0 && match events.last() {
        Event::PacketRead { stream, .. } => chosen(events.drop_last()) == Some(stream),
        _ => false,
    }
}

/// When a decoder was created or a packet of the chosen stream was read,
/// whichever came last.
pub open spec fn heard(events: Seq<Event>) -> Option<u128>
    decreases events.len(),
{
    if events.len() == 0 {
        None
    } else {
        match events.last() {
            Event::DecoderCreated { ok: true, now } => Some(now),
            Event::PacketRead { now, .. } => if ends_in_video_packet(events) {
                Some(now)
            } else {
                heard(events.drop_last())
            },
            _ => heard(events.drop_last()),
        }
    }
}

/// The packets of the chosen stream since the latest frame with a picture, or
/// since the pass began.
pub open spec fn packets_without_picture(events: Seq<Event>) -> nat
    decreases events.len(),
{
    if events.len() == 0 {
        0
    } else {
        let before = packets_without_picture(events.drop_last());
        match events.last() {
            Event::DecoderCreated { ok: true, .. } => 0,
            Event::PassFinished => 0,
            Event::FrameReceived(Some(frame)) => if frame.width > 0 && frame.height > 0 {
                0
            } else {
                before
            },
            _ => if ends_in_video_packet(events) {
                before + 1
            } else {
                before
            },
        }
    }
}

/// The frame that the decoder handed out last.
pub open spec fn in_hand(events: Seq<Event>) -> Option<DecodedFrame>
    decreases events.len(),
{
    if events.len() == 0 {
        None
    } else {
        match events.last() {
            Event::FrameReceived(Some(frame)) => Some(frame),
            _ => in_hand(events.drop_last()),
        }
    }
}

/// The timestamp of a frame, zero where it has none.
pub open spec fn stamp(frame: DecodedFrame) -> i64 {
    if frame.pts is Some {
        frame.pts->0
    } else {
        0
    }
}

/// The frame that the latest event made ready: one that came as planar 4:2:0, or
/// one that was converted to it.
pub open spec fn made_ready(events: Seq<Event>) -> Option<DecodedFrame> {
    if events.len() == 0 {
        None
    } else {
        match events.last() {
            Event::FrameReceived(Some(frame)) => if frame.width > 0 && frame.height > 0
                && frame.planar_420 {
                Some(frame)
            } else {
                None
            },
            Event::FrameScaled(true) => in_hand(events.drop_last()),
            _ => None,
        }
    }
}

/// The timestamps of the frames that were made ready in this pass.
pub open spec fn stamps(events: Seq<Event>) -> Seq<i64>
    decreases events.len(),
{
    if events.len() == 0 {
        Seq::empty()
    } else if events.last() is PassFinished || (events.last() matches Event::DecoderCreated {
        ok: true,
        ..
    }) {
        Seq::empty()
    } else {
        match made_ready(events) {
            Some(frame) => stamps(events.drop_last()).push(stamp(frame)),
            None => stamps(events.drop_last()),
        }
    }
}

/// The timestamp of the first frame that was ever made ready.
pub open spec fn first_stamp(events: Seq<Event>) -> Option<i64>
    decreases events.len(),
{
    if events.len() == 0 {
        None
    } else {
        match (first_stamp(events.drop_last()), made_ready(events)) {
            (Some(first), _) => Some(first),
            (None, Some(frame)) => Some(stamp(frame)),
            (None, None) => None,
        }
    }
}

/// Whether a converter was created in this pass.
pub open spec fn converter_made(events: Seq<Event>) -> bool
    decreases events.len(),
{
    if events.len() == 0 {
        false
    } else {
        match events.last() {
            Event::DecoderCreated { ok: true, .. } => false,
            Event::PassFinished => false,
            Event::ScalerCreated(true) => true,
            _ => converter_made(events.drop_last()),
        }
    }
}

/// The ticks from the first to the latest frame of the pass, none where it has
/// no frame.
pub open spec fn span(events: Seq<Event>) -> Option<int> {
    let s = stamps(events);
    if s.len() == 0 {
        None
    } else {
        Some(s.last() - s.first())
    }
}

/// Whether `duration` is the span of the pass.
pub open spec fn lasts(events: Seq<Event>, duration: Option<i64>) -> bool {
    match span(events) {
        Some(ticks) => duration is Some && duration->0 == ticks,
        None => duration is None,
    }
}

/// The state of the playback holds what the events told and nothing else: the
/// stream found last, the moment of the latest packet, the packets since the
/// latest picture, the first and the latest timestamp of the pass, the very
/// first timestamp, and, while a frame is worked on, that frame's own timestamp.
pub proof fn law_state_is_what_was_told(events: Seq<Event>)
    requires
        possible(events),
    ensures
        ({
            let s = state_after(events);
            let t = stamps(events);
            &&& s.wf()
            &&& s.video_stream == (match chosen(events) {
                Some(index) => index,
                None => 0,
            })
            &&& !s.idle() || s.command is CreateDecoder ==> chosen(events) is Some
            &&& !s.idle() && !(s.command is FinishPass) ==> heard(events) == Some(
                s.last_packet_time,
            )
            &&& s.packet_count == (if packets_without_picture(events) <= u32::MAX {
                packets_without_picture(events)
            } else {
                u32::MAX as nat
            })
            &&& s.loop_start_pts == (if t.len() > 0 {
                Some(t.first())
            } else {
                None
            })
            &&& s.last_pts == (if t.len() > 0 {
                Some(t.last())
            } else {
                None
            })
            &&& s.start_pts == first_stamp(events)
            &&& s.scaler_ready == converter_made(events)
            &&& match s.command {
                Command::CreateScaler { raw_pts } => in_hand(events) is Some && raw_pts == in_hand(
                    events,
                )->0.pts,
                Command::ScaleFrame { raw_pts } => in_hand(events) is Some && raw_pts == in_hand(
                    events,
                )->0.pts,
                Command::EncodeFrame { pts, ticks } => works_on(events, pts, ticks),
                Command::AwaitFrame { pts, ticks } => works_on(events, pts, ticks),
                Command::PublishFrame { pts, ticks } => works_on(events, pts, ticks),
                Command::FinishPass { duration, .. } => lasts(events, duration),
                _ => true,
            }
        }),
    decreases events.len(),
{
    if events.len() > 0 {
        let front = events.drop_last();
        law_state_is_what_was_told(front);
        law_states_stay_valid(state_after(front), events.last());
        assert(stamps(front).push(0).first() == if stamps(front).len() > 0 {
            stamps(front).first()
        } else {
            0
        });
    }
}

/// Whether `pts` is the timestamp of the frame in hand and `ticks` its distance
/// from the first frame of the pass.
pub open spec fn works_on(events: Seq<Event>, pts: i64, ticks: i64) -> bool {
    &&& in_hand(events) is Some
    &&& pts == stamp(in_hand(events)->0)
    &&& stamps(events).len() > 0
    &&& pts == stamps(events).last()
    &&& ticks == pts - stamps(events).first()
}

/// What is commanded after each event, in terms of the events alone.
///
/// A failure to set up waits one second before the file is opened again. A
/// packet of another stream is passed over; one of the chosen stream ends the
/// pass if six seconds or more went by since the packet before it or since the
/// decoder was created, or if it is the one thousand and first without a picture
/// in a pass without frames, and is decoded otherwise. A frame without width or
/// height is passed over; one in another format is converted, with one converter
/// for the pass; and a frame that is ready is encoded, awaited and published
/// with its own timestamp and its distance from the first frame of the pass. A
/// pass lasts from its first frame to its latest.
pub proof fn law_commands(events: Seq<Event>, event: Event)
    requires
        possible(events),
        state_after(events).accepts(event),
    ensures
        ({
            let after = state_after(events.push(event)).command;
            let t = stamps(events);
            match event {
                Event::Opened(ok) => after == if ok {
                    Command::FindVideoStream
                } else {
                    Command::Backoff { seconds: 1 }
                },
                Event::StreamFound(found) => after == if found is Some {
                    Command::CreateDecoder
                } else {
                    Command::Backoff { seconds: 1 }
                },
                Event::DecoderCreated { ok, .. } => after == if ok {
                    Command::ReadPacket
                } else {
                    Command::Backoff { seconds: 1 }
                },
                Event::BackedOff => after == Command::OpenInput,
                Event::PacketsExhausted => after matches Command::FinishPass {
                    end: PassEnd::StreamEnded,
                    duration,
                } && lasts(events, duration),
                Event::PacketRead { stream, now } => {
                    &&& heard(events) is Some
                    &&& if chosen(events) != Some(stream) {
                        after == Command::ReadPacket
                    } else if now >= heard(events)->0 + 6_000_000_000 {
                        after matches Command::FinishPass {
                            end: PassEnd::Stalled,
                            duration,
                        } && lasts(events, duration)
                    } else if t.len() == 0 && packets_without_picture(events) >= 1000 {
                        after == (Command::FinishPass {
                            end: PassEnd::NoValidFrames,
                            duration: None,
                        })
                    } else {
                        after == Command::SendPacket
                    }
                },
                Event::PacketSent(ok) => if ok {
                    after == Command::ReceiveFrame
                } else {
                    after matches Command::FinishPass {
                        end: PassEnd::DecodeError,
                        duration,
                    } && lasts(events, duration)
                },
                Event::FrameReceived(None) => after == Command::ReadPacket,
                Event::FrameReceived(Some(frame)) => if frame.width == 0 || frame.height == 0 {
                    after == Command::ReceiveFrame
                } else if frame.planar_420 {
                    after matches Command::EncodeFrame { pts, ticks } && pts == stamp(frame)
                        && ticks == if t.len() == 0 {
                        0
                    } else {
                        stamp(frame) - t.first()
                    }
                } else if converter_made(events) {
                    after == (Command::ScaleFrame { raw_pts: frame.pts })
                } else {
                    after == (Command::CreateScaler { raw_pts: frame.pts })
                },
                Event::ScalerCreated(ok) => {
                    &&& in_hand(events) is Some
                    &&& after == if ok {
                        Command::ScaleFrame { raw_pts: in_hand(events)->0.pts }
                    } else {
                        Command::ReceiveFrame
                    }
                },
                Event::FrameScaled(ok) => {
                    &&& in_hand(events) is Some
                    &&& if ok {
                        after matches Command::EncodeFrame { pts, ticks } && pts == stamp(
                            in_hand(events)->0,
                        ) && ticks == if t.len() == 0 {
                            0
                        } else {
                            stamp(in_hand(events)->0) - t.first()
                        }
                    } else {
                        after == Command::ReceiveFrame
                    }
                },
                Event::FrameEncoded(ok) => if ok {
                    after matches Command::AwaitFrame { pts, ticks } && works_on(events, pts, ticks)
                } else {
                    after == Command::ReceiveFrame
                },
                Event::FrameDue => after matches Command::PublishFrame { pts, ticks } && works_on(
                    events,
                    pts,
                    ticks,
                ),
                Event::FramePublished(_) => after == Command::ReceiveFrame,
                Event::PassFinished => after == Command::OpenInput,
            }
        }),
{
    law_state_is_what_was_told(events);
    assert(events.push(event).drop_last() =~= events);
}

/// The front of a possible run is possible.
proof fn lemma_possible_front(events: Seq<Event>, n: int)
    requires
        possible(events),
        0 <= n <= events.len(),
    ensures
        possible(events.take(n)),
    decreases events.len(),
{
    if n < events.len() {
        lemma_possible_front(events.drop_last(), n);
        assert(events.drop_last().take(n) =~= events.take(n));
    } else {
        assert(events.take(n) =~= events);
    }
}

/// The chosen stream is that of the latest event that found one.
proof fn lemma_chosen(events: Seq<Event>, found: int, stream: usize)
    requires
        0 <= found < events.len(),
        events[found] == Event::StreamFound(Some(stream)),
        forall|m: int|
            found < m < events.len() ==> !(#[trigger] events[m] matches Event::StreamFound(
                Some(_),
            )),
    ensures
        chosen(events) == Some(stream),
    decreases events.len(),
{
    if found < events.len() - 1 {
        let front = events.drop_last();
        assert(events.last() == events[events.len() - 1]);
        assert forall|m: int| found < m < front.len() implies !(
        #[trigger] front[m] matches Event::StreamFound(Some(_))) by {
            assert(front[m] == events[m]);
        }
        lemma_chosen(front, found, stream);
    }
}

/// The moment of the latest packet is that of the latest event that brought one
/// of the chosen stream or began the pass.
proof fn lemma_heard(events: Seq<Event>, found: int, stream: usize, i: int, moment: u128)
    requires
        0 <= found < i < events.len(),
        events[found] == Event::StreamFound(Some(stream)),
        forall|m: int|
            found < m < events.len() ==> !(#[trigger] events[m] matches Event::StreamFound(
                Some(_),
            )),
        events[i] == (Event::PacketRead { stream, now: moment }) || events[i] == (
        Event::DecoderCreated { ok: true, now: moment }),
        forall|m: int|
            i < m < events.len() ==> !(#[trigger] events[m] matches Event::DecoderCreated {
                ok: true,
                ..
            }) && (events[m] matches Event::PacketRead { stream: other, .. } ==> other != stream),
    ensures
        heard(events) == Some(moment),
    decreases events.len(),
{
    let front = events.drop_last();
    assert(events.last() == events[events.len() - 1]);
    assert forall|m: int| found < m < front.len() implies !(
    #[trigger] front[m] matches Event::StreamFound(Some(_))) by {
        assert(front[m] == events[m]);
    }
    lemma_chosen(front, found, stream);
    if i < events.len() - 1 {
        assert forall|m: int| i < m < front.len() implies !(
        #[trigger] front[m] matches Event::DecoderCreated { ok: true, .. }) && (
        front[m] matches Event::PacketRead { stream: other, .. } ==> other != stream) by {
            assert(front[m] == events[m]);
        }
        lemma_heard(front, found, stream, i, moment);
    }
}

/// Only silence stalls a pass: a packet of the video stream ends the pass as
/// stalled exactly if it was read six seconds or more after the packet of that
/// stream before it, or after the decoder was created where it is the first.
/// `found` is the event that chose the stream, `earlier` the packet before.
pub proof fn law_only_silence_stalls(
    events: Seq<Event>,
    found: int,
    earlier: int,
    stream: usize,
    before: u128,
    now: u128,
)
    requires
        possible(events.push(Event::PacketRead { stream, now })),
        0 <= found < earlier < events.len(),
        events[found] == Event::StreamFound(Some(stream)),
        forall|m: int|
            found < m < events.len() ==> !(#[trigger] events[m] matches Event::StreamFound(
                Some(_),
            )),
        events[earlier] == (Event::PacketRead { stream, now: before }) || events[earlier] == (
        Event::DecoderCreated { ok: true, now: before }),
        forall|m: int|
            earlier < m < events.len() ==> !(#[trigger] events[m] matches Event::DecoderCreated {
                ok: true,
                ..
            }) && (events[m] matches Event::PacketRead { stream: other, .. } ==> other != stream),
    ensures
        (state_after(events.push(Event::PacketRead { stream, now })).command
            matches Command::FinishPass { end: PassEnd::Stalled, .. }) <==> now - before
            >= 6_000_000_000,
{
    let event = Event::PacketRead { stream, now };
    assert(events.push(event).drop_last() =~= events);
    lemma_chosen(events, found, stream);
    lemma_heard(events, found, stream, earlier, before);
    law_commands(events, event);
}

/// The frame in hand is that of the latest event that brought one.
proof fn lemma_in_hand(events: Seq<Event>, i: int, frame: DecodedFrame)
    requires
        0 <= i < events.len(),
        events[i] == Event::FrameReceived(Some(frame)),
        forall|m: int| i < m < events.len() ==> !(#[trigger] events[m] is FrameReceived),
    ensures
        in_hand(events) == Some(frame),
    decreases events.len(),
{
    if i < events.len() - 1 {
        let front = events.drop_last();
        assert(events.last() == events[events.len() - 1]);
        assert forall|m: int| i < m < front.len() implies !(#[trigger] front[m] is FrameReceived) by {
            assert(front[m] == events[m]);
        }
        lemma_in_hand(front, i, frame);
    }
}

/// A frame keeps the timestamp with which the decoder handed it out, converted
/// or not, from its encoding to its publication; a frame without one counts as
/// zero. `i` is the event that brought the frame.
pub proof fn law_frames_keep_their_timestamp(events: Seq<Event>, i: int, frame: DecodedFrame)
    requires
        possible(events),
        0 <= i < events.len(),
        events[i] == Event::FrameReceived(Some(frame)),
        forall|m: int| i < m < events.len() ==> !(#[trigger] events[m] is FrameReceived),
    ensures
        match state_after(events).command {
            Command::CreateScaler { raw_pts } => raw_pts == frame.pts,
            Command::ScaleFrame { raw_pts } => raw_pts == frame.pts,
            Command::EncodeFrame { pts, .. } => Some(pts) == frame.pts || (frame.pts is None && pts
                == 0),
            Command::AwaitFrame { pts, .. } => Some(pts) == frame.pts || (frame.pts is None && pts
                == 0),
            Command::PublishFrame { pts, .. } => Some(pts) == frame.pts || (frame.pts is None
                && pts == 0),
            _ => true,
        },
{
    lemma_in_hand(events, i, frame);
    law_state_is_what_was_told(events);
}

/// The first timestamp of a pass stays the first while the pass goes on.
proof fn lemma_first_stamp_stays(events: Seq<Event>, n: int)
    requires
        0 <= n <= events.len(),
        stamps(events.take(n)).len() > 0,
        forall|m: int|
            n <= m < events.len() ==> !(#[trigger] events[m] is DecoderCreated) && !(
            events[m] is PassFinished),
    ensures
        stamps(events).len() >= stamps(events.take(n)).len(),
        stamps(events).first() == stamps(events.take(n)).first(),
    decreases events.len(),
{
    if n < events.len() {
        let front = events.drop_last();
        assert(events.last() == events[events.len() - 1]);
        assert(front.take(n) =~= events.take(n));
        assert forall|m: int| n <= m < front.len() implies !(#[trigger] front[m] is DecoderCreated)
            && !(front[m] is PassFinished) by {
            assert(front[m] == events[m]);
        }
        lemma_first_stamp_stays(front, n);
    } else {
        assert(events.take(n) =~= events);
    }
}

/// Two frames of one pass are as many ticks apart as their timestamps are. `n`
/// counts the events up to the earlier of the two.
pub proof fn law_ticks_follow_timestamps(events: Seq<Event>, n: int)
    requires
        possible(events),
        0 <= n <= events.len(),
        state_after(events.take(n)).command is EncodeFrame,
        state_after(events).command is EncodeFrame,
        forall|m: int|
            n <= m < events.len() ==> !(#[trigger] events[m] is DecoderCreated) && !(
            events[m] is PassFinished),
    ensures
        state_after(events.take(n)).command matches Command::EncodeFrame {
            pts: earlier,
            ticks: earlier_ticks,
        } && state_after(events).command matches Command::EncodeFrame { pts, ticks } && ticks
            - earlier_ticks == pts - earlier,
{
    lemma_possible_front(events, n);
    law_state_is_what_was_told(events.take(n));
    law_state_is_what_was_told(events);
    lemma_first_stamp_stays(events, n);
}

/// A run is the same whether it is followed from its first event on or from its
/// last event back.
pub proof fn law_runs_agree(events: Seq<Event>)
    ensures
        run(Playback::initial(), Timeline::start(), events).0 == state_after(events),
    decreases events.len(),
{
    if events.len() > 0 {
        lemma_run_last(Playback::initial(), Timeline::start(), events);
        law_runs_agree(events.drop_last());
    }
}

/// The last event of a run is a step from where the others lead.
proof fn lemma_run_last(playback: Playback, clock: Timeline, events: Seq<Event>)
    requires
        events.len() > 0,
    ensures
        run(playback, clock, events).0 == run(playback, clock, events.drop_last()).0.next(
            events.last(),
        ),
    decreases events.len(),
{
    let after = playback.next(events.first());
    let rest = events.drop_first();
    if events.len() == 1 {
        reveal_with_fuel(run, 2);
    } else {
        lemma_run_last(after, clock.follow(after), rest);
        assert(events.drop_last().drop_first() =~= rest.drop_last());
        assert(events.drop_last().first() == events.first());
        assert(rest.last() == events.last());
    }
}

/// An event can be reported exactly if it answers the command, but for a frame
/// whose distance from the first frame of the pass is beyond sixty-four bits.
pub proof fn law_answers_are_accepted(playback: Playback, frame: DecodedFrame, event: Event)
    ensures
        playback.command is OpenInput ==> (playback.accepts(event) <==> event is Opened),
        playback.command is FindVideoStream ==> (playback.accepts(event) <==> event is StreamFound),
        playback.command is CreateDecoder ==> (playback.accepts(event)
            <==> event is DecoderCreated),
        playback.command is Backoff ==> (playback.accepts(event) <==> event is BackedOff),
        playback.command is ReadPacket ==> (playback.accepts(event) <==> event is PacketRead
            || event is PacketsExhausted),
        playback.command is SendPacket ==> (playback.accepts(event) <==> event is PacketSent),
        playback.command is ReceiveFrame ==> {
            &&& playback.accepts(event) ==> event is FrameReceived
            &&& playback.accepts(Event::FrameReceived(None))
            &&& playback.accepts(Event::FrameReceived(Some(frame))) <==> frame.width == 0
                || frame.height == 0 || !frame.planar_420 || playback.loop_start_pts is None
                || i64::MIN <= stamp(frame) - playback.loop_start_pts->0 <= i64::MAX
        },
        playback.command is CreateScaler ==> (playback.accepts(event) <==> event is ScalerCreated),
        playback.command is ScaleFrame ==> {
            &&& playback.accepts(event) ==> event is FrameScaled
            &&& playback.accepts(Event::FrameScaled(false))
        },
        playback.command == (Command::ScaleFrame { raw_pts: frame.pts }) ==> (playback.accepts(
            Event::FrameScaled(true),
        ) <==> playback.loop_start_pts is None || i64::MIN <= stamp(frame)
            - playback.loop_start_pts->0 <= i64::MAX),
        playback.command is EncodeFrame ==> (playback.accepts(event) <==> event is FrameEncoded),
        playback.command is AwaitFrame ==> (playback.accepts(event) <==> event is FrameDue),
        playback.command is PublishFrame ==> (playback.accepts(event) <==> event is FramePublished),
        playback.command is FinishPass ==> (playback.accepts(event) <==> event is PassFinished),
{
}

} // verus!
