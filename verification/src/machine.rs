//! The per-stream transcoder drive: a state machine over the decoder and the
//! encoder bound to one re-encoded stream.
//!
//! The decoder and the encoder themselves belong to the external codec
//! library; this machine owns every decision around them. The surrounding
//! loop performs one codec operation at a time and reports what happened as a
//! `CodecEvent`; `Transcoder::step` answers with the next `CodecAction` to
//! perform. "Not ready yet" answers from either stage are expected events
//! that stop the current drain, never errors; genuine decode or encode
//! failures are their own events, and cost only the corrupt packet or
//! frame, not the job.
//!
//! End of stream is handled in two phases: first the decoder gets the
//! end-of-stream signal and is drained until it reports no more frames —
//! every frame it still held is encoded and written — and only then does the
//! encoder get its own end-of-stream signal and a final drain. The proof
//! `lemma_flush_two_phase` pins this order for every possible run.

use crate::packet::{
    opt_rescale, opt_rescale_fits, prepare_encoded_packet, prepare_frame_for_encode, Frame, Packet,
};
use crate::progress::{line_after_frame, reporter_after_frame, ProgressLine, ProgressReporter};
use crate::rational::{rescale, rescale_fits, rescale_ts, Rational};
use vstd::prelude::*;

verus! {

/// Where the drive stands for one transcoded stream.
#[derive(Clone, Copy, PartialEq, Eq, Structural, Debug)]
pub enum DriveMode {
    /// Waiting on the outer loop for the next packet, or for end of input.
    AwaitInput,
    /// Polling the decoder for a ready frame; `flushing` once end of input
    /// has been signalled to the decoder.
    PollDecoder { flushing: bool },
    /// Polling the encoder for a ready packet; `flushing` as above.
    PollEncoder { flushing: bool },
    /// The encoder has received its end-of-stream signal; draining whatever
    /// it still buffers.
    EncoderTail,
    /// The stream is fully flushed.
    Finished,
}

/// What the codec library reported back after the last action.
pub enum CodecEvent {
    /// The outer loop read a packet belonging to this stream.
    PacketArrived(Packet),
    /// The input container is exhausted.
    InputExhausted,
    /// The decoder handed back a decoded frame.
    FrameReady(Frame),
    /// The decoder has nothing ready for the input it has seen so far.
    FrameNotReady,
    /// The decoder failed on the current input: genuine corruption, not
    /// "not ready". The input is logged by the caller and skipped; the job
    /// goes on.
    DecodeFailed,
    /// The encoder handed back an encoded packet.
    PacketEncoded(Packet),
    /// The encoder has nothing ready for the input it has seen so far.
    EncoderDrained,
    /// The encoder failed on the current frame: genuine corruption, not
    /// "not ready". The frame is logged by the caller and skipped; the job
    /// goes on.
    EncodeFailed,
}

/// The next operation the drive asks for.
pub enum CodecAction {
    /// Feed this packet to the decoder, then poll the decoder.
    SendPacketToDecoder(Packet),
    /// Signal end of stream to the decoder, then poll the decoder.
    SendEofToDecoder,
    /// Feed this frame to the encoder, then poll the encoder.
    SendFrameToEncoder(Frame),
    /// Signal end of stream to the encoder, then poll the encoder.
    SendEofToEncoder,
    /// Write this packet to the output container, then poll the encoder
    /// again.
    WritePacket(Packet),
    /// Poll the decoder again.
    PollDecoderAgain,
    /// Nothing pending: ask the outer loop for the next packet.
    RequestInput,
    /// The stream is done; nothing more will be produced.
    Finish,
}

/// The millisecond time base progress lines are reported in.
pub open spec fn ms_time_base() -> Rational {
    Rational { num: 1, den: 1000 }
}

/// The presentation timestamp a frame is stamped with: the decoder's reported
/// one, tick 0 when it is missing.
pub open spec fn frame_pts0(f: Frame) -> i64 {
    match f.pts {
        Some(t) => t,
        None => 0,
    }
}

/// Which events can arrive in which mode.
pub open spec fn accepts(mode: DriveMode, event: CodecEvent) -> bool {
    match mode {
        DriveMode::AwaitInput => event is PacketArrived || event is InputExhausted,
        DriveMode::PollDecoder { .. } => event is FrameReady || event is FrameNotReady || event
            is DecodeFailed,
        DriveMode::PollEncoder { .. } => event is PacketEncoded || event is EncoderDrained
            || event is EncodeFailed,
        DriveMode::EncoderTail => event is PacketEncoded || event is EncoderDrained || event
            is EncodeFailed,
        DriveMode::Finished => false,
    }
}

/// The mode after handling one event.
pub open spec fn next_mode(mode: DriveMode, event: CodecEvent) -> DriveMode {
    match mode {
        DriveMode::AwaitInput => if event is PacketArrived {
            DriveMode::PollDecoder { flushing: false }
        } else {
            DriveMode::PollDecoder { flushing: true }
        },
        DriveMode::PollDecoder { flushing } => if event is FrameReady {
            DriveMode::PollEncoder { flushing }
        } else if flushing {
            DriveMode::EncoderTail
        } else {
            DriveMode::AwaitInput
        },
        DriveMode::PollEncoder { flushing } => if event is PacketEncoded {
            DriveMode::PollEncoder { flushing }
        } else {
            DriveMode::PollDecoder { flushing }
        },
        DriveMode::EncoderTail => if event is PacketEncoded {
            DriveMode::EncoderTail
        } else {
            DriveMode::Finished
        },
        DriveMode::Finished => DriveMode::Finished,
    }
}

/// Whether the timestamps an event carries survive rescaling: encoded
/// packets are rescaled to the output time base, frame timestamps to
/// milliseconds for progress lines.
pub open spec fn event_fits(event: CodecEvent, input_tb: Rational, output_tb: Rational) -> bool {
    match event {
        CodecEvent::FrameReady(f) => rescale_fits(frame_pts0(f) as int, input_tb, ms_time_base()),
        CodecEvent::PacketEncoded(p) => opt_rescale_fits(p.pts, input_tb, output_tb)
            && opt_rescale_fits(p.dts, input_tb, output_tb),
        _ => true,
    }
}

/// One re-encoded stream's transcoder: the drive mode plus the stream
/// bookkeeping that outlives single packets.
pub struct Transcoder {
    /// Index of the output stream this transcoder feeds.
    pub out_index: usize,
    /// Time base of the input stream, used by decoder and encoder.
    pub input_time_base: Rational,
    /// Time base the output container assigned to the output stream.
    pub output_time_base: Rational,
    /// Where the drive stands.
    pub mode: DriveMode,
    /// Progress reporting for this stream.
    pub progress: ProgressReporter,
}

impl Transcoder {
    /// Both time bases are usable.
    pub open spec fn wf(self) -> bool {
        self.input_time_base.is_time_base() && self.output_time_base.is_time_base()
    }

    /// A transcoder ready for its first packet, with progress logging
    /// enabled only for the container's best video stream.
    pub fn new(
        out_index: usize,
        input_time_base: Rational,
        output_time_base: Rational,
        log_enabled: bool,
        now_ms: u64,
    ) -> (t: Transcoder)
        requires
            input_time_base.is_time_base(),
            output_time_base.is_time_base(),
        ensures
            t.wf(),
            t.out_index == out_index,
            t.input_time_base == input_time_base,
            t.output_time_base == output_time_base,
            t.mode is AwaitInput,
            t.progress == (ProgressReporter {
                enabled: log_enabled,
                frame_count: 0,
                last_log_frame_count: 0,
                start_ms: now_ms,
                last_log_ms: now_ms,
            }),
    {
        Transcoder {
            out_index,
            input_time_base,
            output_time_base,
            mode: DriveMode::AwaitInput,
            progress: ProgressReporter::new(log_enabled, now_ms),
        }
    }

    /// Handle one event: move to the next mode and say which codec operation
    /// to perform next. Decoded frames are counted and may emit a progress
    /// line; encoded packets come back re-targeted and rescaled for the
    /// output stream, payload untouched.
    pub fn step(&mut self, event: CodecEvent, now_ms: u64) -> (out: (
        CodecAction,
        Option<ProgressLine>,
    ))
        requires
            old(self).wf(),
            accepts(old(self).mode, event),
            event_fits(event, old(self).input_time_base, old(self).output_time_base),
        ensures
            final(self).wf(),
            final(self).out_index == old(self).out_index,
            final(self).input_time_base == old(self).input_time_base,
            final(self).output_time_base == old(self).output_time_base,
            final(self).mode == next_mode(old(self).mode, event),
            // progress is touched exactly when a frame is decoded
            !(event is FrameReady) ==> final(self).progress == old(self).progress && out.1
                is None,
            event matches CodecEvent::FrameReady(f) ==> {
                &&& final(self).progress == reporter_after_frame(old(self).progress, now_ms)
                &&& out.1 == line_after_frame(
                    old(self).progress,
                    now_ms,
                    rescale(frame_pts0(f) as int, old(self).input_time_base, ms_time_base()) as i64,
                )
            },
            // what each event turns into
            event matches CodecEvent::PacketArrived(p) ==> out.0 matches
                CodecAction::SendPacketToDecoder(p2) && p2.payload@ == p.payload@ && p2.pts == p.pts
                && p2.dts == p.dts && p2.stream_index == p.stream_index && p2.position
                == p.position,
            event matches CodecEvent::FrameReady(f) ==> out.0 matches
                CodecAction::SendFrameToEncoder(f2) && f2.data@ == f.data@ && f2.kind is Unspecified
                && f2.pts == Some(frame_pts0(f)),
            event matches CodecEvent::PacketEncoded(p) ==> out.0 matches CodecAction::WritePacket(
                p2,
            ) && p2.payload@ == p.payload@ && p2.stream_index == old(self).out_index && p2.position
                == p.position && p2.pts == opt_rescale(
                p.pts,
                old(self).input_time_base,
                old(self).output_time_base,
            ) && p2.dts == opt_rescale(
                p.dts,
                old(self).input_time_base,
                old(self).output_time_base,
            ),
            // which mode-event pairs each signalling action belongs to
            out.0 is SendEofToDecoder <==> old(self).mode is AwaitInput && event
                is InputExhausted,
            out.0 is SendEofToEncoder <==> old(self).mode == (DriveMode::PollDecoder {
                flushing: true,
            }) && (event is FrameNotReady || event is DecodeFailed),
            out.0 is RequestInput <==> old(self).mode == (DriveMode::PollDecoder {
                flushing: false,
            }) && (event is FrameNotReady || event is DecodeFailed),
            out.0 is PollDecoderAgain <==> old(self).mode is PollEncoder && (event
                is EncoderDrained || event is EncodeFailed),
            out.0 is Finish <==> old(self).mode is EncoderTail && (event is EncoderDrained
                || event is EncodeFailed),
            out.0 is SendFrameToEncoder <==> event is FrameReady,
            out.0 is WritePacket <==> event is PacketEncoded,
            out.0 is SendPacketToDecoder <==> event is PacketArrived,
    {
        let mode = self.mode;
        match event {
            CodecEvent::PacketArrived(p) => {
                self.mode = DriveMode::PollDecoder { flushing: false };
                (CodecAction::SendPacketToDecoder(p), None)
            },
            CodecEvent::InputExhausted => {
                self.mode = DriveMode::PollDecoder { flushing: true };
                (CodecAction::SendEofToDecoder, None)
            },
            CodecEvent::FrameReady(f) => {
                let flushing = match mode {
                    DriveMode::PollDecoder { flushing } => flushing,
                    _ => vstd::pervasive::unreached(),
                };
                let mut f = f;
                let pts0: i64 = match f.pts {
                    Some(t) => t,
                    None => 0,
                };
                let ts_ms = rescale_ts(pts0, self.input_time_base, Rational::new(1, 1000));
                self.progress.observe_frame();
                let line = self.progress.maybe_log(now_ms, ts_ms);
                prepare_frame_for_encode(&mut f);
                self.mode = DriveMode::PollEncoder { flushing };
                (CodecAction::SendFrameToEncoder(f), line)
            },
            CodecEvent::FrameNotReady | CodecEvent::DecodeFailed => {
                let flushing = match mode {
                    DriveMode::PollDecoder { flushing } => flushing,
                    _ => vstd::pervasive::unreached(),
                };
                if flushing {
                    self.mode = DriveMode::EncoderTail;
                    (CodecAction::SendEofToEncoder, None)
                } else {
                    self.mode = DriveMode::AwaitInput;
                    (CodecAction::RequestInput, None)
                }
            },
            CodecEvent::PacketEncoded(p) => {
                let mut p = p;
                prepare_encoded_packet(
                    &mut p,
                    self.input_time_base,
                    self.output_time_base,
                    self.out_index,
                );
                (CodecAction::WritePacket(p), None)
            },
            CodecEvent::EncoderDrained | CodecEvent::EncodeFailed => {
                match mode {
                    DriveMode::PollEncoder { flushing } => {
                        self.mode = DriveMode::PollDecoder { flushing };
                        (CodecAction::PollDecoderAgain, None)
                    },
                    DriveMode::EncoderTail => {
                        self.mode = DriveMode::Finished;
                        (CodecAction::Finish, None)
                    },
                    _ => vstd::pervasive::unreached(),
                }
            },
        }
    }
}

/// The mode after the first `i` events of a run that starts in `m0`.
pub open spec fn mode_at(m0: DriveMode, events: Seq<CodecEvent>, i: int) -> DriveMode
    decreases i,
{
    if i <= 0 {
        m0
    } else {
        next_mode(mode_at(m0, events, i - 1), events[i - 1])
    }
}

/// A run in which every event is one its mode accepts.
pub open spec fn valid_trace(m0: DriveMode, events: Seq<CodecEvent>) -> bool {
    forall|i: int|
        0 <= i < events.len() ==> accepts(#[trigger] mode_at(m0, events, i), events[i])
}

/// How far end-of-stream handling has progressed: 0 while input still flows,
/// 1 once the decoder got its end-of-stream signal, 2 once the encoder got
/// its own, 3 when the stream is done. It never decreases along a run.
pub open spec fn flush_phase(mode: DriveMode) -> int {
    match mode {
        DriveMode::AwaitInput => 0,
        DriveMode::PollDecoder { flushing } => if flushing {
            1
        } else {
            0
        },
        DriveMode::PollEncoder { flushing } => if flushing {
            1
        } else {
            0
        },
        DriveMode::EncoderTail => 2,
        DriveMode::Finished => 3,
    }
}

proof fn lemma_phase_monotone(mode: DriveMode, event: CodecEvent)
    ensures
        flush_phase(next_mode(mode, event)) >= flush_phase(mode),
{
}

/// Any flushing mode was entered by the end-of-input event, seen in
/// `AwaitInput`: the decoder's end-of-stream signal came first.
proof fn lemma_flushing_has_input_exhausted(events: Seq<CodecEvent>, i: int)
    requires
        valid_trace(DriveMode::AwaitInput, events),
        0 <= i <= events.len(),
        flush_phase(mode_at(DriveMode::AwaitInput, events, i)) >= 1,
    ensures
        exists|j: int|
            0 <= j < i && #[trigger] mode_at(DriveMode::AwaitInput, events, j) is AwaitInput
                && events[j] is InputExhausted,
    decreases i,
{
    let m0 = DriveMode::AwaitInput;
    if i == 0 {
        assert(false);
    } else {
        let prev = mode_at(m0, events, i - 1);
        if flush_phase(prev) >= 1 {
            lemma_flushing_has_input_exhausted(events, i - 1);
            let j = choose|j: int|
                0 <= j < i - 1 && #[trigger] mode_at(m0, events, j) is AwaitInput && events[j]
                    is InputExhausted;
            assert(mode_at(m0, events, j) is AwaitInput && events[j] is InputExhausted);
        } else {
            assert(accepts(prev, events[i - 1]));
            assert(prev is AwaitInput && events[i - 1] is InputExhausted);
            assert(mode_at(m0, events, i - 1) is AwaitInput);
        }
    }
}

/// Once the encoder's end-of-stream has been issued, the machine stays in
/// the final drain: only `EncoderTail` and `Finished` are reachable.
proof fn lemma_tail_stays(events: Seq<CodecEvent>, i: int, k: int)
    requires
        0 <= i <= k <= events.len(),
        flush_phase(mode_at(DriveMode::AwaitInput, events, i)) >= 2,
    ensures
        flush_phase(mode_at(DriveMode::AwaitInput, events, k)) >= 2,
    decreases k - i,
{
    if i < k {
        lemma_phase_monotone(mode_at(DriveMode::AwaitInput, events, i), events[i]);
        lemma_tail_stays(events, i + 1, k);
    }
}

/// Law: end-of-stream flushing is two-phase, decoder first. In any valid run
/// from the initial mode, consider a step that issues the encoder's
/// end-of-stream signal (the decoder, while flushing, reported no more
/// frames or failed — by `step`'s contract exactly the `SendEofToEncoder`
/// step). Then:
/// the decoder's own end-of-stream signal was issued at some strictly
/// earlier step; and from the next step on the machine only drains the
/// encoder — no packet is fed, no frame is decoded or encoded, every later
/// event is an encoder answer, so every frame the decoder flush emitted had
/// already been encoded and written.
pub proof fn lemma_flush_two_phase(events: Seq<CodecEvent>, i: int)
    requires
        valid_trace(DriveMode::AwaitInput, events),
        0 <= i < events.len(),
        mode_at(DriveMode::AwaitInput, events, i) == (DriveMode::PollDecoder { flushing: true }),
        events[i] is FrameNotReady || events[i] is DecodeFailed,
    ensures
        exists|j: int|
            0 <= j < i && #[trigger] mode_at(DriveMode::AwaitInput, events, j) is AwaitInput
                && events[j] is InputExhausted,
        forall|k: int|
            i < k <= events.len() ==> (#[trigger] mode_at(DriveMode::AwaitInput, events, k))
                is EncoderTail || mode_at(DriveMode::AwaitInput, events, k) is Finished,
        forall|k: int|
            i < k < events.len() ==> !(#[trigger] events[k] is FrameReady) && !(events[k]
                is PacketArrived) && !(events[k] is FrameNotReady) && !(events[k]
                is InputExhausted) && !(events[k] is DecodeFailed),
{
    let m0 = DriveMode::AwaitInput;
    lemma_flushing_has_input_exhausted(events, i);
    assert(mode_at(m0, events, i + 1) is EncoderTail);
    assert forall|k: int| i < k <= events.len() implies (#[trigger] mode_at(m0, events, k))
        is EncoderTail || mode_at(m0, events, k) is Finished by {
        lemma_tail_stays(events, i + 1, k);
    }
    assert forall|k: int| i < k < events.len() implies !(#[trigger] events[k] is FrameReady)
        && !(events[k] is PacketArrived) && !(events[k] is FrameNotReady) && !(events[k]
        is InputExhausted) && !(events[k] is DecodeFailed) by {
        lemma_tail_stays(events, i + 1, k);
        assert(accepts(mode_at(m0, events, k), events[k]));
    }
}

} // verus!
