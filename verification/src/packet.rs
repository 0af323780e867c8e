//! Packets and frames, and the transforms they undergo on their way to the
//! output container.
//!
//! A packet is an encoded unit of exactly one stream; a frame is a decoded
//! unit. Crossing from the input time domain to the output one rescales the
//! timestamps, re-targets the stream index, and (on the copy path) clears the
//! container-specific position hint. The payload is never touched.

use crate::rational::{rescale, rescale_fits, rescale_ts, Rational};
use vstd::prelude::*;

verus! {

/// An encoded unit belonging to exactly one stream.
pub struct Packet {
    /// Index of the stream this packet belongs to.
    pub stream_index: usize,
    /// Presentation timestamp in the owning stream's time base, if known.
    pub pts: Option<i64>,
    /// Decoding timestamp in the owning stream's time base, if known.
    pub dts: Option<i64>,
    /// Byte position hint within the container; -1 means unknown. The hint is
    /// container-specific and invalid after a remux.
    pub position: i64,
    /// The compressed payload.
    pub payload: Vec<u8>,
}

/// Encoder picture-type hint carried by a frame.
#[derive(Clone, Copy, PartialEq, Eq, Structural, Debug)]
pub enum PictureKind {
    /// No constraint: the encoder chooses the picture type.
    Unspecified,
    Intra,
    Predicted,
    Bidirectional,
}

/// A decoded unit: audio samples or a video image.
pub struct Frame {
    /// Presentation timestamp in the input time base, if the decoder reported
    /// one.
    pub pts: Option<i64>,
    /// Picture-type hint handed to the encoder.
    pub kind: PictureKind,
    /// The uncompressed data.
    pub data: Vec<u8>,
}

/// Whether an optional timestamp, once rescaled, still fits in 64 bits.
pub open spec fn opt_rescale_fits(t: Option<i64>, from: Rational, to: Rational) -> bool {
    match t {
        Some(v) => rescale_fits(v as int, from, to),
        None => true,
    }
}

/// An optional timestamp rescaled between time bases; a missing timestamp
/// stays missing.
pub open spec fn opt_rescale(t: Option<i64>, from: Rational, to: Rational) -> Option<i64> {
    match t {
        Some(v) => Some(rescale(v as int, from, to) as i64),
        None => None,
    }
}

/// Rescale both timestamps of a packet from one time base to another.
fn rescale_packet_ts(p: &mut Packet, from: Rational, to: Rational)
    requires
        from.is_time_base(),
        to.is_time_base(),
        opt_rescale_fits(old(p).pts, from, to),
        opt_rescale_fits(old(p).dts, from, to),
    ensures
        final(p).pts == opt_rescale(old(p).pts, from, to),
        final(p).dts == opt_rescale(old(p).dts, from, to),
        final(p).stream_index == old(p).stream_index,
        final(p).position == old(p).position,
        final(p).payload@ == old(p).payload@,
{
    let pts = p.pts;
    match pts {
        Some(t) => {
            p.pts = Some(rescale_ts(t, from, to));
        },
        None => {},
    }
    let dts = p.dts;
    match dts {
        Some(t) => {
            p.dts = Some(rescale_ts(t, from, to));
        },
        None => {},
    }
}

/// Prepare a copy-through packet for the output container: rescale its
/// timestamps from the input to the output time base, clear the position
/// hint, and re-target it at its output stream. The payload bytes are
/// preserved exactly; nothing else changes.
pub fn prepare_copy_packet(p: &mut Packet, from: Rational, to: Rational, out_index: usize)
    requires
        from.is_time_base(),
        to.is_time_base(),
        opt_rescale_fits(old(p).pts, from, to),
        opt_rescale_fits(old(p).dts, from, to),
    ensures
        final(p).payload@ == old(p).payload@,
        final(p).stream_index == out_index,
        final(p).position == -1,
        final(p).pts == opt_rescale(old(p).pts, from, to),
        final(p).dts == opt_rescale(old(p).dts, from, to),
{
    rescale_packet_ts(p, from, to);
    p.position = -1;
    p.stream_index = out_index;
}

/// Prepare a freshly encoded packet for the output container: re-target it at
/// its output stream and rescale its timestamps from the input to the output
/// time base. The payload bytes are preserved exactly; nothing else changes.
pub fn prepare_encoded_packet(p: &mut Packet, from: Rational, to: Rational, out_index: usize)
    requires
        from.is_time_base(),
        to.is_time_base(),
        opt_rescale_fits(old(p).pts, from, to),
        opt_rescale_fits(old(p).dts, from, to),
    ensures
        final(p).payload@ == old(p).payload@,
        final(p).stream_index == out_index,
        final(p).position == old(p).position,
        final(p).pts == opt_rescale(old(p).pts, from, to),
        final(p).dts == opt_rescale(old(p).dts, from, to),
{
    p.stream_index = out_index;
    rescale_packet_ts(p, from, to);
}

/// Stamp a decoded frame for the encode stage: keep the decoder's reported
/// presentation timestamp, substituting tick 0 when it is missing, and leave
/// the picture type unspecified so the encoder chooses. The frame data is
/// preserved exactly.
pub fn prepare_frame_for_encode(f: &mut Frame)
    ensures
        final(f).data@ == old(f).data@,
        final(f).kind is Unspecified,
        final(f).pts == Some(
            match old(f).pts {
                Some(t) => t,
                None => 0 as i64,
            },
        ),
{
    let pts = f.pts;
    f.pts = Some(
        match pts {
            Some(t) => t,
            None => 0,
        },
    );
    f.kind = PictureKind::Unspecified;
}

} // verus!
