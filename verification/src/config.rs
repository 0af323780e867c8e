//! Encoder initialization: the configuration a fresh encoder is opened with.
//!
//! The decoder is constructed from the input stream's codec parameters; the
//! encoder for a re-encoded video stream targets one fixed codec and inherits
//! geometry and frame rate from the decoder, the time base from the input
//! stream, and the global-header flag from the output container's format.
//! Opening the encoder with these values is the codec library's job; failing
//! to open it is a fatal setup error for the whole job.

use crate::rational::Rational;
use vstd::prelude::*;

verus! {

/// The codec an encoder is opened for.
#[derive(Clone, Copy, PartialEq, Eq, Structural, Debug)]
pub enum TargetCodec {
    /// H.264, the fixed target for re-encoded video streams.
    H264,
    /// ASS, the fixed target for re-encoded subtitle streams.
    Ass,
}

/// What the opened decoder reports about its stream, as plain values.
pub struct DecoderInfo {
    /// Picture width in pixels.
    pub width: u32,
    /// Picture height in pixels.
    pub height: u32,
    /// Sample aspect ratio.
    pub aspect_ratio: Rational,
    /// The decoder's pixel format, by the codec library's numeric id.
    pub pixel_format: i32,
    /// Frames per second.
    pub frame_rate: Rational,
}

/// Everything an encoder is opened with.
pub struct EncoderConfig {
    /// The fixed target codec.
    pub codec: TargetCodec,
    /// Picture width in pixels.
    pub width: u32,
    /// Picture height in pixels.
    pub height: u32,
    /// Sample aspect ratio.
    pub aspect_ratio: Rational,
    /// Pixel format, by the codec library's numeric id.
    pub pixel_format: i32,
    /// Frames per second.
    pub frame_rate: Rational,
    /// Time base the encoder stamps its output with.
    pub time_base: Rational,
    /// Whether the output container wants stream headers out of band.
    pub global_header: bool,
    /// Free-form key/value tuning options for the open call.
    pub options: Vec<(String, String)>,
}

/// The configuration for a video encoder: H.264, geometry, pixel format and
/// frame rate inherited from the decoder, time base from the input stream,
/// global-header flag mirrored from the output container, and the given
/// tuning options.
pub fn video_encoder_config(
    decoder: &DecoderInfo,
    input_time_base: Rational,
    global_header: bool,
    options: Vec<(String, String)>,
) -> (c: EncoderConfig)
    ensures
        c.codec is H264,
        c.width == decoder.width,
        c.height == decoder.height,
        c.aspect_ratio == decoder.aspect_ratio,
        c.pixel_format == decoder.pixel_format,
        c.frame_rate == decoder.frame_rate,
        c.time_base == input_time_base,
        c.global_header == global_header,
        c.options@ == options@,
{
    EncoderConfig {
        codec: TargetCodec::H264,
        width: decoder.width,
        height: decoder.height,
        aspect_ratio: decoder.aspect_ratio,
        pixel_format: decoder.pixel_format,
        frame_rate: decoder.frame_rate,
        time_base: input_time_base,
        global_header,
        options,
    }
}

/// The configuration for a subtitle encoder: ASS, the decoder's frame rate,
/// and a fixed millisecond time base. Geometry and pixel format do not apply
/// to subtitles; the neutral values are zero width, zero height, a 0/1
/// aspect ratio and a negative pixel format id (the library's "none").
pub fn subtitle_encoder_config(decoder_frame_rate: Rational, options: Vec<(String, String)>) -> (c:
    EncoderConfig)
    ensures
        c.codec is Ass,
        c.frame_rate == decoder_frame_rate,
        c.time_base == (Rational { num: 1, den: 1000 }),
        c.global_header == false,
        c.options@ == options@,
        c.width == 0,
        c.height == 0,
{
    EncoderConfig {
        codec: TargetCodec::Ass,
        width: 0,
        height: 0,
        aspect_ratio: Rational { num: 0, den: 1 },
        pixel_format: -1,
        frame_rate: decoder_frame_rate,
        time_base: Rational { num: 1, den: 1000 },
        global_header: false,
        options,
    }
}

} // verus!
