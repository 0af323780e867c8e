//! Media metadata records served to clients, and the names the media kinds
//! go by.

use crate::classify::Medium;
use vstd::prelude::*;
use vstd::string::StringExecFns;

verus! {

/// A request to register a media item.
pub struct CreateMediaItem {
    /// Display title.
    pub title: String,
    /// Storage path of the media file.
    pub path: String,
}

/// Per-stream codec metadata reported for a stored media file.
pub struct CodecInfo {
    /// The codec's name.
    pub codec_id: String,
    /// The stream's medium, by name.
    pub codec_medium: String,
    /// Stream duration in stream-relative ticks.
    pub length: i64,
}

/// Everything reported about one stored media file.
pub struct MediaInfo {
    /// Display title.
    pub name: String,
    /// One entry per stream, in container order.
    pub codecs: Vec<CodecInfo>,
}

/// The display name of a medium.
pub open spec fn medium_name(m: Medium) -> Seq<char> {
    match m {
        Medium::Video => "Video"@,
        Medium::Audio => "Audio"@,
        Medium::Subtitle => "Subtitle"@,
        Medium::Data => "Data"@,
        Medium::Attachment => "Attachment"@,
        Medium::Unknown => "Unknown"@,
    }
}

/// The display name of a stream's medium.
pub fn get_medium_type(medium: Medium) -> (r: String)
    ensures
        r@ == medium_name(medium),
{
    match medium {
        Medium::Video => String::from_str("Video"),
        Medium::Audio => String::from_str("Audio"),
        Medium::Subtitle => String::from_str("Subtitle"),
        Medium::Data => String::from_str("Data"),
        Medium::Attachment => String::from_str("Attachment"),
        Medium::Unknown => String::from_str("Unknown"),
    }
}

/// The codec record for one stream, from what the container reports about
/// it: the codec's name, the stream's medium, and its duration in ticks.
pub fn codec_info(codec_id: String, medium: Medium, duration: i64) -> (c: CodecInfo)
    ensures
        c.codec_id@ == codec_id@,
        c.codec_medium@ == medium_name(medium),
        c.length == duration,
{
    CodecInfo { codec_id, codec_medium: get_medium_type(medium), length: duration }
}

} // verus!
