use media_core::classify::Medium;
use media_core::media::{codec_info, get_medium_type, CodecInfo, CreateMediaItem, MediaInfo};
use media_core::packet::Packet;
use media_core::progress::ProgressReporter;
use media_core::rational::Rational;
use media_core::writer::{copy_stream_decl, ContainerWriter, OutputStreamDecl, WriterError};

#[test]
fn progress_needs_both_windows() {
    let mut r = ProgressReporter::new(true, 0);
    for _ in 0..100 {
        r.observe_frame();
    }
    // enough frames, not enough time
    assert!(r.maybe_log(999, 0).is_none());
    // both windows satisfied
    let line = r.maybe_log(1000, 50).unwrap();
    assert_eq!(line.elapsed_ms, 1000);
    assert_eq!(line.frame_count, 100);
    assert_eq!(line.timestamp_ms, 50);
}

#[test]
fn progress_one_line_per_window() {
    let mut r = ProgressReporter::new(true, 0);
    for _ in 0..100 {
        r.observe_frame();
    }
    assert!(r.maybe_log(1500, 0).is_some());
    // immediately after an emission: no frames, no time
    assert!(r.maybe_log(1500, 0).is_none());
    // plenty of time but too few frames since the last line
    for _ in 0..99 {
        r.observe_frame();
    }
    assert!(r.maybe_log(5000, 0).is_none());
    // enough frames but within a second of the last line
    r.observe_frame();
    assert!(r.maybe_log(2400, 0).is_none());
    // both again
    assert!(r.maybe_log(2500, 0).is_some());
}

#[test]
fn progress_disabled_never_emits() {
    let mut r = ProgressReporter::new(false, 0);
    for _ in 0..1000 {
        r.observe_frame();
    }
    assert!(r.maybe_log(1_000_000, 0).is_none());
}

fn packet_for(stream: usize) -> Packet {
    Packet {
        stream_index: stream,
        pts: Some(0),
        dts: Some(0),
        position: -1,
        payload: vec![1, 2],
    }
}

fn decl() -> OutputStreamDecl {
    copy_stream_decl(vec![3, 4, 5], Rational::new(1, 1000))
}

#[test]
fn copy_decl_neutralizes_codec_tag() {
    let d = copy_stream_decl(vec![9, 9], Rational::new(1, 48000));
    assert_eq!(d.codec_params, vec![9, 9]);
    assert_eq!(d.codec_tag, 0);
    assert_eq!(d.time_base, Rational::new(1, 48000));
}

#[test]
fn writer_happy_path() {
    let mut w = ContainerWriter::new();
    assert_eq!(w.add_stream(decl()), Ok(0));
    assert_eq!(w.add_stream(decl()), Ok(1));
    assert_eq!(w.write_header(), Ok(()));
    assert_eq!(w.write_packet(packet_for(0)), Ok(()));
    assert_eq!(w.write_packet(packet_for(1)), Ok(()));
    assert_eq!(w.write_trailer(), Ok(()));
    assert_eq!(w.written.len(), 2);
    assert_eq!(w.streams.len(), 2);
}

#[test]
fn writer_packet_needs_header() {
    let mut w = ContainerWriter::new();
    w.add_stream(decl()).unwrap();
    assert_eq!(w.write_packet(packet_for(0)), Err(WriterError::HeaderNotWritten));
    assert_eq!(w.written.len(), 0);
}

#[test]
fn writer_header_exactly_once() {
    let mut w = ContainerWriter::new();
    w.add_stream(decl()).unwrap();
    w.write_header().unwrap();
    assert_eq!(w.write_header(), Err(WriterError::HeaderAlreadyWritten));
    assert_eq!(w.add_stream(decl()), Err(WriterError::HeaderAlreadyWritten));
}

#[test]
fn writer_rejects_undeclared_stream() {
    let mut w = ContainerWriter::new();
    w.add_stream(decl()).unwrap();
    w.write_header().unwrap();
    assert_eq!(w.write_packet(packet_for(1)), Err(WriterError::UnknownStream));
}

#[test]
fn writer_trailer_exactly_once() {
    let mut w = ContainerWriter::new();
    assert_eq!(w.write_trailer(), Err(WriterError::HeaderNotWritten));
    w.write_header().unwrap();
    w.write_trailer().unwrap();
    assert_eq!(w.write_trailer(), Err(WriterError::TrailerAlreadyWritten));
    assert_eq!(w.write_packet(packet_for(0)), Err(WriterError::TrailerAlreadyWritten));
    assert_eq!(w.add_stream(decl()), Err(WriterError::TrailerAlreadyWritten));
}

#[test]
fn medium_names() {
    assert_eq!(get_medium_type(Medium::Video), "Video");
    assert_eq!(get_medium_type(Medium::Audio), "Audio");
    assert_eq!(get_medium_type(Medium::Subtitle), "Subtitle");
    assert_eq!(get_medium_type(Medium::Data), "Data");
    assert_eq!(get_medium_type(Medium::Attachment), "Attachment");
    assert_eq!(get_medium_type(Medium::Unknown), "Unknown");
}

#[test]
fn codec_record() {
    let c = codec_info("h264".to_string(), Medium::Video, 5000);
    assert_eq!(c.codec_id, "h264");
    assert_eq!(c.codec_medium, "Video");
    assert_eq!(c.length, 5000);
}

#[test]
fn media_info_assembly() {
    let item = CreateMediaItem {
        title: "clip".to_string(),
        path: "/store/clip.mkv".to_string(),
    };
    let codecs: Vec<CodecInfo> = vec![
        codec_info("h264".to_string(), Medium::Video, 1),
        codec_info("aac".to_string(), Medium::Audio, 2),
    ];
    let info = MediaInfo {
        name: item.title,
        codecs,
    };
    assert_eq!(info.name, "clip");
    assert_eq!(info.codecs.len(), 2);
    assert_eq!(info.codecs[1].codec_medium, "Audio");
}
