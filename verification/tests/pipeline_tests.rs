use media_core::classify::{build_routes, EncodeKind, Medium, Route};
use media_core::config::{subtitle_encoder_config, video_encoder_config, DecoderInfo, TargetCodec};
use media_core::machine::{CodecAction, CodecEvent, DriveMode, Transcoder};
use media_core::opts::{parse_opts, DEFAULT_X264_OPTS};
use media_core::packet::{prepare_copy_packet, prepare_frame_for_encode, Frame, Packet, PictureKind};
use media_core::rational::{rescale_ts, Rational};

fn ms() -> Rational {
    Rational::new(1, 1000)
}

fn ticks90k() -> Rational {
    Rational::new(1, 90000)
}

#[test]
fn rescale_exact() {
    // 1000 ms = 90000 ticks of 1/90000 s
    assert_eq!(rescale_ts(1000, ms(), ticks90k()), 90000);
    assert_eq!(rescale_ts(90000, ticks90k(), ms()), 1000);
    assert_eq!(rescale_ts(0, ms(), ticks90k()), 0);
}

#[test]
fn rescale_rounds_half_away_from_zero() {
    // 1 tick of 1/2 s is 0.5 s: one whole second tick, half rounded up
    assert_eq!(rescale_ts(1, Rational::new(1, 2), Rational::new(1, 1)), 1);
    assert_eq!(rescale_ts(-1, Rational::new(1, 2), Rational::new(1, 1)), -1);
    // -1/3 s is nearer to zero seconds
    assert_eq!(rescale_ts(-1, Rational::new(1, 3), Rational::new(1, 1)), 0);
}

#[test]
fn rescale_round_trip_within_one_tick() {
    // to a finer base and back: never further than one tick from the start
    for t in [0i64, 1, 7, 999, 1000, 123456] {
        let there = rescale_ts(t, ms(), ticks90k());
        let back = rescale_ts(there, ticks90k(), ms());
        assert!((back - t).abs() <= 1, "t={} came back as {}", t, back);
    }
}

#[test]
fn classifier_routes_by_medium() {
    let media = vec![
        Medium::Video,
        Medium::Audio,
        Medium::Subtitle,
        Medium::Data,
        Medium::Attachment,
        Medium::Unknown,
    ];
    let routes = build_routes(&media, Some(0));
    assert_eq!(routes.len(), 6);
    assert_eq!(
        routes[0],
        Route::Encode {
            kind: EncodeKind::Video,
            out_index: 0,
            log_enabled: true
        }
    );
    assert_eq!(routes[1], Route::CopyThrough { out_index: 1 });
    assert_eq!(
        routes[2],
        Route::Encode {
            kind: EncodeKind::Subtitle,
            out_index: 2,
            log_enabled: false
        }
    );
    assert_eq!(routes[3], Route::Discard);
    assert_eq!(routes[4], Route::Discard);
    assert_eq!(routes[5], Route::Discard);
}

#[test]
fn classifier_indices_dense() {
    // dropped streams take no output index; kept ones count up densely
    let media = vec![
        Medium::Data,
        Medium::Audio,
        Medium::Unknown,
        Medium::Video,
        Medium::Audio,
    ];
    let routes = build_routes(&media, Some(3));
    assert_eq!(routes[0], Route::Discard);
    assert_eq!(routes[1], Route::CopyThrough { out_index: 0 });
    assert_eq!(routes[2], Route::Discard);
    assert_eq!(
        routes[3],
        Route::Encode {
            kind: EncodeKind::Video,
            out_index: 1,
            log_enabled: true
        }
    );
    assert_eq!(routes[4], Route::CopyThrough { out_index: 2 });
}

#[test]
fn classifier_no_best_video() {
    let routes = build_routes(&vec![Medium::Video], None);
    assert_eq!(
        routes[0],
        Route::Encode {
            kind: EncodeKind::Video,
            out_index: 0,
            log_enabled: false
        }
    );
}

#[test]
fn copy_packet_keeps_payload() {
    let mut p = Packet {
        stream_index: 4,
        pts: Some(2000),
        dts: Some(1000),
        position: 777,
        payload: vec![0xde, 0xad, 0xbe, 0xef],
    };
    prepare_copy_packet(&mut p, ms(), ticks90k(), 1);
    // payload bytes exactly preserved; timestamp, index and position changed
    assert_eq!(p.payload, vec![0xde, 0xad, 0xbe, 0xef]);
    assert_eq!(p.stream_index, 1);
    assert_eq!(p.position, -1);
    assert_eq!(p.pts, Some(180000));
    assert_eq!(p.dts, Some(90000));
}

#[test]
fn copy_packet_missing_timestamps() {
    let mut p = Packet {
        stream_index: 0,
        pts: None,
        dts: None,
        position: 5,
        payload: vec![],
    };
    prepare_copy_packet(&mut p, ms(), ms(), 3);
    assert_eq!(p.pts, None);
    assert_eq!(p.dts, None);
    assert_eq!(p.position, -1);
    assert_eq!(p.stream_index, 3);
}

#[test]
fn frame_stamping() {
    let mut f = Frame {
        pts: None,
        kind: PictureKind::Intra,
        data: vec![1, 2, 3],
    };
    prepare_frame_for_encode(&mut f);
    // a missing timestamp becomes tick 0; the encoder picks the picture type
    assert_eq!(f.pts, Some(0));
    assert_eq!(f.kind, PictureKind::Unspecified);
    assert_eq!(f.data, vec![1, 2, 3]);

    let mut g = Frame {
        pts: Some(42),
        kind: PictureKind::Bidirectional,
        data: vec![],
    };
    prepare_frame_for_encode(&mut g);
    assert_eq!(g.pts, Some(42));
    assert_eq!(g.kind, PictureKind::Unspecified);
}

fn frame(pts: Option<i64>) -> Frame {
    Frame {
        pts,
        kind: PictureKind::Intra,
        data: vec![9],
    }
}

fn encoded(pts: i64) -> Packet {
    Packet {
        stream_index: 0,
        pts: Some(pts),
        dts: Some(pts),
        position: -1,
        payload: vec![1],
    }
}

fn action_name(a: &CodecAction) -> &'static str {
    match a {
        CodecAction::SendPacketToDecoder(_) => "send_packet_to_decoder",
        CodecAction::SendEofToDecoder => "send_eof_to_decoder",
        CodecAction::SendFrameToEncoder(_) => "send_frame_to_encoder",
        CodecAction::SendEofToEncoder => "send_eof_to_encoder",
        CodecAction::WritePacket(_) => "write_packet",
        CodecAction::PollDecoderAgain => "poll_decoder_again",
        CodecAction::RequestInput => "request_input",
        CodecAction::Finish => "finish",
    }
}

#[test]
fn transcoder_drives_packet_through() {
    let mut t = Transcoder::new(2, ms(), ticks90k(), false, 0);
    let input = Packet {
        stream_index: 0,
        pts: Some(10),
        dts: Some(10),
        position: 123,
        payload: vec![5, 6],
    };
    let (a, line) = t.step(CodecEvent::PacketArrived(input), 0);
    assert!(line.is_none());
    match a {
        CodecAction::SendPacketToDecoder(p) => {
            assert_eq!(p.payload, vec![5, 6]);
            assert_eq!(p.pts, Some(10));
        }
        other => panic!("unexpected action {}", action_name(&other)),
    }

    let (a, _) = t.step(CodecEvent::FrameReady(frame(Some(10))), 0);
    match a {
        CodecAction::SendFrameToEncoder(f) => {
            assert_eq!(f.pts, Some(10));
            assert_eq!(f.kind, PictureKind::Unspecified);
        }
        other => panic!("unexpected action {}", action_name(&other)),
    }

    let (a, _) = t.step(CodecEvent::PacketEncoded(encoded(10)), 0);
    match a {
        CodecAction::WritePacket(p) => {
            // re-targeted at the output stream, rescaled to its time base
            assert_eq!(p.stream_index, 2);
            assert_eq!(p.pts, Some(900));
            assert_eq!(p.dts, Some(900));
            assert_eq!(p.payload, vec![1]);
        }
        other => panic!("unexpected action {}", action_name(&other)),
    }

    let (a, _) = t.step(CodecEvent::EncoderDrained, 0);
    assert!(matches!(a, CodecAction::PollDecoderAgain));
    let (a, _) = t.step(CodecEvent::FrameNotReady, 0);
    assert!(matches!(a, CodecAction::RequestInput));
}

#[test]
fn transcoder_flush_order() {
    // a test double for the codec: feed a full end-of-stream sequence and
    // record the order of the calls the machine asks for
    let mut t = Transcoder::new(0, ms(), ticks90k(), false, 0);
    let script = vec![
        CodecEvent::PacketArrived(encoded(1)),
        CodecEvent::FrameReady(frame(Some(1))),
        CodecEvent::PacketEncoded(encoded(1)),
        CodecEvent::EncoderDrained,
        CodecEvent::FrameNotReady,
        CodecEvent::InputExhausted,
        // the decoder still buffers two frames; they drain before the
        // encoder is flushed
        CodecEvent::FrameReady(frame(Some(2))),
        CodecEvent::PacketEncoded(encoded(2)),
        CodecEvent::EncoderDrained,
        CodecEvent::FrameReady(frame(None)),
        CodecEvent::PacketEncoded(encoded(3)),
        CodecEvent::EncoderDrained,
        CodecEvent::FrameNotReady,
        // encoder flush
        CodecEvent::PacketEncoded(encoded(4)),
        CodecEvent::EncoderDrained,
    ];
    let mut calls: Vec<&'static str> = Vec::new();
    for ev in script {
        let (a, _) = t.step(ev, 0);
        calls.push(action_name(&a));
    }
    assert!(matches!(t.mode, DriveMode::Finished));

    let eof_dec = calls.iter().position(|c| *c == "send_eof_to_decoder").unwrap();
    let eof_enc = calls.iter().position(|c| *c == "send_eof_to_encoder").unwrap();
    // decoder flush strictly precedes encoder flush
    assert!(eof_dec < eof_enc);
    // every frame handed to the encoder precedes the encoder's flush
    for (i, c) in calls.iter().enumerate() {
        if *c == "send_frame_to_encoder" {
            assert!(i < eof_enc);
        }
    }
    // after the encoder flush only writes and the finish remain
    for c in calls[eof_enc + 1..].iter() {
        assert!(*c == "write_packet" || *c == "finish");
    }
    assert_eq!(*calls.last().unwrap(), "finish");
}

#[test]
fn transcoder_skips_corrupt_input() {
    // a decode failure costs only the corrupt packet, never the job
    let mut t = Transcoder::new(0, ms(), ticks90k(), false, 0);
    let (_, _) = t.step(CodecEvent::PacketArrived(encoded(1)), 0);
    let (a, _) = t.step(CodecEvent::DecodeFailed, 0);
    assert!(matches!(a, CodecAction::RequestInput));
    // the machine is back waiting for input and keeps working
    let (a, _) = t.step(CodecEvent::PacketArrived(encoded(2)), 0);
    assert!(matches!(a, CodecAction::SendPacketToDecoder(_)));
    // an encode failure costs only the frame
    let (_, _) = t.step(CodecEvent::FrameReady(frame(Some(2))), 0);
    let (a, _) = t.step(CodecEvent::EncodeFailed, 0);
    assert!(matches!(a, CodecAction::PollDecoderAgain));
    let (a, _) = t.step(CodecEvent::FrameNotReady, 0);
    assert!(matches!(a, CodecAction::RequestInput));
}

#[test]
fn encoder_config_inherits_from_decoder() {
    let dec = DecoderInfo {
        width: 1920,
        height: 1080,
        aspect_ratio: Rational::new(16, 9),
        pixel_format: 0,
        frame_rate: Rational::new(24000, 1001),
    };
    let opts = parse_opts(DEFAULT_X264_OPTS).unwrap();
    let c = video_encoder_config(&dec, ms(), true, opts);
    assert_eq!(c.codec, TargetCodec::H264);
    assert_eq!(c.width, 1920);
    assert_eq!(c.height, 1080);
    assert_eq!(c.aspect_ratio, Rational::new(16, 9));
    assert_eq!(c.frame_rate, Rational::new(24000, 1001));
    assert_eq!(c.time_base, ms());
    assert!(c.global_header);
    assert_eq!(c.options.len(), 1);
    assert_eq!(c.options[0].0, "preset");
    assert_eq!(c.options[0].1, "medium");
}

#[test]
fn subtitle_config_fixed_time_base() {
    let c = subtitle_encoder_config(Rational::new(25, 1), Vec::new());
    assert_eq!(c.codec, TargetCodec::Ass);
    assert_eq!(c.time_base, Rational::new(1, 1000));
    assert_eq!(c.frame_rate, Rational::new(25, 1));
    assert!(!c.global_header);
}

#[test]
fn opts_default_and_lists() {
    let d = parse_opts("preset=medium").unwrap();
    assert_eq!(d, vec![("preset".to_string(), "medium".to_string())]);

    let d = parse_opts("a=1,b=2,c=3").unwrap();
    assert_eq!(
        d,
        vec![
            ("a".to_string(), "1".to_string()),
            ("b".to_string(), "2".to_string()),
            ("c".to_string(), "3".to_string()),
        ]
    );

    // a trailing comma is allowed; an empty string carries no options
    assert_eq!(parse_opts("a=1,").unwrap().len(), 1);
    assert_eq!(parse_opts("").unwrap().len(), 0);

    // empty key or value is still one '=' per item
    assert_eq!(parse_opts("k=").unwrap(), vec![("k".to_string(), String::new())]);
    assert_eq!(parse_opts("=v").unwrap(), vec![(String::new(), "v".to_string())]);
}

#[test]
fn opts_malformed_rejected_whole() {
    assert_eq!(parse_opts("a"), None);
    assert_eq!(parse_opts("a=1=2"), None);
    assert_eq!(parse_opts("a=1,b"), None);
    assert_eq!(parse_opts("a=1,,b=2"), None);
    assert_eq!(parse_opts(","), None);
}
