//! The stream output sink: classification, rebuild decisions, key-frame
//! retention, replay, and the liveness checkpoint.

use rtsp_router::format::{classify, MediaUnit, StreamFormat, VideoCodec};
use rtsp_router::selector::InputSource;
use rtsp_router::sink::{InjectionPoint, SinkError, StreamSink};

#[test]
fn classify_video_units() {
    assert_eq!(
        classify(&MediaUnit::KeyFrame(VideoCodec::H264, b"x".to_vec())),
        Some(StreamFormat::H264)
    );
    assert_eq!(
        classify(&MediaUnit::KeyFrame(VideoCodec::H265, b"x".to_vec())),
        Some(StreamFormat::H265)
    );
    assert_eq!(
        classify(&MediaUnit::DeltaFrame(VideoCodec::H264, b"x".to_vec())),
        Some(StreamFormat::H264)
    );
    assert_eq!(
        classify(&MediaUnit::DeltaFrame(VideoCodec::H265, b"x".to_vec())),
        Some(StreamFormat::H265)
    );
}

#[test]
fn classify_audio_units_block_size_from_length() {
    assert_eq!(classify(&MediaUnit::AudioAac(b"abc".to_vec())), Some(StreamFormat::Aac));
    assert_eq!(
        classify(&MediaUnit::AudioAdpcm(vec![0u8; 160])),
        Some(StreamFormat::Adpcm(160))
    );
    assert_eq!(classify(&MediaUnit::AudioAdpcm(Vec::new())), Some(StreamFormat::Adpcm(0)));
}

#[test]
fn classify_info_is_no_format() {
    assert_eq!(classify(&MediaUnit::Info), None);
}

#[test]
fn same_codec_stream_rebuilds_at_most_twice() {
    let mut sink = StreamSink::new();
    let mut rebuilds: usize = 0;
    for _ in 0..10 {
        let d = sink.receive(MediaUnit::KeyFrame(VideoCodec::H264, b"k".to_vec()));
        if d.rebuild.is_some() {
            rebuilds += 1;
        }
        let d = sink.receive(MediaUnit::DeltaFrame(VideoCodec::H264, b"d".to_vec()));
        if d.rebuild.is_some() {
            rebuilds += 1;
        }
        let d = sink.receive(MediaUnit::AudioAac(b"a".to_vec()));
        if d.rebuild.is_some() {
            rebuilds += 1;
        }
    }
    assert_eq!(rebuilds, 2);
}

#[test]
fn adpcm_block_size_change_drives_rebuilds() {
    let mut sink = StreamSink::new();
    let mut rebuilt = Vec::new();
    for len in [160usize, 160, 320, 320, 160] {
        let d = sink.receive(MediaUnit::AudioAdpcm(vec![0u8; len]));
        rebuilt.push(d.rebuild.is_some());
    }
    assert_eq!(rebuilt, vec![true, false, true, false, true]);
}

#[test]
fn codec_switch_rebuilds_again() {
    let mut sink = StreamSink::new();
    let d = sink.receive(MediaUnit::KeyFrame(VideoCodec::H264, b"k".to_vec()));
    assert!(d.rebuild.is_some());
    let d = sink.receive(MediaUnit::KeyFrame(VideoCodec::H265, b"k".to_vec()));
    assert!(d.rebuild.is_some());
    let d = sink.receive(MediaUnit::KeyFrame(VideoCodec::H265, b"k".to_vec()));
    assert!(d.rebuild.is_none());
}

#[test]
fn fresh_sink_descriptor_matches_the_empty_build() {
    let sink = StreamSink::new();
    assert_eq!(sink.current_descriptor(), rtsp_router::pipeline::build_descriptor(None, None));
}

#[test]
fn rebuild_carries_the_current_descriptor() {
    let mut sink = StreamSink::new();
    let initial = sink.current_descriptor();
    let d = sink.receive(MediaUnit::KeyFrame(VideoCodec::H264, b"k".to_vec()));
    let installed = d.rebuild.expect("first key frame must rebuild");
    assert_ne!(installed, initial);
    assert_eq!(installed, sink.current_descriptor());
    assert!(installed.contains("rtph264pay name=pay0"));
}

#[test]
fn payloads_route_to_their_injection_points() {
    let mut sink = StreamSink::new();
    let d = sink.receive(MediaUnit::KeyFrame(VideoCodec::H264, b"vid".to_vec()));
    let w = d.write.expect("video unit must write");
    assert_eq!(w.target, InjectionPoint::Video);
    assert_eq!(w.data, b"vid".to_vec());
    let d = sink.receive(MediaUnit::AudioAac(b"aud".to_vec()));
    let w = d.write.expect("audio unit must write");
    assert_eq!(w.target, InjectionPoint::Audio);
    assert_eq!(w.data, b"aud".to_vec());
    let d = sink.receive(MediaUnit::Info);
    assert!(d.write.is_none());
}

#[test]
fn selector_is_forced_to_camera_on_every_unit() {
    let mut sink = StreamSink::new();
    let d = sink.receive(MediaUnit::AudioAac(b"a".to_vec()));
    assert_eq!(d.source, InputSource::Camera);
    let d = sink.receive(MediaUnit::Info);
    assert_eq!(d.source, InputSource::Camera);
}

#[test]
fn replay_fails_until_first_committed_keyframe_then_succeeds() {
    let mut sink = StreamSink::new();
    assert!(!sink.has_last_keyframe());
    assert_eq!(sink.replay_last_keyframe().unwrap_err(), SinkError::NoData);

    sink.receive(MediaUnit::DeltaFrame(VideoCodec::H264, b"delta".to_vec()));
    sink.receive(MediaUnit::AudioAac(b"aud".to_vec()));
    assert!(!sink.has_last_keyframe());

    let d = sink.receive(MediaUnit::KeyFrame(VideoCodec::H264, b"first".to_vec()));
    let frame = d.retain.expect("a key frame carries its retention candidate");
    assert_eq!(frame, b"first".to_vec());
    assert!(sink.commit_keyframe(frame, true));
    assert!(sink.has_last_keyframe());
    let w = sink.replay_last_keyframe().expect("replay after a committed key frame succeeds");
    assert_eq!(w.target, InjectionPoint::Video);
    assert_eq!(w.data, b"first".to_vec());

    let d = sink.receive(MediaUnit::KeyFrame(VideoCodec::H264, b"second".to_vec()));
    sink.commit_keyframe(d.retain.unwrap(), true);
    sink.receive(MediaUnit::DeltaFrame(VideoCodec::H264, b"later".to_vec()));
    assert!(sink.has_last_keyframe());
    let w = sink.replay_last_keyframe().expect("replay keeps succeeding");
    assert_eq!(w.data, b"second".to_vec());
}

#[test]
fn uncommitted_keyframe_is_not_retained() {
    // A key frame whose payload write failed is never committed: replay
    // must keep handing back the previous successfully written frame.
    let mut sink = StreamSink::new();
    let d = sink.receive(MediaUnit::KeyFrame(VideoCodec::H264, b"good".to_vec()));
    sink.commit_keyframe(d.retain.unwrap(), true);

    let d = sink.receive(MediaUnit::KeyFrame(VideoCodec::H264, b"lost".to_vec()));
    assert_eq!(d.retain, Some(b"lost".to_vec()));
    // the write fails here, so the candidate is dropped, not committed
    let w = sink.replay_last_keyframe().expect("the earlier frame stays retained");
    assert_eq!(w.data, b"good".to_vec());
}

#[test]
fn stop_decision_only_at_keyframes() {
    let mut sink = StreamSink::new();
    // Units other than key frames carry no retention candidate, so the
    // oracle is never consulted for them and streaming always goes on.
    assert!(sink.receive(MediaUnit::DeltaFrame(VideoCodec::H264, b"d".to_vec())).retain.is_none());
    assert!(sink.receive(MediaUnit::AudioAac(b"a".to_vec())).retain.is_none());
    assert!(sink.receive(MediaUnit::AudioAdpcm(vec![0u8; 160])).retain.is_none());
    assert!(sink.receive(MediaUnit::Info).retain.is_none());
    let d = sink.receive(MediaUnit::KeyFrame(VideoCodec::H264, b"k".to_vec()));
    let frame = d.retain.expect("only a key frame is a checkpoint");
    assert!(!sink.commit_keyframe(frame, false));
}

#[test]
fn end_to_end_same_codec_session() {
    let mut sink = StreamSink::new();
    let mut installs: usize = 1;  // the descriptor installed at stream start
    let mut writes: Vec<Vec<u8>> = Vec::new();
    let mut keeps = Vec::new();

    let units = vec![
        (MediaUnit::KeyFrame(VideoCodec::H264, b"A".to_vec()), true),
        (MediaUnit::DeltaFrame(VideoCodec::H264, b"B".to_vec()), true),
        // the liveness oracle answers false from the second key frame on
        (MediaUnit::KeyFrame(VideoCodec::H264, b"C".to_vec()), false),
    ];
    for (unit, alive) in units {
        let d = sink.receive(unit);
        if d.rebuild.is_some() {
            installs += 1;
        }
        let w = d.write.expect("every unit of this session writes");
        assert_eq!(w.target, InjectionPoint::Video);
        writes.push(w.data);
        // the write succeeded; a key frame is then committed and takes
        // the liveness checkpoint
        match d.retain {
            Some(frame) => keeps.push(sink.commit_keyframe(frame, alive)),
            None => keeps.push(true),
        }
    }

    assert_eq!(installs, 2);
    assert_eq!(writes, vec![b"A".to_vec(), b"B".to_vec(), b"C".to_vec()]);
    assert_eq!(keeps, vec![true, true, false]);
}
