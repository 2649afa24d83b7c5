//! The pipeline descriptor builder.
//!
//! A descriptor is the complete textual description of the serving pipeline:
//! four video-producing branches merged by the `vid_inputselect` selector
//! at fixed indices — camera (0), test pattern (1), freeze frame (2) and
//! blank (3) — plus one audio branch.  The stage names `vidsrc`, `audsrc` and
//! `vid_inputselect` and the payload-terminal names `pay0` (video) and
//! `pay1` (audio) are a fixed contract with the pipeline executor's
//! instantiation callback, which uses them to recover live element handles.

use vstd::prelude::*;
use vstd::string::StringExecFns;
use crate::format::StreamFormat;

verus! {

/// The selector's terminal stage: packetize the selected video, or discard
/// it while no video format is known yet.
pub open spec fn spec_video_pay_stage(v: Option<StreamFormat>) -> Seq<char> {
    match v {
        Some(StreamFormat::H264) => "! rtph264pay name=pay0"@,
        Some(StreamFormat::H265) => "! rtph265pay name=pay0"@,
        _ => "! fakesink"@,
    }
}

/// The camera branch's parsing stage appended to the video injection point;
/// empty while no video format is known yet.
pub open spec fn spec_camera_parse_stage(v: Option<StreamFormat>) -> Seq<char> {
    match v {
        Some(StreamFormat::H264) => "! queue silent=true max-size-bytes=10485760  min-threshold-bytes=1024 ! h264parse"@,
        Some(StreamFormat::H265) => "! queue silent=true  max-size-bytes=10485760  min-threshold-bytes=1024 ! h265parse"@,
        _ => Seq::<char>::empty(),
    }
}

/// The test-pattern branch: a synthetic generator re-encoded to the current
/// video codec at a fixed resolution and frame rate; empty while no video
/// format is known yet.
pub open spec fn spec_test_pattern_stage(v: Option<StreamFormat>) -> Seq<char> {
    match v {
        Some(StreamFormat::H264) => "videotestsrc ! queue silent=true  max-size-bytes=10485760  min-threshold-bytes=1024 ! x264enc ! video/x-h264,width=896,height=512,framerate=25/1 ! h264parse"@,
        Some(StreamFormat::H265) => "videotestsrc ! queue silent=true  max-size-bytes=10485760  min-threshold-bytes=1024 ! x265enc ! video/x-h265,width=896,height=512,framerate=25/1 ! h265parse"@,
        _ => Seq::<char>::empty(),
    }
}

/// The freeze branch: decode the teed camera video, freeze on the last
/// displayed picture and re-encode it to the same codec; empty while no
/// video format is known yet.
pub open spec fn spec_freeze_stage(v: Option<StreamFormat>) -> Seq<char> {
    match v {
        Some(StreamFormat::H264) => "avdec_h264 ! imagefreeze allow-replace=true is-live=true ! x264enc ! video/x-h264,width=896,height=512,framerate=25/1 ! h264parse"@,
        Some(StreamFormat::H265) => "decodebin ! imagefreeze allow-replace=true is-live=true ! x265enc ! video/x-h265,width=896,height=512,framerate=25/1 ! h265parse"@,
        _ => Seq::<char>::empty(),
    }
}

/// The blank branch: a black generator re-encoded to the current video
/// codec at the same fixed profile as the test pattern; empty while no
/// video format is known yet.
pub open spec fn spec_blank_stage(v: Option<StreamFormat>) -> Seq<char> {
    match v {
        Some(StreamFormat::H264) => "videotestsrc pattern=black ! queue silent=true  max-size-bytes=10485760  min-threshold-bytes=1024 ! x264enc ! video/x-h264,width=896,height=512,framerate=25/1 ! h264parse"@,
        Some(StreamFormat::H265) => "videotestsrc pattern=black ! queue silent=true  max-size-bytes=10485760  min-threshold-bytes=1024 ! x265enc ! video/x-h265,width=896,height=512,framerate=25/1 ! h265parse"@,
        _ => Seq::<char>::empty(),
    }
}

/// The decimal digit character of `d`, for `d < 10`.
pub open spec fn spec_digit(d: nat) -> char {
    if d == 0 {
        '0'
    } else if d == 1 {
        '1'
    } else if d == 2 {
        '2'
    } else if d == 3 {
        '3'
    } else if d == 4 {
        '4'
    } else if d == 5 {
        '5'
    } else if d == 6 {
        '6'
    } else if d == 7 {
        '7'
    } else if d == 8 {
        '8'
    } else {
        '9'
    }
}

/// The decimal rendering of `n`, without leading zeros (`0` itself renders
/// as one digit).
pub open spec fn spec_decimal(n: nat) -> Seq<char>
    decreases n,
{
    if n < 10 {
        seq![spec_digit(n)]
    } else {
        spec_decimal(n / 10).push(spec_digit(n % 10))
    }
}

/// The audio branch downstream of the audio injection point: ADPCM declares
/// explicit layout, block-size, channel and rate caps matching the most
/// recent block size seen, then decodes to a pulse-code stream; AAC is
/// parsed and decoded to the same target; absent format discards the audio.
pub open spec fn spec_audio_stage(a: Option<StreamFormat>) -> Seq<char> {
    match a {
        Some(StreamFormat::Adpcm(block_size)) => "caps=audio/x-adpcm,layout=dvi,block_align="@
            + spec_decimal(block_size as nat)
            + ",channels=1,rate=8000 ! queue silent=true max-size-bytes=10485760 min-threshold-bytes=1024 ! adpcmdec  ! audioconvert ! rtpL16pay name=pay1"@,
        Some(StreamFormat::Aac) => "! queue silent=true max-size-bytes=10485760 min-threshold-bytes=1024 ! aacparse ! decodebin ! audioconvert ! rtpL16pay name=pay1 name=pay1"@,
        _ => "! fakesink"@,
    }
}

/// The complete pipeline descriptor for the given video and audio formats:
/// selector and its terminal, camera branch, test-pattern branch, freeze
/// branch, blank branch, and the audio branch, each around its fixed
/// plumbing.
pub open spec fn spec_descriptor(v: Option<StreamFormat>, a: Option<StreamFormat>) -> Seq<char> {
    "(  ( input-selector name=vid_inputselect "@ + spec_video_pay_stage(v)
        + " ) ( appsrc name=vidsrc is-live=true block=true emit-signals=false max-bytes=52428800 do-timestamp=true format=GST_FORMAT_TIME "@
        + spec_camera_parse_stage(v)
        + " ! tee name=vid_src_tee ( vid_src_tee. ! queue silent=true  max-size-bytes=10485760  min-threshold-bytes=1024 ! vid_inputselect.sink_0 ) ) ( "@
        + spec_test_pattern_stage(v)
        + " ! vid_inputselect.sink_1 ) ( vid_src_tee. ! queue silent=true  max-size-bytes=10485760  min-threshold-bytes=1024 ! "@
        + spec_freeze_stage(v)
        + "  ! vid_inputselect.sink_2 ) ( "@
        + spec_blank_stage(v)
        + " ! vid_inputselect.sink_3 ) appsrc name=audsrc is-live=true block=true emit-signals=false max-bytes=52428800 do-timestamp=true format=GST_FORMAT_TIME "@
        + spec_audio_stage(a) + " )"@
}

/// Appends the decimal rendering of `n`, per [`spec_decimal`].
fn append_decimal(s: &mut String, n: u16)
    ensures
        final(s)@ == old(s)@ + spec_decimal(n as nat),
    decreases n,
{
    if n >= 10 {
        append_decimal(s, n / 10);
    }
    let d: u16 = n % 10;
    proof {
        reveal_strlit("0");
        reveal_strlit("1");
        reveal_strlit("2");
        reveal_strlit("3");
        reveal_strlit("4");
        reveal_strlit("5");
        reveal_strlit("6");
        reveal_strlit("7");
        reveal_strlit("8");
        reveal_strlit("9");
    }
    if d == 0 {
        s.append("0");
    } else if d == 1 {
        s.append("1");
    } else if d == 2 {
        s.append("2");
    } else if d == 3 {
        s.append("3");
    } else if d == 4 {
        s.append("4");
    } else if d == 5 {
        s.append("5");
    } else if d == 6 {
        s.append("6");
    } else if d == 7 {
        s.append("7");
    } else if d == 8 {
        s.append("8");
    } else {
        s.append("9");
    }
    proof {
        assert(final(s)@ =~= old(s)@ + spec_decimal(n as nat));
    }
}

/// The selector's terminal stage, per [`spec_video_pay_stage`].
fn video_pay_stage(v: Option<StreamFormat>) -> (r: &'static str)
    ensures
        r@ == spec_video_pay_stage(v),
{
    match v {
        Some(StreamFormat::H264) => "! rtph264pay name=pay0",
        Some(StreamFormat::H265) => "! rtph265pay name=pay0",
        _ => "! fakesink",
    }
}

/// The camera branch's parsing stage, per [`spec_camera_parse_stage`].
fn camera_parse_stage(v: Option<StreamFormat>) -> (r: &'static str)
    ensures
        r@ == spec_camera_parse_stage(v),
{
    proof {
        reveal_strlit("");
    }
    match v {
        Some(StreamFormat::H264) => "! queue silent=true max-size-bytes=10485760  min-threshold-bytes=1024 ! h264parse",
        Some(StreamFormat::H265) => "! queue silent=true  max-size-bytes=10485760  min-threshold-bytes=1024 ! h265parse",
        _ => "",
    }
}

/// The test-pattern branch, per [`spec_test_pattern_stage`].
fn test_pattern_stage(v: Option<StreamFormat>) -> (r: &'static str)
    ensures
        r@ == spec_test_pattern_stage(v),
{
    proof {
        reveal_strlit("");
    }
    match v {
        Some(StreamFormat::H264) => "videotestsrc ! queue silent=true  max-size-bytes=10485760  min-threshold-bytes=1024 ! x264enc ! video/x-h264,width=896,height=512,framerate=25/1 ! h264parse",
        Some(StreamFormat::H265) => "videotestsrc ! queue silent=true  max-size-bytes=10485760  min-threshold-bytes=1024 ! x265enc ! video/x-h265,width=896,height=512,framerate=25/1 ! h265parse",
        _ => "",
    }
}

/// The freeze branch, per [`spec_freeze_stage`].
fn freeze_stage(v: Option<StreamFormat>) -> (r: &'static str)
    ensures
        r@ == spec_freeze_stage(v),
{
    proof {
        reveal_strlit("");
    }
    match v {
        Some(StreamFormat::H264) => "avdec_h264 ! imagefreeze allow-replace=true is-live=true ! x264enc ! video/x-h264,width=896,height=512,framerate=25/1 ! h264parse",
        Some(StreamFormat::H265) => "decodebin ! imagefreeze allow-replace=true is-live=true ! x265enc ! video/x-h265,width=896,height=512,framerate=25/1 ! h265parse",
        _ => "",
    }
}

/// The blank branch, per [`spec_blank_stage`].
fn blank_stage(v: Option<StreamFormat>) -> (r: &'static str)
    ensures
        r@ == spec_blank_stage(v),
{
    proof {
        reveal_strlit("");
    }
    match v {
        Some(StreamFormat::H264) => "videotestsrc pattern=black ! queue silent=true  max-size-bytes=10485760  min-threshold-bytes=1024 ! x264enc ! video/x-h264,width=896,height=512,framerate=25/1 ! h264parse",
        Some(StreamFormat::H265) => "videotestsrc pattern=black ! queue silent=true  max-size-bytes=10485760  min-threshold-bytes=1024 ! x265enc ! video/x-h265,width=896,height=512,framerate=25/1 ! h265parse",
        _ => "",
    }
}

/// Appends the audio branch, per [`spec_audio_stage`].
fn append_audio_stage(s: &mut String, a: Option<StreamFormat>)
    ensures
        final(s)@ == old(s)@ + spec_audio_stage(a),
{
    match a {
        Some(StreamFormat::Adpcm(block_size)) => {
            s.append("caps=audio/x-adpcm,layout=dvi,block_align=");
            append_decimal(s, block_size);
            s.append(
                ",channels=1,rate=8000 ! queue silent=true max-size-bytes=10485760 min-threshold-bytes=1024 ! adpcmdec  ! audioconvert ! rtpL16pay name=pay1",
            );
            proof {
                assert(final(s)@ =~= old(s)@ + spec_audio_stage(a));
            }
        },
        Some(StreamFormat::Aac) => {
            s.append(
                "! queue silent=true max-size-bytes=10485760 min-threshold-bytes=1024 ! aacparse ! decodebin ! audioconvert ! rtpL16pay name=pay1 name=pay1",
            );
        },
        _ => {
            s.append("! fakesink");
        },
    }
}

/// Builds the complete pipeline descriptor for the given format slots,
/// per [`spec_descriptor`].  Deterministic and total: before the first
/// format-establishing unit both slots are `None` and the camera and audio
/// lanes are sunk into discard stages, so the pipeline stays valid.
pub fn build_descriptor(v: Option<StreamFormat>, a: Option<StreamFormat>) -> (r: String)
    ensures
        r@ == spec_descriptor(v, a),
{
    let mut s = String::new();
    s.append("(  ( input-selector name=vid_inputselect ");
    s.append(video_pay_stage(v));
    s.append(
        " ) ( appsrc name=vidsrc is-live=true block=true emit-signals=false max-bytes=52428800 do-timestamp=true format=GST_FORMAT_TIME ",
    );
    s.append(camera_parse_stage(v));
    s.append(
        " ! tee name=vid_src_tee ( vid_src_tee. ! queue silent=true  max-size-bytes=10485760  min-threshold-bytes=1024 ! vid_inputselect.sink_0 ) ) ( ",
    );
    s.append(test_pattern_stage(v));
    s.append(
        " ! vid_inputselect.sink_1 ) ( vid_src_tee. ! queue silent=true  max-size-bytes=10485760  min-threshold-bytes=1024 ! ",
    );
    s.append(freeze_stage(v));
    s.append("  ! vid_inputselect.sink_2 ) ( ");
    s.append(blank_stage(v));
    s.append(
        " ! vid_inputselect.sink_3 ) appsrc name=audsrc is-live=true block=true emit-signals=false max-bytes=52428800 do-timestamp=true format=GST_FORMAT_TIME ",
    );
    append_audio_stage(&mut s, a);
    s.append(" )");
    proof {
        assert(s@ =~= spec_descriptor(v, a));
    }
    s
}

} // verus!
