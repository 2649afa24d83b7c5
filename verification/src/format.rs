//! Media units and their classification into stream formats.

use vstd::prelude::*;

verus! {

/// Video compression standard carried by a video unit.
#[derive(PartialEq, Eq, Structural, Clone, Copy, Debug)]
pub enum VideoCodec {
    H264,
    H265,
}

/// The format of one of the two media lanes of a stream.
///
/// Two values are equal iff the codec and, for ADPCM, the block size match
/// exactly; every distinct ADPCM block size is a distinct format.
#[derive(PartialEq, Eq, Structural, Clone, Copy, Debug)]
pub enum StreamFormat {
    H264,
    H265,
    Aac,
    Adpcm(u16),
}

impl StreamFormat {
    /// Whether this format belongs to the video lane.
    pub open spec fn is_video(self) -> bool {
        self is H264 || self is H265
    }

    /// Whether this format belongs to the audio lane.
    pub open spec fn is_audio(self) -> bool {
        self is Aac || self is Adpcm
    }
}

/// A decoded media unit as handed over by the camera-protocol decoder.
///
/// `Info` stands for the informational unit kinds that carry no media
/// payload; they never affect routing state.
#[derive(Clone, Debug)]
pub enum MediaUnit {
    KeyFrame(VideoCodec, Vec<u8>),
    DeltaFrame(VideoCodec, Vec<u8>),
    AudioAac(Vec<u8>),
    AudioAdpcm(Vec<u8>),
    Info,
}

/// Mathematical model of a [`MediaUnit`]: payloads become byte sequences.
pub enum MediaView {
    KeyFrame(VideoCodec, Seq<u8>),
    DeltaFrame(VideoCodec, Seq<u8>),
    AudioAac(Seq<u8>),
    AudioAdpcm(Seq<u8>),
    Info,
}

impl View for MediaUnit {
    type V = MediaView;

    open spec fn view(&self) -> MediaView {
        match self {
            MediaUnit::KeyFrame(c, d) => MediaView::KeyFrame(*c, d@),
            MediaUnit::DeltaFrame(c, d) => MediaView::DeltaFrame(*c, d@),
            MediaUnit::AudioAac(d) => MediaView::AudioAac(d@),
            MediaUnit::AudioAdpcm(d) => MediaView::AudioAdpcm(d@),
            MediaUnit::Info => MediaView::Info,
        }
    }
}

/// The video-lane format of a codec tag.
pub open spec fn codec_format(c: VideoCodec) -> StreamFormat {
    match c {
        VideoCodec::H264 => StreamFormat::H264,
        VideoCodec::H265 => StreamFormat::H265,
    }
}

/// Classification of a media unit: video units yield their codec's video
/// format, AAC yields `Aac`, ADPCM yields `Adpcm` with the block size taken
/// from the payload length, and informational units yield no format.
pub open spec fn spec_classify(u: MediaView) -> Option<StreamFormat> {
    match u {
        MediaView::KeyFrame(c, _) => Some(codec_format(c)),
        MediaView::DeltaFrame(c, _) => Some(codec_format(c)),
        MediaView::AudioAac(_) => Some(StreamFormat::Aac),
        MediaView::AudioAdpcm(d) => Some(StreamFormat::Adpcm(d.len() as u16)),
        MediaView::Info => None,
    }
}

/// Derives the stream format of a video codec tag.
pub fn video_format_of(c: VideoCodec) -> (f: StreamFormat)
    ensures
        f == codec_format(c),
{
    match c {
        VideoCodec::H264 => StreamFormat::H264,
        VideoCodec::H265 => StreamFormat::H265,
    }
}

/// Classifies a media unit, per [`spec_classify`].
pub fn classify(u: &MediaUnit) -> (r: Option<StreamFormat>)
    ensures
        r == spec_classify(u@),
{
    match u {
        MediaUnit::KeyFrame(c, _) => Some(video_format_of(*c)),
        MediaUnit::DeltaFrame(c, _) => Some(video_format_of(*c)),
        MediaUnit::AudioAac(_) => Some(StreamFormat::Aac),
        MediaUnit::AudioAdpcm(d) => Some(StreamFormat::Adpcm(d.len() as u16)),
        MediaUnit::Info => None,
    }
}

} // verus!
