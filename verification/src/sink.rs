//! The stream output sink: the unit-consuming endpoint of one stream.
//!
//! The sink owns the mutable pipeline configuration (the two format slots
//! and the retained last key frame) and decides, per unit, everything the
//! surrounding glue must do: force the selector to the camera branch, hand
//! the payload to the right injection point, and install a rebuilt pipeline
//! descriptor when and only when a format slot changed.  The glue performs
//! those effects against the live pipeline elements and reports a failed
//! payload write as [`SinkError::WriteFailed`], which ends the ingestion
//! session.  Only once a key frame's payload write has succeeded does the
//! glue call [`StreamSink::commit_keyframe`], which retains the frame for
//! the freeze-frame fallback and takes the liveness checkpoint; a frame
//! whose write failed is never retained, and the liveness oracle is never
//! consulted for delta frames, audio or informational units.

use vstd::prelude::*;
use crate::format::{spec_classify, MediaUnit, MediaView, StreamFormat};
use crate::pipeline::{build_descriptor, spec_descriptor};
use crate::selector::InputSource;

verus! {

/// Failure of a sink operation.
#[derive(PartialEq, Eq, Structural, Clone, Copy, Debug)]
pub enum SinkError {
    /// A raw byte write to an injection point failed: the backing live
    /// element is missing or rejected the write.  Terminal for the current
    /// ingestion session; a later reconnect may recover.
    WriteFailed(InjectionPoint),
    /// A replay of the last key frame was asked for before any key frame
    /// was seen.  Purely informational; the caller may retry later.
    NoData,
}

/// The two named injection points of the running pipeline.
#[derive(PartialEq, Eq, Structural, Clone, Copy, Debug)]
pub enum InjectionPoint {
    Video,
    Audio,
}

/// A payload hand-over: write `data` to the injection point `target`.
#[derive(Clone, Debug)]
pub struct Injection {
    pub target: InjectionPoint,
    pub data: Vec<u8>,
}

/// Everything one received unit obliges the surrounding glue to do.
#[derive(Clone, Debug)]
pub struct Directive {
    /// The video branch the selector must be on; always the camera branch.
    /// Idempotent, and tolerant of a not-yet-ready selector.
    pub source: InputSource,
    /// A freshly built pipeline descriptor to install, present exactly when
    /// the unit changed a format slot.
    pub rebuild: Option<String>,
    /// The unit's payload and its injection point, absent for
    /// informational units.
    pub write: Option<Injection>,
    /// The retention candidate: the key frame's payload, to be handed to
    /// [`StreamSink::commit_keyframe`] once its write succeeded; absent for
    /// every other unit kind.
    pub retain: Option<Vec<u8>>,
}

/// Mathematical model of a [`StreamSink`].
pub struct SinkView {
    pub video_format: Option<StreamFormat>,
    pub audio_format: Option<StreamFormat>,
    pub last_keyframe: Option<Seq<u8>>,
}

impl SinkView {
    /// Each slot only ever holds a format of its own lane.
    pub open spec fn wf(self) -> bool {
        &&& match self.video_format {
            Some(f) => f.is_video(),
            None => true,
        }
        &&& match self.audio_format {
            Some(f) => f.is_audio(),
            None => true,
        }
    }
}

/// Whether `u` changes a format slot of `s` — exactly the units after
/// which the pipeline descriptor is rebuilt.  An ADPCM unit changes the
/// audio slot iff its payload length differs from the stored block size.
pub open spec fn spec_rebuild(s: SinkView, u: MediaView) -> bool {
    match spec_classify(u) {
        Some(f) => if f.is_video() {
            s.video_format != Some(f)
        } else {
            s.audio_format != Some(f)
        },
        None => false,
    }
}

/// The sink state after receiving `u`: the unit's classification replaces
/// the slot of its lane.  Informational units leave the state unchanged,
/// and no unit is retained at this point — retention is committed
/// separately, once the payload write succeeded ([`spec_commit`]).
pub open spec fn spec_step(s: SinkView, u: MediaView) -> SinkView {
    match spec_classify(u) {
        Some(f) => if f.is_video() {
            SinkView { video_format: Some(f), ..s }
        } else {
            SinkView { audio_format: Some(f), ..s }
        },
        None => s,
    }
}

/// The sink state after a successfully written key frame payload is
/// retained as the last-known-good frame.
pub open spec fn spec_commit(s: SinkView, frame: Seq<u8>) -> SinkView {
    SinkView { last_keyframe: Some(frame), ..s }
}

/// The sink state after `u` has been fully processed: received, its
/// payload written successfully, and — for a key frame — its retention
/// committed.  The session laws quantify over this step.
pub open spec fn spec_process(s: SinkView, u: MediaView) -> SinkView {
    match u {
        MediaView::KeyFrame(_, d) => spec_commit(spec_step(s, u), d),
        _ => spec_step(s, u),
    }
}

/// The payload hand-over a unit obliges: video units go to the video
/// injection point, audio units to the audio one, informational units to
/// neither.
pub open spec fn spec_injection(u: MediaView) -> Option<(InjectionPoint, Seq<u8>)> {
    match u {
        MediaView::KeyFrame(_, d) => Some((InjectionPoint::Video, d)),
        MediaView::DeltaFrame(_, d) => Some((InjectionPoint::Video, d)),
        MediaView::AudioAac(d) => Some((InjectionPoint::Audio, d)),
        MediaView::AudioAdpcm(d) => Some((InjectionPoint::Audio, d)),
        MediaView::Info => None,
    }
}

/// Whether the caller keeps pumping units after successfully processing
/// `u`, given the liveness oracle's answer at its checkpoint.  Only a key
/// frame is a checkpoint for the liveness decision — stopping anywhere
/// else could leave a half-decoded picture displayed — so every other unit
/// keeps streaming whatever the oracle would say.
pub open spec fn spec_keep_streaming(u: MediaView, streaming_allowed: bool) -> bool {
    if u is KeyFrame {
        streaming_allowed
    } else {
        true
    }
}

/// The mutable per-stream state: current formats and the retained last key
/// frame.  Created empty when a stream output is established and never
/// reset except by creating a new one.
pub struct StreamSink {
    video_format: Option<StreamFormat>,
    audio_format: Option<StreamFormat>,
    last_keyframe: Option<Vec<u8>>,
}

impl View for StreamSink {
    type V = SinkView;

    closed spec fn view(&self) -> SinkView {
        SinkView {
            video_format: self.video_format,
            audio_format: self.audio_format,
            last_keyframe: match self.last_keyframe {
                Some(d) => Some(d@),
                None => None,
            },
        }
    }
}

/// A byte-for-byte copy of `v`.
fn clone_bytes(v: &Vec<u8>) -> (r: Vec<u8>)
    ensures
        r@ == v@,
{
    let r = v.clone();
    proof {
        assert forall|i: int| 0 <= i < v@.len() implies r@[i] == v@[i] by {
            assert(cloned::<u8>(v@[i], r@[i]));
        }
        assert(r@ =~= v@);
    }
    r
}

/// Whether `f` differs from the format stored in `slot`.
fn slot_changed(slot: &Option<StreamFormat>, f: StreamFormat) -> (r: bool)
    ensures
        r == (*slot != Some(f)),
{
    match slot {
        None => true,
        Some(g) => !(*g == f),
    }
}

impl StreamSink {
    /// A fresh sink: no formats known, no key frame retained.
    pub fn new() -> (s: StreamSink)
        ensures
            s@.video_format is None,
            s@.audio_format is None,
            s@.last_keyframe is None,
            s@.wf(),
    {
        StreamSink { video_format: None, audio_format: None, last_keyframe: None }
    }

    /// The descriptor of the pipeline this sink currently requires; what
    /// the glue installs when the stream is first registered.
    pub fn current_descriptor(&self) -> (r: String)
        ensures
            r@ == spec_descriptor(self@.video_format, self@.audio_format),
    {
        build_descriptor(self.video_format, self.audio_format)
    }

    /// Whether a key frame has been retained, i.e. whether a replay can
    /// succeed.
    pub fn has_last_keyframe(&self) -> (b: bool)
        ensures
            b == (self@.last_keyframe is Some),
    {
        self.last_keyframe.is_some()
    }

    /// The write that re-injects the retained last key frame, e.g. to give
    /// the freeze branch a picture on first activation.  Succeeds iff a key
    /// frame was ever committed, and then hands back bytes identical to the
    /// most recently committed key frame's payload; before that it fails
    /// with `NoData`.
    pub fn replay_last_keyframe(&self) -> (r: Result<Injection, SinkError>)
        ensures
            (r is Ok) == (self@.last_keyframe is Some),
            r matches Ok(w) ==> w.target == InjectionPoint::Video && self@.last_keyframe
                == Some(w.data@),
            r matches Err(e) ==> e == SinkError::NoData,
    {
        match &self.last_keyframe {
            Some(d) => Ok(Injection { target: InjectionPoint::Video, data: clone_bytes(d) }),
            None => Err(SinkError::NoData),
        }
    }

    /// Receives one media unit and decides everything it obliges.
    ///
    /// The format slots move per [`spec_step`]; the directive carries a
    /// rebuilt descriptor exactly when a format slot changed
    /// ([`spec_rebuild`]) — once per format change, never once per unit —
    /// the payload hand-over per [`spec_injection`], and, for a key frame,
    /// the retention candidate.  The selector is forced back to the camera
    /// branch on every unit.  Nothing is retained here and the liveness
    /// oracle is not consulted: both wait for [`Self::commit_keyframe`],
    /// after the payload write succeeded.
    pub fn receive(&mut self, unit: MediaUnit) -> (d: Directive)
        requires
            old(self)@.wf(),
        ensures
            final(self)@.wf(),
            final(self)@ == spec_step(old(self)@, unit@),
            d.source == InputSource::Camera,
            (d.rebuild is Some) == spec_rebuild(old(self)@, unit@),
            d.rebuild matches Some(desc) ==> desc@ == spec_descriptor(
                final(self)@.video_format,
                final(self)@.audio_format,
            ),
            match spec_injection(unit@) {
                Some(w) => d.write matches Some(inj) && inj.target == w.0 && inj.data@ == w.1,
                None => d.write is None,
            },
            match unit@ {
                MediaView::KeyFrame(_, p) => d.retain matches Some(f) && f@ == p,
                _ => d.retain is None,
            },
    {
        let mut rebuild: Option<String> = None;
        let mut write: Option<Injection> = None;
        let mut retain: Option<Vec<u8>> = None;
        match unit {
            MediaUnit::KeyFrame(codec, data) => {
                let f = crate::format::video_format_of(codec);
                if slot_changed(&self.video_format, f) {
                    self.video_format = Some(f);
                    rebuild = Some(build_descriptor(self.video_format, self.audio_format));
                }
                retain = Some(clone_bytes(&data));
                write = Some(Injection { target: InjectionPoint::Video, data });
            },
            MediaUnit::DeltaFrame(codec, data) => {
                let f = crate::format::video_format_of(codec);
                if slot_changed(&self.video_format, f) {
                    self.video_format = Some(f);
                    rebuild = Some(build_descriptor(self.video_format, self.audio_format));
                }
                write = Some(Injection { target: InjectionPoint::Video, data });
            },
            MediaUnit::AudioAac(data) => {
                if slot_changed(&self.audio_format, StreamFormat::Aac) {
                    self.audio_format = Some(StreamFormat::Aac);
                    rebuild = Some(build_descriptor(self.video_format, self.audio_format));
                }
                write = Some(Injection { target: InjectionPoint::Audio, data });
            },
            MediaUnit::AudioAdpcm(data) => {
                let f = StreamFormat::Adpcm(data.len() as u16);
                if slot_changed(&self.audio_format, f) {
                    self.audio_format = Some(f);
                    rebuild = Some(build_descriptor(self.video_format, self.audio_format));
                }
                write = Some(Injection { target: InjectionPoint::Audio, data });
            },
            MediaUnit::Info => {},
        }
        Directive { source: InputSource::Camera, rebuild, write, retain }
    }

    /// Commits a key frame whose payload write succeeded: retains the
    /// frame as the last-known-good picture ([`spec_commit`]) and takes
    /// the liveness checkpoint — the caller keeps streaming iff the
    /// oracle's answer `streaming_allowed` is `true`.  This is the only
    /// place retention happens and the only place the oracle's answer is
    /// used: a frame whose write failed is never committed, and units
    /// other than key frames have no checkpoint.
    pub fn commit_keyframe(&mut self, frame: Vec<u8>, streaming_allowed: bool) -> (keep: bool)
        requires
            old(self)@.wf(),
        ensures
            final(self)@.wf(),
            final(self)@ == spec_commit(old(self)@, frame@),
            keep == streaming_allowed,
    {
        self.last_keyframe = Some(frame);
        streaming_allowed
    }
}

} // verus!
