//! Stream-level laws of the sink: properties of whole unit sequences,
//! proved over the models [`spec_step`], [`spec_commit`] and
//! [`spec_rebuild`] that the sink's own contracts are stated with.  A unit
//! counts as processed when its payload write succeeded and, for a key
//! frame, its retention was committed ([`spec_process`]).

use vstd::prelude::*;
use crate::format::{spec_classify, MediaView, StreamFormat};
use crate::sink::{
    spec_commit, spec_keep_streaming, spec_process, spec_rebuild, spec_step, SinkView,
};

verus! {

/// The sink state after fully processing `units` in order, starting from
/// `s`.
pub open spec fn run_units(s: SinkView, units: Seq<MediaView>) -> SinkView
    decreases units.len(),
{
    if units.len() == 0 {
        s
    } else {
        run_units(spec_process(s, units[0]), units.subrange(1, units.len() as int))
    }
}

/// Fully processing a unit is its receive transition followed, for a key
/// frame, by the retention commit of its payload — the very two calls the
/// surrounding glue makes, in that order, with the payload write between
/// them.
pub proof fn lemma_process_decomposition(s: SinkView, u: MediaView)
    ensures
        u matches MediaView::KeyFrame(_, d) ==> spec_process(s, u) == spec_commit(
            spec_step(s, u),
            d,
        ),
        !(u is KeyFrame) ==> spec_process(s, u) == spec_step(s, u),
{
}

/// How many pipeline descriptor rebuilds receiving `units` causes,
/// starting from `s`.
pub open spec fn rebuild_count(s: SinkView, units: Seq<MediaView>) -> nat
    decreases units.len(),
{
    if units.len() == 0 {
        0
    } else {
        (if spec_rebuild(s, units[0]) {
            1nat
        } else {
            0nat
        }) + rebuild_count(spec_process(s, units[0]), units.subrange(1, units.len() as int))
    }
}

/// Whether every video unit of `units` classifies to `vf` and every audio
/// unit to `af`: the codec, and for ADPCM the block size, never change.
pub open spec fn uniform_formats(units: Seq<MediaView>, vf: StreamFormat, af: StreamFormat) -> bool {
    forall|i: int|
        0 <= i < units.len() ==> match spec_classify(#[trigger] units[i]) {
            Some(f) => if f.is_video() {
                f == vf
            } else {
                f == af
            },
            None => true,
        }
}

/// How many rebuilds a lane can still cause: none once its slot holds the
/// lane's one format.
pub open spec fn slot_budget(slot: Option<StreamFormat>, f: StreamFormat) -> nat {
    if slot == Some(f) {
        0nat
    } else {
        1nat
    }
}

proof fn lemma_uniform_rebuild_budget(
    s: SinkView,
    units: Seq<MediaView>,
    vf: StreamFormat,
    af: StreamFormat,
)
    requires
        uniform_formats(units, vf, af),
        vf.is_video(),
        af.is_audio(),
    ensures
        rebuild_count(s, units) <= slot_budget(s.video_format, vf) + slot_budget(
            s.audio_format,
            af,
        ),
    decreases units.len(),
{
    if units.len() > 0 {
        let u = units[0];
        let s1 = spec_process(s, u);
        let tail = units.subrange(1, units.len() as int);
        assert(uniform_formats(tail, vf, af)) by {
            assert forall|i: int| 0 <= i < tail.len() implies match spec_classify(
                #[trigger] tail[i],
            ) {
                Some(f) => if f.is_video() {
                    f == vf
                } else {
                    f == af
                },
                None => true,
            } by {
                assert(tail[i] == units[i + 1]);
            }
        }
        lemma_uniform_rebuild_budget(s1, tail, vf, af);
    }
}

/// While the codec never changes, the descriptor is rebuilt at most twice
/// over any whole stream — once when each lane's format is first
/// established — regardless of the stream's length.
pub proof fn lemma_stable_codec_rebuild_bound(
    s: SinkView,
    units: Seq<MediaView>,
    vf: StreamFormat,
    af: StreamFormat,
)
    requires
        uniform_formats(units, vf, af),
        vf.is_video(),
        af.is_audio(),
        s.video_format is None,
        s.audio_format is None,
    ensures
        rebuild_count(s, units) <= 2,
{
    lemma_uniform_rebuild_budget(s, units, vf, af);
}

/// An ADPCM unit rebuilds the pipeline iff its payload length differs from
/// the block size stored in the audio slot — every distinct block size
/// observed triggers a full rebuild, and a repeated one never does.
pub proof fn lemma_adpcm_rebuild_iff_new_block_size(s: SinkView, d: Seq<u8>)
    ensures
        spec_rebuild(s, MediaView::AudioAdpcm(d)) == (s.audio_format != Some(
            StreamFormat::Adpcm(d.len() as u16),
        )),
{
}

/// Processing `units.push(u)` is processing `units`, then `u`.
pub proof fn lemma_run_units_push(s: SinkView, units: Seq<MediaView>, u: MediaView)
    ensures
        run_units(s, units.push(u)) == spec_process(run_units(s, units), u),
    decreases units.len(),
{
    let whole = units.push(u);
    if units.len() == 0 {
        assert(whole[0] == u);
        assert(whole.subrange(1, whole.len() as int) =~= Seq::<MediaView>::empty());
    } else {
        assert(whole[0] == units[0]);
        assert(whole.subrange(1, whole.len() as int) =~= units.subrange(
            1,
            units.len() as int,
        ).push(u));
        lemma_run_units_push(spec_process(s, units[0]), units.subrange(1, units.len() as int), u);
    }
}

/// The payload of the most recent key frame of `units`, if any.
pub open spec fn latest_keyframe(units: Seq<MediaView>) -> Option<Seq<u8>>
    decreases units.len(),
{
    if units.len() == 0 {
        None
    } else {
        match units.last() {
            MediaView::KeyFrame(_, d) => Some(d),
            _ => latest_keyframe(units.drop_last()),
        }
    }
}

/// After any fully processed unit sequence the retained key frame is
/// byte-identical to the payload of the sequence's most recent key frame;
/// while the sequence has none, whatever was retained before stays.
pub proof fn lemma_keyframe_retention(s: SinkView, units: Seq<MediaView>)
    ensures
        run_units(s, units).last_keyframe == (match latest_keyframe(units) {
            Some(d) => Some(d),
            None => s.last_keyframe,
        }),
    decreases units.len(),
{
    if units.len() > 0 {
        let rest = units.drop_last();
        let u = units.last();
        assert(units =~= rest.push(u));
        lemma_keyframe_retention(s, rest);
        lemma_run_units_push(s, rest, u);
    }
}

/// Whether `units` holds a key frame.
pub open spec fn has_keyframe(units: Seq<MediaView>) -> bool {
    exists|i: int| 0 <= i < units.len() && units[i] is KeyFrame
}

proof fn lemma_latest_some_iff_has(units: Seq<MediaView>)
    ensures
        (latest_keyframe(units) is Some) == has_keyframe(units),
    decreases units.len(),
{
    if units.len() > 0 {
        let rest = units.drop_last();
        lemma_latest_some_iff_has(rest);
        if units.last() is KeyFrame {
            assert(units[units.len() - 1] is KeyFrame);
        } else {
            assert forall|i: int| 0 <= i < units.len() && #[trigger] units[i] is KeyFrame implies
                has_keyframe(rest) by {
                assert(rest[i] == units[i]);
            }
            assert(has_keyframe(rest) ==> has_keyframe(units)) by {
                if has_keyframe(rest) {
                    let i = choose|i: int| 0 <= i < rest.len() && rest[i] is KeyFrame;
                    assert(units[i] is KeyFrame);
                }
            }
        }
    }
}

/// Starting with nothing retained, a key frame is retained after a fully
/// processed unit sequence iff the sequence held one: the replay operation
/// keeps failing until the first key frame is processed, and can succeed
/// from then on.
pub proof fn lemma_keyframe_latch(s: SinkView, units: Seq<MediaView>)
    requires
        s.last_keyframe is None,
    ensures
        (run_units(s, units).last_keyframe is Some) == has_keyframe(units),
{
    lemma_keyframe_retention(s, units);
    lemma_latest_some_iff_has(units);
}

/// Once a key frame is retained, every later state retains one: the replay
/// operation succeeds for the remainder of the session.
pub proof fn lemma_keyframe_persists(s: SinkView, units: Seq<MediaView>)
    requires
        s.last_keyframe is Some,
    ensures
        run_units(s, units).last_keyframe is Some,
{
    lemma_keyframe_retention(s, units);
}

/// The stop-streaming decision, when it occurs, occurs at a key frame
/// boundary: no delta frame, audio or informational unit ever stops the
/// stream, whatever the liveness oracle would answer — indeed only a
/// committed key frame consults it at all.
pub proof fn lemma_stop_only_at_keyframe(u: MediaView, streaming_allowed: bool)
    ensures
        !spec_keep_streaming(u, streaming_allowed) ==> u is KeyFrame,
{
}

} // verus!
