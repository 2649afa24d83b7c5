//! The input source selector: which video-producing branch is live.

use vstd::prelude::*;

verus! {

/// The selectable video sources, each mapped to a fixed branch index of the
/// `vid_inputselect` element.
#[derive(PartialEq, Eq, Structural, Clone, Copy, Debug)]
pub enum InputSource {
    Camera,
    TestPattern,
    Freeze,
    Black,
}

/// Failure of a selector operation.
#[derive(PartialEq, Eq, Structural, Clone, Copy, Debug)]
pub enum SelectorError {
    /// The live selector element has not yet been supplied by the pipeline
    /// executor.  A transient, expected condition: callers retry.
    NotReady,
}

/// The fixed branch index of each source: camera 0, test pattern 1,
/// freeze frame 2, black 3.
pub open spec fn spec_source_index(s: InputSource) -> int {
    match s {
        InputSource::Camera => 0,
        InputSource::TestPattern => 1,
        InputSource::Freeze => 2,
        InputSource::Black => 3,
    }
}

/// The branch index to hand to the selector element, per
/// [`spec_source_index`].
pub fn source_index(s: InputSource) -> (i: u32)
    ensures
        i == spec_source_index(s),
{
    match s {
        InputSource::Camera => 0,
        InputSource::TestPattern => 1,
        InputSource::Freeze => 2,
        InputSource::Black => 3,
    }
}

/// Decides a switch of the live video branch.  `ready` says whether the
/// executor has already delivered the live selector element; before that,
/// switching fails with `NotReady` and with nothing else, and once ready it
/// always yields the source's fixed branch index.
pub fn select_branch(ready: bool, s: InputSource) -> (r: Result<u32, SelectorError>)
    ensures
        (r is Err) == !ready,
        r matches Ok(i) ==> i == spec_source_index(s),
        r matches Err(e) ==> e == SelectorError::NotReady,
{
    if ready {
        Ok(source_index(s))
    } else {
        Err(SelectorError::NotReady)
    }
}

} // verus!
