//! The input source selector's branch mapping and readiness handling.

use rtsp_router::selector::{select_branch, source_index, InputSource, SelectorError};

#[test]
fn fixed_branch_indices() {
    assert_eq!(source_index(InputSource::Camera), 0);
    assert_eq!(source_index(InputSource::TestPattern), 1);
    assert_eq!(source_index(InputSource::Freeze), 2);
    assert_eq!(source_index(InputSource::Black), 3);
}

#[test]
fn switching_before_the_element_arrives_is_not_ready() {
    assert_eq!(select_branch(false, InputSource::Camera), Err(SelectorError::NotReady));
    assert_eq!(select_branch(false, InputSource::Black), Err(SelectorError::NotReady));
}

#[test]
fn switching_when_ready_yields_the_branch_index() {
    assert_eq!(select_branch(true, InputSource::Camera), Ok(0));
    assert_eq!(select_branch(true, InputSource::Freeze), Ok(2));
}
