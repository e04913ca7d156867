//! Markers that are written piece by piece.

use vstd::prelude::*;

verus! {

/// How far the writing of a marker has come.
#[derive(Clone, Copy, Debug, PartialEq, Eq, Structural)]
pub enum ExactMarkerState {
    Complete,
    InProgress,
    Mismatch,
}

/// How far the writing of a marker has come, by the bytes that are there.
pub open spec fn marker_state(observed: Seq<u8>, expected: Seq<u8>) -> ExactMarkerState {
    if observed == expected {
        ExactMarkerState::Complete
    } else if observed.is_prefix_of(expected) {
        ExactMarkerState::InProgress
    } else {
        ExactMarkerState::Mismatch
    }
}

/// Whether two byte strings are the same.
pub fn same_bytes(left: &[u8], right: &[u8]) -> (same: bool)
    ensures
        same == (left@ == right@),
{
    left.len() == right.len() && starts_with_bytes(left, right)
}

/// Whether a byte string starts with another.
pub fn starts_with_bytes(bytes: &[u8], prefix: &[u8]) -> (holds: bool)
    ensures
        holds == prefix@.is_prefix_of(bytes@),
        bytes@.len() == prefix@.len() ==> holds == (bytes@ == prefix@),
{
    if prefix.len() > bytes.len() {
        return false;
    }
    let mut next: usize = 0;
    while next < prefix.len()
        invariant
            next <= prefix@.len() <= bytes@.len(),
            forall|i: int| 0 <= i < next ==> bytes@[i] == prefix@[i],
        decreases prefix@.len() - next,
    {
        if bytes[next] != prefix[next] {
            proof {
                if prefix@.is_prefix_of(bytes@) {
                    assert(bytes@.subrange(0, prefix@.len() as int)[next as int]
                        == prefix@[next as int]);
                }
            }
            return false;
        }
        next = next + 1;
    }
    assert(bytes@.subrange(0, prefix@.len() as int) =~= prefix@);
    assert(bytes@.len() == prefix@.len() ==> bytes@ =~= prefix@);
    true
}

/// Tells how far the writing of a marker has come.
pub fn exact_marker_state(observed: &[u8], expected: &[u8]) -> (state: ExactMarkerState)
    ensures
        state == marker_state(observed@, expected@),
{
    if same_bytes(observed, expected) {
        ExactMarkerState::Complete
    } else if starts_with_bytes(expected, observed) {
        ExactMarkerState::InProgress
    } else {
        ExactMarkerState::Mismatch
    }
}

/// A marker that is written piece by piece is in progress until it is complete,
/// and never a mismatch.
pub proof fn partial_writes_are_no_mismatch(expected: Seq<u8>, written: int)
    requires
        0 <= written <= expected.len(),
    ensures
        marker_state(expected.take(written), expected) == if written == expected.len() {
            ExactMarkerState::Complete
        } else {
            ExactMarkerState::InProgress
        },
{
    let observed = expected.take(written);
    if written == expected.len() {
        assert(observed =~= expected);
    } else {
        assert(observed.len() != expected.len());
        assert(expected.subrange(0, observed.len() as int) =~= observed);
    }
}

/// Bytes that went wrong stay wrong, whatever is written behind them.
pub proof fn mismatches_stay(observed: Seq<u8>, more: Seq<u8>, expected: Seq<u8>)
    requires
        marker_state(observed, expected) is Mismatch,
    ensures
        marker_state(observed + more, expected) is Mismatch,
{
    let longer = observed + more;
    if longer.is_prefix_of(expected) || longer == expected {
        assert(observed =~= longer.subrange(0, observed.len() as int));
        assert(expected.subrange(0, observed.len() as int) =~= observed) by {
            if longer.is_prefix_of(expected) {
                assert forall|i: int| 0 <= i < observed.len() implies expected[i]
                    == observed[i] by {
                    assert(expected.subrange(0, longer.len() as int)[i] == longer[i]);
                }
            }
        }
    }
}

/// A marker is complete only where it is what was to be written, to the last byte, and in
/// progress only where more of it is still to come.
pub proof fn markers_are_complete_when_equal(observed: Seq<u8>, expected: Seq<u8>)
    ensures
        marker_state(observed, expected) is Complete <==> observed == expected,
        marker_state(observed, expected) is InProgress <==> observed.len() < expected.len()
            && expected.take(observed.len() as int) == observed,
{
    if observed.is_prefix_of(expected) && observed.len() == expected.len() {
        assert(observed =~= expected);
    }
    if observed.len() < expected.len() && expected.take(observed.len() as int) == observed {
        assert(observed.is_prefix_of(expected));
        assert(observed.len() != expected.len());
    }
    if observed.is_prefix_of(expected) {
        assert(expected.take(observed.len() as int) =~= observed);
    }
}

} // verus!
