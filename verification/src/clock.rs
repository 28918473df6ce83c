//! Instants of the monotonic clock.
//!
//! `std::time::Instant` is opaque to the verifier. All that the cache needs of
//! it is that instants are totally ordered; that order is named here as a
//! position on a timeline, and the clock is read in one place.
use std::time::Instant;
use vstd::prelude::*;

verus! {

/// `std::time::Instant`, carried through as an opaque value.
#[verifier::external_type_specification]
#[verifier::external_body]
pub struct ExInstant(Instant);

/// The position of an instant on the timeline of the monotonic clock.
///
/// `std::time::Instant` is totally ordered (it implements `Ord`); this names
/// that order: of two instants the later one has the greater position. What
/// the position of a given instant is, is left open.
pub uninterp spec fn instant_position(t: Instant) -> int;

/// Whether `t` lies strictly after `reference`.
pub open spec fn is_after(t: Instant, reference: Instant) -> bool {
    instant_position(t) > instant_position(reference)
}

/// `std::time::Instant::now`: reads the monotonic clock. Nothing is claimed of
/// the instant that comes back.
#[verifier::external_body]
pub(crate) fn current_instant() -> (now: Instant) {
    Instant::now()
}

/// The operator `>` of `std::time::Instant`: `true` exactly when `t` is later
/// than `reference` in the order of instants, which `instant_position` names.
#[verifier::external_body]
pub(crate) fn instant_is_after(t: Instant, reference: Instant) -> (later: bool)
    ensures
        later == (instant_position(t) > instant_position(reference)),
{
    t > reference
}

} // verus!
