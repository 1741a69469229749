//! The expiry manager and the share lifecycle: a pure predicate of the
//! stored deadline against an injected clock, and the one-directional
//! status machine `Pending -> Delivered | Expired | Revoked`, with
//! `Delivered` still able to expire and nothing ever returning to
//! `Pending`.
use vstd::prelude::*;

verus! {

/// Lifecycle of a share. `Pending` awaits its first successful
/// retrieval; `Delivered` records at least one success and may still
/// be fetched until it expires; `Expired` and `Revoked` are terminal.
#[derive(Clone, Copy, PartialEq, Eq, Structural, Debug)]
pub enum ShareStatus {
    Pending,
    Delivered,
    Expired,
    Revoked,
}

/// The central transition table: a status may stay where it is,
/// `Pending` may move to any of the three other states, and
/// `Delivered` may still expire. Everything else is illegal; in
/// particular nothing moves back to `Pending`.
pub open spec fn status_allows(from: ShareStatus, to: ShareStatus) -> bool {
    ||| from == to
    ||| (from == ShareStatus::Pending && (to == ShareStatus::Delivered || to
        == ShareStatus::Expired || to == ShareStatus::Revoked))
    ||| (from == ShareStatus::Delivered && to == ShareStatus::Expired)
}

/// Decides `status_allows` executably.
pub fn allowed_transition(from: ShareStatus, to: ShareStatus) -> (r: bool)
    ensures
        r == status_allows(from, to),
{
    from == to || (from == ShareStatus::Pending && (to == ShareStatus::Delivered || to
        == ShareStatus::Expired || to == ShareStatus::Revoked)) || (from == ShareStatus::Delivered
        && to == ShareStatus::Expired)
}

/// A deadline has passed once the clock reaches it: creation requires
/// a strictly future deadline, so the boundary instant counts as
/// expired.
pub open spec fn spec_is_expired(expiration_date: i64, now: i64) -> bool {
    expiration_date <= now
}

/// Pure expiry predicate of the stored deadline against the injected
/// clock; evaluated lazily on every access rather than by a timer.
pub fn is_expired(expiration_date: i64, now: i64) -> (r: bool)
    ensures
        r == spec_is_expired(expiration_date, now),
{
    expiration_date <= now
}

/// Where the lifecycle moves on a clock tick alone: a live status
/// (`Pending` or `Delivered`) becomes `Expired` once the deadline has
/// passed; everything else stays.
pub open spec fn spec_transition(current: ShareStatus, expiration_date: i64, now: i64) -> ShareStatus {
    if spec_is_expired(expiration_date, now) && (current == ShareStatus::Pending || current
        == ShareStatus::Delivered) {
        ShareStatus::Expired
    } else {
        current
    }
}

/// Decides `spec_transition` executably; the result is always a legal
/// transition.
pub fn transition(current: ShareStatus, expiration_date: i64, now: i64) -> (r: ShareStatus)
    ensures
        r == spec_transition(current, expiration_date, now),
        status_allows(current, r),
{
    if is_expired(expiration_date, now) && (current == ShareStatus::Pending || current
        == ShareStatus::Delivered) {
        ShareStatus::Expired
    } else {
        current
    }
}

/// No transition returns to `Pending`: a status from which `Pending`
/// is reachable is `Pending` itself.
pub proof fn lemma_no_return_to_pending(from: ShareStatus, to: ShareStatus)
    requires
        status_allows(from, to),
        to == ShareStatus::Pending,
    ensures
        from == ShareStatus::Pending,
{
}

/// `Expired` and `Revoked` are terminal: they allow no move but to
/// themselves.
pub proof fn lemma_terminal_states(from: ShareStatus, to: ShareStatus)
    requires
        status_allows(from, to),
        from == ShareStatus::Expired || from == ShareStatus::Revoked,
    ensures
        to == from,
{
}

} // verus!
