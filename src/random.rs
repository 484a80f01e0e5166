//! Random reservations, for exercising a store.
use crate::reservation::{Reservation, ReservationStatus};
use crate::time::{chrono_now, Timestamp};
use vstd::prelude::*;

verus! {

pub open spec fn is_ascii_alphanumeric(c: char) -> bool {
    ('0' <= c && c <= '9') || ('a' <= c && c <= 'z') || ('A' <= c && c <= 'Z')
}

/// Relies on rand's `Alphanumeric` distribution, drawn from `thread_rng`: each
/// draw is one of the 62 ASCII letters and digits, and `take(length)` yields
/// exactly `length` of them.
#[verifier::external_body]
fn sample_alphanumeric(length: usize) -> (r: String)
    ensures
        r@.len() == length,
        forall|i: int| 0 <= i < length ==> is_ascii_alphanumeric(#[trigger] r@[i]),
{
    rand_distr::Distribution::sample_iter(rand_distr::Alphanumeric, &mut rand::thread_rng())
        .take(length)
        .map(char::from)
        .collect()
}

/// Relies on rand's `Rng::gen_range` over the half-open range `low..high`,
/// which panics when the range is empty.
#[verifier::external_body]
fn sample_between(low: i64, high: i64) -> (r: i64)
    requires
        low < high,
    ensures
        low <= r < high,
{
    rand::Rng::gen_range(&mut rand::thread_rng(), low..high)
}

/// A random string of ASCII letters and digits of the given length.
pub fn generate_random_string(length: usize) -> (r: String)
    ensures
        r@.len() == length,
        forall|i: int| 0 <= i < length ==> is_ascii_alphanumeric(#[trigger] r@[i]),
{
    sample_alphanumeric(length)
}

/// `t` moved by a whole number of hours; an instant that would leave the
/// representable range stays where it is.
fn shift_hours(t: Timestamp, hours: i64) -> (r: Timestamp)
    requires
        -1000 <= hours <= 1000,
    ensures
        r.nanos == t.nanos,
        t.seconds + hours * 3600 <= i64::MAX && t.seconds + hours * 3600 >= i64::MIN ==> r.seconds
            == t.seconds + hours * 3600,
{
    match t.seconds.checked_add(hours * 3600) {
        Some(s) => Timestamp { seconds: s, nanos: t.nanos },
        None => t,
    }
}

/// A pending reservation with a random user (7 characters), resource (8) and
/// note (11), between an instant 2 to 101 hours ago and one 1 to 100 hours
/// from now.
pub fn generate_random_reservation() -> (r: Reservation)
    ensures
        r@.id.len() == 0,
        r@.uid.len() == 7,
        r@.resource_id.len() == 8,
        r@.note.len() == 11,
        r@.rstatus == ReservationStatus::Pending.spec_code(),
        r@.start is Some && r@.end is Some,
        r@.start.unwrap().spec_not_after(r@.end.unwrap()),
{
    let uid = generate_random_string(7);
    let rid = generate_random_string(8);
    let note = generate_random_string(11);
    let now = chrono_now();
    let later = shift_hours(now, sample_between(1, 101));
    let earlier = shift_hours(now, sample_between(-101, -1));
    Reservation::new_pending(uid.as_str(), rid.as_str(), note.as_str(), later, earlier)
}

} // verus!
