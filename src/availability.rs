use crate::reservation::{Reservation, ReservationRow, ReservationRowView, ReservationView};
use crate::time::{TimeRange, Timestamp};
use vstd::prelude::*;

verus! {

/// The store-side predicate that finds reservations in conflict with a
/// candidate. Each field that is present adds one condition on a row:
/// - `resource_id`: the row is on that resource;
/// - `end`: the row starts strictly before it;
/// - `start`: the row ends strictly after it.
/// Strict comparisons make ranges that only touch compatible.
#[derive(Clone, Debug, PartialEq)]
pub struct ConflictFilter {
    pub resource_id: Option<String>,
    pub start: Option<Timestamp>,
    pub end: Option<Timestamp>,
}

pub struct ConflictFilterView {
    pub resource_id: Option<Seq<char>>,
    pub start: Option<Timestamp>,
    pub end: Option<Timestamp>,
}

impl View for ConflictFilter {
    type V = ConflictFilterView;

    open spec fn view(&self) -> ConflictFilterView {
        ConflictFilterView {
            resource_id: self.resource_id.deep_view(),
            start: self.start,
            end: self.end,
        }
    }
}

/// A row satisfies the filter.
pub open spec fn spec_matches(f: ConflictFilterView, row: ReservationRowView) -> bool {
    &&& (f.resource_id matches Some(r) ==> row.resource_id == Some(r))
    &&& (f.end matches Some(e) ==> (row.start_time matches Some(s) && s.spec_before(e)))
    &&& (f.start matches Some(s) ==> (row.end_time matches Some(e) && s.spec_before(e)))
}

/// The filter for a candidate reservation: its resource when one is given,
/// and the overlap conditions for whichever ends of its range are given.
pub open spec fn spec_conflict_filter(rsvp: ReservationView) -> ConflictFilterView {
    ConflictFilterView {
        resource_id: if rsvp.resource_id.len() == 0 {
            None
        } else {
            Some(rsvp.resource_id)
        },
        start: rsvp.start,
        end: rsvp.end,
    }
}

impl ConflictFilter {
    pub fn for_reservation(rsvp: &Reservation) -> (f: ConflictFilter)
        ensures
            f@ == spec_conflict_filter(rsvp@),
    {
        ConflictFilter {
            resource_id: if rsvp.resource_id.as_str().is_empty() {
                None
            } else {
                Some(rsvp.resource_id.clone())
            },
            start: rsvp.start,
            end: rsvp.end,
        }
    }

    pub fn matches(&self, row: &ReservationRow) -> (r: bool)
        ensures
            r == spec_matches(self@, row@),
    {
        let on_resource = match (&self.resource_id, &row.resource_id) {
            (Some(want), Some(have)) => *want == *have,
            (Some(_), None) => false,
            (None, _) => true,
        };
        let starts_before_end = match (&self.end, &row.start_time) {
            (Some(e), Some(s)) => s.is_before(e),
            (Some(_), None) => false,
            (None, _) => true,
        };
        let ends_after_start = match (&self.start, &row.end_time) {
            (Some(s), Some(e)) => s.is_before(e),
            (Some(_), None) => false,
            (None, _) => true,
        };
        on_resource && starts_before_end && ends_after_start
    }
}

/// The stored row occupies resource `r` at instant `t`.
pub open spec fn occupies(row: ReservationRowView, r: Seq<char>, t: Timestamp) -> bool {
    &&& row.resource_id == Some(r)
    &&& row.start_time matches Some(s)
    &&& row.end_time matches Some(e)
    &&& TimeRange { start: s, end: e }.spec_contains(t)
}

/// No two rows occupy the same resource at the same instant.
pub open spec fn no_double_booking(rows: Seq<ReservationRowView>) -> bool {
    forall|i: int, j: int, r: Seq<char>, t: Timestamp|
        0 <= i < rows.len() && 0 <= j < rows.len() && i != j && #[trigger] occupies(rows[i], r, t)
            && #[trigger] occupies(rows[j], r, t) ==> false
}

/// For a candidate with a resource and both ends of its range, the filter
/// matches exactly the rows on that resource whose range overlaps it.
pub proof fn lemma_filter_is_overlap(rsvp: ReservationView, row: ReservationRowView)
    requires
        rsvp.resource_id.len() > 0,
        rsvp.start is Some,
        rsvp.end is Some,
    ensures
        spec_matches(spec_conflict_filter(rsvp), row) <==> {
            &&& row.resource_id == Some(rsvp.resource_id)
            &&& row.start_time is Some
            &&& row.end_time is Some
            &&& (TimeRange { start: rsvp.start.unwrap(), end: rsvp.end.unwrap() }).spec_overlaps(
                TimeRange { start: row.start_time.unwrap(), end: row.end_time.unwrap() },
            )
        },
{
}

/// Ranges that only touch (one ends where the other starts) never conflict:
/// a candidate on the same resource is not matched by its filter.
pub proof fn lemma_touching_ranges_do_not_conflict(rsvp: ReservationView, row: ReservationRowView)
    requires
        rsvp.start is Some,
        rsvp.end is Some,
        row.start_time is Some,
        row.end_time is Some,
        row.end_time == rsvp.start || rsvp.end == row.start_time,
    ensures
        !spec_matches(spec_conflict_filter(rsvp), row),
{
}

/// If the store holds no double booking and no row matches a candidate's
/// filter, then adding the candidate's row keeps the store free of double
/// bookings: at any instant at most one reservation occupies a resource.
pub proof fn lemma_insert_keeps_no_double_booking(
    rows: Seq<ReservationRowView>,
    rsvp: ReservationView,
    new_row: ReservationRowView,
)
    requires
        no_double_booking(rows),
        forall|k: int|
            0 <= k < rows.len() ==> !spec_matches(spec_conflict_filter(rsvp), #[trigger] rows[k]),
        new_row.resource_id == (if rsvp.resource_id.len() == 0 {
            None
        } else {
            Some(rsvp.resource_id)
        }),
        new_row.start_time == rsvp.start,
        new_row.end_time == rsvp.end,
    ensures
        no_double_booking(rows.push(new_row)),
{
    let all = rows.push(new_row);
    assert forall|i: int, j: int, r: Seq<char>, t: Timestamp|
        0 <= i < all.len() && 0 <= j < all.len() && i != j && #[trigger] occupies(all[i], r, t)
            && #[trigger] occupies(all[j], r, t) implies false by {
        if i < rows.len() && j < rows.len() {
            assert(all[i] == rows[i] && all[j] == rows[j]);
        } else {
            let k = if i < rows.len() { i } else { j };
            assert(all[k] == rows[k]);
            assert(spec_matches(spec_conflict_filter(rsvp), rows[k]));
        }
    }
}

} // verus!
