//! The reservation manager's decisions. Each operation alternates store work
//! (done by the caller, which owns the connection) with a step here: a step
//! takes what the store answered and says what to do next or what to reply.
use crate::availability::{
    lemma_insert_keeps_no_double_booking, no_double_booking, occupies, spec_conflict_filter,
    spec_matches, ConflictFilter,
};
use crate::error::RsysError;
use crate::ident::{id_text, parse_id, spec_id_text, spec_parse_id};
use crate::reservation::{
    spec_from_row, CancelRequest, Reservation, ReservationRow, ReservationRowView,
    ReservationStatus, ReservationView, CONFIRMED_CODE,
};
use crate::time::{TimeRange, Timestamp};
use vstd::prelude::*;

verus! {

/// The columns written when a reservation is inserted; the store assigns the
/// identifier. Empty texts are left unset.
#[derive(Clone, Debug, PartialEq)]
pub struct NewReservationRow {
    pub user_id: Option<String>,
    pub resource_id: Option<String>,
    pub r_status: Option<i32>,
    pub start_time: Option<Timestamp>,
    pub end_time: Option<Timestamp>,
    pub note: Option<String>,
}

pub struct NewReservationRowView {
    pub user_id: Option<Seq<char>>,
    pub resource_id: Option<Seq<char>>,
    pub r_status: Option<i32>,
    pub start_time: Option<Timestamp>,
    pub end_time: Option<Timestamp>,
    pub note: Option<Seq<char>>,
}

impl View for NewReservationRow {
    type V = NewReservationRowView;

    open spec fn view(&self) -> NewReservationRowView {
        NewReservationRowView {
            user_id: self.user_id.deep_view(),
            resource_id: self.resource_id.deep_view(),
            r_status: self.r_status,
            start_time: self.start_time,
            end_time: self.end_time,
            note: self.note.deep_view(),
        }
    }
}

pub open spec fn unless_empty(s: Seq<char>) -> Option<Seq<char>> {
    if s.len() == 0 {
        None
    } else {
        Some(s)
    }
}

/// The candidate with its range put in order when both ends are given.
pub open spec fn spec_normalized(rsvp: ReservationView) -> ReservationView {
    match (rsvp.start, rsvp.end) {
        (Some(s), Some(e)) => ReservationView {
            start: Some(TimeRange::spec_new(s, e).start),
            end: Some(TimeRange::spec_new(s, e).end),
            ..rsvp
        },
        _ => rsvp,
    }
}

pub open spec fn spec_new_row(rsvp: ReservationView) -> NewReservationRowView {
    NewReservationRowView {
        user_id: unless_empty(rsvp.uid),
        resource_id: unless_empty(rsvp.resource_id),
        r_status: Some(rsvp.rstatus),
        start_time: rsvp.start,
        end_time: rsvp.end,
        note: unless_empty(rsvp.note),
    }
}

/// The row as the store holds it once it assigned the identifier `id`.
pub open spec fn spec_stored_row(row: NewReservationRowView, id: u128) -> ReservationRowView {
    ReservationRowView {
        id,
        user_id: row.user_id,
        resource_id: row.resource_id,
        r_status: row.r_status,
        start_time: row.start_time,
        end_time: row.end_time,
        note: row.note,
    }
}

fn some_unless_empty(s: &String) -> (r: Option<String>)
    ensures
        r.deep_view() == unless_empty(s@),
{
    if s.as_str().is_empty() {
        None
    } else {
        Some(s.clone())
    }
}

/// A reservation being created: the candidate, the filter that finds rows in
/// conflict with it, and the row to insert when there are none.
pub struct CreatePlan {
    pub reservation: Reservation,
    pub filter: ConflictFilter,
    pub row: NewReservationRow,
}

/// Starts creating a reservation. Its range is put in order first, so what
/// is checked, stored and returned never has its start after its end.
pub fn plan_create(rsvp: Reservation) -> (p: CreatePlan)
    ensures
        p.reservation@ == spec_normalized(rsvp@),
        p.filter@ == spec_conflict_filter(p.reservation@),
        p.row@ == spec_new_row(p.reservation@),
        (p.row.start_time, p.row.end_time) matches (Some(s), Some(e)) ==> s.spec_not_after(e),
{
    let mut reservation = rsvp;
    match (reservation.start, reservation.end) {
        (Some(s), Some(e)) => {
            let range = TimeRange::new(s, e);
            reservation.start = Some(range.start);
            reservation.end = Some(range.end);
        },
        _ => {},
    }
    let filter = ConflictFilter::for_reservation(&reservation);
    let row = NewReservationRow {
        user_id: some_unless_empty(&reservation.uid),
        resource_id: some_unless_empty(&reservation.resource_id),
        r_status: Some(reservation.rstatus),
        start_time: reservation.start,
        end_time: reservation.end,
        note: some_unless_empty(&reservation.note),
    };
    CreatePlan { reservation, filter, row }
}

impl CreatePlan {
    /// After the store looked for a row matching the filter: any row found
    /// means the range is already booked, and nothing is inserted.
    pub fn after_conflict_check(
        self,
        found: &Option<ReservationRow>,
    ) -> (r: Result<CreatePlan, RsysError>)
        ensures
            found is Some ==> r == Err::<CreatePlan, RsysError>(RsysError::AlreadyBooked),
            found is None ==> r == Ok::<CreatePlan, RsysError>(self),
    {
        match found {
            Some(_) => Err(RsysError::AlreadyBooked),
            None => Ok(self),
        }
    }

    /// After the store inserted the row under `id`: the candidate with its
    /// identifier.
    pub fn after_insert(self, id: u128) -> (r: Reservation)
        ensures
            r@ == (ReservationView { id: spec_id_text(id), ..self.reservation@ }),
    {
        let mut reservation = self.reservation;
        reservation.id = id_text(id);
        reservation
    }
}

/// Creating a reservation keeps the store free of double bookings: if no
/// resource was occupied twice at any instant and the conflict check found
/// nothing, inserting the planned row leaves it so.
pub proof fn lemma_create_keeps_no_double_booking(
    rows: Seq<ReservationRowView>,
    rsvp: ReservationView,
    id: u128,
)
    requires
        no_double_booking(rows),
        forall|k: int|
            0 <= k < rows.len() ==> !spec_matches(
                spec_conflict_filter(spec_normalized(rsvp)),
                #[trigger] rows[k],
            ),
    ensures
        no_double_booking(rows.push(spec_stored_row(spec_new_row(spec_normalized(rsvp)), id))),
{
    let cand = spec_normalized(rsvp);
    lemma_insert_keeps_no_double_booking(
        rows,
        cand,
        spec_stored_row(spec_new_row(cand), id),
    );
}

/// Confirming a stored reservation, or changing its note, keeps the store
/// free of double bookings: neither touches its resource or its range.
pub proof fn lemma_update_keeps_no_double_booking(
    rows: Seq<ReservationRowView>,
    k: int,
    note: Seq<char>,
)
    requires
        no_double_booking(rows),
        0 <= k < rows.len(),
    ensures
        no_double_booking(rows.update(k, spec_confirmed(rows[k]))),
        no_double_booking(rows.update(k, ReservationRowView { note: Some(note), ..rows[k] })),
{
    let confirmed = rows.update(k, spec_confirmed(rows[k]));
    let noted = rows.update(k, ReservationRowView { note: Some(note), ..rows[k] });
    assert forall|i: int, j: int, r: Seq<char>, t: Timestamp|
        0 <= i < confirmed.len() && 0 <= j < confirmed.len() && i != j && #[trigger] occupies(
            confirmed[i],
            r,
            t,
        ) && #[trigger] occupies(confirmed[j], r, t) implies false by {
        assert(occupies(rows[i], r, t) && occupies(rows[j], r, t));
    }
    assert forall|i: int, j: int, r: Seq<char>, t: Timestamp|
        0 <= i < noted.len() && 0 <= j < noted.len() && i != j && #[trigger] occupies(
            noted[i],
            r,
            t,
        ) && #[trigger] occupies(noted[j], r, t) implies false by {
        assert(occupies(rows[i], r, t) && occupies(rows[j], r, t));
    }
}

/// Cancelling a reservation keeps the store free of double bookings.
pub proof fn lemma_delete_keeps_no_double_booking(rows: Seq<ReservationRowView>, k: int)
    requires
        no_double_booking(rows),
        0 <= k < rows.len(),
    ensures
        no_double_booking(rows.remove(k)),
{
    let left = rows.remove(k);
    assert forall|i: int| 0 <= i < left.len() implies #[trigger] left[i] == rows[if i < k {
        i
    } else {
        i + 1
    }] by {}
    assert forall|i: int, j: int, r: Seq<char>, t: Timestamp|
        0 <= i < left.len() && 0 <= j < left.len() && i != j && #[trigger] occupies(left[i], r, t)
            && #[trigger] occupies(left[j], r, t) implies false by {
        let oi = if i < k { i } else { i + 1 };
        let oj = if j < k { j } else { j + 1 };
        assert(left[i] == rows[oi] && left[j] == rows[oj]);
    }
}

/// Reads the identifier of a request on an existing reservation. A malformed
/// identifier is reported as `NoReservation`, like a missing one.
pub fn parse_request_id(id: &String) -> (r: Result<u128, RsysError>)
    ensures
        spec_parse_id(id@) matches Some(v) ==> r == Ok::<u128, RsysError>(v),
        spec_parse_id(id@) is None ==> r == Err::<u128, RsysError>(RsysError::NoReservation),
{
    match parse_id(id.as_str()) {
        Some(v) => Ok(v),
        None => Err(RsysError::NoReservation),
    }
}

pub open spec fn spec_confirmed(row: ReservationRowView) -> ReservationRowView {
    ReservationRowView { r_status: Some(CONFIRMED_CODE), ..row }
}

/// Confirming: after the store looked the identifier up, the row to write
/// back, whatever its status was.
pub fn confirm_found(found: Option<ReservationRow>) -> (r: Result<ReservationRow, RsysError>)
    ensures
        found is None ==> r == Err::<ReservationRow, RsysError>(RsysError::NoReservation),
        found matches Some(row) ==> (r matches Ok(u) && u@ == spec_confirmed(row@)),
{
    match found {
        None => Err(RsysError::NoReservation),
        Some(row) => {
            let mut row = row;
            row.r_status = Some(ReservationStatus::Confirmed.code());
            Ok(row)
        },
    }
}

pub open spec fn spec_confirm_reply(id: u128, updated: ReservationRowView) -> ReservationView {
    ReservationView {
        id: spec_id_text(id),
        uid: Seq::empty(),
        resource_id: Seq::empty(),
        note: Seq::empty(),
        start: None,
        end: None,
        rstatus: match updated.r_status {
            Some(c) => c,
            None => 0,
        },
    }
}

/// The reply to a confirmation: the identifier and the status now stored.
pub fn confirm_reply(id: u128, updated: &ReservationRow) -> (r: Reservation)
    ensures
        r@ == spec_confirm_reply(id, updated@),
{
    Reservation {
        id: id_text(id),
        uid: String::new(),
        resource_id: String::new(),
        note: String::new(),
        start: None,
        end: None,
        rstatus: match updated.r_status {
            Some(c) => c,
            None => 0,
        },
    }
}

/// Confirming leaves a reservation confirmed, and confirming it again
/// changes nothing: the row written back and the reply are the same.
pub proof fn lemma_confirm_idempotent(id: u128, row: ReservationRowView)
    ensures
        spec_confirmed(spec_confirmed(row)) == spec_confirmed(row),
        ReservationStatus::spec_from_code(spec_confirm_reply(id, spec_confirmed(row)).rstatus)
            == Some(ReservationStatus::Confirmed),
{
}

/// Updating the note: after the store looked the identifier up, the row to
/// write back with the new note. The status does not matter.
pub fn note_updated(
    found: Option<ReservationRow>,
    note: String,
) -> (r: Result<ReservationRow, RsysError>)
    ensures
        found is None ==> r == Err::<ReservationRow, RsysError>(RsysError::NoReservation),
        found matches Some(row) ==> (r matches Ok(u) && u@ == (ReservationRowView {
            note: Some(note@),
            ..row@
        })),
{
    match found {
        None => Err(RsysError::NoReservation),
        Some(row) => {
            let mut row = row;
            row.note = Some(note);
            Ok(row)
        },
    }
}

/// Fetching: the reservation that the store found under the identifier.
pub fn get_found(found: &Option<ReservationRow>) -> (r: Result<Reservation, RsysError>)
    ensures
        found is None ==> r == Err::<Reservation, RsysError>(RsysError::NoReservation),
        found matches Some(row) ==> (r matches Ok(res) && res@ == spec_from_row(row@)),
{
    match found {
        None => Err(RsysError::NoReservation),
        Some(row) => Ok(Reservation::from_row(row)),
    }
}

/// What a cancellation does first.
#[derive(Clone, Copy, Debug, PartialEq, Eq, Structural)]
pub enum DeletePlan {
    /// Reply at once with this count of removed rows.
    Done(usize),
    /// Ask the store to delete the row with this identifier and reply with
    /// the count it reports.
    Delete(u128),
}

/// Cancelling: a malformed identifier removes nothing and is no error.
pub fn plan_delete(cancel: &CancelRequest) -> (r: DeletePlan)
    ensures
        spec_parse_id(cancel.id@) matches Some(v) ==> r == DeletePlan::Delete(v),
        spec_parse_id(cancel.id@) is None ==> r == DeletePlan::Done(0),
{
    match parse_id(cancel.id.as_str()) {
        Some(v) => DeletePlan::Delete(v),
        None => DeletePlan::Done(0),
    }
}

} // verus!
