use crate::ident::{id_text, spec_id_text};
use crate::time::{TimeRange, Timestamp};
use vstd::prelude::*;

verus! {

/// The lifecycle state of a reservation, stored as a small integer code.
#[derive(Clone, Copy, Debug, PartialEq, Eq, Structural)]
pub enum ReservationStatus {
    Pending,
    Confirmed,
}

pub const PENDING_CODE: i32 = 0;

pub const CONFIRMED_CODE: i32 = 1;

impl ReservationStatus {
    pub open spec fn spec_code(self) -> i32 {
        match self {
            ReservationStatus::Pending => PENDING_CODE,
            ReservationStatus::Confirmed => CONFIRMED_CODE,
        }
    }

    pub open spec fn spec_from_code(code: i32) -> Option<ReservationStatus> {
        if code == PENDING_CODE {
            Some(ReservationStatus::Pending)
        } else if code == CONFIRMED_CODE {
            Some(ReservationStatus::Confirmed)
        } else {
            None
        }
    }

    pub fn code(self) -> (r: i32)
        ensures
            r == self.spec_code(),
            ReservationStatus::spec_from_code(r) == Some(self),
    {
        match self {
            ReservationStatus::Pending => PENDING_CODE,
            ReservationStatus::Confirmed => CONFIRMED_CODE,
        }
    }

    pub fn from_code(code: i32) -> (r: Option<ReservationStatus>)
        ensures
            r == ReservationStatus::spec_from_code(code),
            r matches Some(s) ==> s.spec_code() == code,
    {
        if code == PENDING_CODE {
            Some(ReservationStatus::Pending)
        } else if code == CONFIRMED_CODE {
            Some(ReservationStatus::Confirmed)
        } else {
            None
        }
    }
}

/// A reservation as callers see it: a claim by a user on a resource for a
/// time range. An empty `id` means that none has been assigned yet; empty
/// `uid` or `resource_id` mean unspecified.
#[derive(Clone, Debug, PartialEq, Default)]
pub struct Reservation {
    pub id: String,
    pub uid: String,
    pub resource_id: String,
    pub note: String,
    pub start: Option<Timestamp>,
    pub end: Option<Timestamp>,
    pub rstatus: i32,
}

pub struct ReservationView {
    pub id: Seq<char>,
    pub uid: Seq<char>,
    pub resource_id: Seq<char>,
    pub note: Seq<char>,
    pub start: Option<Timestamp>,
    pub end: Option<Timestamp>,
    pub rstatus: i32,
}

impl View for Reservation {
    type V = ReservationView;

    open spec fn view(&self) -> ReservationView {
        ReservationView {
            id: self.id@,
            uid: self.uid@,
            resource_id: self.resource_id@,
            note: self.note@,
            start: self.start,
            end: self.end,
            rstatus: self.rstatus,
        }
    }
}

/// A row of the store's reservations table. Every column but the identifier
/// may be absent.
#[derive(Clone, Debug, PartialEq)]
pub struct ReservationRow {
    pub id: u128,
    pub user_id: Option<String>,
    pub resource_id: Option<String>,
    pub r_status: Option<i32>,
    pub start_time: Option<Timestamp>,
    pub end_time: Option<Timestamp>,
    pub note: Option<String>,
}

pub struct ReservationRowView {
    pub id: u128,
    pub user_id: Option<Seq<char>>,
    pub resource_id: Option<Seq<char>>,
    pub r_status: Option<i32>,
    pub start_time: Option<Timestamp>,
    pub end_time: Option<Timestamp>,
    pub note: Option<Seq<char>>,
}

impl View for ReservationRow {
    type V = ReservationRowView;

    open spec fn view(&self) -> ReservationRowView {
        ReservationRowView {
            id: self.id,
            user_id: self.user_id.deep_view(),
            resource_id: self.resource_id.deep_view(),
            r_status: self.r_status,
            start_time: self.start_time,
            end_time: self.end_time,
            note: self.note.deep_view(),
        }
    }
}

/// The text of an optional column, empty when absent.
pub open spec fn text_or_empty(o: Option<Seq<char>>) -> Seq<char> {
    match o {
        Some(s) => s,
        None => Seq::empty(),
    }
}

/// The instant of an optional column, the epoch when absent.
pub open spec fn instant_or_epoch(o: Option<Timestamp>) -> Timestamp {
    match o {
        Some(t) => t,
        None => Timestamp { seconds: 0, nanos: 0 },
    }
}

/// A row read back as a reservation: absent columns become empty text, the
/// epoch, or status code 0.
pub open spec fn spec_from_row(row: ReservationRowView) -> ReservationView {
    ReservationView {
        id: spec_id_text(row.id),
        uid: text_or_empty(row.user_id),
        resource_id: text_or_empty(row.resource_id),
        note: text_or_empty(row.note),
        start: Some(instant_or_epoch(row.start_time)),
        end: Some(instant_or_epoch(row.end_time)),
        rstatus: match row.r_status {
            Some(c) => c,
            None => 0,
        },
    }
}

pub fn clone_or_empty(o: &Option<String>) -> (r: String)
    ensures
        r@ == text_or_empty(o.deep_view()),
{
    match o {
        Some(s) => s.clone(),
        None => String::new(),
    }
}

fn instant_or_default(o: Option<Timestamp>) -> (r: Timestamp)
    ensures
        r == instant_or_epoch(o),
{
    match o {
        Some(t) => t,
        None => Timestamp { seconds: 0, nanos: 0 },
    }
}

impl Reservation {
    /// A new pending reservation with no identifier. The two instants are put
    /// in order, so the start never comes after the end.
    pub fn new_pending(
        uid: &str,
        rid: &str,
        note: &str,
        start: Timestamp,
        end: Timestamp,
    ) -> (r: Reservation)
        ensures
            r@.id.len() == 0,
            r@.uid == uid@,
            r@.resource_id == rid@,
            r@.note == note@,
            r@.start == Some(TimeRange::spec_new(start, end).start),
            r@.end == Some(TimeRange::spec_new(start, end).end),
            r@.rstatus == ReservationStatus::Pending.spec_code(),
            r@.start.unwrap().spec_not_after(r@.end.unwrap()),
    {
        let range = TimeRange::new(start, end);
        Reservation {
            id: String::new(),
            uid: uid.to_owned(),
            resource_id: rid.to_owned(),
            note: note.to_owned(),
            start: Some(range.start),
            end: Some(range.end),
            rstatus: ReservationStatus::Pending.code(),
        }
    }

    /// Reads a store row as a reservation (see `spec_from_row`).
    pub fn from_row(row: &ReservationRow) -> (r: Reservation)
        ensures
            r@ == spec_from_row(row@),
    {
        Reservation {
            id: id_text(row.id),
            uid: clone_or_empty(&row.user_id),
            resource_id: clone_or_empty(&row.resource_id),
            note: clone_or_empty(&row.note),
            start: Some(instant_or_default(row.start_time)),
            end: Some(instant_or_default(row.end_time)),
            rstatus: match row.r_status {
                Some(c) => c,
                None => 0,
            },
        }
    }
}

/// Builds a reservation field by field; every field left unset takes its
/// default, and the identifier is never set here.
#[derive(Clone, Debug, Default)]
pub struct ReservationBuilder {
    pub uid: Option<String>,
    pub resource_id: Option<String>,
    pub note: Option<String>,
    pub start: Option<Option<Timestamp>>,
    pub end: Option<Option<Timestamp>>,
    pub rstatus: Option<i32>,
}

/// The builder never fails: kept as an error type so that `build` reads as
/// a fallible step.
#[derive(Clone, Debug, PartialEq, Eq, Structural)]
pub struct ReservationBuilderError;

impl ReservationBuilder {
    pub fn uid(self, v: &str) -> (r: ReservationBuilder)
        ensures
            r.uid.deep_view() == Some(v@),
            r.resource_id == self.resource_id,
            r.note == self.note,
            r.start == self.start,
            r.end == self.end,
            r.rstatus == self.rstatus,
    {
        ReservationBuilder { uid: Some(v.to_owned()), ..self }
    }

    pub fn resource_id(self, v: &str) -> (r: ReservationBuilder)
        ensures
            r.resource_id.deep_view() == Some(v@),
            r.uid == self.uid,
            r.note == self.note,
            r.start == self.start,
            r.end == self.end,
            r.rstatus == self.rstatus,
    {
        ReservationBuilder { resource_id: Some(v.to_owned()), ..self }
    }

    pub fn note(self, v: &str) -> (r: ReservationBuilder)
        ensures
            r.note.deep_view() == Some(v@),
            r.uid == self.uid,
            r.resource_id == self.resource_id,
            r.start == self.start,
            r.end == self.end,
            r.rstatus == self.rstatus,
    {
        ReservationBuilder { note: Some(v.to_owned()), ..self }
    }

    pub fn start(self, v: Option<Timestamp>) -> (r: ReservationBuilder)
        ensures
            r.start == Some(v),
            r.uid == self.uid,
            r.resource_id == self.resource_id,
            r.note == self.note,
            r.end == self.end,
            r.rstatus == self.rstatus,
    {
        ReservationBuilder { start: Some(v), ..self }
    }

    pub fn end(self, v: Option<Timestamp>) -> (r: ReservationBuilder)
        ensures
            r.end == Some(v),
            r.uid == self.uid,
            r.resource_id == self.resource_id,
            r.note == self.note,
            r.start == self.start,
            r.rstatus == self.rstatus,
    {
        ReservationBuilder { end: Some(v), ..self }
    }

    pub fn rstatus(self, v: i32) -> (r: ReservationBuilder)
        ensures
            r.rstatus == Some(v),
            r.uid == self.uid,
            r.resource_id == self.resource_id,
            r.note == self.note,
            r.start == self.start,
            r.end == self.end,
    {
        ReservationBuilder { rstatus: Some(v), ..self }
    }

    /// The reservation with the fields that were set and defaults elsewhere.
    pub fn build(&self) -> (r: Result<Reservation, ReservationBuilderError>)
        ensures
            r matches Ok(res) && {
                &&& res@.id.len() == 0
                &&& res@.uid == text_or_empty(self.uid.deep_view())
                &&& res@.resource_id == text_or_empty(self.resource_id.deep_view())
                &&& res@.note == text_or_empty(self.note.deep_view())
                &&& res@.start == (match self.start {
                    Some(s) => s,
                    None => None,
                })
                &&& res@.end == (match self.end {
                    Some(e) => e,
                    None => None,
                })
                &&& res@.rstatus == (match self.rstatus {
                    Some(c) => c,
                    None => 0,
                })
            },
    {
        Ok(
            Reservation {
                id: String::new(),
                uid: clone_or_empty(&self.uid),
                resource_id: clone_or_empty(&self.resource_id),
                note: clone_or_empty(&self.note),
                start: match self.start {
                    Some(s) => s,
                    None => None,
                },
                end: match self.end {
                    Some(e) => e,
                    None => None,
                },
                rstatus: match self.rstatus {
                    Some(c) => c,
                    None => 0,
                },
            },
        )
    }
}

/// Confirms the reservation with the given identifier.
#[derive(Clone, Debug, PartialEq, Default)]
pub struct ConfirmRequest {
    pub id: String,
}

/// Replaces the note of the reservation with the given identifier.
#[derive(Clone, Debug, PartialEq, Default)]
pub struct UpdateRequest {
    pub id: String,
    pub note: String,
}

/// Cancels (deletes) the reservation with the given identifier.
#[derive(Clone, Debug, PartialEq, Default)]
pub struct CancelRequest {
    pub id: String,
}

/// Fetches the reservation with the given identifier.
#[derive(Clone, Debug, PartialEq, Default)]
pub struct GetRequest {
    pub id: String,
}

/// Lists the reservations of a user.
#[derive(Clone, Debug, PartialEq, Default)]
pub struct QueryRequest {
    pub uid: String,
}

} // verus!
