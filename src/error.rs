use vstd::prelude::*;
use vstd::string::StringExecFns;

verus! {

/// What a reservation operation can fail with.
#[derive(Debug)]
pub enum RsysError {
    Unknown,
    /// A failure reported by the store, with its message.
    DbError(String),
    /// A failure reported by the store's driver, with its message.
    DbxError(String),
    /// A store failure on the reservations table itself.
    ReservationError(String),
    /// The requested time range overlaps a reservation on the same resource.
    AlreadyBooked,
    /// The identifier is malformed, or no reservation has it.
    NoReservation,
    /// The store could not be reached with the given connection string.
    ConfigError(String),
    ServerError(String),
}

impl RsysError {
    /// The human-readable text of the error.
    pub open spec fn spec_message(&self) -> Seq<char> {
        match self {
            RsysError::Unknown => "unknown error"@,
            RsysError::DbError(_) => "db error"@,
            RsysError::DbxError(_) => "sqlx error"@,
            RsysError::ReservationError(s) => s@ + " error"@,
            RsysError::AlreadyBooked => "already booked"@,
            RsysError::NoReservation => "no reservation"@,
            RsysError::ConfigError(s) => "config error: "@ + s@,
            RsysError::ServerError(s) => "server error: "@ + s@,
        }
    }

    pub fn message(&self) -> (r: String)
        ensures
            r@ == self.spec_message(),
    {
        match self {
            RsysError::Unknown => String::from_str("unknown error"),
            RsysError::DbError(_) => String::from_str("db error"),
            RsysError::DbxError(_) => String::from_str("sqlx error"),
            RsysError::ReservationError(s) => s.clone().concat(" error"),
            RsysError::AlreadyBooked => String::from_str("already booked"),
            RsysError::NoReservation => String::from_str("no reservation"),
            RsysError::ConfigError(s) => String::from_str("config error: ").concat(s.as_str()),
            RsysError::ServerError(s) => String::from_str("server error: ").concat(s.as_str()),
        }
    }

    /// Errors of the same kind with the same text are equal, except driver
    /// errors, which are never equal to anything.
    pub open spec fn spec_eq(&self, other: &RsysError) -> bool {
        match (self, other) {
            (RsysError::Unknown, RsysError::Unknown) => true,
            (RsysError::DbError(a), RsysError::DbError(b)) => a@ == b@,
            (RsysError::ReservationError(a), RsysError::ReservationError(b)) => a@ == b@,
            (RsysError::AlreadyBooked, RsysError::AlreadyBooked) => true,
            (RsysError::NoReservation, RsysError::NoReservation) => true,
            (RsysError::ConfigError(a), RsysError::ConfigError(b)) => a@ == b@,
            (RsysError::ServerError(a), RsysError::ServerError(b)) => a@ == b@,
            _ => false,
        }
    }
}

impl PartialEq for RsysError {
    fn eq(&self, other: &RsysError) -> (r: bool) {
        match (self, other) {
            (RsysError::Unknown, RsysError::Unknown) => true,
            (RsysError::DbError(a), RsysError::DbError(b)) => *a == *b,
            (RsysError::ReservationError(a), RsysError::ReservationError(b)) => *a == *b,
            (RsysError::AlreadyBooked, RsysError::AlreadyBooked) => true,
            (RsysError::NoReservation, RsysError::NoReservation) => true,
            (RsysError::ConfigError(a), RsysError::ConfigError(b)) => *a == *b,
            (RsysError::ServerError(a), RsysError::ServerError(b)) => *a == *b,
            _ => false,
        }
    }
}

impl vstd::std_specs::cmp::PartialEqSpecImpl for RsysError {
    open spec fn obeys_eq_spec() -> bool {
        false
    }

    open spec fn eq_spec(&self, other: &RsysError) -> bool {
        self.spec_eq(other)
    }
}

/// An error of the reservation service, carrying the manager's error.
#[derive(Debug)]
pub struct ServError(pub RsysError);

impl ServError {
    /// The text reported to a remote caller.
    pub fn message(&self) -> (r: String)
        ensures
            r@ == self.0.spec_message(),
    {
        self.0.message()
    }
}

} // verus!
