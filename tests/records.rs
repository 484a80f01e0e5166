use rsys::error::{RsysError, ServError};
use rsys::random::{generate_random_reservation, generate_random_string};
use rsys::reservation::{
    Reservation, ReservationBuilder, ReservationRow, ReservationStatus, CONFIRMED_CODE,
    PENDING_CODE,
};
use rsys::time::{parse_datetime, TimeRange, Timestamp};

fn ts(seconds: i64) -> Timestamp {
    Timestamp::new(seconds, 0)
}

#[test]
fn test_parse() {
    let datestr = "2012-03-04 05:06:07+08";
    println!("raw:{:?}", datestr);
    let date = parse_datetime(datestr);
    println!("parse:{:?}", date);
    let date = parse_datetime(datestr.strip_prefix("2012").unwrap());
    assert_eq!(date, Err(()));
}

#[test]
fn parse_datetime_reads_offset() {
    // 2012-03-04 05:06:07 at +08:00 is 2012-03-03 21:06:07 UTC.
    let date = parse_datetime("2012-03-04 05:06:07+08").unwrap();
    assert_eq!(date, Timestamp::new(1330808767, 0));
}

#[test]
fn test_builder() {
    let r = ReservationBuilder::default().build().unwrap();
    println!("{:?}", r);
    let r = Reservation {
        ..Default::default()
    };
    println!("{:?}", r);
}

#[test]
fn builder_sets_fields() {
    let r = ReservationBuilder::default()
        .uid("u1")
        .resource_id("room")
        .note("n")
        .start(Some(ts(10)))
        .end(Some(ts(20)))
        .rstatus(CONFIRMED_CODE)
        .build()
        .unwrap();
    assert_eq!(r.id, "");
    assert_eq!(r.uid, "u1");
    assert_eq!(r.resource_id, "room");
    assert_eq!(r.note, "n");
    assert_eq!(r.start, Some(ts(10)));
    assert_eq!(r.end, Some(ts(20)));
    assert_eq!(r.rstatus, 1);
    let empty = ReservationBuilder::default().build().unwrap();
    assert_eq!(empty, Reservation::default());
}

#[test]
fn macro_test() {
    println!("1");
    println!("2");
    println!("3");
    println!("4");
    println!("5");
    println!("6");
    println!("7");
}

#[test]
fn random_string() {
    for i in 1..11 {
        println!("{} {:?}", i, generate_random_string(7));
    }
}

#[test]
fn random_string_is_alphanumeric() {
    for len in [0usize, 1, 7, 64] {
        let s = generate_random_string(len);
        assert_eq!(s.chars().count(), len);
        assert!(s.chars().all(|c| c.is_ascii_alphanumeric()));
    }
}

#[test]
fn random_reservation_is_ordered() {
    let r = generate_random_reservation();
    assert_eq!(r.id, "");
    assert_eq!(r.uid.len(), 7);
    assert_eq!(r.resource_id.len(), 8);
    assert_eq!(r.note.len(), 11);
    assert_eq!(r.rstatus, PENDING_CODE);
    let (s, e) = (r.start.unwrap(), r.end.unwrap());
    assert!(!e.is_before(&s));
    assert!(e.seconds - s.seconds >= 2 * 3600 && e.seconds - s.seconds <= 201 * 3600);
}

#[test]
fn debug_errors() {
    let err = RsysError::Unknown;
    println!("{:?}\n{}", err, err.message());
    let err = RsysError::ConfigError("config".to_string());
    println!("{:?}\n{}", err, err.message());
}

#[test]
fn error_messages() {
    assert_eq!(RsysError::Unknown.message(), "unknown error");
    assert_eq!(RsysError::AlreadyBooked.message(), "already booked");
    assert_eq!(RsysError::NoReservation.message(), "no reservation");
    assert_eq!(RsysError::DbError("x".to_string()).message(), "db error");
    assert_eq!(RsysError::DbxError("x".to_string()).message(), "sqlx error");
    assert_eq!(RsysError::ConfigError("config".to_string()).message(), "config error: config");
    assert_eq!(RsysError::ServerError("down".to_string()).message(), "server error: down");
    assert_eq!(RsysError::ReservationError("rsvp".to_string()).message(), "rsvp error");
    assert_eq!(ServError(RsysError::NoReservation).message(), "no reservation");
}

#[test]
fn error_equality() {
    assert_eq!(RsysError::NoReservation, RsysError::NoReservation);
    assert_ne!(RsysError::NoReservation, RsysError::AlreadyBooked);
    assert_eq!(RsysError::ConfigError("a".to_string()), RsysError::ConfigError("a".to_string()));
    assert_ne!(RsysError::ConfigError("a".to_string()), RsysError::ConfigError("b".to_string()));
    assert_ne!(RsysError::DbxError("a".to_string()), RsysError::DbxError("a".to_string()));
}

#[test]
fn status_codes() {
    assert_eq!(ReservationStatus::Pending.code(), 0);
    assert_eq!(ReservationStatus::Confirmed.code(), 1);
    assert_eq!(ReservationStatus::from_code(1), Some(ReservationStatus::Confirmed));
    assert_eq!(ReservationStatus::from_code(0), Some(ReservationStatus::Pending));
    assert_eq!(ReservationStatus::from_code(7), None);
}

#[test]
fn new_pending_swaps_reversed_range() {
    let r = Reservation::new_pending("u", "r", "n", ts(200), ts(100));
    assert_eq!(r.start, Some(ts(100)));
    assert_eq!(r.end, Some(ts(200)));
    assert_eq!(r.rstatus, PENDING_CODE);
    assert_eq!(r.id, "");
    let same = Reservation::new_pending("u", "r", "n", ts(5), ts(5));
    assert_eq!(same.start, same.end);
    let sub = Reservation::new_pending("u", "r", "n", Timestamp::new(5, 9), Timestamp::new(5, 3));
    assert_eq!(sub.start, Some(Timestamp::new(5, 3)));
}

#[test]
fn time_range_overlap_is_strict() {
    let a = TimeRange::new(ts(9), ts(10));
    let b = TimeRange::new(ts(10), ts(11));
    let c = TimeRange::new(ts(11), ts(9));
    assert!(!a.overlaps(&b));
    assert!(c.overlaps(&a) && c.overlaps(&b));
    assert!(a.contains(&ts(9)) && !a.contains(&ts(10)));
    assert_eq!(c.start, ts(9));
}

#[test]
fn row_reads_with_defaults() {
    let row = ReservationRow {
        id: 0x67e5504410b1426f9247bb680e5fe0c8,
        user_id: None,
        resource_id: Some("room".to_string()),
        r_status: None,
        start_time: Some(ts(30)),
        end_time: None,
        note: None,
    };
    let r = Reservation::from_row(&row);
    assert_eq!(r.id, "67e55044-10b1-426f-9247-bb680e5fe0c8");
    assert_eq!(r.uid, "");
    assert_eq!(r.resource_id, "room");
    assert_eq!(r.note, "");
    assert_eq!(r.start, Some(ts(30)));
    assert_eq!(r.end, Some(ts(0)));
    assert_eq!(r.rstatus, 0);
}
