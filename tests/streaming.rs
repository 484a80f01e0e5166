use rsys::bridge::{BridgeStep, StreamProducer, QUERY_BUFFER};
use rsys::error::RsysError;
use rsys::reservation::{Reservation, ReservationRow};
use rsys::time::Timestamp;

fn row(id: u128, uid: &str) -> ReservationRow {
    ReservationRow {
        id,
        user_id: Some(uid.to_string()),
        resource_id: Some(format!("r{}", id)),
        r_status: Some(0),
        start_time: Some(Timestamp::new(id as i64, 0)),
        end_time: Some(Timestamp::new(id as i64 + 10, 0)),
        note: None,
    }
}

/// Runs a producer over the reads; the consumer takes the first `take`
/// items and then goes away.
fn run(reads: Vec<Option<Result<ReservationRow, RsysError>>>, take: usize) -> (Vec<Result<Reservation, RsysError>>, usize) {
    let mut producer = StreamProducer::new();
    let mut out = Vec::new();
    let mut fetched = 0;
    for read in reads {
        if producer.is_finished() {
            break;
        }
        fetched += 1;
        match producer.on_fetch(read) {
            BridgeStep::Deliver(item) => {
                let accepted = out.len() < take;
                if accepted {
                    out.push(item);
                }
                producer.on_delivered(accepted);
            }
            BridgeStep::Stop => {}
        }
    }
    (out, fetched)
}

#[test]
fn stream_yields_every_row_then_completes() {
    let mut reads: Vec<_> = (1..=5).map(|i| Some(Ok(row(i, "rm_query_manyx")))).collect();
    reads.push(None);
    reads.push(Some(Ok(row(99, "late"))));
    let (out, fetched) = run(reads, usize::MAX);
    assert_eq!(out.len(), 5);
    assert_eq!(fetched, 6);
    for (i, item) in out.iter().enumerate() {
        let r = item.as_ref().unwrap();
        assert_eq!(r.uid, "rm_query_manyx");
        assert_eq!(r.start, Some(Timestamp::new(i as i64 + 1, 0)));
    }
}

#[test]
fn stream_of_nothing_is_empty() {
    let (out, fetched) = run(vec![None], usize::MAX);
    assert!(out.is_empty());
    assert_eq!(fetched, 1);
}

#[test]
fn stream_error_is_last_item() {
    let reads = vec![
        Some(Ok(row(1, "u"))),
        Some(Ok(row(2, "u"))),
        Some(Err(RsysError::DbError("connection lost".to_string()))),
        Some(Ok(row(3, "u"))),
        None,
    ];
    let (out, fetched) = run(reads, usize::MAX);
    assert_eq!(out.len(), 3);
    assert_eq!(fetched, 3);
    assert!(out[0].is_ok() && out[1].is_ok());
    assert_eq!(out[2], Err(RsysError::DbError("connection lost".to_string())));
}

#[test]
fn stream_stops_when_consumer_leaves() {
    let reads: Vec<_> = (1..=10).map(|i| Some(Ok(row(i, "u")))).collect();
    let (out, fetched) = run(reads, 2);
    assert_eq!(out.len(), 2);
    // the item that found the consumer gone is the last one fetched
    assert_eq!(fetched, 3);
}

#[test]
fn queue_holds_a_bounded_number_of_items() {
    assert_eq!(QUERY_BUFFER, 128);
}
