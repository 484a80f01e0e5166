//! The producer side of a streamed query: rows come from the store's cursor
//! one at a time and are handed to a bounded queue read by the consumer.
use crate::error::RsysError;
use crate::reservation::{
    spec_from_row, Reservation, ReservationRow, ReservationRowView, ReservationView,
};
use vstd::prelude::*;

verus! {

/// How many items the queue between producer and consumer holds.
pub const QUERY_BUFFER: usize = 128;

/// What one read of the cursor gave: a row, a store error, or the end.
pub type Fetched = Option<Result<ReservationRow, RsysError>>;

pub type FetchedView = Option<Result<ReservationRowView, RsysError>>;

pub type ItemView = Result<ReservationView, RsysError>;

pub open spec fn fetched_view(f: Fetched) -> FetchedView {
    match f {
        None => None,
        Some(Ok(row)) => Some(Ok(row@)),
        Some(Err(e)) => Some(Err(e)),
    }
}

pub open spec fn item_view(i: Result<Reservation, RsysError>) -> ItemView {
    match i {
        Ok(r) => Ok(r@),
        Err(e) => Err(e),
    }
}

/// One step of the producer: whether it stops afterwards, and the item it
/// enqueues, if any. A row becomes a reservation; an error is enqueued and
/// ends the stream; the end of the cursor ends it with no item.
pub open spec fn spec_on_fetch(f: FetchedView) -> (bool, Option<ItemView>) {
    match f {
        None => (true, None),
        Some(Ok(row)) => (false, Some(Ok(spec_from_row(row)))),
        Some(Err(e)) => (true, Some(Err(e))),
    }
}

/// The items that the producer enqueues from a sequence of reads when the
/// consumer takes them all.
pub open spec fn spec_stream(fetches: Seq<FetchedView>) -> Seq<ItemView>
    decreases fetches.len(),
{
    if fetches.len() == 0 {
        Seq::empty()
    } else {
        let (stop, item) = spec_on_fetch(fetches[0]);
        let out = match item {
            Some(i) => seq![i],
            None => Seq::empty(),
        };
        if stop {
            out
        } else {
            out + spec_stream(fetches.drop_first())
        }
    }
}

/// What the producer does next.
pub enum BridgeStep {
    /// Enqueue this item, then report whether the consumer was still there.
    Deliver(Result<Reservation, RsysError>),
    /// Stop: fetch nothing more.
    Stop,
}

/// The producer of one streamed query.
pub struct StreamProducer {
    pub finished: bool,
}

impl StreamProducer {
    pub fn new() -> (r: StreamProducer)
        ensures
            !r.finished,
    {
        StreamProducer { finished: false }
    }

    pub fn is_finished(&self) -> (r: bool)
        ensures
            r == self.finished,
    {
        self.finished
    }

    /// Handles one read of the cursor. Only a running producer reads.
    pub fn on_fetch(&mut self, fetched: Fetched) -> (s: BridgeStep)
        requires
            !old(self).finished,
        ensures
            final(self).finished == spec_on_fetch(fetched_view(fetched)).0,
            match spec_on_fetch(fetched_view(fetched)).1 {
                Some(i) => s matches BridgeStep::Deliver(d) && item_view(d) == i,
                None => s is Stop,
            },
    {
        match fetched {
            None => {
                self.finished = true;
                BridgeStep::Stop
            },
            Some(Ok(row)) => BridgeStep::Deliver(Ok(Reservation::from_row(&row))),
            Some(Err(e)) => {
                self.finished = true;
                BridgeStep::Deliver(Err(e))
            },
        }
    }

    /// Records whether the consumer took the item. Once it is gone, the
    /// producer stops, so no further rows are fetched.
    pub fn on_delivered(&mut self, accepted: bool)
        ensures
            final(self).finished == (old(self).finished || !accepted),
    {
        if !accepted {
            self.finished = true;
        }
    }
}

pub open spec fn row_reads(rows: Seq<ReservationRowView>) -> Seq<FetchedView> {
    rows.map_values(|r: ReservationRowView| Some(Ok(r)))
}

pub open spec fn row_items(rows: Seq<ReservationRowView>) -> Seq<ItemView> {
    rows.map_values(|r: ReservationRowView| Ok(spec_from_row(r)))
}

/// Rows read before anything else each give one item, in order.
pub proof fn lemma_stream_rows_then(rows: Seq<ReservationRowView>, rest: Seq<FetchedView>)
    ensures
        spec_stream(row_reads(rows) + rest) == row_items(rows) + spec_stream(rest),
    decreases rows.len(),
{
    if rows.len() == 0 {
        assert(row_reads(rows) + rest =~= rest);
        assert(row_items(rows) + spec_stream(rest) =~= spec_stream(rest));
    } else {
        let all = row_reads(rows) + rest;
        let tail = rows.drop_first();
        assert(all[0] == Some(Ok::<ReservationRowView, RsysError>(rows[0])));
        assert(all.drop_first() =~= row_reads(tail) + rest);
        lemma_stream_rows_then(tail, rest);
        assert(row_items(rows) =~= seq![Ok::<ReservationView, RsysError>(spec_from_row(rows[0]))]
            + row_items(tail));
        assert(spec_stream(all) =~= row_items(rows) + spec_stream(rest));
    }
}

/// A query over `n` rows yields exactly those `n` reservations, in the order
/// read, and then completes: nothing read after the end is delivered.
pub proof fn lemma_stream_complete(rows: Seq<ReservationRowView>, after: Seq<FetchedView>)
    ensures
        spec_stream(row_reads(rows) + seq![None] + after) == row_items(rows),
        spec_stream(row_reads(rows) + seq![None] + after).len() == rows.len(),
{
    let rest = seq![None] + after;
    assert(row_reads(rows) + seq![None] + after =~= row_reads(rows) + rest);
    lemma_stream_rows_then(rows, rest);
    assert(spec_stream(rest) =~= Seq::<ItemView>::empty());
    assert(row_items(rows) + Seq::<ItemView>::empty() =~= row_items(rows));
}

/// A store error in the middle of a query is delivered as the last item:
/// the rows before it, then the error, and nothing after.
pub proof fn lemma_stream_error_is_last(
    rows: Seq<ReservationRowView>,
    e: RsysError,
    after: Seq<FetchedView>,
)
    ensures
        spec_stream(row_reads(rows) + seq![Some(Err(e))] + after) == row_items(rows) + seq![
            Err::<ReservationView, RsysError>(e),
        ],
{
    let rest = seq![Some(Err(e))] + after;
    assert(row_reads(rows) + seq![Some(Err(e))] + after =~= row_reads(rows) + rest);
    lemma_stream_rows_then(rows, rest);
    assert(spec_stream(rest) =~= seq![Err::<ReservationView, RsysError>(e)]);
}

} // verus!
