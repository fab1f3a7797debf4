//! The bounded-concurrency fetch schedule: which address to launch next,
//! how many fetches may be in flight at once, and how each outcome is
//! collected. The loop that performs the fetches lives outside the library;
//! every decision it takes comes from here.
use vstd::prelude::*;

use crate::model::{FeedAddress, FetchError};
use crate::table::Table;

verus! {

/// The state of one batch run: the addresses, a cursor over them, the count
/// of fetches in flight, the concurrency cap, and the outcomes collected so
/// far. Successful tables and failures are kept apart, in completion order.
pub struct Scheduler {
    pub addresses: Vec<FeedAddress>,
    pub next: usize,
    pub in_flight: usize,
    pub cap: usize,
    pub tables: Vec<Table>,
    pub failures: Vec<FetchError>,
}

impl Scheduler {
    /// Well-formedness: the cap is positive, never exceeded by the in-flight
    /// count, and the cursor stays within the address list.
    pub open spec fn wf(self) -> bool {
        &&& self.cap >= 1
        &&& self.in_flight <= self.cap
        &&& self.next <= self.addresses@.len()
    }

    /// A fresh schedule over `addresses` with concurrency cap `cap`: nothing
    /// launched, nothing collected.
    pub fn new(addresses: Vec<FeedAddress>, cap: usize) -> (s: Scheduler)
        requires
            cap >= 1,
        ensures
            s.wf(),
            s.addresses@ == addresses@,
            s.next == 0,
            s.in_flight == 0,
            s.cap == cap,
            s.tables@ == Seq::<Table>::empty(),
            s.failures@ == Seq::<FetchError>::empty(),
    {
        Scheduler { addresses, next: 0, in_flight: 0, cap, tables: Vec::new(), failures: Vec::new() }
    }

    /// The index of the next address to launch, if one may be launched now:
    /// some address is still unlaunched and the in-flight count is below the
    /// cap. Launching advances the cursor and takes one in-flight slot.
    pub fn start_next(&mut self) -> (r: Option<usize>)
        requires
            old(self).wf(),
        ensures
            final(self).wf(),
            final(self).addresses@ == old(self).addresses@,
            final(self).cap == old(self).cap,
            final(self).tables@ == old(self).tables@,
            final(self).failures@ == old(self).failures@,
            if old(self).next < old(self).addresses@.len() && old(self).in_flight < old(self).cap {
                &&& r == Some(old(self).next)
                &&& final(self).next == old(self).next + 1
                &&& final(self).in_flight == old(self).in_flight + 1
            } else {
                &&& r is None
                &&& final(self).next == old(self).next
                &&& final(self).in_flight == old(self).in_flight
            },
    {
        if self.next < self.addresses.len() && self.in_flight < self.cap {
            let i = self.next;
            self.next = self.next + 1;
            self.in_flight = self.in_flight + 1;
            Some(i)
        } else {
            None
        }
    }

    /// Records the outcome of one launched fetch: a success contributes its
    /// table, in completion order; a failure contributes only its error and
    /// is thereby dropped from the output. Either way one in-flight slot is
    /// released.
    pub fn finish(&mut self, outcome: Result<Table, FetchError>)
        requires
            old(self).wf(),
            old(self).in_flight >= 1,
        ensures
            final(self).wf(),
            final(self).addresses@ == old(self).addresses@,
            final(self).cap == old(self).cap,
            final(self).next == old(self).next,
            final(self).in_flight == old(self).in_flight - 1,
            match outcome {
                Result::Ok(t) => {
                    &&& final(self).tables@ == old(self).tables@.push(t)
                    &&& final(self).failures@ == old(self).failures@
                },
                Result::Err(e) => {
                    &&& final(self).tables@ == old(self).tables@
                    &&& final(self).failures@ == old(self).failures@.push(e)
                },
            },
    {
        self.in_flight = self.in_flight - 1;
        match outcome {
            Result::Ok(t) => self.tables.push(t),
            Result::Err(e) => self.failures.push(e),
        }
    }

    /// Whether the run is over: every address launched and every launched
    /// fetch finished.
    pub fn done(&self) -> (r: bool)
        ensures
            r <==> (self.next == self.addresses@.len() && self.in_flight == 0),
    {
        self.next == self.addresses.len() && self.in_flight == 0
    }

    /// Hands out what the run collected: the tables of the successful
    /// fetches and the errors of the failed ones, each in completion order.
    pub fn into_results(self) -> (r: (Vec<Table>, Vec<FetchError>))
        ensures
            r.0@ == self.tables@,
            r.1@ == self.failures@,
    {
        (self.tables, self.failures)
    }
}

/// The tables of the successful outcomes of a batch, in order.
pub open spec fn oks_of(rs: Seq<Result<Table, FetchError>>) -> Seq<Table>
    decreases rs.len(),
{
    if rs.len() == 0 {
        Seq::<Table>::empty()
    } else {
        match rs.last() {
            Result::Ok(t) => oks_of(rs.drop_last()).push(t),
            Result::Err(_) => oks_of(rs.drop_last()),
        }
    }
}

/// The errors of the failed outcomes of a batch, in order.
pub open spec fn errs_of(rs: Seq<Result<Table, FetchError>>) -> Seq<FetchError>
    decreases rs.len(),
{
    if rs.len() == 0 {
        Seq::<FetchError>::empty()
    } else {
        match rs.last() {
            Result::Ok(_) => errs_of(rs.drop_last()),
            Result::Err(e) => errs_of(rs.drop_last()).push(e),
        }
    }
}

/// Splits a batch of fetch outcomes into the tables of the successes and
/// the errors of the failures, keeping each side's order. Exactly one table
/// comes out per successful outcome; the failures are set aside for the
/// caller to report or drop.
pub fn partition_outcomes(outcomes: Vec<Result<Table, FetchError>>) -> (r: (
    Vec<Table>,
    Vec<FetchError>,
))
    ensures
        r.0@ == oks_of(outcomes@),
        r.1@ == errs_of(outcomes@),
{
    let ghost all = outcomes@;
    let mut outcomes = outcomes;
    let mut tables: Vec<Table> = Vec::new();
    let mut failures: Vec<FetchError> = Vec::new();
    let mut i: usize = 0;
    while i < outcomes.len()
        invariant
            outcomes@.len() == all.len(),
            forall|k: int| i <= k < all.len() ==> outcomes@[k] == all[k],
            i <= all.len(),
            tables@ == oks_of(all.take(i as int)),
            failures@ == errs_of(all.take(i as int)),
        decreases all.len() - i,
    {
        let mut taken: Result<Table, FetchError> = Result::Err(FetchError::Io(String::new()));
        core::mem::swap(&mut taken, &mut outcomes[i]);
        match taken {
            Result::Ok(t) => tables.push(t),
            Result::Err(e) => failures.push(e),
        }
        proof {
            let cur = all.take(i + 1 as int);
            assert(cur.drop_last() =~= all.take(i as int));
            assert(cur.last() == all[i as int]);
        }
        i = i + 1;
    }
    proof {
        assert(all.take(all.len() as int) =~= all);
    }
    (tables, failures)
}

/// Every outcome of a batch lands on exactly one side of the partition: the
/// successes and the failures together account for the whole batch, one
/// table per success and one error per failure.
pub proof fn lemma_partition_counts(rs: Seq<Result<Table, FetchError>>)
    ensures
        oks_of(rs).len() + errs_of(rs).len() == rs.len(),
        oks_of(rs).len() <= rs.len(),
        errs_of(rs).len() <= rs.len(),
    decreases rs.len(),
{
    if rs.len() > 0 {
        lemma_partition_counts(rs.drop_last());
    }
}

} // verus!
