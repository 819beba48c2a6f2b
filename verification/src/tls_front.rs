//! Sizing of the fake TLS front's application-data records.
//!
//! The front mimics a real server: it fetches that server's certificate
//! chain and replays application data of a similar size.  Fetching is the
//! caller's work; how the observed certificate length turns into record
//! sizes is decided here.

use vstd::prelude::*;

verus! {

/// The record plan for a given total length: split across two records
/// when large, to mimic real servers, else one record.
pub open spec fn record_plan(total: usize) -> Seq<usize> {
    if total > 3000 {
        seq![(total / 2) as usize, (total - total / 2) as usize]
    } else {
        seq![total]
    }
}

/// The certificate length the plan works from: what was observed, with a
/// floor of 1024 for servers whose chain could not be read.
pub fn effective_cert_len(observed: usize) -> (r: usize)
    ensures
        observed >= 1024 ==> r == observed,
        observed < 1024 ==> r == 1024,
{
    if observed < 1024 {
        1024
    } else {
        observed
    }
}

/// Split a total length into the application-data record sizes to
/// replay.  The sizes add back up to the total.
pub fn plan_app_data_records(total: usize) -> (r: Vec<usize>)
    ensures
        r@ == record_plan(total),
        r@.len() >= 1,
{
    let mut r: Vec<usize> = Vec::new();
    if total > 3000 {
        let half = total / 2;
        r.push(half);
        r.push(total - half);
        assert(r@ =~= record_plan(total));
    } else {
        r.push(total);
        assert(r@ =~= record_plan(total));
    }
    r
}

} // verus!
