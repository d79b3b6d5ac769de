//! A small HTTP demo service, verified: a fixed JSON answer for one route,
//! and the per-connection logic of a periodic server-sent-events stream
//! (sequence numbers, one-second data cadence, keep-alive pings, and the
//! exact texts that go over the wire).

pub mod clock;
pub mod digits;
pub mod event;
pub mod laws;
pub mod policy;
pub mod stream;

use vstd::prelude::*;

verus! {

/// The exact JSON body served for the static query route.
pub open spec fn angel_text() -> Seq<char> {
    "{\"message\": \"这个世界存在天使\"}"@
}

/// Returns the fixed JSON document for the static query route, verbatim.
pub fn angel_message() -> (r: String)
    ensures
        r@ == angel_text(),
{
    String::from_str("{\"message\": \"这个世界存在天使\"}")
}

} // verus!
