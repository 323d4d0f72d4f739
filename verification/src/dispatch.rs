//! The per-signal decision: what, if anything, to send for one received
//! signal. The surrounding binary drives the blocking receive loop; for
//! every delivered signal it hands the decoded argument list here and
//! sends the returned call, if any, over the session connection.

use vstd::prelude::*;
use crate::notify::{build_notification, spec_notification, OutboundCall};
use crate::translate::{body_of, summary_of, translate, SignalArg};

verus! {

/// Decide the outbound call for one received signal.
///
/// A signal without a text first argument yields no call and is dropped;
/// any other signal yields exactly one notification call whose summary
/// and body are the texts the translator extracted.
pub fn handle_signal(args: &Vec<SignalArg>) -> (r: Option<OutboundCall>)
    ensures
        r is Some <==> summary_of(args@) is Some,
        r matches Some(c) ==> c@ == spec_notification(summary_of(args@)->0, body_of(args@)),
{
    match translate(args) {
        None => None,
        Some(payload) => Some(build_notification(&payload)),
    }
}

} // verus!
