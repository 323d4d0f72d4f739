//! The one match rule this process installs on the system bus.
//!
//! The rule selects signals on the vendor interface
//! `net.nuetzlich.SystemNotifications` with member `Notify`. Exactly one
//! rule is installed per process lifetime, through the bus daemon's
//! monitoring call, and it is never modified afterwards.

use vstd::prelude::*;
use vstd::string::StringExecFns;

verus! {

/// The textual match rule handed to the bus daemon's monitoring call:
/// message type, interface and member, comma-separated, each value in
/// single quotes.
pub open spec fn spec_monitor_rule() -> Seq<char> {
    "type='signal',interface='net.nuetzlich.SystemNotifications',member='Notify'"@
}

/// The match rule installed on the system bus.
pub fn monitor_rule() -> (r: String)
    ensures
        r@ == spec_monitor_rule(),
{
    String::from_str("type='signal',interface='net.nuetzlich.SystemNotifications',member='Notify'")
}

/// The interface and member a matching signal carries, as separate
/// texts, for installing the rule piece by piece where a caller builds
/// its own rule object.
pub struct SignalName {
    pub interface: String,
    pub member: String,
}

/// The interface and member of the watched signal.
pub fn watched_signal() -> (r: SignalName)
    ensures
        r.interface@ == "net.nuetzlich.SystemNotifications"@,
        r.member@ == "Notify"@,
{
    SignalName {
        interface: String::from_str("net.nuetzlich.SystemNotifications"),
        member: String::from_str("Notify"),
    }
}

} // verus!
