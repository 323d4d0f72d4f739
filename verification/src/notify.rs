//! Building the fixed-shape outbound notification call.
//!
//! The desktop notification protocol fixes the call's argument list to 8
//! positional entries: application identity, replaced-notification id,
//! icon identifier, summary, body, action identifiers, hint dictionary
//! and expiration timeout. This bridge never replaces a prior
//! notification (id 0), sends no actions, no hints, and lets the
//! receiving service choose the expiration (timeout -1).

use vstd::prelude::*;
use crate::translate::NotificationPayload;

verus! {

/// One positional argument of the outbound notification call, at
/// specification level: the protocol mixes text, integers, a text list
/// and a hint dictionary (always empty here) in one argument list.
pub enum CallArg {
    Text(Seq<char>),
    Unsigned(u32),
    TextList(Seq<Seq<char>>),
    EmptyHints,
    Signed(i32),
}

/// An outbound notification call, ready to be encoded onto the session
/// bus. The hint dictionary, the seventh positional entry, is always
/// empty and carries no data, so the type stores nothing for it; it
/// still appears in the call's view.
pub struct OutboundCall {
    pub app_name: String,
    pub replaces_id: u32,
    pub icon: String,
    pub summary: String,
    pub body: String,
    pub actions: Vec<String>,
    pub expire_timeout: i32,
}

impl View for OutboundCall {
    type V = Seq<CallArg>;

    open spec fn view(&self) -> Seq<CallArg> {
        seq![
            CallArg::Text(self.app_name@),
            CallArg::Unsigned(self.replaces_id),
            CallArg::Text(self.icon@),
            CallArg::Text(self.summary@),
            CallArg::Text(self.body@),
            CallArg::TextList(self.actions@.map_values(|s: String| s@)),
            CallArg::EmptyHints,
            CallArg::Signed(self.expire_timeout),
        ]
    }
}

/// The argument list of the notification call this bridge sends for a
/// given summary and body: the fixed application identity, replaced-id
/// 0, the fixed icon, the payload's two texts, no actions, no hints,
/// and expiration -1.
pub open spec fn spec_notification(summary: Seq<char>, body: Seq<char>) -> Seq<CallArg> {
    seq![
        CallArg::Text("system"@),
        CallArg::Unsigned(0u32),
        CallArg::Text("utilities-system-monitor"@),
        CallArg::Text(summary),
        CallArg::Text(body),
        CallArg::TextList(Seq::empty()),
        CallArg::EmptyHints,
        CallArg::Signed(-1i32),
    ]
}

/// Build the outbound notification call for a decoded payload.
pub fn build_notification(payload: &NotificationPayload) -> (r: OutboundCall)
    ensures
        r@ == spec_notification(payload.summary@, payload.body@),
{
    let r = OutboundCall {
        app_name: String::from_str("system"),
        replaces_id: 0,
        icon: String::from_str("utilities-system-monitor"),
        summary: payload.summary.clone(),
        body: payload.body.clone(),
        actions: Vec::new(),
        expire_timeout: -1,
    };
    proof {
        assert(r.actions@.map_values(|s: String| s@) =~= Seq::<Seq<char>>::empty());
        assert(r@ =~= spec_notification(payload.summary@, payload.body@));
    }
    r
}

/// The outbound call's argument list always has exactly 8 positional
/// entries in the fixed order, with replaced-id 0 and expiration -1,
/// whatever texts the summary and body hold — empty texts included.
pub proof fn lemma_notification_shape(summary: Seq<char>, body: Seq<char>)
    ensures
        spec_notification(summary, body).len() == 8,
        spec_notification(summary, body)[0] == CallArg::Text("system"@),
        spec_notification(summary, body)[1] == CallArg::Unsigned(0u32),
        spec_notification(summary, body)[2] == CallArg::Text("utilities-system-monitor"@),
        spec_notification(summary, body)[3] == CallArg::Text(summary),
        spec_notification(summary, body)[4] == CallArg::Text(body),
        spec_notification(summary, body)[5] == CallArg::TextList(Seq::<Seq<char>>::empty()),
        spec_notification(summary, body)[6] == CallArg::EmptyHints,
        spec_notification(summary, body)[7] == CallArg::Signed(-1i32),
{
}

/// Where the outbound call goes: the well-known notification service,
/// its object path, its interface, and the method name.
pub struct CallTarget {
    pub destination: String,
    pub path: String,
    pub interface: String,
    pub member: String,
}

/// The fixed target of every outbound call, set by the desktop
/// notification protocol.
pub fn notification_target() -> (r: CallTarget)
    ensures
        r.destination@ == "org.freedesktop.Notifications"@,
        r.path@ == "/org/freedesktop/Notifications"@,
        r.interface@ == "org.freedesktop.Notifications"@,
        r.member@ == "Notify"@,
{
    CallTarget {
        destination: String::from_str("org.freedesktop.Notifications"),
        path: String::from_str("/org/freedesktop/Notifications"),
        interface: String::from_str("org.freedesktop.Notifications"),
        member: String::from_str("Notify"),
    }
}

} // verus!
