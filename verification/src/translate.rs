//! Decoding a received signal's argument list into a notification payload.
//!
//! The monitor's match rule is coarse: it selects by interface and member
//! only, so a matched signal may carry any argument list. The translator
//! reads the list positionally: the first argument must be text and becomes
//! the summary; the second becomes the body where it exists and is text,
//! and defaults to empty text otherwise. A signal without a text summary is
//! dropped without an error.

use vstd::prelude::*;

verus! {

/// One argument of a received bus signal, as the translator sees it:
/// either a text value, or an argument of any other type, whose content
/// the translator never reads.
pub enum SignalArg {
    Text(String),
    Other,
}

/// The pair a matched signal is reduced to: a mandatory summary and a
/// body that defaults to empty text.
pub struct NotificationPayload {
    pub summary: String,
    pub body: String,
}

/// The summary a signal's argument list yields: the first argument's
/// text where the first argument exists and is text, otherwise nothing.
pub open spec fn summary_of(args: Seq<SignalArg>) -> Option<Seq<char>> {
    if args.len() >= 1 && args[0] is Text {
        Some((args[0]->Text_0)@)
    } else {
        None
    }
}

/// The body a signal's argument list yields: the second argument's text
/// where the second argument exists and is text, otherwise empty text.
pub open spec fn body_of(args: Seq<SignalArg>) -> Seq<char> {
    if args.len() >= 2 && args[1] is Text {
        (args[1]->Text_0)@
    } else {
        Seq::empty()
    }
}

/// Decode a signal's argument list into a notification payload.
///
/// Returns nothing when the first argument is missing or not text: such a
/// signal is dropped. Returns a payload carrying the first argument's text
/// as the summary otherwise; the body is the second argument's text where
/// that argument exists and is text, and empty text otherwise.
pub fn translate(args: &Vec<SignalArg>) -> (r: Option<NotificationPayload>)
    ensures
        r is Some <==> summary_of(args@) is Some,
        r matches Some(p) ==> p.summary@ == summary_of(args@)->0 && p.body@ == body_of(args@),
{
    if args.len() == 0 {
        return None;
    }
    match &args[0] {
        SignalArg::Other => None,
        SignalArg::Text(summary) => {
            let body: String = if args.len() >= 2 {
                match &args[1] {
                    SignalArg::Text(b) => b.clone(),
                    SignalArg::Other => String::new(),
                }
            } else {
                String::new()
            };
            Some(NotificationPayload { summary: summary.clone(), body })
        },
    }
}

/// A signal whose first two arguments are both text translates verbatim:
/// the summary is exactly the first argument's text and the body exactly
/// the second's.
pub proof fn lemma_translate_verbatim(args: Seq<SignalArg>)
    requires
        args.len() >= 2,
        args[0] is Text,
        args[1] is Text,
    ensures
        summary_of(args) == Some((args[0]->Text_0)@),
        body_of(args) == (args[1]->Text_0)@,
{
}

/// A signal whose first argument is missing or not text yields no
/// payload at all.
pub proof fn lemma_translate_drops_bad_summary(args: Seq<SignalArg>)
    requires
        args.len() == 0 || !(args[0] is Text),
    ensures
        summary_of(args) is None,
{
}

/// A signal with a text summary but a missing or non-text second argument
/// yields a payload whose body is empty text.
pub proof fn lemma_translate_defaults_body(args: Seq<SignalArg>)
    requires
        args.len() >= 1,
        args[0] is Text,
        args.len() < 2 || !(args[1] is Text),
    ensures
        summary_of(args) == Some((args[0]->Text_0)@),
        body_of(args) == Seq::<char>::empty(),
{
}

} // verus!
