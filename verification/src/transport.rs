use vstd::prelude::*;

verus! {

/// Whether `url::Url::parse` accepts a string with view `s`: acceptance
/// depends on the characters alone.
pub uninterp spec fn url_parses(s: Seq<char>) -> bool;

/// Relies on url::Url::parse: it returns `Ok` exactly on the strings that
/// parse as absolute URLs, and which those are depends on the string alone.
#[verifier::external_body]
pub fn url_is_valid(s: &str) -> (result: bool)
    ensures
        result == url_parses(s@),
{
    url::Url::parse(s).is_ok()
}

/// The sender half of the unbounded channel through which outbound frames
/// reach the realtime connection. Declared so a value of it can be carried;
/// nothing of it is read here, and only the surrounding program sends on it.
#[verifier::external_type_specification]
#[verifier::external_body]
#[verifier::reject_recursive_types(T)]
pub struct ExUnboundedSender<T>(futures_channel::mpsc::UnboundedSender<T>);

/// One outbound frame of the realtime connection's wire protocol. Declared so
/// the send handle's item type can be named; nothing of it is read here.
#[verifier::external_type_specification]
#[verifier::external_body]
pub struct ExTungsteniteMessage(tokio_tungstenite::tungstenite::Message);

} // verus!
