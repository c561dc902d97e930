use vstd::prelude::*;

verus! {

/// The fixed body of a notification signal: a minimal JSON object saying
/// "request". It carries no payload-specific data; the webhook receiver is
/// expected to re-fetch content, not receive it inline.
pub open spec fn spec_notification_body() -> Seq<char> {
    "{\"type\":\"request\"}"@
}

/// The fixed content type a notification signal is posted with.
pub open spec fn spec_notification_content_type() -> Seq<char> {
    "application/json"@
}

/// The body every notification signal carries.
pub fn notification_body() -> (body: String)
    ensures
        body@ == spec_notification_body(),
{
    "{\"type\":\"request\"}".to_owned()
}

/// The content type every notification signal is posted with.
pub fn notification_content_type() -> (content_type: String)
    ensures
        content_type@ == spec_notification_content_type(),
{
    "application/json".to_owned()
}

} // verus!
