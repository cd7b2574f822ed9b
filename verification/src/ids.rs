//! Identifiers: the UUIDs that name pending forms and subscriptions.

use vstd::prelude::*;

verus! {

/// The error with which the `uuid` crate rejects a text.
#[verifier::external_type_specification]
#[verifier::external_body]
pub struct ExUuidError(uuid::Error);

/// The hyphenated lower-case spelling of the UUID that `text` spells in any
/// of the forms that `uuid::Uuid::try_parse` accepts; `None` where it accepts
/// none.
pub uninterp spec fn uuid_canonical(text: Seq<char>) -> Option<Seq<char>>;

/// Parses `text` with `uuid::Uuid::try_parse` and spells the UUID the way its
/// `Display` does. Trusted: the result is `uuid_canonical` of the text, and
/// the call fails exactly where that is `None`.
#[verifier::external_body]
pub(crate) fn canonical_uuid(text: &str) -> (r: Result<String, uuid::Error>)
    ensures
        r is Ok == uuid_canonical(text@) is Some,
        r matches Ok(s) ==> uuid_canonical(text@) == Some(s@),
{
    match uuid::Uuid::try_parse(text) {
        Ok(id) => Ok(id.to_string()),
        Err(error) => Err(error),
    }
}

/// Renders a `uuid::Error` with its `Debug` form. Trusted; nothing is
/// claimed of the text.
#[verifier::external_body]
pub(crate) fn uuid_error_text(error: &uuid::Error) -> (text: String) {
    format!("{:?}", error)
}

/// A fresh time-ordered identifier from `uuid::Uuid::now_v7`, spelled the way
/// its `Display` does. Trusted: which identifier comes depends on the clock
/// and on chance, so all that is claimed is what holds of every one: the
/// text is the canonical spelling of a UUID, which parses back to itself.
#[verifier::external_body]
pub(crate) fn time_ordered_id() -> (id: String)
    ensures
        uuid_canonical(id@) == Some(id@),
{
    uuid::Uuid::now_v7().to_string()
}

/// A fresh random identifier from `uuid::Uuid::new_v4`, spelled the way its
/// `Display` does. Trusted: which identifier comes depends on chance, so all
/// that is claimed is what holds of every one: the text is the canonical
/// spelling of a UUID, which parses back to itself.
#[verifier::external_body]
pub(crate) fn random_id() -> (id: String)
    ensures
        uuid_canonical(id@) == Some(id@),
{
    uuid::Uuid::new_v4().to_string()
}

} // verus!
