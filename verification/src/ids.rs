use vstd::prelude::*;
use crate::text::is_uuid_text;

verus! {

/// Relies on uuid's `Uuid::new_v4` and its `Display` form: a fresh random id
/// rendered hyphenated, 36 characters of lower-case hexadecimal with hyphens
/// at positions 8, 13, 18 and 23. The value itself is random, so nothing more
/// than its shape is stated.
#[verifier::external_body]
pub(crate) fn fresh_random_id() -> (r: String)
    ensures
        is_uuid_text(r@),
{
    uuid::Uuid::new_v4().to_string()
}

/// Relies on uuid's `Uuid::now_v7` and its `Display` form (hyphenated, as
/// above). The value depends on the clock, so only its shape is stated.
#[verifier::external_body]
pub(crate) fn fresh_ordered_id() -> (r: String)
    ensures
        is_uuid_text(r@),
{
    uuid::Uuid::now_v7().to_string()
}

} // verus!
