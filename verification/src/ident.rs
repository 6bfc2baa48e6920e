//! Correlation ids.

use vstd::prelude::*;

verus! {

/// The number of characters of a correlation id: thirty-two hexadecimal
/// digits in five groups, with a hyphen between groups.
pub const CORRELATION_ID_LEN: usize = 36;

/// Draws a random identifier with `uuid::Uuid::new_v4` and writes it out as
/// that type's `Display` does. Trusted: the text has [`CORRELATION_ID_LEN`]
/// characters. Nothing is claimed of which identifier comes back, nor that
/// two calls differ. The generator gives up, by panicking, only if the
/// operating system refuses to hand out random bytes.
#[verifier::external_body]
pub(crate) fn fresh_correlation_id() -> (id: String)
    ensures
        id@.len() == CORRELATION_ID_LEN,
{
    uuid::Uuid::new_v4().to_string()
}

} // verus!
