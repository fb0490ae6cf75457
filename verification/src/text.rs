//! Turning ASCII byte sequences into owned strings.

use vstd::prelude::*;

verus! {

/// Relies on std's String::from_utf8: a sequence of ASCII bytes decodes to
/// exactly those characters.
#[verifier::external_body]
pub fn ascii_string(bytes: &Vec<u8>) -> (r: String)
    requires
        forall|i: int| 0 <= i < bytes@.len() ==> bytes@[i] < 128,
    ensures
        r@ == bytes@.map_values(|b: u8| b as char),
{
    String::from_utf8(bytes.clone()).unwrap_or_default()
}

} // verus!
