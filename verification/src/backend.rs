use vstd::prelude::*;
use vstd::string::*;

use crate::error::{ErrorView, P2pError};

verus! {

/// Whether a character counts as white space for interface-name validation.
pub uninterp spec fn is_space(c: char) -> bool;

/// Relies on char::is_whitespace: whether the character has the Unicode
/// White_Space property — a function of the character alone.
#[verifier::external_body]
fn char_is_space(c: char) -> (r: bool)
    ensures
        r == is_space(c),
{
    c.is_whitespace()
}

/// A usable interface name has at least one non-white-space character; a
/// name that is empty or all white space is refused.
pub open spec fn usable_interface_name(name: Seq<char>) -> bool {
    exists|i: int| 0 <= i < name.len() && !is_space(name[i])
}

/// The validation the backend constructor applies to the caller's interface
/// name before resolving it on the bus: a blank name is refused with
/// InvalidInterface carrying the name exactly as given, any other name is
/// accepted.
pub fn validate_interface_name(interface_name: &str) -> (r: Result<(), P2pError>)
    ensures
        r is Ok <==> usable_interface_name(interface_name@),
        r matches Err(e) ==> e@ == ErrorView::InvalidInterface(interface_name@),
{
    let len = interface_name.unicode_len();
    let mut i: usize = 0;
    while i < len
        invariant
            len == interface_name@.len(),
            0 <= i <= len,
            forall|j: int| 0 <= j < i ==> is_space(interface_name@[j]),
        decreases len - i,
    {
        if !char_is_space(interface_name.get_char(i)) {
            proof {
                assert(!is_space(interface_name@[i as int]));
            }
            return Ok(());
        }
        i += 1;
    }
    Err(P2pError::InvalidInterface(interface_name.to_owned()))
}

} // verus!
