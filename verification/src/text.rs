use vstd::prelude::*;
use vstd::string::StrSliceExecFns;
use vstd::string::StringExecFns;

verus! {

/// Shortens a string so it can be echoed back in error metadata.
/// A string of more than `max_length` characters is cut to its first
/// `max_length` characters with an ellipsis appended; a shorter string is
/// returned unchanged.
pub fn trim(input: &str, max_length: usize) -> (r: String)
    ensures
        input@.len() > max_length ==> r@ == input@.subrange(0, max_length as int) + "..."@,
        input@.len() <= max_length ==> r@ == input@,
{
    let len = input.unicode_len();
    if len > max_length {
        let head = input.substring_char(0, max_length);
        let mut s = head.to_owned();
        s.append("...");
        s
    } else {
        input.to_owned()
    }
}

} // verus!
