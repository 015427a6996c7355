//! Small verified helpers over integers and strings.

use vstd::prelude::*;

use vstd::string::StringExecFns;
use vstd::string::StringSliceAdditionalSpecFns;
use vstd::utf8::encode_utf8;

verus! {

/// The constant five.
pub fn returns_five() -> (r: i32)
    ensures
        r == 5,
{
    5
}

/// The successor of `x`.
pub fn plus_one(x: i32) -> (r: i32)
    requires
        x < i32::MAX,
    ensures
        r == x + 1,
{
    x + 1
}

/// The length of `s` in UTF-8 bytes.
pub fn calculate_length(s: &String) -> (len: usize)
    ensures
        len == encode_utf8(s@).len(),
{
    let text: &str = s.as_str();
    let bytes: &[u8] = text.as_bytes();
    bytes.len()
}

/// Append `", world"` to the string.
pub fn change(some_string: &mut String)
    ensures
        final(some_string)@ == old(some_string)@ + ", world"@,
{
    some_string.append(", world");
}

/// A freshly owned string with the text `"yours"`.
pub fn gives_ownership() -> (r: String)
    ensures
        r@ == "yours"@,
{
    <String as StringExecFns>::from_str("yours")
}

/// Hand the string straight back to the caller.
pub fn takes_and_gives_back(a_string: String) -> (r: String)
    ensures
        r == a_string,
{
    a_string
}

} // verus!
