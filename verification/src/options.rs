//! Verified helpers over enums and optional values.

use vstd::prelude::*;

verus! {

/// The two kinds of network address.
#[derive(Clone, Copy, Debug, PartialEq, Eq, Structural)]
pub enum IpAddrKind {
    V4,
    V6,
}

/// Accept an address kind; routing itself is out of scope here.
pub fn route(_ip_kind: IpAddrKind) {
}

/// The successor of an optional number: `None` stays `None`.
pub fn plus_one(x: Option<i32>) -> (r: Option<i32>)
    requires
        x matches Some(i) ==> i < i32::MAX,
    ensures
        r is Some <==> x is Some,
        x matches Some(i) ==> r == Some((i + 1) as i32),
{
    match x {
        None => None,
        Some(i) => Some(i + 1),
    }
}

} // verus!
