//! Ownership of returned data.
use vstd::prelude::*;

verus! {

/// Builds the string `"hello"` and moves it out to the caller.
///
/// A reference to a string created inside the function cannot be returned,
/// since the string is dropped when the function ends; returning the owned
/// `String` transfers it to the caller instead.
pub fn dangle() -> (r: String)
    ensures
        r@ == "hello"@,
{
    String::from_str("hello")
}

} // verus!
