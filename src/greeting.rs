//! The greeting shown by the front end.
use vstd::prelude::*;
use crate::decimal::{decimal, push_decimal};

verus! {

/// The greeting for the moment `epoch_ms`, in milliseconds since the Unix
/// epoch.
pub open spec fn greeting_text(epoch_ms: u128) -> Seq<char> {
    "Hello world from Rust! Current epoch: "@ + decimal(epoch_ms as nat)
}

/// The greeting that embeds `epoch_ms`, the current time in milliseconds
/// since the Unix epoch.
pub fn greet(epoch_ms: u128) -> (r: String)
    ensures
        r@ == greeting_text(epoch_ms),
{
    let mut r = String::from_str("Hello world from Rust! Current epoch: ");
    push_decimal(&mut r, epoch_ms);
    r
}

} // verus!
