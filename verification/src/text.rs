//! Building the channel names of the venue's parameterised topics.

use vstd::prelude::*;

verus! {

/// Relies on the standard library's String::push_str: appends the string
/// slice onto the end of the string.
pub assume_specification[ String::push_str ](s: &mut String, other: &str)
    ensures
        final(s)@ == old(s)@ + other@,
;

/// Relies on the standard library's String::push: appends the character onto
/// the end of the string.
pub assume_specification[ String::push ](s: &mut String, c: char)
    ensures
        final(s)@ == old(s)@.push(c),
;

/// The two slices, concatenated into an owned string.
pub fn concat2(a: &str, b: &str) -> (r: String)
    ensures
        r@ == a@ + b@,
{
    let mut out = a.to_owned();
    out.push_str(b);
    out
}

/// The channel of ticker updates at the given refresh speed.
pub fn ticker_channel(speed: &str) -> (r: String)
    ensures
        r@ == "ticker/"@ + speed@,
{
    concat2("ticker/", speed)
}

/// The channel of best-bid-and-ask updates at the given refresh speed.
pub fn top_order_channel(speed: &str) -> (r: String)
    ensures
        r@ == "orderbook/top/"@ + speed@,
{
    concat2("orderbook/top/", speed)
}

/// The channel of partial order book snapshots of the given depth at the
/// given refresh speed.
pub fn partial_orderbook_channel(depth: &str, speed: &str) -> (r: String)
    ensures
        r@ == "orderbook/"@ + depth@ + "/"@ + speed@,
{
    let mut out = concat2("orderbook/", depth);
    out.push_str("/");
    out.push_str(speed);
    proof {
        assert(out@ =~= "orderbook/"@ + depth@ + "/"@ + speed@);
    }
    out
}

} // verus!
