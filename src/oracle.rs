//! Messages exchanged with an external price oracle. The pool's handlers do
//! not consult the oracle; these types keep its interface in one place.
use vstd::prelude::*;

verus! {

/// Asks an oracle for the price of the token named `symbol`.
#[derive(Clone, Debug, PartialEq, Eq)]
pub struct ExternalOracleQueryMsg {
    pub symbol: String,
}

/// An oracle's answer: the price is `price / precision` quote units.
#[derive(Clone, Copy, Debug, PartialEq, Eq, Structural)]
pub struct ExternalPriceResponse {
    pub price: u128,
    pub precision: u128,
}

} // verus!
