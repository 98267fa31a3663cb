//! The side of the order that a run places, the endpoint to connect to, and
//! the check on credentials.

use vstd::prelude::*;

verus! {

/// Side of the order to place.
#[derive(Debug, Clone, Copy, PartialEq, Eq)]
pub enum OrderSide {
    Buy,
    Sell,
}

impl OrderSide {
    /// The label under which a sample of the opening call is logged.
    pub fn op_type(&self) -> (label: &'static str)
        ensures
            label@ == match *self {
                OrderSide::Buy => "buy"@,
                OrderSide::Sell => "sell"@,
            },
    {
        match self {
            OrderSide::Buy => "buy",
            OrderSide::Sell => "sell",
        }
    }

    /// The method that places an order on this side.
    pub fn rpc_method(&self) -> (method: &'static str)
        ensures
            method@ == match *self {
                OrderSide::Buy => "private/buy"@,
                OrderSide::Sell => "private/sell"@,
            },
    {
        match self {
            OrderSide::Buy => "private/buy",
            OrderSide::Sell => "private/sell",
        }
    }
}

/// The endpoint of the exchange's WebSocket API: the test network's or the
/// production one.
pub fn endpoint(testnet: bool) -> (url: &'static str)
    ensures
        url@ == if testnet {
            "wss://test.deribit.com/ws/api/v2"@
        } else {
            "wss://www.deribit.com/ws/api/v2"@
        },
{
    if testnet {
        "wss://test.deribit.com/ws/api/v2"
    } else {
        "wss://www.deribit.com/ws/api/v2"
    }
}

/// Whether both parts of the credentials are there: neither may be empty.
pub fn credentials_present(client_id: &str, client_secret: &str) -> (ok: bool)
    ensures
        ok == (client_id@.len() > 0 && client_secret@.len() > 0),
{
    !client_id.is_empty() && !client_secret.is_empty()
}

} // verus!
