//! The `eth_` endpoint of a Seismic node: how `eth_getBalance` weighs the native balance of an
//! account against its holdings of the USDC predeploy, which lookups it makes to learn them, and
//! the request, signing and builder types that tie the endpoint to a node.

pub mod api;
pub mod balance;
pub mod laws;
pub mod request;
pub mod signing;
pub mod uint;
