//! The JSON-facing data transfer objects: one "(in)" shape per business route
//! and one "(out)" shape per response. All are transient, request-scoped
//! values; optional unsigned fields use the 0-as-absent sentinel only on the
//! wire, never here.

use vstd::prelude::*;

verus! {

/// Inbound body of a new-order submission.
#[derive(Debug, Clone, PartialEq, Eq)]
pub struct NewOrder {
    pub price: Option<u32>,
    pub quantity: u32,
    pub is_buy_side: bool,
    pub security_name: String,
}

/// Outbound body answering a new-order submission.
#[derive(Debug, Clone, PartialEq, Eq)]
pub struct NewOrderRes {
    pub order_id: String,
    pub status: u32,
    pub order_index: Option<u32>,
    pub cause: Option<String>,
}

/// Inbound body of an order modification.
#[derive(Debug, Clone, PartialEq, Eq)]
pub struct ModifyOrder {
    pub order_id: String,
    pub new_price: Option<u32>,
    pub new_quantity: Option<u32>,
    pub is_buy_side: bool,
}

/// Outbound body answering an order modification.
#[derive(Debug, Clone, PartialEq, Eq)]
pub struct ModifyOrderRes {
    pub order_id: String,
    pub status: u32,
    pub output: Option<String>,
}

/// Inbound body of an order cancellation.
#[derive(Debug, Clone, PartialEq, Eq)]
pub struct CancelOrder {
    pub order_id: String,
}

/// Outbound body answering an order cancellation.
#[derive(Debug, Clone, PartialEq, Eq)]
pub struct CancelOrderRes {
    pub order_id: String,
    pub status: u32,
    pub output: Option<String>,
}

/// Inbound body of a book-depth query.
#[derive(Debug, Clone, PartialEq, Eq)]
pub struct DepthReq {
    pub security_name: String,
    pub level_count: Option<u32>,
}

/// Outbound body answering a book-depth query. `status` is an
/// application-level code carried in the JSON body, independent of the HTTP
/// status line.
#[derive(Debug, Clone, PartialEq, Eq)]
pub struct DepthRes {
    pub status: u32,
    pub output: String,
}

} // verus!
