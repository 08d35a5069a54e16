//! The RPC wire shapes exchanged with the matching engine, modelled as plain
//! records. The engine itself is an external collaborator; the library only
//! builds its request records and reads its response records, so it carries
//! them as its own types holding plain values. The transport layer converts
//! between these and the protocol's generated types at the process boundary.

use vstd::prelude::*;

verus! {

/// Kind of order submitted to the engine. The gateway currently only ever
/// submits market orders.
#[derive(Debug, Clone, Copy, PartialEq, Eq, Structural)]
pub enum OrderType {
    Market,
    Limit,
}

/// Request record of the engine's submit-order operation.
#[derive(Debug, Clone, PartialEq, Eq)]
pub struct NewOrderRequest {
    pub user_id: Option<String>,
    pub price: Option<u32>,
    pub quantity: u32,
    pub is_buy_side: bool,
    pub security_name: String,
    pub order_type: OrderType,
}

/// Response record of the engine's submit-order operation.
#[derive(Debug, Clone, PartialEq, Eq)]
pub struct NewOrderResponse {
    pub order_id: String,
    pub status: u32,
    pub order_index: Option<u32>,
    pub cause: Option<String>,
}

/// Request record of the engine's modify-order operation.
#[derive(Debug, Clone, PartialEq, Eq)]
pub struct ModifyOrderRequest {
    pub order_id: String,
    pub new_price: Option<u32>,
    pub new_quantity: Option<u32>,
    pub side: bool,
}

/// Response record of the engine's modify-order operation.
#[derive(Debug, Clone, PartialEq, Eq)]
pub struct ModifyOrderResponse {
    pub order_id: String,
    pub status: u32,
    pub output: Option<String>,
}

/// Request record of the engine's cancel-order operation.
#[derive(Debug, Clone, PartialEq, Eq)]
pub struct CancelOrderRequest {
    pub order_id: String,
}

/// Response record of the engine's cancel-order operation.
#[derive(Debug, Clone, PartialEq, Eq)]
pub struct CancelOrderResponse {
    pub order_id: String,
    pub status: u32,
    pub cause: Option<String>,
}

/// Request record of the engine's depth-query operation. `level_count`
/// absent asks for all levels.
#[derive(Debug, Clone, PartialEq, Eq)]
pub struct BookRequest {
    pub security_name: String,
    pub level_count: Option<u32>,
}

/// One price level of a book side.
#[derive(Debug, Clone, Copy, PartialEq, Eq, Structural)]
pub struct DepthLevel {
    pub price: u32,
    pub quantity: u32,
}

/// The book payload of a depth response: the ask and bid levels.
#[derive(Debug, Clone, PartialEq, Eq)]
pub struct BookDepth {
    pub ask_depth: Vec<DepthLevel>,
    pub bid_depth: Vec<DepthLevel>,
}

/// Response record of the engine's depth-query operation. `book_depth`
/// absent means the engine knows no (non-empty) book for the security.
#[derive(Debug, Clone, PartialEq, Eq)]
pub struct BookResponse {
    pub book_depth: Option<BookDepth>,
}

} // verus!
