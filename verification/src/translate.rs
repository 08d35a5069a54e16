//! The request translator: pure conversion of each inbound DTO into the RPC
//! request record the matching engine expects. The only transformation it
//! performs is the 0-as-absent sentinel normalization of optional unsigned
//! fields; every other field is carried over unchanged.

use vstd::prelude::*;

use crate::dto::{CancelOrder, DepthReq, ModifyOrder, NewOrder};
use crate::rpc::{BookRequest, CancelOrderRequest, ModifyOrderRequest, NewOrderRequest, OrderType};

verus! {

/// The sentinel rule on an optional unsigned wire field: a literal 0 stands
/// for "value not set" and becomes absent; anything else is kept as is.
pub open spec fn norm_spec(v: Option<u32>) -> Option<u32> {
    match v {
        Some(n) => if n == 0 { None } else { Some(n) },
        None => None,
    }
}

/// Applies the 0-as-absent sentinel rule to one optional unsigned field.
pub fn normalize(v: Option<u32>) -> (r: Option<u32>)
    ensures
        r == norm_spec(v),
{
    match v {
        Some(n) => if n == 0 { None } else { Some(n) },
        None => None,
    }
}

/// The sentinel rule, stated on its own: 0 normalizes to absent, a positive
/// value to itself (present), and an absent field stays absent.
pub proof fn lemma_sentinel_normalization(v: Option<u32>)
    ensures
        norm_spec(Some(0u32)) == None::<u32>,
        (v matches Some(n) && n > 0) ==> norm_spec(v) == v,
        norm_spec(None::<u32>) == None::<u32>,
{
}

/// Builds the submit-order request. The order is always forwarded as a
/// market order, whatever the other fields hold; no user id is attached.
pub fn translate_new_order(req: NewOrder) -> (r: NewOrderRequest)
    ensures
        r.user_id == None::<String>,
        r.price == norm_spec(req.price),
        r.quantity == req.quantity,
        r.is_buy_side == req.is_buy_side,
        r.security_name == req.security_name,
        r.order_type == OrderType::Market,
{
    NewOrderRequest {
        user_id: None,
        price: normalize(req.price),
        quantity: req.quantity,
        is_buy_side: req.is_buy_side,
        security_name: req.security_name,
        order_type: OrderType::Market,
    }
}

/// Builds the modify-order request, normalizing `new_price` and
/// `new_quantity` independently.
pub fn translate_modify(req: ModifyOrder) -> (r: ModifyOrderRequest)
    ensures
        r.order_id == req.order_id,
        r.new_price == norm_spec(req.new_price),
        r.new_quantity == norm_spec(req.new_quantity),
        r.side == req.is_buy_side,
{
    ModifyOrderRequest {
        order_id: req.order_id,
        new_price: normalize(req.new_price),
        new_quantity: normalize(req.new_quantity),
        side: req.is_buy_side,
    }
}

/// Builds the cancel-order request: a pure passthrough of the order id.
pub fn translate_cancel(req: CancelOrder) -> (r: CancelOrderRequest)
    ensures
        r.order_id == req.order_id,
{
    CancelOrderRequest { order_id: req.order_id }
}

/// Builds the depth-query request, normalizing `level_count` (0 asks for all
/// levels and becomes absent).
pub fn translate_depth(req: DepthReq) -> (r: BookRequest)
    ensures
        r.security_name == req.security_name,
        r.level_count == norm_spec(req.level_count),
{
    BookRequest {
        security_name: req.security_name,
        level_count: normalize(req.level_count),
    }
}

} // verus!
