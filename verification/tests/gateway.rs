use order_gateway::dto::{CancelOrder, DepthReq, ModifyOrder, NewOrder};
use order_gateway::respond::{book_dump, depth_result};
use order_gateway::rpc::{
    BookDepth, BookResponse, CancelOrderResponse, DepthLevel, ModifyOrderResponse,
    NewOrderResponse, OrderType,
};
use order_gateway::translate::{
    normalize, translate_cancel, translate_depth, translate_modify, translate_new_order,
};

#[test]
fn normalize_zero_is_absent() {
    assert_eq!(normalize(Some(0)), None);
}

#[test]
fn normalize_positive_is_present() {
    assert_eq!(normalize(Some(1)), Some(1));
    assert_eq!(normalize(Some(42)), Some(42));
    assert_eq!(normalize(Some(u32::MAX)), Some(u32::MAX));
}

#[test]
fn normalize_absent_stays_absent() {
    assert_eq!(normalize(None), None);
}

#[test]
fn new_order_without_price_is_market_buy() {
    // POST /new {"quantity":10,"is_buy_side":true,"security_name":"AAPL"}
    let req = NewOrder {
        price: None,
        quantity: 10,
        is_buy_side: true,
        security_name: "AAPL".to_owned(),
    };
    let r = translate_new_order(req);
    assert_eq!(r.order_type, OrderType::Market);
    assert_eq!(r.price, None);
    assert_eq!(r.quantity, 10);
    assert!(r.is_buy_side);
    assert_eq!(r.security_name, "AAPL");
    assert_eq!(r.user_id, None);
}

#[test]
fn new_order_is_market_regardless_of_fields() {
    let req = NewOrder {
        price: Some(250),
        quantity: 1,
        is_buy_side: false,
        security_name: "TSLA".to_owned(),
    };
    let r = translate_new_order(req);
    assert_eq!(r.order_type, OrderType::Market);
    assert_eq!(r.price, Some(250));
    assert!(!r.is_buy_side);
}

#[test]
fn new_order_price_zero_normalizes_to_absent() {
    let req = NewOrder {
        price: Some(0),
        quantity: 5,
        is_buy_side: true,
        security_name: "AAPL".to_owned(),
    };
    let r = translate_new_order(req);
    assert_eq!(r.price, None);
}

#[test]
fn modify_normalizes_each_sentinel_independently() {
    // POST /modify {"order_id":"X","new_price":0,"new_quantity":5,"is_buy_side":true}
    let req = ModifyOrder {
        order_id: "X".to_owned(),
        new_price: Some(0),
        new_quantity: Some(5),
        is_buy_side: true,
    };
    let r = translate_modify(req);
    assert_eq!(r.order_id, "X");
    assert_eq!(r.new_price, None);
    assert_eq!(r.new_quantity, Some(5));
    assert!(r.side);
}

#[test]
fn modify_keeps_positive_values() {
    let req = ModifyOrder {
        order_id: "Y".to_owned(),
        new_price: Some(7),
        new_quantity: Some(0),
        is_buy_side: false,
    };
    let r = translate_modify(req);
    assert_eq!(r.new_price, Some(7));
    assert_eq!(r.new_quantity, None);
    assert!(!r.side);
}

#[test]
fn cancel_is_pure_passthrough() {
    let req = CancelOrder { order_id: "abc-123".to_owned() };
    let r = translate_cancel(req);
    assert_eq!(r.order_id, "abc-123");
}

#[test]
fn depth_level_count_zero_means_unlimited() {
    // GET /depth {"security_name":"MSFT","level_count":0}
    let req = DepthReq { security_name: "MSFT".to_owned(), level_count: Some(0) };
    let r = translate_depth(req);
    assert_eq!(r.security_name, "MSFT");
    assert_eq!(r.level_count, None);
}

#[test]
fn depth_level_count_positive_is_kept() {
    let req = DepthReq { security_name: "MSFT".to_owned(), level_count: Some(3) };
    let r = translate_depth(req);
    assert_eq!(r.level_count, Some(3));
}

#[test]
fn new_order_response_maps_field_for_field() {
    let resp = NewOrderResponse {
        order_id: "o-1".to_owned(),
        status: 200,
        order_index: Some(4),
        cause: Some("accepted".to_owned()),
    };
    let r = order_gateway::dto::NewOrderRes::from(resp);
    assert_eq!(r.order_id, "o-1");
    assert_eq!(r.status, 200);
    assert_eq!(r.order_index, Some(4));
    assert_eq!(r.cause, Some("accepted".to_owned()));
}

#[test]
fn modify_response_maps_field_for_field() {
    let resp = ModifyOrderResponse {
        order_id: "o-2".to_owned(),
        status: 400,
        output: Some("not found".to_owned()),
    };
    let r = order_gateway::dto::ModifyOrderRes::from(resp);
    assert_eq!(r.order_id, "o-2");
    assert_eq!(r.status, 400);
    assert_eq!(r.output, Some("not found".to_owned()));
}

#[test]
fn cancel_response_output_comes_from_cause() {
    let resp = CancelOrderResponse {
        order_id: "o-3".to_owned(),
        status: 200,
        cause: Some("cancelled".to_owned()),
    };
    let r = order_gateway::dto::CancelOrderRes::from(resp);
    assert_eq!(r.order_id, "o-3");
    assert_eq!(r.status, 200);
    assert_eq!(r.output, Some("cancelled".to_owned()));
}

#[test]
fn absent_book_answers_400_with_fixed_message() {
    let r = depth_result(None);
    assert_eq!(r.status, 400);
    assert_eq!(r.output, "orderbook is empty");
}

#[test]
fn present_book_answers_200_with_fixed_message() {
    let book = BookDepth {
        ask_depth: vec![DepthLevel { price: 101, quantity: 3 }],
        bid_depth: vec![],
    };
    let r = depth_result(Some(book));
    assert_eq!(r.status, 200);
    assert_eq!(r.output, "book recieved");
}

#[test]
fn empty_book_payload_still_answers_200() {
    // A present but empty payload is a present book: the 400 outcome is only
    // for an absent payload.
    let book = BookDepth { ask_depth: vec![], bid_depth: vec![] };
    let r = depth_result(Some(book));
    assert_eq!(r.status, 200);
}

#[test]
fn book_dump_lists_ask_then_bid() {
    let book = BookDepth {
        ask_depth: vec![
            DepthLevel { price: 101, quantity: 3 },
            DepthLevel { price: 102, quantity: 1 },
        ],
        bid_depth: vec![DepthLevel { price: 99, quantity: 5 }],
    };
    let expected = "-------ASK-------\n\
                    [price = 101, quantity = 3]\n\
                    [price = 102, quantity = 1]\n\
                    ------BID------\n\
                    [price = 99, quantity = 5]\n";
    assert_eq!(book_dump(&book), expected);
}

#[test]
fn book_dump_of_empty_book_has_only_headers() {
    let book = BookDepth { ask_depth: vec![], bid_depth: vec![] };
    assert_eq!(book_dump(&book), "-------ASK-------\n------BID------\n");
}

#[test]
fn depth_scenario_unknown_security() {
    // GET /depth {"security_name":"MSFT","level_count":0}: the translator
    // asks for unlimited levels; the backend returns no book; the gateway
    // answers {"status":400,"output":"orderbook is empty"}.
    let req = DepthReq { security_name: "MSFT".to_owned(), level_count: Some(0) };
    let rpc_req = translate_depth(req);
    assert_eq!(rpc_req.level_count, None);
    let backend = BookResponse { book_depth: None };
    let r = depth_result(backend.book_depth);
    assert_eq!(r.status, 400);
    assert_eq!(r.output, "orderbook is empty");
}
