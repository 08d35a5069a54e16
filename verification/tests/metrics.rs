use order_gateway::metrics::{Histogram, MetricsRegistry};
use order_gateway::routes::{
    can_finish_cancel, can_finish_depth, can_finish_modify, can_finish_new_order, fail_cancel,
    fail_depth, fail_modify, fail_new_order, finish_cancel, finish_depth, finish_modify,
    finish_new_order,
};
use order_gateway::rpc::{
    BookDepth, BookResponse, CancelOrderResponse, ModifyOrderResponse, NewOrderResponse,
};
use order_gateway::text::u64_string;

fn new_order_resp(status: u32) -> NewOrderResponse {
    NewOrderResponse {
        order_id: "gen-1".to_owned(),
        status,
        order_index: Some(0),
        cause: None,
    }
}

#[test]
fn decimal_rendering_is_exact() {
    assert_eq!(u64_string(0), "0");
    assert_eq!(u64_string(7), "7");
    assert_eq!(u64_string(10), "10");
    assert_eq!(u64_string(200), "200");
    assert_eq!(u64_string(1234567890), "1234567890");
    assert_eq!(u64_string(u64::MAX), "18446744073709551615");
}

#[test]
fn histogram_buckets_are_cumulative() {
    let mut h = Histogram::new();
    h.observe(0);
    h.observe(1);
    h.observe(2);
    h.observe(5);
    h.observe(100);
    h.observe(101);
    assert_eq!(h.le_1, 2);
    assert_eq!(h.le_5, 4);
    assert_eq!(h.le_10, 4);
    assert_eq!(h.le_25, 4);
    assert_eq!(h.le_50, 4);
    assert_eq!(h.le_100, 5);
    assert_eq!(h.count, 6);
    assert_eq!(h.sum, 209);
}

#[test]
fn counter_increases_by_one_per_completed_request() {
    // One completed request of any route, whatever its outcome, raises the
    // counter by exactly one.
    let mut reg = MetricsRegistry::new();
    assert_eq!(reg.request_counter, 0);
    let _ = finish_new_order(&mut reg, 2, new_order_resp(200));
    assert_eq!(reg.request_counter, 1);
    let _ = finish_modify(
        &mut reg,
        3,
        ModifyOrderResponse { order_id: "x".to_owned(), status: 400, output: None },
    );
    assert_eq!(reg.request_counter, 2);
    let _ = finish_cancel(
        &mut reg,
        4,
        CancelOrderResponse { order_id: "x".to_owned(), status: 404, cause: None },
    );
    assert_eq!(reg.request_counter, 3);
    let _ = finish_depth(&mut reg, 5, "AAPL".to_owned(), BookResponse { book_depth: None });
    assert_eq!(reg.request_counter, 4);
    let _ = finish_depth(
        &mut reg,
        6,
        "AAPL".to_owned(),
        BookResponse { book_depth: Some(BookDepth { ask_depth: vec![], bid_depth: vec![] }) },
    );
    assert_eq!(reg.request_counter, 5);
}

#[test]
fn observations_with_same_labels_share_one_child() {
    let mut reg = MetricsRegistry::new();
    let _ = finish_modify(
        &mut reg,
        3,
        ModifyOrderResponse { order_id: "a".to_owned(), status: 200, output: None },
    );
    let _ = finish_modify(
        &mut reg,
        30,
        ModifyOrderResponse { order_id: "b".to_owned(), status: 200, output: None },
    );
    assert_eq!(reg.modify.children.len(), 1);
    assert_eq!(reg.modify.children[0].hist.count, 2);
    assert_eq!(reg.modify.children[0].hist.sum, 33);
}

#[test]
fn observations_with_different_labels_get_own_children() {
    let mut reg = MetricsRegistry::new();
    let _ = finish_modify(
        &mut reg,
        3,
        ModifyOrderResponse { order_id: "a".to_owned(), status: 200, output: None },
    );
    let _ = finish_modify(
        &mut reg,
        3,
        ModifyOrderResponse { order_id: "b".to_owned(), status: 400, output: None },
    );
    assert_eq!(reg.modify.children.len(), 2);
    assert_eq!(reg.modify.children[0].labels, vec!["200".to_owned()]);
    assert_eq!(reg.modify.children[1].labels, vec!["400".to_owned()]);
}

#[test]
fn fresh_registry_fits_any_observation() {
    let reg = MetricsRegistry::new();
    assert!(can_finish_new_order(&reg, 0, 200));
    assert!(can_finish_new_order(&reg, u64::MAX, 500));
    assert!(can_finish_modify(&reg, 1, 200));
    assert!(can_finish_cancel(&reg, 1, 400));
    assert!(can_finish_depth(&reg, 1, &"AAPL".to_owned(), 200));
}

#[test]
fn fresh_registry_renders_headers_and_zero_counter() {
    let reg = MetricsRegistry::new();
    let expected = "\
# HELP new_order_total_duration_ms total time from http request to response for new order\n\
# TYPE new_order_total_duration_ms histogram\n\
# HELP modify_order_total_duration_ms total time from http request to response for modify order\n\
# TYPE modify_order_total_duration_ms histogram\n\
# HELP cancel_order_total_duration_ms total time from http request to response for cancel order\n\
# TYPE cancel_order_total_duration_ms histogram\n\
# HELP depth_total_duration_ms total time from http request to response for depth\n\
# TYPE depth_total_duration_ms histogram\n\
# HELP request_counter total no of requests\n\
# TYPE request_counter counter\n\
request_counter 0\n";
    assert_eq!(reg.render(), expected);
}

#[test]
fn one_modify_renders_full_child_block() {
    let mut reg = MetricsRegistry::new();
    let _ = finish_modify(
        &mut reg,
        3,
        ModifyOrderResponse { order_id: "a".to_owned(), status: 200, output: None },
    );
    let expected = "\
# HELP new_order_total_duration_ms total time from http request to response for new order\n\
# TYPE new_order_total_duration_ms histogram\n\
# HELP modify_order_total_duration_ms total time from http request to response for modify order\n\
# TYPE modify_order_total_duration_ms histogram\n\
modify_order_total_duration_ms_bucket{status=\"200\",le=\"1\"} 0\n\
modify_order_total_duration_ms_bucket{status=\"200\",le=\"5\"} 1\n\
modify_order_total_duration_ms_bucket{status=\"200\",le=\"10\"} 1\n\
modify_order_total_duration_ms_bucket{status=\"200\",le=\"25\"} 1\n\
modify_order_total_duration_ms_bucket{status=\"200\",le=\"50\"} 1\n\
modify_order_total_duration_ms_bucket{status=\"200\",le=\"100\"} 1\n\
modify_order_total_duration_ms_bucket{status=\"200\",le=\"+Inf\"} 1\n\
modify_order_total_duration_ms_sum{status=\"200\"} 3\n\
modify_order_total_duration_ms_count{status=\"200\"} 1\n\
# HELP cancel_order_total_duration_ms total time from http request to response for cancel order\n\
# TYPE cancel_order_total_duration_ms histogram\n\
# HELP depth_total_duration_ms total time from http request to response for depth\n\
# TYPE depth_total_duration_ms histogram\n\
# HELP request_counter total no of requests\n\
# TYPE request_counter counter\n\
request_counter 1\n";
    assert_eq!(reg.render(), expected);
}

#[test]
fn new_order_scenario_records_operation_and_status() {
    // POST /new {"quantity":10,"is_buy_side":true,"security_name":"AAPL"}:
    // after the backend accepts, the response carries the generated order id
    // and the accepted status, and the observation lands under the operation
    // name and that status.
    let mut reg = MetricsRegistry::new();
    let r = finish_new_order(&mut reg, 2, new_order_resp(200));
    assert_eq!(r.order_id, "gen-1");
    assert_eq!(r.status, 200);
    assert_eq!(reg.new_order.children.len(), 1);
    assert_eq!(
        reg.new_order.children[0].labels,
        vec!["New Order".to_owned(), "200".to_owned()]
    );
    assert_eq!(reg.new_order.children[0].hist.count, 1);
}

#[test]
fn rejected_new_order_records_its_own_status() {
    // A domain rejection is a completed request: it is observed under the
    // rejection's status, in a child of its own.
    let mut reg = MetricsRegistry::new();
    let _ = finish_new_order(&mut reg, 2, new_order_resp(200));
    let _ = finish_new_order(&mut reg, 2, new_order_resp(400));
    assert_eq!(reg.new_order.children.len(), 2);
    assert_eq!(
        reg.new_order.children[1].labels,
        vec!["New Order".to_owned(), "400".to_owned()]
    );
    assert_eq!(reg.request_counter, 2);
}

#[test]
fn failed_backend_calls_are_still_counted_and_observed() {
    // A request whose backend call fails in transport still completes, with
    // a structured 500 body, one observation and one counter increment.
    let mut reg = MetricsRegistry::new();
    let r = fail_new_order(&mut reg, 9, "transport error".to_owned());
    assert_eq!(r.order_id, "");
    assert_eq!(r.status, 500);
    assert_eq!(r.order_index, None);
    assert_eq!(r.cause, Some("transport error".to_owned()));
    assert_eq!(reg.request_counter, 1);
    assert_eq!(
        reg.new_order.children[0].labels,
        vec!["New Order".to_owned(), "500".to_owned()]
    );
    let r = fail_modify(&mut reg, 9, "down".to_owned());
    assert_eq!(r.status, 500);
    assert_eq!(r.output, Some("down".to_owned()));
    assert_eq!(reg.request_counter, 2);
    assert_eq!(reg.modify.children[0].labels, vec!["500".to_owned()]);
    let r = fail_cancel(&mut reg, 9, "down".to_owned());
    assert_eq!(r.status, 500);
    assert_eq!(r.output, Some("down".to_owned()));
    assert_eq!(reg.request_counter, 3);
    assert_eq!(reg.cancel.children[0].labels, vec!["500".to_owned()]);
    let r = fail_depth(&mut reg, 9, "AAPL".to_owned(), "down".to_owned());
    assert_eq!(r.status, 500);
    assert_eq!(r.output, "down");
    assert_eq!(reg.request_counter, 4);
    assert_eq!(
        reg.depth.children[0].labels,
        vec!["AAPL".to_owned(), "500".to_owned()]
    );
}

#[test]
fn depth_labels_carry_security_and_status() {
    let mut reg = MetricsRegistry::new();
    let r = finish_depth(&mut reg, 7, "MSFT".to_owned(), BookResponse { book_depth: None });
    assert_eq!(r.status, 400);
    assert_eq!(r.output, "orderbook is empty");
    assert_eq!(reg.depth.children.len(), 1);
    assert_eq!(
        reg.depth.children[0].labels,
        vec!["MSFT".to_owned(), "400".to_owned()]
    );
}

#[test]
fn label_values_are_escaped_in_the_exposition() {
    let mut reg = MetricsRegistry::new();
    let _ = finish_depth(
        &mut reg,
        200,
        "A\"B\\C\nD".to_owned(),
        BookResponse { book_depth: None },
    );
    let rendered = reg.render();
    assert!(rendered.contains(
        "depth_total_duration_ms_count{asset_name=\"A\\\"B\\\\C\\nD\",status=\"400\"} 1\n"
    ));
}
