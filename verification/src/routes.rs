//! The completion half of each business handler: given the elapsed handler
//! time and the engine's response record — or the failure text of a backend
//! call that never resolved — map the outcome into its outbound DTO, record
//! one latency observation under the route's labels, and count the completed
//! request. The labels carry the outcome known at observation time. The
//! surrounding process measures the time and performs the RPC round trip;
//! everything decided here is verified.

use vstd::prelude::*;

use crate::dto::{CancelOrderRes, DepthRes, ModifyOrderRes, NewOrderRes};
use crate::metrics::{family_step, labels_of, MetricsRegistry};
use crate::respond::{depth_empty_status, depth_ok_status, depth_result};
use crate::rpc::{BookResponse, CancelOrderResponse, ModifyOrderResponse, NewOrderResponse};
use crate::text::{dec_of, u64_string};

verus! {

/// The label values a new-order observation with this resolved status is
/// recorded under: the operation name and the decimal status code.
pub open spec fn new_order_key(status: u32) -> Seq<Seq<char>> {
    seq!["New Order"@, dec_of(status as nat)]
}

/// The application status the gateway reports when the backend call itself
/// failed: the request still completes, with a structured error body.
pub open spec fn gateway_error_status() -> u32 {
    500u32
}

/// The label values a modify or cancel observation with this status is
/// recorded under: the decimal status code alone.
pub open spec fn status_key(status: u32) -> Seq<Seq<char>> {
    seq![dec_of(status as nat)]
}

/// The label values a depth observation is recorded under: the security name
/// and the decimal status code.
pub open spec fn depth_key(security: Seq<char>, status: u32) -> Seq<Seq<char>> {
    seq![security, dec_of(status as nat)]
}

/// The application status a depth response maps to: 200 with a book payload,
/// 400 without one.
pub open spec fn depth_status(resp: BookResponse) -> u32 {
    if resp.book_depth is Some {
        depth_ok_status()
    } else {
        depth_empty_status()
    }
}

/// Whether completing a new-order request with this resolved status now
/// fits the collector's counters.
pub fn can_finish_new_order(reg: &MetricsRegistry, elapsed_ms: u64, status: u32) -> (r: bool)
    requires
        reg.wf(),
    ensures
        r == (reg.request_counter < u64::MAX && reg.new_order.can_observe(
            new_order_key(status),
            elapsed_ms,
        )),
{
    let labels = new_order_labels(status);
    reg.request_counter < u64::MAX && reg.new_order.fits_observation(&labels, elapsed_ms)
}

/// Completes a new-order request: maps the engine's response field for
/// field, records the latency under the operation name and the status the
/// backend call resolved to, and counts the completed request.
pub fn finish_new_order(reg: &mut MetricsRegistry, elapsed_ms: u64, resp: NewOrderResponse) -> (r:
    NewOrderRes)
    requires
        old(reg).wf(),
        old(reg).request_counter < u64::MAX,
        old(reg).new_order.can_observe(new_order_key(resp.status), elapsed_ms),
    ensures
        final(reg).wf(),
        final(reg).request_counter == old(reg).request_counter + 1,
        family_step(
            old(reg).new_order.children@,
            final(reg).new_order.children@,
            new_order_key(resp.status),
            elapsed_ms,
        ),
        final(reg).new_order.name == old(reg).new_order.name,
        final(reg).new_order.help == old(reg).new_order.help,
        final(reg).new_order.label_names == old(reg).new_order.label_names,
        final(reg).modify == old(reg).modify,
        final(reg).cancel == old(reg).cancel,
        final(reg).depth == old(reg).depth,
        r.order_id == resp.order_id,
        r.status == resp.status,
        r.order_index == resp.order_index,
        r.cause == resp.cause,
{
    let labels = new_order_labels(resp.status);
    let converted = NewOrderRes::from(resp);
    reg.new_order.observe(labels, elapsed_ms);
    reg.request_counter = reg.request_counter + 1;
    converted
}

/// Completes a new-order request whose backend call itself failed: builds
/// the structured error body carrying the failure text, records the latency
/// under the operation name and the gateway's error status, and counts the
/// completed request.
pub fn fail_new_order(reg: &mut MetricsRegistry, elapsed_ms: u64, error: String) -> (r:
    NewOrderRes)
    requires
        old(reg).wf(),
        old(reg).request_counter < u64::MAX,
        old(reg).new_order.can_observe(new_order_key(gateway_error_status()), elapsed_ms),
    ensures
        final(reg).wf(),
        final(reg).request_counter == old(reg).request_counter + 1,
        family_step(
            old(reg).new_order.children@,
            final(reg).new_order.children@,
            new_order_key(gateway_error_status()),
            elapsed_ms,
        ),
        final(reg).new_order.name == old(reg).new_order.name,
        final(reg).new_order.help == old(reg).new_order.help,
        final(reg).new_order.label_names == old(reg).new_order.label_names,
        final(reg).modify == old(reg).modify,
        final(reg).cancel == old(reg).cancel,
        final(reg).depth == old(reg).depth,
        r.order_id@ == Seq::<char>::empty(),
        r.status == gateway_error_status(),
        r.order_index == None::<u32>,
        r.cause == Some(error),
{
    let labels = new_order_labels(500);
    reg.new_order.observe(labels, elapsed_ms);
    reg.request_counter = reg.request_counter + 1;
    let order_id = String::new();
    proof {
        assert(order_id@ =~= Seq::<char>::empty());
    }
    NewOrderRes { order_id, status: 500, order_index: None, cause: Some(error) }
}

/// Whether completing a modify request with this status now fits the
/// collector's counters.
pub fn can_finish_modify(reg: &MetricsRegistry, elapsed_ms: u64, status: u32) -> (r: bool)
    requires
        reg.wf(),
    ensures
        r == (reg.request_counter < u64::MAX && reg.modify.can_observe(
            status_key(status),
            elapsed_ms,
        )),
{
    let labels = status_labels(status);
    reg.request_counter < u64::MAX && reg.modify.fits_observation(&labels, elapsed_ms)
}

/// Completes a modify request: maps the engine's response field for field,
/// records the latency under the response's status code, and counts the
/// completed request.
pub fn finish_modify(reg: &mut MetricsRegistry, elapsed_ms: u64, resp: ModifyOrderResponse) -> (r:
    ModifyOrderRes)
    requires
        old(reg).wf(),
        old(reg).request_counter < u64::MAX,
        old(reg).modify.can_observe(status_key(resp.status), elapsed_ms),
    ensures
        final(reg).wf(),
        final(reg).request_counter == old(reg).request_counter + 1,
        family_step(
            old(reg).modify.children@,
            final(reg).modify.children@,
            status_key(resp.status),
            elapsed_ms,
        ),
        final(reg).modify.name == old(reg).modify.name,
        final(reg).modify.help == old(reg).modify.help,
        final(reg).modify.label_names == old(reg).modify.label_names,
        final(reg).new_order == old(reg).new_order,
        final(reg).cancel == old(reg).cancel,
        final(reg).depth == old(reg).depth,
        r.order_id == resp.order_id,
        r.status == resp.status,
        r.output == resp.output,
{
    let labels = status_labels(resp.status);
    let converted = ModifyOrderRes::from(resp);
    reg.modify.observe(labels, elapsed_ms);
    reg.request_counter = reg.request_counter + 1;
    converted
}

/// Completes a modify request whose backend call itself failed: builds the
/// structured error body carrying the failure text, records the latency
/// under the gateway's error status, and counts the completed request.
pub fn fail_modify(reg: &mut MetricsRegistry, elapsed_ms: u64, error: String) -> (r:
    ModifyOrderRes)
    requires
        old(reg).wf(),
        old(reg).request_counter < u64::MAX,
        old(reg).modify.can_observe(status_key(gateway_error_status()), elapsed_ms),
    ensures
        final(reg).wf(),
        final(reg).request_counter == old(reg).request_counter + 1,
        family_step(
            old(reg).modify.children@,
            final(reg).modify.children@,
            status_key(gateway_error_status()),
            elapsed_ms,
        ),
        final(reg).modify.name == old(reg).modify.name,
        final(reg).modify.help == old(reg).modify.help,
        final(reg).modify.label_names == old(reg).modify.label_names,
        final(reg).new_order == old(reg).new_order,
        final(reg).cancel == old(reg).cancel,
        final(reg).depth == old(reg).depth,
        r.order_id@ == Seq::<char>::empty(),
        r.status == gateway_error_status(),
        r.output == Some(error),
{
    let labels = status_labels(500);
    reg.modify.observe(labels, elapsed_ms);
    reg.request_counter = reg.request_counter + 1;
    let order_id = String::new();
    proof {
        assert(order_id@ =~= Seq::<char>::empty());
    }
    ModifyOrderRes { order_id, status: 500, output: Some(error) }
}

/// Whether completing a cancel request with this status now fits the
/// collector's counters.
pub fn can_finish_cancel(reg: &MetricsRegistry, elapsed_ms: u64, status: u32) -> (r: bool)
    requires
        reg.wf(),
    ensures
        r == (reg.request_counter < u64::MAX && reg.cancel.can_observe(
            status_key(status),
            elapsed_ms,
        )),
{
    let labels = status_labels(status);
    reg.request_counter < u64::MAX && reg.cancel.fits_observation(&labels, elapsed_ms)
}

/// Completes a cancel request: maps the engine's response (its `cause` field
/// becomes the outbound `output`), records the latency under the response's
/// status code, and counts the completed request.
pub fn finish_cancel(reg: &mut MetricsRegistry, elapsed_ms: u64, resp: CancelOrderResponse) -> (r:
    CancelOrderRes)
    requires
        old(reg).wf(),
        old(reg).request_counter < u64::MAX,
        old(reg).cancel.can_observe(status_key(resp.status), elapsed_ms),
    ensures
        final(reg).wf(),
        final(reg).request_counter == old(reg).request_counter + 1,
        family_step(
            old(reg).cancel.children@,
            final(reg).cancel.children@,
            status_key(resp.status),
            elapsed_ms,
        ),
        final(reg).cancel.name == old(reg).cancel.name,
        final(reg).cancel.help == old(reg).cancel.help,
        final(reg).cancel.label_names == old(reg).cancel.label_names,
        final(reg).new_order == old(reg).new_order,
        final(reg).modify == old(reg).modify,
        final(reg).depth == old(reg).depth,
        r.order_id == resp.order_id,
        r.status == resp.status,
        r.output == resp.cause,
{
    let labels = status_labels(resp.status);
    let converted = CancelOrderRes::from(resp);
    reg.cancel.observe(labels, elapsed_ms);
    reg.request_counter = reg.request_counter + 1;
    converted
}

/// Completes a cancel request whose backend call itself failed: builds the
/// structured error body carrying the failure text, records the latency
/// under the gateway's error status, and counts the completed request.
pub fn fail_cancel(reg: &mut MetricsRegistry, elapsed_ms: u64, error: String) -> (r:
    CancelOrderRes)
    requires
        old(reg).wf(),
        old(reg).request_counter < u64::MAX,
        old(reg).cancel.can_observe(status_key(gateway_error_status()), elapsed_ms),
    ensures
        final(reg).wf(),
        final(reg).request_counter == old(reg).request_counter + 1,
        family_step(
            old(reg).cancel.children@,
            final(reg).cancel.children@,
            status_key(gateway_error_status()),
            elapsed_ms,
        ),
        final(reg).cancel.name == old(reg).cancel.name,
        final(reg).cancel.help == old(reg).cancel.help,
        final(reg).cancel.label_names == old(reg).cancel.label_names,
        final(reg).new_order == old(reg).new_order,
        final(reg).modify == old(reg).modify,
        final(reg).depth == old(reg).depth,
        r.order_id@ == Seq::<char>::empty(),
        r.status == gateway_error_status(),
        r.output == Some(error),
{
    let labels = status_labels(500);
    reg.cancel.observe(labels, elapsed_ms);
    reg.request_counter = reg.request_counter + 1;
    let order_id = String::new();
    proof {
        assert(order_id@ =~= Seq::<char>::empty());
    }
    CancelOrderRes { order_id, status: 500, output: Some(error) }
}

/// Whether completing a depth request for this security and status now fits
/// the collector's counters.
pub fn can_finish_depth(
    reg: &MetricsRegistry,
    elapsed_ms: u64,
    security_name: &String,
    status: u32,
) -> (r: bool)
    requires
        reg.wf(),
    ensures
        r == (reg.request_counter < u64::MAX && reg.depth.can_observe(
            depth_key(security_name@, status),
            elapsed_ms,
        )),
{
    let mut labels: Vec<String> = Vec::new();
    labels.push(security_name.clone());
    labels.push(u64_string(status as u64));
    proof {
        assert(labels_of(labels) =~= depth_key(security_name@, status));
    }
    reg.request_counter < u64::MAX && reg.depth.fits_observation(&labels, elapsed_ms)
}

/// Completes a depth request: maps the book payload to its two-outcome DTO
/// (present book: 200 and the fixed success message; absent book: 400 and
/// the fixed explanatory message), records the latency under the security
/// name and the status, and counts the completed request.
pub fn finish_depth(
    reg: &mut MetricsRegistry,
    elapsed_ms: u64,
    security_name: String,
    resp: BookResponse,
) -> (r: DepthRes)
    requires
        old(reg).wf(),
        old(reg).request_counter < u64::MAX,
        old(reg).depth.can_observe(depth_key(security_name@, depth_status(resp)), elapsed_ms),
    ensures
        final(reg).wf(),
        final(reg).request_counter == old(reg).request_counter + 1,
        family_step(
            old(reg).depth.children@,
            final(reg).depth.children@,
            depth_key(security_name@, depth_status(resp)),
            elapsed_ms,
        ),
        final(reg).depth.name == old(reg).depth.name,
        final(reg).depth.help == old(reg).depth.help,
        final(reg).depth.label_names == old(reg).depth.label_names,
        final(reg).new_order == old(reg).new_order,
        final(reg).modify == old(reg).modify,
        final(reg).cancel == old(reg).cancel,
        r.status == depth_status(resp),
        resp.book_depth is Some ==> r.output@ == "book recieved"@,
        resp.book_depth is None ==> r.output@ == "orderbook is empty"@,
{
    let status: u32 = if resp.book_depth.is_some() {
        200
    } else {
        400
    };
    let mut labels: Vec<String> = Vec::new();
    labels.push(security_name);
    labels.push(u64_string(status as u64));
    proof {
        assert(labels_of(labels) =~= depth_key(security_name@, depth_status(resp)));
    }
    let converted = depth_result(resp.book_depth);
    reg.depth.observe(labels, elapsed_ms);
    reg.request_counter = reg.request_counter + 1;
    converted
}

/// Completes a depth request whose backend call itself failed: builds the
/// structured error body carrying the failure text, records the latency
/// under the security name and the gateway's error status, and counts the
/// completed request.
pub fn fail_depth(
    reg: &mut MetricsRegistry,
    elapsed_ms: u64,
    security_name: String,
    error: String,
) -> (r: DepthRes)
    requires
        old(reg).wf(),
        old(reg).request_counter < u64::MAX,
        old(reg).depth.can_observe(
            depth_key(security_name@, gateway_error_status()),
            elapsed_ms,
        ),
    ensures
        final(reg).wf(),
        final(reg).request_counter == old(reg).request_counter + 1,
        family_step(
            old(reg).depth.children@,
            final(reg).depth.children@,
            depth_key(security_name@, gateway_error_status()),
            elapsed_ms,
        ),
        final(reg).depth.name == old(reg).depth.name,
        final(reg).depth.help == old(reg).depth.help,
        final(reg).depth.label_names == old(reg).depth.label_names,
        final(reg).new_order == old(reg).new_order,
        final(reg).modify == old(reg).modify,
        final(reg).cancel == old(reg).cancel,
        r.status == gateway_error_status(),
        r.output == error,
{
    let mut labels: Vec<String> = Vec::new();
    labels.push(security_name);
    labels.push(u64_string(500));
    proof {
        assert(labels_of(labels) =~= depth_key(security_name@, gateway_error_status()));
    }
    reg.depth.observe(labels, elapsed_ms);
    reg.request_counter = reg.request_counter + 1;
    DepthRes { status: 500, output: error }
}

/// The label values of a new-order observation with this resolved status.
fn new_order_labels(status: u32) -> (r: Vec<String>)
    ensures
        labels_of(r) == new_order_key(status),
        r@.len() == 2,
{
    let mut labels: Vec<String> = Vec::new();
    labels.push("New Order".to_owned());
    labels.push(u64_string(status as u64));
    proof {
        assert(labels_of(labels) =~= new_order_key(status));
    }
    labels
}

/// The label values of a modify or cancel observation with this status.
fn status_labels(status: u32) -> (r: Vec<String>)
    ensures
        labels_of(r) == status_key(status),
        r@.len() == 1,
{
    let mut labels: Vec<String> = Vec::new();
    labels.push(u64_string(status as u64));
    proof {
        assert(labels_of(labels) =~= status_key(status));
    }
    labels
}

/// The request counter counts completed requests exactly: along any run of
/// registry states in which each step completes one request — every
/// completion operation above raises the counter by exactly one, whatever
/// the route and whatever the outcome — the counter never decreases, and
/// over the whole run it grows by exactly the number of completed requests.
pub proof fn lemma_counter_counts_completed_requests(trace: Seq<MetricsRegistry>)
    requires
        trace.len() >= 1,
        forall|i: int|
            0 <= i < trace.len() - 1 ==> (#[trigger] trace[i + 1].request_counter)
                == trace[i].request_counter + 1,
    ensures
        forall|i: int, j: int|
            #![trigger trace[i].request_counter, trace[j].request_counter]
            0 <= i <= j < trace.len() ==> trace[i].request_counter <= trace[j].request_counter,
        trace.last().request_counter == trace[0].request_counter + (trace.len() - 1),
    decreases trace.len(),
{
    if trace.len() > 1 {
        let prefix = trace.drop_last();
        assert forall|i: int|
            0 <= i < prefix.len() - 1 implies (#[trigger] prefix[i + 1].request_counter)
            == prefix[i].request_counter + 1 by {
            assert(prefix[i + 1] == trace[i + 1]);
            assert(prefix[i] == trace[i]);
        }
        lemma_counter_counts_completed_requests(prefix);
        let n = trace.len() as int;
        assert(trace[(n - 2) + 1].request_counter == trace[n - 2].request_counter + 1);
        assert(trace.last() == trace[n - 1]);
        assert(prefix.last() == trace[n - 2]);
        assert forall|i: int, j: int|
            #![trigger trace[i].request_counter, trace[j].request_counter]
            0 <= i <= j < trace.len() implies trace[i].request_counter
            <= trace[j].request_counter by {
            if j < trace.len() - 1 {
                assert(prefix[i] == trace[i]);
                assert(prefix[j] == trace[j]);
            } else if i < j {
                assert(prefix[i] == trace[i]);
                assert(trace[i].request_counter <= prefix.last().request_counter);
            }
        }
    }
}

} // verus!
