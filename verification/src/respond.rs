//! The response mapper: one-to-one field copies from each RPC response
//! record into the outbound DTO, plus the two-outcome mapping of a depth
//! response. Presentation only: nothing is recomputed and nothing validated.

use vstd::prelude::*;

use crate::dto::{CancelOrderRes, DepthRes, ModifyOrderRes, NewOrderRes};
use crate::rpc::{BookDepth, CancelOrderResponse, DepthLevel, ModifyOrderResponse, NewOrderResponse};
use crate::text::{append_u64, dec_of};

verus! {

impl From<NewOrderResponse> for NewOrderRes {
    fn from(value: NewOrderResponse) -> (r: NewOrderRes) {
        NewOrderRes {
            order_id: value.order_id,
            status: value.status,
            order_index: value.order_index,
            cause: value.cause,
        }
    }
}

impl vstd::std_specs::convert::FromSpecImpl<NewOrderResponse> for NewOrderRes {
    open spec fn obeys_from_spec() -> bool {
        true
    }

    open spec fn from_spec(value: NewOrderResponse) -> NewOrderRes {
        NewOrderRes {
            order_id: value.order_id,
            status: value.status,
            order_index: value.order_index,
            cause: value.cause,
        }
    }
}

impl From<ModifyOrderResponse> for ModifyOrderRes {
    fn from(value: ModifyOrderResponse) -> (r: ModifyOrderRes) {
        ModifyOrderRes { order_id: value.order_id, status: value.status, output: value.output }
    }
}

impl vstd::std_specs::convert::FromSpecImpl<ModifyOrderResponse> for ModifyOrderRes {
    open spec fn obeys_from_spec() -> bool {
        true
    }

    open spec fn from_spec(value: ModifyOrderResponse) -> ModifyOrderRes {
        ModifyOrderRes { order_id: value.order_id, status: value.status, output: value.output }
    }
}

impl From<CancelOrderResponse> for CancelOrderRes {
    fn from(value: CancelOrderResponse) -> (r: CancelOrderRes) {
        // The engine reports the reason of a cancel outcome under `cause`;
        // the HTTP shape exposes it as `output`. The mapping is kept as the
        // wire compatibility demands it.
        CancelOrderRes { order_id: value.order_id, status: value.status, output: value.cause }
    }
}

impl vstd::std_specs::convert::FromSpecImpl<CancelOrderResponse> for CancelOrderRes {
    open spec fn obeys_from_spec() -> bool {
        true
    }

    open spec fn from_spec(value: CancelOrderResponse) -> CancelOrderRes {
        CancelOrderRes { order_id: value.order_id, status: value.status, output: value.cause }
    }
}

/// The application status code of a depth answer whose book payload was
/// present.
pub open spec fn depth_ok_status() -> u32 {
    200u32
}

/// The application status code of a depth answer whose book payload was
/// absent.
pub open spec fn depth_empty_status() -> u32 {
    400u32
}

/// Maps the book payload of a depth response into the outbound DTO: a
/// present book always answers with status 200 and the fixed success
/// message; an absent book (unknown security or truly empty book) always
/// answers with status 400 and the fixed explanatory message. There is no
/// third outcome, and never a success status without a book.
pub fn depth_result(book_depth: Option<BookDepth>) -> (r: DepthRes)
    ensures
        book_depth is Some ==> r.status == depth_ok_status() && r.output@ == "book recieved"@,
        book_depth is None ==> r.status == depth_empty_status() && r.output@
            == "orderbook is empty"@,
{
    match book_depth {
        Some(_) => DepthRes { status: 200, output: "book recieved".to_owned() },
        None => DepthRes { status: 400, output: "orderbook is empty".to_owned() },
    }
}

/// One price level as it appears in the human-readable book dump.
pub open spec fn level_line(l: DepthLevel) -> Seq<char> {
    "[price = "@ + dec_of(l.price as nat) + ", quantity = "@ + dec_of(l.quantity as nat) + "]\n"@
}

/// The lines of one book side, top level first.
pub open spec fn side_lines(levels: Seq<DepthLevel>) -> Seq<char>
    decreases levels.len(),
{
    if levels.len() == 0 {
        Seq::empty()
    } else {
        side_lines(levels.drop_last()) + level_line(levels.last())
    }
}

/// The whole human-readable dump of a book: the ask side, then the bid side.
pub open spec fn book_dump_of(b: BookDepth) -> Seq<char> {
    "-------ASK-------\n"@ + side_lines(b.ask_depth@) + "------BID------\n"@ + side_lines(
        b.bid_depth@,
    )
}

/// Appends the lines of one book side.
fn append_side(out: &mut String, levels: &Vec<DepthLevel>)
    ensures
        final(out)@ == old(out)@ + side_lines(levels@),
{
    let n = levels.len();
    let mut i: usize = 0;
    while i < n
        invariant
            i <= n,
            n == levels@.len(),
            out@ == old(out)@ + side_lines(levels@.take(i as int)),
        decreases n - i,
    {
        let l = levels[i];
        out.append("[price = ");
        append_u64(out, l.price as u64);
        out.append(", quantity = ");
        append_u64(out, l.quantity as u64);
        out.append("]\n");
        proof {
            assert(levels@.take(i + 1 as int).drop_last() =~= levels@.take(i as int));
            assert(out@ =~= old(out)@ + side_lines(levels@.take(i + 1 as int)));
        }
        i = i + 1;
    }
    proof {
        assert(levels@.take(n as int) =~= levels@);
    }
}

/// The human-readable dump of a book's ask and bid levels, a side-channel
/// diagnostic only: nothing in the HTTP answer depends on it.
pub fn book_dump(b: &BookDepth) -> (r: String)
    ensures
        r@ == book_dump_of(*b),
{
    let mut out = String::new();
    out.append("-------ASK-------\n");
    append_side(&mut out, &b.ask_depth);
    out.append("------BID------\n");
    append_side(&mut out, &b.bid_depth);
    proof {
        assert(out@ =~= book_dump_of(*b));
    }
    out
}

} // verus!
