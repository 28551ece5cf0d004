//! Canonical serialization of the two business payloads: order creation
//! and order submission. The gateway signs and checks the payload text
//! bit-exactly, so field order and separators are fixed here and nowhere
//! else; there is no serialization variance to tolerate.

use vstd::prelude::*;

use crate::sign::{spec_digits, u64_to_decimal};

verus! {

/// `elems` joined by `sep`, no trailing separator.
pub open spec fn spec_join(elems: Seq<Seq<char>>, sep: Seq<char>) -> Seq<char>
    decreases elems.len(),
{
    if elems.len() == 0 {
        Seq::empty()
    } else if elems.len() == 1 {
        elems[0]
    } else {
        spec_join(elems.drop_last(), sep) + sep + elems.last()
    }
}

/// Join strings with a separator, exactly `spec_join`.
pub fn join(elems: &Vec<String>, sep: &str) -> (r: String)
    ensures
        r@ == spec_join(elems@.map_values(|s: String| s@), sep@),
{
    let mut out = String::new();
    let mut i: usize = 0;
    while i < elems.len()
        invariant
            i <= elems.len(),
            out@ == spec_join(elems@.subrange(0, i as int).map_values(|s: String| s@), sep@),
        decreases elems.len() - i,
    {
        if i > 0 {
            out.append(sep);
        }
        out.append(elems[i].as_str());
        proof {
            let mapped_next = elems@.subrange(0, i + 1).map_values(|s: String| s@);
            let mapped_cur = elems@.subrange(0, i as int).map_values(|s: String| s@);
            assert(mapped_next.drop_last() =~= mapped_cur);
            assert(mapped_next.last() == elems@[i as int]@);
            if i == 0 {
                assert(out@ =~= spec_join(mapped_next, sep@));
            }
        }
        i = i + 1;
    }
    proof {
        assert(elems@.subrange(0, elems@.len() as int) =~= elems@);
    }
    out
}

/// The canonical order-creation payload for `(ticket, perform, sku)` and
/// a quantity: a compact object with fixed field order.
pub open spec fn spec_create_order_payload(
    ticket_id: Seq<char>,
    perform_id: Seq<char>,
    sku_id: Seq<char>,
    quantity: u64,
) -> Seq<char> {
    "{\"itemId\":\""@ + ticket_id + "\",\"performId\":\""@ + perform_id + "\",\"skuId\":\""@
        + sku_id + "\",\"buyNum\":"@ + spec_digits(quantity as int) + "}"@
}

pub fn create_order_payload(
    ticket_id: &str,
    perform_id: &str,
    sku_id: &str,
    quantity: u64,
) -> (r: String)
    ensures
        r@ == spec_create_order_payload(ticket_id@, perform_id@, sku_id@, quantity),
{
    let mut out = String::from_str("{\"itemId\":\"");
    out.append(ticket_id);
    out.append("\",\"performId\":\"");
    out.append(perform_id);
    out.append("\",\"skuId\":\"");
    out.append(sku_id);
    out.append("\",\"buyNum\":");
    let digits = u64_to_decimal(quantity);
    out.append(digits.as_str());
    out.append("}");
    out
}

/// The canonical order-submission payload: the single-use order token and
/// the attendee names, comma-joined in operator order.
pub open spec fn spec_submit_order_payload(order_token: Seq<char>, names: Seq<Seq<char>>) -> Seq<
    char,
> {
    "{\"orderToken\":\""@ + order_token + "\",\"buyerNames\":\""@ + spec_join(names, ","@) + "\"}"@
}

pub fn submit_order_payload(order_token: &str, real_names: &Vec<String>) -> (r: String)
    ensures
        r@ == spec_submit_order_payload(
            order_token@,
            real_names@.map_values(|s: String| s@),
        ),
{
    let mut out = String::from_str("{\"orderToken\":\"");
    out.append(order_token);
    out.append("\",\"buyerNames\":\"");
    let joined = join(real_names, ",");
    out.append(joined.as_str());
    out.append("\"}");
    out
}

} // verus!
