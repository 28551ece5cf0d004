//! Plain data transformations behind the operator's catalog choices: the
//! concert filter over the broadcast list, flattening of show instances,
//! price-tier projection, and the assembly of the session cookie header
//! from browser cookies. The menus themselves are I/O glue and live
//! outside this crate; they only pick indices into what these functions
//! return.

use vstd::prelude::*;

use crate::strutil::{spec_contains, spec_starts_with, find, starts_with};

verus! {

/// One sale offer from the broadcast catalog.
pub struct TicketSummary {
    pub ticket_id: String,
    pub ticket_name: String,
    pub category_name: String,
    /// Sale opening instant, milliseconds since the epoch.
    pub sale_time: i64,
}

/// One show instance of a chosen offer.
pub struct PerformChoice {
    pub perform_name: String,
    pub perform_id: String,
}

/// The show instances one offer groups together.
pub struct PerformGroup {
    pub performs: Vec<PerformChoice>,
}

/// One price tier of a chosen show instance.
pub struct SkuEntry {
    pub sku_id: String,
    pub price_name: String,
}

/// A price tier as the operator picks it.
pub struct SkuChoice {
    pub sku_id: String,
    pub sku_name: String,
}

impl TicketSummary {
    /// An equal copy; field by field, so nothing is lost to an opaque
    /// clone.
    pub fn duplicate(&self) -> (r: Self)
        ensures
            r == *self,
    {
        TicketSummary {
            ticket_id: self.ticket_id.clone(),
            ticket_name: self.ticket_name.clone(),
            category_name: self.category_name.clone(),
            sale_time: self.sale_time,
        }
    }
}

impl PerformChoice {
    pub fn duplicate(&self) -> (r: Self)
        ensures
            r == *self,
    {
        PerformChoice {
            perform_name: self.perform_name.clone(),
            perform_id: self.perform_id.clone(),
        }
    }
}

/// The offers whose category mentions `category`, in catalog order.
pub fn filter_by_category(tickets: &Vec<TicketSummary>, category: &str) -> (r: Vec<TicketSummary>)
    ensures
        r@ == tickets@.filter(|t: TicketSummary| spec_contains(t.category_name@, category@)),
{
    let mut r: Vec<TicketSummary> = Vec::new();
    let mut i: usize = 0;
    proof {
        reveal(Seq::filter);
    }
    while i < tickets.len()
        invariant
            i <= tickets.len(),
            r@ == tickets@.subrange(0, i as int).filter(
                |t: TicketSummary| spec_contains(t.category_name@, category@),
            ),
        decreases tickets.len() - i,
    {
        let keep = match find(tickets[i].category_name.as_str(), category) {
            Some(_) => true,
            None => false,
        };
        if keep {
            r.push(tickets[i].duplicate());
        }
        proof {
            reveal(Seq::filter);
            let pred = |t: TicketSummary| spec_contains(t.category_name@, category@);
            let next = tickets@.subrange(0, i + 1);
            assert(next.drop_last() =~= tickets@.subrange(0, i as int));
            assert(next.last() == tickets@[i as int]);
            assert(r@ == next.filter(pred));
        }
        i = i + 1;
    }
    proof {
        assert(tickets@.subrange(0, tickets@.len() as int) =~= tickets@);
    }
    r
}

/// The show instances of `groups`, flattened in order: every instance of
/// the first group, then of the second, and so on.
pub open spec fn spec_flatten_performs(groups: Seq<Seq<PerformChoice>>) -> Seq<PerformChoice>
    decreases groups.len(),
{
    if groups.len() == 0 {
        Seq::empty()
    } else {
        spec_flatten_performs(groups.drop_last()) + groups.last()
    }
}

pub fn flatten_performs(groups: &Vec<PerformGroup>) -> (r: Vec<PerformChoice>)
    ensures
        r@ == spec_flatten_performs(groups@.map_values(|g: PerformGroup| g.performs@)),
{
    let mut r: Vec<PerformChoice> = Vec::new();
    let mut i: usize = 0;
    while i < groups.len()
        invariant
            i <= groups.len(),
            r@ == spec_flatten_performs(
                groups@.subrange(0, i as int).map_values(|g: PerformGroup| g.performs@),
            ),
        decreases groups.len() - i,
    {
        let inner = &groups[i].performs;
        let mut j: usize = 0;
        while j < inner.len()
            invariant
                j <= inner.len(),
                inner == &groups@[i as int].performs,
                i < groups@.len(),
                r@ == spec_flatten_performs(
                    groups@.subrange(0, i as int).map_values(|g: PerformGroup| g.performs@),
                ) + inner@.subrange(0, j as int),
            decreases inner.len() - j,
        {
            r.push(inner[j].duplicate());
            proof {
                assert(r@ =~= spec_flatten_performs(
                    groups@.subrange(0, i as int).map_values(|g: PerformGroup| g.performs@),
                ) + inner@.subrange(0, j + 1));
            }
            j = j + 1;
        }
        proof {
            let mapped_next = groups@.subrange(0, i + 1).map_values(|g: PerformGroup| g.performs@);
            assert(mapped_next.drop_last() =~= groups@.subrange(0, i as int).map_values(
                |g: PerformGroup| g.performs@,
            ));
            assert(mapped_next.last() == groups@[i as int].performs@);
            assert(inner@.subrange(0, inner@.len() as int) =~= inner@);
            assert(r@ == spec_flatten_performs(mapped_next));
        }
        i = i + 1;
    }
    proof {
        assert(groups@.subrange(0, groups@.len() as int) =~= groups@);
    }
    r
}

/// Project the price tiers onto what the operator picks from: tier id and
/// its price label, in order.
pub fn project_skus(entries: &Vec<SkuEntry>) -> (r: Vec<SkuChoice>)
    ensures
        r@.len() == entries@.len(),
        forall|i: int|
            0 <= i < entries@.len() ==> (#[trigger] r@[i]).sku_id@ == entries@[i].sku_id@
                && r@[i].sku_name@ == entries@[i].price_name@,
{
    let mut r: Vec<SkuChoice> = Vec::new();
    let mut i: usize = 0;
    while i < entries.len()
        invariant
            i <= entries.len(),
            r@.len() == i,
            forall|k: int|
                0 <= k < i ==> (#[trigger] r@[k]).sku_id@ == entries@[k].sku_id@ && r@[k].sku_name@
                    == entries@[k].price_name@,
        decreases entries.len() - i,
    {
        r.push(
            SkuChoice {
                sku_id: entries[i].sku_id.clone(),
                sku_name: entries[i].price_name.clone(),
            },
        );
        i = i + 1;
    }
    r
}

/// The cookie header a login's cookies yield: `name=value;` for each
/// cookie in order, skipping the `_m_h5_tk` family, which the gateway
/// rotates on its own.
pub open spec fn spec_cookie_header(names: Seq<Seq<char>>, values: Seq<Seq<char>>) -> Seq<char>
    decreases names.len(),
{
    if names.len() == 0 || names.len() != values.len() {
        Seq::empty()
    } else {
        spec_cookie_header(names.drop_last(), values.drop_last()) + (if spec_starts_with(
            names.last(),
            "_m_h5_tk"@,
        ) {
            Seq::<char>::empty()
        } else {
            names.last() + "="@ + values.last() + ";"@
        })
    }
}

pub fn assemble_cookie_header(names: &Vec<String>, values: &Vec<String>) -> (r: String)
    requires
        names@.len() == values@.len(),
    ensures
        r@ == spec_cookie_header(
            names@.map_values(|s: String| s@),
            values@.map_values(|s: String| s@),
        ),
{
    let mut out = String::new();
    let mut i: usize = 0;
    while i < names.len()
        invariant
            i <= names.len(),
            names@.len() == values@.len(),
            out@ == spec_cookie_header(
                names@.subrange(0, i as int).map_values(|s: String| s@),
                values@.subrange(0, i as int).map_values(|s: String| s@),
            ),
        decreases names.len() - i,
    {
        if !starts_with(names[i].as_str(), "_m_h5_tk") {
            out.append(names[i].as_str());
            out.append("=");
            out.append(values[i].as_str());
            out.append(";");
        }
        proof {
            let mn = names@.subrange(0, i + 1).map_values(|s: String| s@);
            let mv = values@.subrange(0, i + 1).map_values(|s: String| s@);
            assert(mn.drop_last() =~= names@.subrange(0, i as int).map_values(|s: String| s@));
            assert(mv.drop_last() =~= values@.subrange(0, i as int).map_values(|s: String| s@));
            assert(mn.last() == names@[i as int]@);
            assert(mv.last() == values@[i as int]@);
            assert(out@ =~= spec_cookie_header(mn, mv));
        }
        i = i + 1;
    }
    proof {
        assert(names@.subrange(0, names@.len() as int) =~= names@);
        assert(values@.subrange(0, values@.len() as int) =~= values@);
    }
    out
}

} // verus!
