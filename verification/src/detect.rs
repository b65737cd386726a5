//! The arbitrage detector.
//!
//! Given both venues' current books, the detector looks for a bid on one
//! venue and an ask on the other with exactly equal, positive quantity and
//! a bid price strictly above the ask price. Both sequences are scanned as
//! received — outer loop over the selling venue's bids, inner loop over the
//! buying venue's asks — and the first qualifying pair in that order wins.
//! Two directions are tried: venue B's bids against venue A's asks (buy on
//! A, sell on B) first, then venue A's bids against venue B's asks; at most
//! one opportunity comes out of a pass.

use crate::book::{BookView, Opportunity, PriceLevel, VenueBook, VenueId};
use vstd::prelude::*;

verus! {

/// Whether a bid and an ask form a profitable, quantity-matched pair:
/// exactly equal quantities (no partial fills), a strictly higher bid price,
/// and a positive quantity (degenerate zero-size levels never match).
pub open spec fn qualifies(bid: PriceLevel, ask: PriceLevel) -> bool {
    bid.quantity@ == ask.quantity@ && bid.price@ > ask.price@ && bid.quantity@ > 0
}

/// The first index `k >= j` of an ask that qualifies against `bid`, if any.
pub open spec fn first_ask_match(bid: PriceLevel, asks: Seq<PriceLevel>, j: int) -> Option<int>
    decreases asks.len() - j,
{
    if j < 0 || asks.len() <= j {
        None
    } else if qualifies(bid, asks[j]) {
        Some(j)
    } else {
        first_ask_match(bid, asks, j + 1)
    }
}

/// The first qualifying (bid, ask) index pair at or after bid index `i`, in
/// scan order: bids outermost, asks innermost.
pub open spec fn first_pair_match(bids: Seq<PriceLevel>, asks: Seq<PriceLevel>, i: int) -> Option<
    (int, int),
>
    decreases bids.len() - i,
{
    if i < 0 || bids.len() <= i {
        None
    } else {
        match first_ask_match(bids[i], asks, 0) {
            Some(j) => Some((i, j)),
            None => first_pair_match(bids, asks, i + 1),
        }
    }
}

/// What one direction of the scan emits: the selling venue's bids against
/// the buying venue's asks. Both sides must be known; otherwise this
/// direction yields nothing.
pub open spec fn direction_opportunity(
    buy: VenueId,
    sell: VenueId,
    sell_bids: Option<Seq<PriceLevel>>,
    buy_asks: Option<Seq<PriceLevel>>,
) -> Option<Opportunity> {
    match (sell_bids, buy_asks) {
        (Some(bids), Some(asks)) => match first_pair_match(bids, asks, 0) {
            Some(p) => Some(
                Opportunity {
                    buy_venue: buy,
                    sell_venue: sell,
                    buy_price: asks[p.1].price,
                    sell_price: bids[p.0].price,
                    quantity: bids[p.0].quantity,
                },
            ),
            None => None,
        },
        _ => None,
    }
}

/// What a detection pass over both venues' books emits: venue B's bids
/// against venue A's asks first, and only if that direction finds nothing,
/// venue A's bids against venue B's asks.
pub open spec fn detect_spec(venue_a: BookView, venue_b: BookView) -> Option<Opportunity> {
    match direction_opportunity(VenueId::A, VenueId::B, venue_b.bids, venue_a.asks) {
        Some(op) => Some(op),
        None => direction_opportunity(VenueId::B, VenueId::A, venue_a.bids, venue_b.asks),
    }
}

/// Scan one direction: the selling venue's bids (outer) against the buying
/// venue's asks (inner), first qualifying pair wins.
fn scan_direction(buy: VenueId, sell: VenueId, bids: &Vec<PriceLevel>, asks: &Vec<PriceLevel>) -> (r:
    Option<Opportunity>)
    ensures
        r == direction_opportunity(buy, sell, Some(bids@), Some(asks@)),
{
    let mut i: usize = 0;
    while i < bids.len()
        invariant
            i <= bids@.len(),
            first_pair_match(bids@, asks@, 0) == first_pair_match(bids@, asks@, i as int),
        decreases bids@.len() - i,
    {
        let bid = bids[i];
        let mut j: usize = 0;
        while j < asks.len()
            invariant
                i < bids@.len(),
                j <= asks@.len(),
                bid == bids@[i as int],
                first_pair_match(bids@, asks@, 0) == first_pair_match(bids@, asks@, i as int),
                first_ask_match(bid, asks@, 0) == first_ask_match(bid, asks@, j as int),
            decreases asks@.len() - j,
        {
            let ask = asks[j];
            if bid.quantity == ask.quantity && bid.price.gt(&ask.price) && bid.quantity.is_positive() {
                proof {
                    assert(first_ask_match(bid, asks@, j as int) == Some(j as int));
                    assert(first_pair_match(bids@, asks@, i as int) == Some((i as int, j as int)));
                }
                return Some(
                    Opportunity {
                        buy_venue: buy,
                        sell_venue: sell,
                        buy_price: ask.price,
                        sell_price: bid.price,
                        quantity: bid.quantity,
                    },
                );
            }
            j = j + 1;
        }
        assert(first_ask_match(bid, asks@, asks@.len() as int) is None);
        i = i + 1;
    }
    assert(first_pair_match(bids@, asks@, bids@.len() as int) is None);
    None
}

/// One detection pass over both venues' current books. Emits the first
/// qualifying pair of the first direction that has one, or nothing.
pub fn detect(venue_a: &VenueBook, venue_b: &VenueBook) -> (r: Option<Opportunity>)
    ensures
        r == detect_spec(venue_a@, venue_b@),
{
    if let (Some(bids), Some(asks)) = (&venue_b.bids, &venue_a.asks) {
        let first = scan_direction(VenueId::A, VenueId::B, bids, asks);
        if first.is_some() {
            return first;
        }
    }
    if let (Some(bids), Some(asks)) = (&venue_a.bids, &venue_b.asks) {
        let second = scan_direction(VenueId::B, VenueId::A, bids, asks);
        if second.is_some() {
            return second;
        }
    }
    None
}

} // verus!
