//! Laws of the detector: what a detection pass emits, stated and proved
//! over the whole input space rather than checked on samples.

use crate::book::{other_venue, BookView, Opportunity, PriceLevel, VenueId};
use crate::detect::{
    detect_spec, direction_opportunity, first_ask_match, first_pair_match, qualifies,
};
use crate::store::{empty_store, update_outcome, StoreView};
use vstd::prelude::*;

verus! {

/// No bid of `bids` and ask of `asks` form a qualifying pair.
pub open spec fn no_qualifying_pair(bids: Seq<PriceLevel>, asks: Seq<PriceLevel>) -> bool {
    forall|i: int, j: int|
        #![trigger qualifies(bids[i], asks[j])]
        0 <= i < bids.len() && 0 <= j < asks.len() ==> !qualifies(bids[i], asks[j])
}

/// Pair `(i1, j1)` comes before `(i2, j2)` in scan order: bids outermost,
/// asks innermost.
pub open spec fn scan_earlier(i1: int, j1: int, i2: int, j2: int) -> bool {
    i1 < i2 || (i1 == i2 && j1 < j2)
}

/// What `first_ask_match` finds, characterized: a qualifying ask with none
/// before it, or the guarantee that no ask at or after `j` qualifies.
pub proof fn lemma_first_ask_match_characterization(
    bid: PriceLevel,
    asks: Seq<PriceLevel>,
    j: int,
)
    requires
        0 <= j <= asks.len(),
    ensures
        match first_ask_match(bid, asks, j) {
            Some(k) => j <= k < asks.len() && qualifies(bid, asks[k]) && (forall|m: int|
                j <= m < k ==> !qualifies(bid, #[trigger] asks[m])),
            None => forall|m: int| j <= m < asks.len() ==> !qualifies(bid, #[trigger] asks[m]),
        },
    decreases asks.len() - j,
{
    if j < asks.len() && !qualifies(bid, asks[j]) {
        lemma_first_ask_match_characterization(bid, asks, j + 1);
    }
}

/// What `first_pair_match` finds, characterized: a qualifying pair that no
/// qualifying pair precedes in scan order, or the guarantee that no pair
/// with bid index at or after `i` qualifies.
pub proof fn lemma_first_pair_match_characterization(
    bids: Seq<PriceLevel>,
    asks: Seq<PriceLevel>,
    i: int,
)
    requires
        0 <= i <= bids.len(),
    ensures
        match first_pair_match(bids, asks, i) {
            Some(p) => i <= p.0 < bids.len() && 0 <= p.1 < asks.len() && qualifies(
                bids[p.0],
                asks[p.1],
            ) && (forall|i2: int, j2: int|
                #![trigger qualifies(bids[i2], asks[j2])]
                i <= i2 < bids.len() && 0 <= j2 < asks.len() && scan_earlier(i2, j2, p.0, p.1)
                    ==> !qualifies(bids[i2], asks[j2])),
            None => forall|i2: int, j2: int|
                #![trigger qualifies(bids[i2], asks[j2])]
                i <= i2 < bids.len() && 0 <= j2 < asks.len() ==> !qualifies(bids[i2], asks[j2]),
        },
    decreases bids.len() - i,
{
    if i < bids.len() {
        lemma_first_ask_match_characterization(bids[i], asks, 0);
        if first_ask_match(bids[i], asks, 0) is None {
            lemma_first_pair_match_characterization(bids, asks, i + 1);
        }
    }
}

/// No false positive: when no bid/ask pair across the two venues qualifies
/// — in either direction — a detection pass emits nothing. (That the state
/// just written then stays in place is the `None` arm of `update_outcome`.)
pub proof fn lemma_no_false_positive(venue_a: BookView, venue_b: BookView)
    requires
        venue_b.bids matches Some(bids) && venue_a.asks matches Some(asks) ==> no_qualifying_pair(
            bids,
            asks,
        ),
        venue_a.bids matches Some(bids) && venue_b.asks matches Some(asks) ==> no_qualifying_pair(
            bids,
            asks,
        ),
    ensures
        detect_spec(venue_a, venue_b) is None,
{
    match (venue_b.bids, venue_a.asks) {
        (Some(bids), Some(asks)) => lemma_first_pair_match_characterization(bids, asks, 0),
        _ => (),
    }
    match (venue_a.bids, venue_b.asks) {
        (Some(bids), Some(asks)) => lemma_first_pair_match_characterization(bids, asks, 0),
        _ => (),
    }
}

/// First-match determinism, in two halves. Existence: where some pair
/// qualifies, the scan emits one. Minimality: whatever qualifying pair one
/// points at, the emitted pair is that one or one strictly earlier in scan
/// order — so with several independently valid matches, always the
/// first-ordered one is emitted.
pub proof fn lemma_first_match_determinism(
    bids: Seq<PriceLevel>,
    asks: Seq<PriceLevel>,
    i: int,
    j: int,
)
    requires
        0 <= i < bids.len(),
        0 <= j < asks.len(),
        qualifies(bids[i], asks[j]),
    ensures
        first_pair_match(bids, asks, 0) matches Some(p) && (p == (i, j) || scan_earlier(
            p.0,
            p.1,
            i,
            j,
        )),
{
    lemma_first_pair_match_characterization(bids, asks, 0);
}

/// Post-match reset: an update that emits an opportunity leaves both
/// venues' slots empty until the next update.
pub proof fn lemma_post_match_reset(
    s: StoreView,
    venue: VenueId,
    asks: Option<Seq<PriceLevel>>,
    bids: Option<Seq<PriceLevel>>,
)
    ensures
        ({
            let (result, state) = update_outcome(s, venue, asks, bids);
            (result matches Ok(found) && found is Some) ==> state == empty_store()
        }),
{
}

/// An emitted opportunity is genuine: it is bought on one venue and sold on
/// the other, at a positive, exactly matched quantity, and the sell price
/// strictly exceeds the buy price — emission never overstates what the two
/// books hold.
pub proof fn lemma_emission_is_genuine(venue_a: BookView, venue_b: BookView)
    ensures
        detect_spec(venue_a, venue_b) matches Some(op) ==> op.sell_price@ > op.buy_price@
            && op.quantity@ > 0 && op.buy_venue == other_venue(op.sell_venue),
{
    match (venue_b.bids, venue_a.asks) {
        (Some(bids), Some(asks)) => lemma_first_pair_match_characterization(bids, asks, 0),
        _ => (),
    }
    match (venue_a.bids, venue_b.asks) {
        (Some(bids), Some(asks)) => lemma_first_pair_match_characterization(bids, asks, 0),
        _ => (),
    }
}

/// An opportunity as the opposite orientation of the venues reports it:
/// the venue labels swapped, prices and quantity unchanged.
pub open spec fn swap_opportunity(op: Opportunity) -> Opportunity {
    Opportunity {
        buy_venue: other_venue(op.buy_venue),
        sell_venue: other_venue(op.sell_venue),
        buy_price: op.buy_price,
        sell_price: op.sell_price,
        quantity: op.quantity,
    }
}

/// One direction's emission depends on the venue labels only through the
/// labels it stamps on the opportunity.
proof fn lemma_direction_swap(
    buy: VenueId,
    sell: VenueId,
    sell_bids: Option<Seq<PriceLevel>>,
    buy_asks: Option<Seq<PriceLevel>>,
)
    ensures
        direction_opportunity(other_venue(buy), other_venue(sell), sell_bids, buy_asks) == match direction_opportunity(
            buy,
            sell,
            sell_bids,
            buy_asks,
        ) {
            Some(op) => Some(swap_opportunity(op)),
            None => None::<Opportunity>,
        },
{
}

/// Direction symmetry: handing the detector the two venues' data the other
/// way round swaps the venue labels in the outcome and changes nothing
/// else — provided at most one direction has a qualifying pair. (Where both
/// directions qualify independently, each orientation emits its own first
/// direction's match, and the outcomes differ by more than the labels.)
pub proof fn lemma_direction_symmetry(venue_a: BookView, venue_b: BookView)
    requires
        direction_opportunity(VenueId::A, VenueId::B, venue_b.bids, venue_a.asks) is None
            || direction_opportunity(VenueId::B, VenueId::A, venue_a.bids, venue_b.asks) is None,
    ensures
        detect_spec(venue_b, venue_a) == match detect_spec(venue_a, venue_b) {
            Some(op) => Some(swap_opportunity(op)),
            None => None::<Opportunity>,
        },
{
    lemma_direction_swap(VenueId::B, VenueId::A, venue_a.bids, venue_b.asks);
    lemma_direction_swap(VenueId::A, VenueId::B, venue_b.bids, venue_a.asks);
}

/// Partial state yields no match: while either required side of each
/// direction is unknown — say, one venue has only bids and the other venue
/// nothing at all — a detection pass emits nothing, whatever the values.
pub proof fn lemma_partial_state_no_match(venue_a: BookView, venue_b: BookView)
    requires
        venue_b.bids is None || venue_a.asks is None,
        venue_a.bids is None || venue_b.asks is None,
    ensures
        detect_spec(venue_a, venue_b) is None,
{
}

} // verus!
