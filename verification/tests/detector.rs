use arbitrage::book::{PriceLevel, VenueBook, VenueId};
use arbitrage::decimal::Decimal;
use arbitrage::detect::detect;
use arbitrage::store::{UpdateError, VenueStore};

fn level(price: i64, quantity: i64) -> PriceLevel {
    PriceLevel { price: Decimal::new(price, 0), quantity: Decimal::new(quantity, 0) }
}

#[test]
fn first_direction_match_is_emitted() {
    // Venue A asks 100 x 2; venue B bids 101 x 2: buy on A, sell on B.
    let mut store = VenueStore::new();
    let first = store.update(VenueId::A, Some(vec![level(100, 2)]), Some(vec![]));
    assert_eq!(first, Ok(None));
    let second = store.update(VenueId::B, Some(vec![]), Some(vec![level(101, 2)]));
    let op = second.unwrap().unwrap();
    assert_eq!(op.buy_venue, VenueId::A);
    assert_eq!(op.sell_venue, VenueId::B);
    assert_eq!(op.buy_price, Decimal::new(100, 0));
    assert_eq!(op.sell_price, Decimal::new(101, 0));
    assert_eq!(op.quantity, Decimal::new(2, 0));
}

#[test]
fn second_direction_match_is_emitted() {
    // Venue A bids 50 x 1; venue B asks 49 x 1: buy on B, sell on A.
    let mut store = VenueStore::new();
    let first = store.update(VenueId::A, Some(vec![]), Some(vec![level(50, 1)]));
    assert_eq!(first, Ok(None));
    let second = store.update(VenueId::B, Some(vec![level(49, 1)]), Some(vec![]));
    let op = second.unwrap().unwrap();
    assert_eq!(op.buy_venue, VenueId::B);
    assert_eq!(op.sell_venue, VenueId::A);
    assert_eq!(op.buy_price, Decimal::new(49, 0));
    assert_eq!(op.sell_price, Decimal::new(50, 0));
    assert_eq!(op.quantity, Decimal::new(1, 0));
}

#[test]
fn non_crossing_prices_do_not_match() {
    // Venue A asks 100 x 2; venue B bids 99 x 2: 99 < 100 is not profitable.
    let mut store = VenueStore::new();
    assert_eq!(store.update(VenueId::A, Some(vec![level(100, 2)]), Some(vec![])), Ok(None));
    assert_eq!(store.update(VenueId::B, Some(vec![]), Some(vec![level(99, 2)])), Ok(None));
    // The written state stays in place after a pass without a match.
    let (venue_a, venue_b) = store.snapshot_all();
    assert_eq!(venue_a.asks.as_ref().map(Vec::len), Some(1));
    assert_eq!(venue_b.bids.as_ref().map(Vec::len), Some(1));
}

#[test]
fn unequal_quantities_do_not_match() {
    // Crossing prices, but 2 != 3: no partial fills.
    let mut store = VenueStore::new();
    assert_eq!(store.update(VenueId::A, Some(vec![level(100, 2)]), Some(vec![])), Ok(None));
    assert_eq!(store.update(VenueId::B, Some(vec![]), Some(vec![level(101, 3)])), Ok(None));
}

#[test]
fn zero_quantity_levels_do_not_match() {
    // Crossing prices at quantity zero stay degenerate.
    let mut store = VenueStore::new();
    assert_eq!(store.update(VenueId::A, Some(vec![level(10, 0)]), Some(vec![])), Ok(None));
    assert_eq!(store.update(VenueId::B, Some(vec![]), Some(vec![level(20, 0)])), Ok(None));
}

#[test]
fn exact_quantity_gate_rejects_near_matches() {
    // A bid of 1.5 and an ask of 1.50000001 at a crossing price: no match.
    let bid = PriceLevel { price: Decimal::new(101, 0), quantity: Decimal::new(15, 1) };
    let ask = PriceLevel { price: Decimal::new(100, 0), quantity: Decimal::new(150000001, 8) };
    let mut store = VenueStore::new();
    assert_eq!(store.update(VenueId::A, Some(vec![ask]), Some(vec![])), Ok(None));
    assert_eq!(store.update(VenueId::B, Some(vec![]), Some(vec![bid])), Ok(None));
}

#[test]
fn exact_quantity_gate_accepts_equal_values_at_any_scale() {
    // 1.5 and 1.50 are the same quantity, so these match.
    let bid = PriceLevel { price: Decimal::new(101, 0), quantity: Decimal::new(15, 1) };
    let ask = PriceLevel { price: Decimal::new(100, 0), quantity: Decimal::new(150, 2) };
    let mut store = VenueStore::new();
    assert_eq!(store.update(VenueId::A, Some(vec![ask]), Some(vec![])), Ok(None));
    let op = store.update(VenueId::B, Some(vec![]), Some(vec![bid])).unwrap().unwrap();
    assert_eq!(op.quantity, Decimal::new(15, 1));
}

#[test]
fn first_match_in_scan_order_wins() {
    // Two independently valid matches; the one met first in
    // (sell-venue bids x buy-venue asks) order is emitted.
    let asks = vec![level(100, 2), level(90, 3)];
    let bids = vec![level(95, 3), level(101, 2)];
    // bids[0] x asks[1] qualifies and comes before bids[1] x asks[0].
    let mut store = VenueStore::new();
    assert_eq!(store.update(VenueId::A, Some(asks), Some(vec![])), Ok(None));
    let op = store.update(VenueId::B, Some(vec![]), Some(bids)).unwrap().unwrap();
    assert_eq!(op.buy_price, Decimal::new(90, 0));
    assert_eq!(op.sell_price, Decimal::new(95, 0));
    assert_eq!(op.quantity, Decimal::new(3, 0));
}

#[test]
fn match_resets_both_venues() {
    let mut store = VenueStore::new();
    store.update(VenueId::A, Some(vec![level(100, 2)]), Some(vec![])).unwrap();
    let emitted = store.update(VenueId::B, Some(vec![]), Some(vec![level(101, 2)])).unwrap();
    assert!(emitted.is_some());
    let (venue_a, venue_b) = store.snapshot_all();
    assert!(venue_a.asks.is_none());
    assert!(venue_a.bids.is_none());
    assert!(venue_b.asks.is_none());
    assert!(venue_b.bids.is_none());
}

#[test]
fn no_reemission_on_stale_data() {
    // After the reset, repeating one venue's update alone finds nothing:
    // the other venue's stale data is gone.
    let mut store = VenueStore::new();
    store.update(VenueId::A, Some(vec![level(100, 2)]), Some(vec![])).unwrap();
    assert!(store.update(VenueId::B, Some(vec![]), Some(vec![level(101, 2)])).unwrap().is_some());
    let again = store.update(VenueId::B, Some(vec![]), Some(vec![level(101, 2)]));
    assert_eq!(again, Ok(None));
}

#[test]
fn swapped_venues_swap_the_labels() {
    // The mirror of first_direction_match_is_emitted: the same books handed
    // to the opposite venues yield the same opportunity with swapped labels.
    let mut store = VenueStore::new();
    assert_eq!(store.update(VenueId::B, Some(vec![level(100, 2)]), Some(vec![])), Ok(None));
    let op = store.update(VenueId::A, Some(vec![]), Some(vec![level(101, 2)])).unwrap().unwrap();
    assert_eq!(op.buy_venue, VenueId::B);
    assert_eq!(op.sell_venue, VenueId::A);
    assert_eq!(op.buy_price, Decimal::new(100, 0));
    assert_eq!(op.sell_price, Decimal::new(101, 0));
    assert_eq!(op.quantity, Decimal::new(2, 0));
}

#[test]
fn partial_state_never_matches() {
    // Venue A has bids only, venue B nothing at all: no emission.
    let mut store = VenueStore::new();
    assert_eq!(store.update(VenueId::A, None, Some(vec![level(50, 1)])), Ok(None));
    assert_eq!(store.update(VenueId::A, None, Some(vec![level(1000000, 1)])), Ok(None));
    let (venue_a, venue_b) = store.snapshot_all();
    assert!(venue_a.asks.is_none());
    assert!(venue_a.bids.is_some());
    assert!(venue_b.asks.is_none());
    assert!(venue_b.bids.is_none());
}

#[test]
fn empty_side_is_known_but_matches_nothing() {
    // A present-but-empty sequence is "known: no levels", not unknown.
    let mut store = VenueStore::new();
    assert_eq!(store.update(VenueId::A, Some(vec![]), Some(vec![])), Ok(None));
    let (venue_a, _) = store.snapshot_all();
    assert_eq!(venue_a.asks.as_ref().map(Vec::len), Some(0));
    assert_eq!(venue_a.bids.as_ref().map(Vec::len), Some(0));
}

#[test]
fn unknown_venue_label_is_rejected() {
    let mut store = VenueStore::new();
    let r = store.submit_update('x', Some(vec![level(100, 2)]), Some(vec![]));
    assert_eq!(r, Err(UpdateError::UnknownVenue));
    // Nothing was written.
    let (venue_a, venue_b) = store.snapshot_all();
    assert!(venue_a.asks.is_none() && venue_a.bids.is_none());
    assert!(venue_b.asks.is_none() && venue_b.bids.is_none());
}

#[test]
fn known_venue_labels_route_the_update() {
    let mut store = VenueStore::new();
    assert_eq!(store.submit_update('a', Some(vec![level(100, 2)]), Some(vec![])), Ok(None));
    let op = store.submit_update('b', Some(vec![]), Some(vec![level(101, 2)])).unwrap().unwrap();
    assert_eq!(op.buy_venue, VenueId::A);
    assert_eq!(op.sell_venue, VenueId::B);
}

#[test]
fn venue_labels_parse() {
    assert_eq!(VenueId::from_label('a'), Some(VenueId::A));
    assert_eq!(VenueId::from_label('b'), Some(VenueId::B));
    assert_eq!(VenueId::from_label('c'), None);
    assert_eq!(VenueId::from_label('A'), None);
}

#[test]
fn negative_price_rejects_the_update() {
    let mut store = VenueStore::new();
    assert_eq!(store.update(VenueId::A, Some(vec![level(100, 2)]), Some(vec![])), Ok(None));
    let bad = PriceLevel { price: Decimal::new(-101, 0), quantity: Decimal::new(2, 0) };
    let r = store.update(VenueId::B, Some(vec![]), Some(vec![bad]));
    assert_eq!(r, Err(UpdateError::MalformedLevel));
    // Previously-held valid state is not poisoned: a valid crossing bid
    // still matches against venue A's kept asks.
    let op = store.update(VenueId::B, Some(vec![]), Some(vec![level(101, 2)])).unwrap().unwrap();
    assert_eq!(op.buy_price, Decimal::new(100, 0));
}

#[test]
fn negative_quantity_rejects_the_update() {
    let mut store = VenueStore::new();
    let bad = PriceLevel { price: Decimal::new(10, 0), quantity: Decimal::new(-2, 0) };
    let r = store.update(VenueId::A, Some(vec![bad]), Some(vec![]));
    assert_eq!(r, Err(UpdateError::MalformedLevel));
    let (venue_a, _) = store.snapshot_all();
    assert!(venue_a.asks.is_none());
}

#[test]
fn detect_runs_on_plain_books() {
    let venue_a = VenueBook { asks: Some(vec![level(100, 2)]), bids: None };
    let venue_b = VenueBook { asks: None, bids: Some(vec![level(101, 2)]) };
    let op = detect(&venue_a, &venue_b).unwrap();
    assert_eq!(op.buy_venue, VenueId::A);
    assert_eq!(op.sell_venue, VenueId::B);
    assert_eq!(op.buy_price, Decimal::new(100, 0));

    let empty = VenueBook { asks: None, bids: None };
    assert!(detect(&empty, &venue_b).is_none());
}

#[test]
fn first_direction_takes_precedence() {
    // Both directions hold a qualifying pair; only the first direction's
    // (venue B bids x venue A asks) opportunity is emitted.
    let venue_a = VenueBook { asks: Some(vec![level(100, 2)]), bids: Some(vec![level(50, 1)]) };
    let venue_b = VenueBook { asks: Some(vec![level(49, 1)]), bids: Some(vec![level(101, 2)]) };
    let op = detect(&venue_a, &venue_b).unwrap();
    assert_eq!(op.buy_venue, VenueId::A);
    assert_eq!(op.sell_venue, VenueId::B);
    assert_eq!(op.quantity, Decimal::new(2, 0));
}
