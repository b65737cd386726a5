//! Order-book data for one venue, and the opportunity record.

use crate::decimal::Decimal;
use vstd::prelude::*;

verus! {

/// One ask or bid entry: a price and the quantity offered or wanted at it.
#[derive(Clone, Copy, PartialEq, Eq, Structural, Debug)]
pub struct PriceLevel {
    pub price: Decimal,
    pub quantity: Decimal,
}

/// The two venues, identified by fixed labels.
#[derive(Clone, Copy, PartialEq, Eq, Structural, Debug)]
pub enum VenueId {
    A,
    B,
}

/// The other venue.
pub open spec fn other_venue(v: VenueId) -> VenueId {
    match v {
        VenueId::A => VenueId::B,
        VenueId::B => VenueId::A,
    }
}

impl VenueId {
    /// The venue named by a label character: `'a'` and `'b'`, or nothing.
    pub open spec fn from_label_spec(label: char) -> Option<VenueId> {
        if label == 'a' {
            Some(VenueId::A)
        } else if label == 'b' {
            Some(VenueId::B)
        } else {
            None
        }
    }

    /// Parse a venue label; `None` marks an unknown venue.
    pub fn from_label(label: char) -> (r: Option<VenueId>)
        ensures
            r == VenueId::from_label_spec(label),
    {
        if label == 'a' {
            Some(VenueId::A)
        } else if label == 'b' {
            Some(VenueId::B)
        } else {
            None
        }
    }
}

/// The latest known order-book state of one venue. Either side may be
/// unknown (`None`) independently of the other: ask and bid updates can
/// arrive in different messages. A present but empty side means
/// "known: no levels", which is different from unknown.
#[derive(Clone, Debug)]
pub struct VenueBook {
    pub asks: Option<Vec<PriceLevel>>,
    pub bids: Option<Vec<PriceLevel>>,
}

/// The mathematical state of one venue's book.
pub struct BookView {
    pub asks: Option<Seq<PriceLevel>>,
    pub bids: Option<Seq<PriceLevel>>,
}

/// The view of one side of a book.
pub open spec fn side_view(side: Option<Vec<PriceLevel>>) -> Option<Seq<PriceLevel>> {
    match side {
        Some(levels) => Some(levels@),
        None => None,
    }
}

impl View for VenueBook {
    type V = BookView;

    open spec fn view(&self) -> BookView {
        BookView { asks: side_view(self.asks), bids: side_view(self.bids) }
    }
}

/// A book with both sides unknown, as at start and after a reset.
pub open spec fn empty_book() -> BookView {
    BookView { asks: None, bids: None }
}

impl VenueBook {
    /// A book with both sides unknown.
    pub fn new() -> (r: VenueBook)
        ensures
            r@ == empty_book(),
    {
        VenueBook { asks: None, bids: None }
    }
}

/// A detected arbitrage opportunity: buy `quantity` on `buy_venue` at
/// `buy_price`, sell the same quantity on `sell_venue` at the strictly
/// higher `sell_price`.
#[derive(Clone, Copy, PartialEq, Eq, Structural, Debug)]
pub struct Opportunity {
    pub buy_venue: VenueId,
    pub sell_venue: VenueId,
    pub buy_price: Decimal,
    pub sell_price: Decimal,
    pub quantity: Decimal,
}

} // verus!
