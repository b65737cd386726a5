//! The venue state store: the latest known book per venue, updated and
//! inspected as one unit.
//!
//! The store owns both venues' slots together, so a caller holding it
//! exclusively (`&mut`, or one lock around the whole store) can never see
//! one venue's slot half-written while the other is read: `update` writes
//! the named venue's slot, runs a detection pass over the combined state,
//! and — on a match — resets both slots, all in one exclusive call.

use crate::book::{empty_book, BookView, Opportunity, PriceLevel, VenueBook, VenueId};
use crate::detect::{detect, detect_spec};
use vstd::prelude::*;

verus! {

/// Why an update was rejected. Rejection is local and recoverable: the
/// store is left exactly as it was, and the next update proceeds normally.
#[derive(Clone, Copy, PartialEq, Eq, Structural, Debug)]
pub enum UpdateError {
    /// The venue label names neither venue.
    UnknownVenue,
    /// A submitted level carries a negative price or a negative quantity.
    MalformedLevel,
}

/// A price level with a non-negative price and quantity.
pub open spec fn level_ok(level: PriceLevel) -> bool {
    level.price@ >= 0 && level.quantity@ >= 0
}

/// Every level of a sequence is well-formed.
pub open spec fn levels_ok(levels: Seq<PriceLevel>) -> bool {
    forall|k: int| 0 <= k < levels.len() ==> level_ok(#[trigger] levels[k])
}

/// Every level of a side is well-formed; an unknown side carries nothing.
pub open spec fn side_ok(side: Option<Seq<PriceLevel>>) -> bool {
    match side {
        Some(levels) => levels_ok(levels),
        None => true,
    }
}

/// The mathematical state of the store: both venues' books.
pub struct StoreView {
    pub venue_a: BookView,
    pub venue_b: BookView,
}

/// Both venues unknown, as at start and after a reset.
pub open spec fn empty_store() -> StoreView {
    StoreView { venue_a: empty_book(), venue_b: empty_book() }
}

/// The store with the named venue's slot replaced wholesale — both sides
/// overwritten by what the update carries, a `None` side becoming unknown —
/// and the other venue's slot untouched.
pub open spec fn store_after_write(
    s: StoreView,
    venue: VenueId,
    asks: Option<Seq<PriceLevel>>,
    bids: Option<Seq<PriceLevel>>,
) -> StoreView {
    match venue {
        VenueId::A => StoreView { venue_a: BookView { asks, bids }, venue_b: s.venue_b },
        VenueId::B => StoreView { venue_a: s.venue_a, venue_b: BookView { asks, bids } },
    }
}

/// The complete outcome of one update call on a store in state `s`: what is
/// returned, and the state the store is left in.
///
/// A malformed level rejects the whole update and changes nothing. Otherwise
/// the named venue's slot is replaced and a detection pass runs on the
/// combined state: a match empties both slots and is returned; no match
/// leaves the written state in place.
pub open spec fn update_outcome(
    s: StoreView,
    venue: VenueId,
    asks: Option<Seq<PriceLevel>>,
    bids: Option<Seq<PriceLevel>>,
) -> (Result<Option<Opportunity>, UpdateError>, StoreView) {
    if !(side_ok(asks) && side_ok(bids)) {
        (Err(UpdateError::MalformedLevel), s)
    } else {
        let written = store_after_write(s, venue, asks, bids);
        match detect_spec(written.venue_a, written.venue_b) {
            Some(op) => (Ok(Some(op)), empty_store()),
            None => (Ok(None), written),
        }
    }
}

/// The latest known book per venue. Holds both slots as one unit: mutation
/// goes through `&mut self`, so a detection pass always observes a
/// consistent pair of books.
pub struct VenueStore {
    venue_a: VenueBook,
    venue_b: VenueBook,
}

impl View for VenueStore {
    type V = StoreView;

    closed spec fn view(&self) -> StoreView {
        StoreView { venue_a: self.venue_a@, venue_b: self.venue_b@ }
    }
}

/// Every level of a side the update carries is well-formed.
fn side_valid(side: &Option<Vec<PriceLevel>>) -> (r: bool)
    ensures
        r == side_ok(crate::book::side_view(*side)),
{
    match side {
        Some(levels) => {
            let mut k: usize = 0;
            while k < levels.len()
                invariant
                    k <= levels@.len(),
                    crate::book::side_view(*side) == Some(levels@),
                    forall|m: int| 0 <= m < k ==> level_ok(#[trigger] levels@[m]),
                decreases levels@.len() - k,
            {
                if levels[k].price.is_negative() || levels[k].quantity.is_negative() {
                    proof {
                        assert(!level_ok(levels@[k as int]));
                    }
                    return false;
                }
                k = k + 1;
            }
            true
        },
        None => true,
    }
}

impl VenueStore {
    /// A store with both venues unknown.
    pub fn new() -> (r: VenueStore)
        ensures
            r@ == empty_store(),
    {
        VenueStore { venue_a: VenueBook::new(), venue_b: VenueBook::new() }
    }

    /// Both venues' current books, for inspection between updates.
    pub fn snapshot_all(&self) -> (r: (&VenueBook, &VenueBook))
        ensures
            r.0@ == self@.venue_a,
            r.1@ == self@.venue_b,
    {
        (&self.venue_a, &self.venue_b)
    }

    /// Clear both venues' slots, forcing fresh data before the next
    /// detection.
    pub fn reset_all(&mut self)
        ensures
            final(self)@ == empty_store(),
    {
        self.venue_a = VenueBook::new();
        self.venue_b = VenueBook::new();
    }

    /// Replace the named venue's book wholesale — a `None` side becomes
    /// unknown — then run one detection pass on the combined state. A match
    /// is returned and both slots are emptied; otherwise the written state
    /// stays. An update carrying a level with negative price or quantity is
    /// rejected whole: the store keeps its previously-held state.
    pub fn update(
        &mut self,
        venue: VenueId,
        asks: Option<Vec<PriceLevel>>,
        bids: Option<Vec<PriceLevel>>,
    ) -> (r: Result<Option<Opportunity>, UpdateError>)
        ensures
            ({
                let (result, state) = update_outcome(
                    old(self)@,
                    venue,
                    crate::book::side_view(asks),
                    crate::book::side_view(bids),
                );
                r == result && final(self)@ == state
            }),
    {
        if !(side_valid(&asks) && side_valid(&bids)) {
            return Err(UpdateError::MalformedLevel);
        }
        match venue {
            VenueId::A => {
                self.venue_a = VenueBook { asks, bids };
            },
            VenueId::B => {
                self.venue_b = VenueBook { asks, bids };
            },
        }
        let found = detect(&self.venue_a, &self.venue_b);
        if found.is_some() {
            self.reset_all();
        }
        Ok(found)
    }

    /// `update`, with the venue picked by its label character. A label that
    /// names neither venue is a usage error: it is rejected and nothing —
    /// not even previously-held state — changes.
    pub fn submit_update(
        &mut self,
        venue_label: char,
        asks: Option<Vec<PriceLevel>>,
        bids: Option<Vec<PriceLevel>>,
    ) -> (r: Result<Option<Opportunity>, UpdateError>)
        ensures
            match VenueId::from_label_spec(venue_label) {
                Some(venue) => ({
                    let (result, state) = update_outcome(
                        old(self)@,
                        venue,
                        crate::book::side_view(asks),
                        crate::book::side_view(bids),
                    );
                    r == result && final(self)@ == state
                }),
                None => r == Err::<Option<Opportunity>, UpdateError>(UpdateError::UnknownVenue)
                    && final(self)@ == old(self)@,
            },
    {
        match VenueId::from_label(venue_label) {
            Some(venue) => self.update(venue, asks, bids),
            None => Err(UpdateError::UnknownVenue),
        }
    }
}

} // verus!
