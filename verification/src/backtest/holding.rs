//! The position that a replay keeps per symbol, in whole contracts.

use vstd::prelude::*;

use crate::domain::market::Side;
use crate::num::Binary64;

verus! {

/// A signed number of contracts and the price they were entered at.
#[derive(Clone, Copy, Debug, PartialEq, Eq, Structural)]
pub struct Holding {
    /// Contracts held: positive is long, negative is short, zero is flat.
    pub qty: i128,
    /// Average entry price; none while flat.
    pub entry: Option<Binary64>,
}

/// What a fill did to a holding.
#[derive(Clone, Copy, Debug, PartialEq, Eq, Structural)]
pub struct FillEffect {
    /// Contracts that reduced the position held before.
    pub closing: u128,
    /// Contracts that opened or enlarged a position.
    pub opening: u128,
    /// Entry price of the contracts that were closed, if any were.
    pub closed_entry: Option<Binary64>,
    /// The holding after the fill.
    pub holding: Holding,
}

/// Change in the signed quantity that a fill brings.
pub open spec fn signed(side: Side, qty: int) -> int {
    match side {
        Side::Buy => qty,
        Side::Sell => -qty,
    }
}

/// Size of a signed quantity.
pub open spec fn size_of(qty: int) -> int {
    if qty < 0 {
        -qty
    } else {
        qty
    }
}

/// Whether two signed quantities point the same way.
pub open spec fn same_direction(a: int, b: int) -> bool {
    (a > 0 && b > 0) || (a < 0 && b < 0)
}

/// Contracts of a fill that reduce the position held before it: those that
/// point against it, and no more than there are.
pub open spec fn closing_part(old: int, side: Side, qty: int) -> int {
    if old == 0 || same_direction(old, signed(side, qty)) {
        0
    } else if size_of(old) < qty {
        size_of(old)
    } else {
        qty
    }
}

impl Holding {
    /// Nothing held.
    pub open spec fn spec_flat() -> Self {
        Holding { qty: 0, entry: None }
    }

    /// A position has an entry price, and a flat holding has none.
    pub open spec fn is_sound(self) -> bool {
        self.qty == 0 <==> self.entry is None
    }

    /// Entry price after a fill: none when flat, the fill price of a position
    /// that starts with this fill, the average handed in when an existing
    /// position grows, and the old one otherwise.
    pub open spec fn entry_after(
        self,
        side: Side,
        qty: int,
        price: Binary64,
        averaged: Binary64,
    ) -> Option<Binary64> {
        let closing = closing_part(self.qty as int, side, qty);
        let left = self.qty + signed(side, closing);
        if self.qty + signed(side, qty) == 0 {
            None
        } else if closing == qty {
            self.entry
        } else if left == 0 {
            Some(price)
        } else {
            Some(averaged)
        }
    }

    /// Whether a fill enlarges an existing position, so that its entry price
    /// becomes an average.
    pub open spec fn grows_by(self, side: Side, qty: int) -> bool {
        same_direction(self.qty as int, signed(side, qty))
    }

    /// The holding after a fill.
    pub open spec fn after_fill(
        self,
        side: Side,
        qty: int,
        price: Binary64,
        averaged: Binary64,
    ) -> Self {
        Holding {
            qty: (self.qty + signed(side, qty)) as i128,
            entry: self.entry_after(side, qty, price, averaged),
        }
    }

    /// Nothing held.
    pub fn flat() -> (r: Self)
        ensures
            r == Self::spec_flat(),
            r.is_sound(),
    {
        Holding { qty: 0, entry: None }
    }

    /// Whether nothing is held.
    pub fn is_flat(&self) -> (r: bool)
        ensures
            r == (self.qty == 0),
    {
        self.qty == 0
    }

    /// Side that closes the holding, if there is anything to close.
    pub open spec fn spec_close_side(self) -> Option<Side> {
        if self.qty > 0 {
            Some(Side::Sell)
        } else if self.qty < 0 {
            Some(Side::Buy)
        } else {
            None
        }
    }

    /// Side that closes the holding; `None` while flat.
    pub fn close_side(&self) -> (r: Option<Side>)
        ensures
            r == self.spec_close_side(),
    {
        if self.qty > 0 {
            Some(Side::Sell)
        } else if self.qty < 0 {
            Some(Side::Buy)
        } else {
            None
        }
    }

    /// Number of contracts held, whichever way.
    pub fn size(&self) -> (r: u128)
        requires
            self.qty > i128::MIN,
        ensures
            r == size_of(self.qty as int),
    {
        if self.qty < 0 {
            (-self.qty) as u128
        } else {
            self.qty as u128
        }
    }

    /// Whether a fill of at least one contract would enlarge the position, so
    /// that [`Self::apply_fill`] needs the averaged entry price.
    pub fn needs_average(&self, side: Side, qty: u128) -> (r: bool)
        requires
            qty > 0,
        ensures
            r == self.grows_by(side, qty as int),
    {
        match side {
            Side::Buy => self.qty > 0,
            Side::Sell => self.qty < 0,
        }
    }

    /// Apply a fill of at least one contract.
    ///
    /// `averaged` is the entry price weighted over the old position and this
    /// fill; it is used only where the fill enlarges the position.
    pub fn apply_fill(&self, side: Side, qty: u128, price: Binary64, averaged: Binary64) -> (r:
        FillEffect)
        requires
            self.is_sound(),
            qty > 0,
            size_of(self.qty as int) + qty <= i128::MAX,
        ensures
            r.closing == closing_part(self.qty as int, side, qty as int),
            r.opening == qty - r.closing,
            r.closed_entry == (if r.closing > 0 {
                self.entry
            } else {
                None
            }),
            r.holding == self.after_fill(side, qty as int, price, averaged),
            r.holding.qty == self.qty + signed(side, qty as int),
            r.holding.is_sound(),
    {
        let delta: i128 = match side {
            Side::Buy => qty as i128,
            Side::Sell => -(qty as i128),
        };
        let old_size: u128 = self.size();
        let against = (self.qty > 0 && delta < 0) || (self.qty < 0 && delta > 0);
        let closing: u128 = if !against {
            0
        } else if old_size < qty {
            old_size
        } else {
            qty
        };
        let opening: u128 = qty - closing;
        let new_qty: i128 = self.qty + delta;
        let entry = if new_qty == 0 {
            None
        } else if opening == 0 {
            self.entry
        } else if closing > 0 || self.qty == 0 {
            Some(price)
        } else {
            Some(averaged)
        };
        let closed_entry = if closing > 0 {
            self.entry
        } else {
            None
        };
        FillEffect { closing, opening, closed_entry, holding: Holding { qty: new_qty, entry } }
    }
}

/// A fill is split without remainder, closes no more than is held, and opens
/// nothing while any of the old position is left to close.
pub proof fn fill_splits_exactly(h: Holding, side: Side, qty: int)
    requires
        qty > 0,
    ensures
        0 <= closing_part(h.qty as int, side, qty) <= qty,
        closing_part(h.qty as int, side, qty) <= size_of(h.qty as int),
        closing_part(h.qty as int, side, qty) == qty || closing_part(h.qty as int, side, qty) == 0
            || h.qty + signed(side, closing_part(h.qty as int, side, qty)) == 0,
{
}

/// Filling the closing side for the whole size leaves nothing held.
pub proof fn closing_fill_flattens(h: Holding, price: Binary64, averaged: Binary64)
    requires
        h.spec_close_side() is Some,
    ensures
        h.after_fill(h.spec_close_side()->0, size_of(h.qty as int), price, averaged)
            == Holding::spec_flat(),
        closing_part(h.qty as int, h.spec_close_side()->0, size_of(h.qty as int)) == size_of(
            h.qty as int,
        ),
{
}

/// A fill against a smaller position turns it round: the old position is
/// closed in full, and the rest is a new one entered at the fill price.
pub proof fn flip_enters_at_the_fill(h: Holding, side: Side, qty: int, price: Binary64, averaged: Binary64)
    requires
        h.spec_close_side() == Some(side),
        size_of(h.qty as int) < qty <= i128::MAX,
    ensures
        closing_part(h.qty as int, side, qty) == size_of(h.qty as int),
        h.after_fill(side, qty, price, averaged).entry == Some(price),
        same_direction(h.after_fill(side, qty, price, averaged).qty as int, signed(side, qty)),
{
}

/// Reducing a position leaves its entry price as it was.
pub proof fn reducing_keeps_the_entry(h: Holding, side: Side, qty: int, price: Binary64, averaged: Binary64)
    requires
        h.spec_close_side() == Some(side),
        0 < qty < size_of(h.qty as int),
    ensures
        h.after_fill(side, qty, price, averaged).entry == h.entry,
        same_direction(h.after_fill(side, qty, price, averaged).qty as int, h.qty as int),
{
}

/// A fill asks for an averaged entry price exactly where it adds to a position
/// on its own side.
pub proof fn averages_are_for_growing_positions(h: Holding, side: Side, qty: int)
    requires
        0 < qty,
    ensures
        h.grows_by(side, qty) <==> side == Side::Buy && h.qty > 0 || side == Side::Sell && h.qty < 0,
{
}

} // verus!
