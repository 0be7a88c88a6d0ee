//! Virtual reserves per asset, and the price they imply.
//!
//! The reserves of an asset start at two fixed amounts when the asset is
//! first seen and move with every observed purchase: what the buyer pays is
//! added to the SOL side, what the buyer receives is taken from the token
//! side. Both sides are unsigned and neither ever wraps.

use vstd::hash_map::StringHashMap;
use vstd::prelude::*;

verus! {

/// Virtual SOL reserves of a newly created asset, in lamports.
pub const INITIAL_VIRTUAL_SOL_RESERVES: u64 = 30_000_000_000;

/// Virtual token reserves of a newly created asset, in the token's smallest
/// unit.
pub const INITIAL_VIRTUAL_TOKEN_RESERVES: u64 = 1_073_000_000_000_000;

/// The virtual reserves of one asset.
#[derive(Clone, Copy, Debug, PartialEq, Eq, Structural)]
pub struct TokenReserves {
    /// Lamports on the SOL side.
    pub virtual_sol_reserves: u64,
    /// Smallest token units on the token side.
    pub virtual_token_reserves: u64,
}

/// A price as an exact ratio: `lamports` for `token_units`.
///
/// In whole units it is `(lamports / 10^9) / (token_units / 10^6)` SOL for
/// one token. With no token units the price is unbounded; with no lamports
/// it is not positive.
#[derive(Clone, Copy, Debug, PartialEq, Eq, Structural)]
pub struct Price {
    pub lamports: u64,
    pub token_units: u64,
}

/// The price assumed for an asset whose reserves are not known: 0.000000033
/// SOL for one token.
pub open spec fn spec_default_price() -> Price {
    Price { lamports: 33, token_units: 1_000_000 }
}

/// The price assumed for an asset whose reserves are not known.
pub fn default_price() -> (p: Price)
    ensures
        p == spec_default_price(),
{
    Price { lamports: 33, token_units: 1_000_000 }
}

/// The reserves of an asset when it is first seen.
pub open spec fn spec_initial_reserves() -> TokenReserves {
    TokenReserves {
        virtual_sol_reserves: INITIAL_VIRTUAL_SOL_RESERVES,
        virtual_token_reserves: INITIAL_VIRTUAL_TOKEN_RESERVES,
    }
}

/// The SOL side after `sol_amount` lamports came in: the sum, or the largest
/// `u64` where the sum is beyond it.
pub open spec fn spec_sol_after(sol_reserves: int, sol_amount: int) -> int {
    if sol_reserves + sol_amount > u64::MAX {
        u64::MAX as int
    } else {
        sol_reserves + sol_amount
    }
}

/// The token side after `token_amount` units went out: the difference, or
/// the side as it was where the amount is more than it holds.
pub open spec fn spec_tokens_after(token_reserves: int, token_amount: int) -> int {
    if token_amount <= token_reserves {
        token_reserves - token_amount
    } else {
        token_reserves
    }
}

/// The reserves after one purchase.
pub open spec fn spec_traded(
    reserves: TokenReserves,
    token_amount: u64,
    sol_amount: u64,
) -> TokenReserves {
    TokenReserves {
        virtual_sol_reserves: spec_sol_after(
            reserves.virtual_sol_reserves as int,
            sol_amount as int,
        ) as u64,
        virtual_token_reserves: spec_tokens_after(
            reserves.virtual_token_reserves as int,
            token_amount as int,
        ) as u64,
    }
}

/// The price that reserves imply.
pub open spec fn spec_price_of(reserves: TokenReserves) -> Price {
    Price { lamports: reserves.virtual_sol_reserves, token_units: reserves.virtual_token_reserves }
}

/// The known assets after a creation of `asset`: a new entry with the
/// initial reserves, or no change where the asset is known already.
pub open spec fn spec_created(
    known: Map<Seq<char>, TokenReserves>,
    asset: Seq<char>,
) -> Map<Seq<char>, TokenReserves> {
    if known.contains_key(asset) {
        known
    } else {
        known.insert(asset, spec_initial_reserves())
    }
}

/// The known assets after a purchase of `asset`: its reserves moved, or no
/// change where the asset is not known.
pub open spec fn spec_purchased(
    known: Map<Seq<char>, TokenReserves>,
    asset: Seq<char>,
    token_amount: u64,
    sol_amount: u64,
) -> Map<Seq<char>, TokenReserves> {
    if known.contains_key(asset) {
        known.insert(asset, spec_traded(known[asset], token_amount, sol_amount))
    } else {
        known
    }
}

/// The price reported for a purchase of `asset`: the one implied by its
/// reserves after the purchase, or none where the asset is not known.
pub open spec fn spec_purchase_price(
    known: Map<Seq<char>, TokenReserves>,
    asset: Seq<char>,
    token_amount: u64,
    sol_amount: u64,
) -> Option<Price> {
    if known.contains_key(asset) {
        Some(spec_price_of(spec_traded(known[asset], token_amount, sol_amount)))
    } else {
        None
    }
}

/// The reserves after a run of purchases, each a pair of token amount and
/// SOL amount, applied first to last.
pub open spec fn spec_after_purchases(
    reserves: TokenReserves,
    purchases: Seq<(u64, u64)>,
) -> TokenReserves
    decreases purchases.len(),
{
    if purchases.len() == 0 {
        reserves
    } else {
        let last = purchases.last();
        spec_traded(spec_after_purchases(reserves, purchases.drop_last()), last.0, last.1)
    }
}

/// Applies one purchase to a pair of reserves.
pub fn apply_purchase(reserves: TokenReserves, token_amount: u64, sol_amount: u64) -> (r:
    TokenReserves)
    ensures
        r == spec_traded(reserves, token_amount, sol_amount),
{
    let sol: u64 = reserves.virtual_sol_reserves.saturating_add(sol_amount);
    let tokens: u64 = if token_amount <= reserves.virtual_token_reserves {
        reserves.virtual_token_reserves - token_amount
    } else {
        reserves.virtual_token_reserves
    };
    TokenReserves { virtual_sol_reserves: sol, virtual_token_reserves: tokens }
}

/// The virtual reserves of every asset seen so far, by the asset's text
/// identifier.
pub struct ReserveTracker {
    reserves: StringHashMap<TokenReserves>,
}

impl View for ReserveTracker {
    type V = Map<Seq<char>, TokenReserves>;

    closed spec fn view(&self) -> Map<Seq<char>, TokenReserves> {
        self.reserves@
    }
}

impl ReserveTracker {
    /// A tracker that has seen no asset.
    pub fn new() -> (r: Self)
        ensures
            r@ == Map::<Seq<char>, TokenReserves>::empty(),
    {
        ReserveTracker { reserves: StringHashMap::new() }
    }

    /// Records the creation of `asset_id`. Returns whether the asset was
    /// unknown until now; a known asset keeps its reserves.
    pub fn on_created(&mut self, asset_id: &str) -> (first_seen: bool)
        ensures
            final(self)@ == spec_created(old(self)@, asset_id@),
            first_seen == !old(self)@.contains_key(asset_id@),
    {
        if self.reserves.contains_key(asset_id) {
            false
        } else {
            let initial = TokenReserves {
                virtual_sol_reserves: INITIAL_VIRTUAL_SOL_RESERVES,
                virtual_token_reserves: INITIAL_VIRTUAL_TOKEN_RESERVES,
            };
            self.reserves.insert(asset_id.to_owned(), initial);
            true
        }
    }

    /// Records a purchase of `asset_id` and returns the price that its
    /// reserves imply afterwards, or `None` for an asset that is not known.
    pub fn on_traded(&mut self, asset_id: &str, token_amount: u64, sol_amount: u64) -> (price:
        Option<Price>)
        ensures
            final(self)@ == spec_purchased(old(self)@, asset_id@, token_amount, sol_amount),
            price == spec_purchase_price(old(self)@, asset_id@, token_amount, sol_amount),
    {
        let current: Option<TokenReserves> = match self.reserves.get(asset_id) {
            Some(reserves) => Some(*reserves),
            None => None,
        };
        match current {
            Some(reserves) => {
                let moved = apply_purchase(reserves, token_amount, sol_amount);
                self.reserves.insert(asset_id.to_owned(), moved);
                Some(Price { lamports: moved.virtual_sol_reserves, token_units: moved.virtual_token_reserves })
            },
            None => None,
        }
    }

    /// The reserves of `asset_id`, if it is known.
    pub fn reserves_of(&self, asset_id: &str) -> (r: Option<TokenReserves>)
        ensures
            r == if self@.contains_key(asset_id@) {
                Some(self@[asset_id@])
            } else {
                None
            },
    {
        match self.reserves.get(asset_id) {
            Some(reserves) => Some(*reserves),
            None => None,
        }
    }

    /// The number of known assets.
    pub fn len(&self) -> (n: usize)
        ensures
            n == self@.len(),
    {
        self.reserves.len()
    }
}

/// Whatever purchases are observed, in whatever amounts, the token side never
/// goes below zero or above where it started, and the SOL side never goes
/// below where it started or above the largest `u64`.
pub proof fn lemma_purchases_keep_reserves_in_range(
    reserves: TokenReserves,
    purchases: Seq<(u64, u64)>,
)
    ensures
        0 <= spec_after_purchases(reserves, purchases).virtual_token_reserves
            <= reserves.virtual_token_reserves,
        reserves.virtual_sol_reserves <= spec_after_purchases(
            reserves,
            purchases,
        ).virtual_sol_reserves <= u64::MAX,
    decreases purchases.len(),
{
    if purchases.len() > 0 {
        lemma_purchases_keep_reserves_in_range(reserves, purchases.drop_last());
    }
}

/// A purchase of more tokens than the token side holds leaves the token side
/// as it was, and a purchase of no more than it holds takes exactly the
/// amount; neither result is negative.
pub proof fn lemma_token_side_floors(token_reserves: int, token_amount: int)
    requires
        0 <= token_reserves,
        0 <= token_amount,
    ensures
        0 <= spec_tokens_after(token_reserves, token_amount) <= token_reserves,
        token_amount > token_reserves ==> spec_tokens_after(token_reserves, token_amount)
            == token_reserves,
        token_amount <= token_reserves ==> spec_tokens_after(token_reserves, token_amount)
            == token_reserves - token_amount,
{
}

/// Creating an asset that is known already changes nothing: its reserves,
/// whatever purchases have moved them to, stay as they are.
pub proof fn lemma_recreation_keeps_reserves(
    known: Map<Seq<char>, TokenReserves>,
    asset: Seq<char>,
)
    requires
        known.contains_key(asset),
    ensures
        spec_created(known, asset) == known,
        spec_created(spec_created(known, asset), asset) == spec_created(known, asset),
{
}

/// Creation is idempotent, and a creation that follows a creation and a
/// purchase of the same asset leaves the purchase's effect in place.
pub proof fn lemma_creation_is_idempotent(
    known: Map<Seq<char>, TokenReserves>,
    asset: Seq<char>,
    token_amount: u64,
    sol_amount: u64,
)
    ensures
        spec_created(spec_created(known, asset), asset) == spec_created(known, asset),
        spec_created(
            spec_purchased(spec_created(known, asset), asset, token_amount, sol_amount),
            asset,
        ) == spec_purchased(spec_created(known, asset), asset, token_amount, sol_amount),
{
}

} // verus!
