//! The trading policy and the decisions taken under it: whether an observed
//! purchase is followed, how many tokens to buy, when to sell them again,
//! and what to sell once a sale is due.

use crate::keys::{parsed_key, text_to_key};
use crate::reserves::{spec_default_price, Price};
use vstd::arithmetic::div_mod::{lemma_div_is_ordered, lemma_hoist_over_denominator};
use vstd::prelude::*;
use vstd::utf8::encode_utf8;

verus! {

/// Smallest observed purchase that is followed, in lamports, until set
/// otherwise: 0.5 SOL.
pub const DEFAULT_MIN_SOL_PRICE: u64 = 500_000_000;

/// Largest observed purchase that is followed, in lamports, until set
/// otherwise: 1 SOL.
pub const DEFAULT_MAX_SOL_PRICE: u64 = 1_000_000_000;

/// Lamports spent on each purchase until set otherwise: 0.1 SOL.
pub const DEFAULT_BUY_AMOUNT: u64 = 100_000_000;

/// Milliseconds between a purchase and its sale until set otherwise.
pub const DEFAULT_SELL_DELAY_MS: u64 = 5000;

/// Lamports assumed to have been spent where the amount bought was not
/// recorded: 0.1 SOL.
pub const ESTIMATE_BUY_AMOUNT: u64 = 100_000_000;

/// Seconds between two looks at the sales that are due.
pub const SELL_CHECK_INTERVAL_SECS: u64 = 1;

/// Milliseconds for which a block reference is reused.
pub const BLOCKHASH_MAX_AGE_MS: u64 = 500;

/// The settings a trader decides by.
#[derive(Clone, Copy, Debug, PartialEq, Eq, Structural)]
pub struct TradePolicy {
    /// Smallest observed purchase that is followed, in lamports.
    pub min_sol_price: u64,
    /// Largest observed purchase that is followed, in lamports.
    pub max_sol_price: u64,
    /// Lamports spent on each purchase.
    pub buy_amount: u64,
    /// Milliseconds between a purchase and its sale.
    pub sell_delay_ms: u64,
}

/// A purchase to submit.
#[derive(Clone, Copy, Debug, PartialEq, Eq)]
pub struct BuyOrder {
    pub mint: [u8; 32],
    pub token_amount: u64,
    pub max_sol_cost: u64,
}

/// A sale to submit.
#[derive(Clone, Copy, Debug, PartialEq, Eq)]
pub struct SellOrder {
    pub mint: [u8; 32],
    pub token_amount: u64,
    pub min_sol_receive: u64,
}

/// Why no purchase is submitted.
#[derive(Clone, Copy, Debug, PartialEq, Eq, Structural)]
pub enum SnipeError {
    /// The asset's identifier is not the text of a key.
    InvalidMint,
    /// The price is not above zero.
    InvalidPrice,
}

/// A sale that waits for its time.
#[derive(Clone, Debug, PartialEq, Eq)]
pub struct PendingSale {
    pub asset_id: String,
    pub asset_amount: u64,
    /// Milliseconds since the epoch at which the sale is due.
    pub due_at: u64,
}

/// What is known of the amount that was bought of an asset.
#[derive(Clone, Copy, Debug, PartialEq, Eq, Structural)]
pub enum AmountRecord {
    /// The amount was recorded with the purchase.
    Recorded(u64),
    /// Nothing usable was recorded.
    Missing,
    /// The record could not be read.
    Unavailable,
}

/// An asset whose sale is due, with what is known of the amount.
#[derive(Clone, Debug, PartialEq, Eq)]
pub struct ReadySale {
    pub mint: String,
    pub amount: AmountRecord,
}

/// The mathematical content of a `BuyOrder`.
pub struct BuyOrderView {
    pub mint: Seq<u8>,
    pub token_amount: u64,
    pub max_sol_cost: u64,
}

/// The mathematical content of a `SellOrder`.
pub struct SellOrderView {
    pub mint: Seq<u8>,
    pub token_amount: u64,
    pub min_sol_receive: u64,
}

impl View for BuyOrder {
    type V = BuyOrderView;

    open spec fn view(&self) -> BuyOrderView {
        BuyOrderView {
            mint: self.mint@,
            token_amount: self.token_amount,
            max_sol_cost: self.max_sol_cost,
        }
    }
}

impl View for SellOrder {
    type V = SellOrderView;

    open spec fn view(&self) -> SellOrderView {
        SellOrderView {
            mint: self.mint@,
            token_amount: self.token_amount,
            min_sol_receive: self.min_sol_receive,
        }
    }
}

/// The contents of a list of sales to submit.
pub open spec fn sell_orders_view(orders: Seq<SellOrder>) -> Seq<SellOrderView> {
    Seq::new(orders.len(), |i: int| orders[i]@)
}

/// The policy of a new trader.
pub open spec fn spec_default_policy() -> TradePolicy {
    TradePolicy {
        min_sol_price: DEFAULT_MIN_SOL_PRICE,
        max_sol_price: DEFAULT_MAX_SOL_PRICE,
        buy_amount: DEFAULT_BUY_AMOUNT,
        sell_delay_ms: DEFAULT_SELL_DELAY_MS,
    }
}

/// Whether an observed purchase of `sol_amount` lamports is followed: the
/// amount lies between the policy's two bounds, both included.
pub open spec fn spec_should_trade(policy: TradePolicy, sol_amount: u64) -> bool {
    policy.min_sol_price <= sol_amount && sol_amount <= policy.max_sol_price
}

/// Whether a price is above zero.
pub open spec fn spec_price_is_positive(price: Price) -> bool {
    price.lamports > 0
}

/// The tokens to buy for `buy_amount` lamports at `price`, less fifteen in a
/// hundred as a margin for slippage, in the token's smallest unit and rounded
/// down; the largest `u64` where the result is beyond it.
///
/// The price is `(lamports / 10^9) / (token_units / 10^6)` SOL for a token, so
/// `(buy_amount / 10^9) / price * 0.85 * 10^6` is
/// `17 * buy_amount * token_units / (20 * lamports)`.
pub open spec fn spec_sized_amount(buy_amount: u64, price: Price) -> int
    recommends
        price.lamports > 0,
{
    let exact = (17 * buy_amount * price.token_units) / (20 * price.lamports);
    if exact > u64::MAX {
        u64::MAX as int
    } else {
        exact
    }
}

/// The amount sold where none was recorded: what the assumed spending buys at
/// the default price.
pub open spec fn spec_estimated_amount() -> int {
    spec_sized_amount(ESTIMATE_BUY_AMOUNT, spec_default_price())
}

/// The time a sale is due: `delay_ms` after `now_ms`, or the largest `u64`
/// where that is beyond it.
pub open spec fn spec_due_time(now_ms: u64, delay_ms: u64) -> int {
    if now_ms + delay_ms > u64::MAX {
        u64::MAX as int
    } else {
        now_ms + delay_ms
    }
}

/// Whether a sale is due at `now_ms`.
pub open spec fn spec_is_due(due_at: u64, now_ms: u64) -> bool {
    due_at <= now_ms
}

/// The purchase to submit for the asset `token_mint` at `token_price`, or
/// the reason for none.
pub open spec fn spec_snipe(
    policy: TradePolicy,
    token_mint: Seq<char>,
    token_price: Price,
) -> Result<BuyOrderView, SnipeError> {
    match parsed_key(token_mint) {
        None => Err(SnipeError::InvalidMint),
        Some(mint) => if !spec_price_is_positive(token_price) {
            Err(SnipeError::InvalidPrice)
        } else {
            Ok(
                BuyOrderView {
                    mint,
                    token_amount: spec_sized_amount(policy.buy_amount, token_price) as u64,
                    max_sol_cost: policy.buy_amount,
                },
            )
        },
    }
}

/// The sale to submit for a due asset: none where its identifier is not the
/// text of a key or its record could not be read; else the recorded amount,
/// or the estimate where nothing was recorded, for any price at all.
pub open spec fn spec_sell_order(mint: Seq<char>, amount: AmountRecord) -> Option<SellOrderView> {
    match parsed_key(mint) {
        None => None,
        Some(key) => match amount {
            AmountRecord::Recorded(tokens) => Some(
                SellOrderView { mint: key, token_amount: tokens, min_sol_receive: 0 },
            ),
            AmountRecord::Missing => Some(
                SellOrderView {
                    mint: key,
                    token_amount: spec_estimated_amount() as u64,
                    min_sol_receive: 0,
                },
            ),
            AmountRecord::Unavailable => None,
        },
    }
}

/// The sales to submit for the first `count` of the due assets, in their
/// order.
pub open spec fn spec_sell_orders(ready: Seq<ReadySale>, count: nat) -> Seq<SellOrderView>
    decreases count,
{
    if count == 0 {
        Seq::empty()
    } else {
        let before = spec_sell_orders(ready, (count - 1) as nat);
        match spec_sell_order(ready[count - 1].mint@, ready[count - 1].amount) {
            Some(order) => before.push(order),
            None => before,
        }
    }
}

/// Whether every byte is an ASCII digit.
pub open spec fn spec_all_digits(digits: Seq<u8>) -> bool {
    forall|i: int| 0 <= i < digits.len() ==> 48 <= #[trigger] digits[i] <= 57
}

/// The number that a run of ASCII digits stands for, most significant digit
/// first.
pub open spec fn spec_digits_value(digits: Seq<u8>) -> int
    decreases digits.len(),
{
    if digits.len() == 0 {
        0
    } else {
        spec_digits_value(digits.drop_last()) * 10 + (digits.last() - 48)
    }
}

/// The digits of a decimal number: the text without the plus sign that may
/// stand in front.
pub open spec fn spec_unsigned_part(bytes: Seq<u8>) -> Seq<u8> {
    if bytes.len() > 0 && bytes[0] == 43 {
        bytes.subrange(1, bytes.len() as int)
    } else {
        bytes
    }
}

/// The `u64` that the bytes of a decimal text stand for: at least one digit,
/// nothing but digits after an optional plus sign, and a value within `u64`;
/// `None` for any other text.
pub open spec fn spec_decimal_u64(bytes: Seq<u8>) -> Option<u64> {
    let digits = spec_unsigned_part(bytes);
    if digits.len() > 0 && spec_all_digits(digits) && spec_digits_value(digits) <= u64::MAX {
        Some(spec_digits_value(digits) as u64)
    } else {
        None
    }
}

/// A run of digits stands for no less than any of its beginnings.
pub proof fn lemma_digits_value_grows(digits: Seq<u8>, shorter: int)
    requires
        spec_all_digits(digits),
        0 <= shorter <= digits.len(),
    ensures
        0 <= spec_digits_value(digits.subrange(0, shorter)) <= spec_digits_value(digits),
    decreases digits.len(),
{
    if digits.len() == 0 {
        assert(digits.subrange(0, shorter) =~= digits);
    } else if shorter == digits.len() {
        assert(digits.subrange(0, shorter) =~= digits);
        lemma_digits_value_grows(digits.drop_last(), shorter - 1);
    } else {
        lemma_digits_value_grows(digits.drop_last(), shorter);
        assert(digits.drop_last().subrange(0, shorter) =~= digits.subrange(0, shorter));
    }
}

/// Reads a `u64` from decimal text.
pub fn parse_decimal_u64(text: &str) -> (r: Option<u64>)
    ensures
        r == spec_decimal_u64(encode_utf8(text@)),
{
    let bytes = text.as_bytes();
    let start: usize = if bytes.len() > 0 && bytes[0] == 43 {
        1
    } else {
        0
    };
    let ghost digits = spec_unsigned_part(bytes@);
    assert(digits =~= bytes@.subrange(start as int, bytes@.len() as int));
    if bytes.len() == start {
        return None;
    }
    let mut value: u64 = 0;
    let mut i: usize = start;
    while i < bytes.len()
        invariant
            start <= i <= bytes@.len(),
            bytes@ == encode_utf8(text@),
            digits == spec_unsigned_part(bytes@),
            digits == bytes@.subrange(start as int, bytes@.len() as int),
            spec_all_digits(digits.subrange(0, i - start)),
            value == spec_digits_value(digits.subrange(0, i - start)),
        decreases bytes@.len() - i,
    {
        let byte: u8 = bytes[i];
        let ghost seen = digits.subrange(0, i - start);
        let ghost next = digits.subrange(0, i - start + 1);
        assert(next.drop_last() =~= seen);
        assert(next.last() == byte);
        if byte < 48 || byte > 57 {
            assert(!spec_all_digits(digits)) by {
                assert(digits[i - start] == byte);
            }
            return None;
        }
        assert(spec_all_digits(next));
        let digit: u64 = (byte - 48) as u64;
        if value > (u64::MAX - digit) / 10 {
            proof {
                assert(spec_digits_value(next) > u64::MAX);
                if spec_all_digits(digits) {
                    lemma_digits_value_grows(digits, i - start + 1);
                }
            }
            return None;
        }
        value = value * 10 + digit;
        i = i + 1;
    }
    assert(digits.subrange(0, digits.len() as int) =~= digits);
    Some(value)
}

/// What a stored amount tells: the number it stands for, or nothing usable
/// where nothing is stored or what is stored is not a number.
pub open spec fn spec_amount_record(stored: Option<Seq<char>>) -> AmountRecord {
    match stored {
        Some(text) => match spec_decimal_u64(encode_utf8(text)) {
            Some(tokens) => AmountRecord::Recorded(tokens),
            None => AmountRecord::Missing,
        },
        None => AmountRecord::Missing,
    }
}

/// Reads the amount that was stored with a purchase.
pub fn amount_record(stored: Option<&str>) -> (r: AmountRecord)
    ensures
        r == spec_amount_record(
            match stored {
                Some(text) => Some(text@),
                None => None,
            },
        ),
{
    match stored {
        Some(text) => match parse_decimal_u64(text) {
            Some(tokens) => AmountRecord::Recorded(tokens),
            None => AmountRecord::Missing,
        },
        None => AmountRecord::Missing,
    }
}

/// The tokens to buy for `buy_amount` lamports at `price`, or `None` where
/// the price is not above zero.
pub fn size_position(buy_amount: u64, price: Price) -> (r: Option<u64>)
    ensures
        r == if spec_price_is_positive(price) {
            Some(spec_sized_amount(buy_amount, price) as u64)
        } else {
            None
        },
{
    if price.lamports == 0 {
        return None;
    }
    assert(buy_amount * price.token_units <= u64::MAX * u64::MAX) by (nonlinear_arith)
        requires
            buy_amount <= u64::MAX,
            price.token_units <= u64::MAX,
            0 <= buy_amount,
            0 <= price.token_units,
    ;
    let product: u128 = (buy_amount as u128) * (price.token_units as u128);
    let divisor: u128 = 20 * (price.lamports as u128);
    let quotient: u128 = product / divisor;
    let remainder: u128 = product % divisor;
    proof {
        let n = product as int;
        let d = divisor as int;
        assert(17 * buy_amount * price.token_units == 17 * n) by (nonlinear_arith)
            requires
                n == buy_amount * price.token_units,
        ;
        assert(n == d * (n / d) + n % d) by {
            vstd::arithmetic::div_mod::lemma_fundamental_div_mod(n, d);
        }
        assert(17 * n == 17 * (n % d) + (17 * (n / d)) * d) by (nonlinear_arith)
            requires
                n == d * (n / d) + n % d,
        ;
        lemma_hoist_over_denominator(17 * (n % d), 17 * (n / d), d as nat);
        assert((17 * n) / d == (17 * (n % d)) / d + 17 * (n / d));
        lemma_div_is_ordered(n, 17 * n, d);
        assert(0 <= (17 * (n % d)) / d) by (nonlinear_arith)
            requires
                0 <= n % d,
                0 < d,
        ;
    }
    if quotient > u64::MAX as u128 {
        return Some(u64::MAX);
    }
    let whole: u128 = 17 * quotient;
    let part: u128 = (17 * remainder) / divisor;
    let total: u128 = whole + part;
    if total > u64::MAX as u128 {
        Some(u64::MAX)
    } else {
        Some(total as u64)
    }
}

/// The amount sold where none was recorded.
pub fn estimated_amount() -> (r: u64)
    ensures
        r == spec_estimated_amount(),
        r == 2_575_757_575_757,
{
    proof {
        let price = spec_default_price();
        assert(17 * ESTIMATE_BUY_AMOUNT * price.token_units == 1_700_000_000_000_000) by {
            assert(17 * ESTIMATE_BUY_AMOUNT == 1_700_000_000);
            assert(1_700_000_000 * 1_000_000 == 1_700_000_000_000_000);
        }
        assert(20 * price.lamports == 660);
        assert(1_700_000_000_000_000int / 660 == 2_575_757_575_757);
    }
    2_575_757_575_757
}

/// The time a sale is due.
pub fn due_time(now_ms: u64, delay_ms: u64) -> (r: u64)
    ensures
        r == spec_due_time(now_ms, delay_ms),
{
    now_ms.saturating_add(delay_ms)
}

/// A trader: a policy, and whether the trader has been started.
pub struct AutoTrader {
    running: bool,
    policy: TradePolicy,
}

impl AutoTrader {
    /// The settings the trader decides by.
    pub closed spec fn policy(&self) -> TradePolicy {
        self.policy
    }

    /// Whether the trader has been started.
    pub closed spec fn running(&self) -> bool {
        self.running
    }

    /// A trader with the default policy that has not been started.
    pub fn new() -> (r: Self)
        ensures
            r.policy() == spec_default_policy(),
            !r.running(),
    {
        AutoTrader {
            running: false,
            policy: TradePolicy {
                min_sol_price: DEFAULT_MIN_SOL_PRICE,
                max_sol_price: DEFAULT_MAX_SOL_PRICE,
                buy_amount: DEFAULT_BUY_AMOUNT,
                sell_delay_ms: DEFAULT_SELL_DELAY_MS,
            },
        }
    }

    /// Sets the two bounds between which an observed purchase is followed.
    pub fn set_price_range(&mut self, min_sol_price: u64, max_sol_price: u64)
        ensures
            final(self).policy().min_sol_price == min_sol_price,
            final(self).policy().max_sol_price == max_sol_price,
            final(self).policy().buy_amount == old(self).policy().buy_amount,
            final(self).policy().sell_delay_ms == old(self).policy().sell_delay_ms,
            final(self).running() == old(self).running(),
    {
        self.policy.min_sol_price = min_sol_price;
        self.policy.max_sol_price = max_sol_price;
    }

    /// Sets the lamports spent on each purchase.
    pub fn set_buy_amount(&mut self, buy_amount: u64)
        ensures
            final(self).policy().buy_amount == buy_amount,
            final(self).policy().min_sol_price == old(self).policy().min_sol_price,
            final(self).policy().max_sol_price == old(self).policy().max_sol_price,
            final(self).policy().sell_delay_ms == old(self).policy().sell_delay_ms,
            final(self).running() == old(self).running(),
    {
        self.policy.buy_amount = buy_amount;
    }

    /// Sets the milliseconds between a purchase and its sale.
    pub fn set_sell_delay(&mut self, sell_delay_ms: u64)
        ensures
            final(self).policy().sell_delay_ms == sell_delay_ms,
            final(self).policy().min_sol_price == old(self).policy().min_sol_price,
            final(self).policy().max_sol_price == old(self).policy().max_sol_price,
            final(self).policy().buy_amount == old(self).policy().buy_amount,
            final(self).running() == old(self).running(),
    {
        self.policy.sell_delay_ms = sell_delay_ms;
    }

    /// Marks the trader as started. Returns whether it was started by this
    /// call, that is, whether the loop that sells what is due has to be set
    /// going.
    pub fn start(&mut self) -> (started: bool)
        ensures
            final(self).running(),
            final(self).policy() == old(self).policy(),
            started == !old(self).running(),
    {
        let started = !self.running;
        self.running = true;
        started
    }

    /// Whether the trader has been started.
    pub fn is_running(&self) -> (r: bool)
        ensures
            r == self.running(),
    {
        self.running
    }

    /// The settings the trader decides by.
    pub fn current_policy(&self) -> (r: TradePolicy)
        ensures
            r == self.policy(),
    {
        self.policy
    }

    /// Whether an observed purchase of `sol_amount` lamports is followed.
    pub fn should_snipe(&self, sol_amount: u64) -> (r: bool)
        ensures
            r == spec_should_trade(self.policy(), sol_amount),
            r == (self.policy().min_sol_price <= sol_amount <= self.policy().max_sol_price),
    {
        sol_amount >= self.policy.min_sol_price && sol_amount <= self.policy.max_sol_price
    }

    /// Decides the purchase of the asset `token_mint` at `token_price`: the
    /// tokens to buy for the policy's amount, with that amount as the most
    /// that is paid.
    pub fn snipe_token(&self, token_mint: &str, token_price: Price) -> (r: Result<
        BuyOrder,
        SnipeError,
    >)
        ensures
            match r {
                Ok(order) => spec_snipe(self.policy(), token_mint@, token_price) == Ok::<
                    BuyOrderView,
                    SnipeError,
                >(order@),
                Err(e) => spec_snipe(self.policy(), token_mint@, token_price) == Err::<
                    BuyOrderView,
                    SnipeError,
                >(e),
            },
    {
        let mint = match text_to_key(token_mint) {
            Some(key) => key,
            None => {
                return Err(SnipeError::InvalidMint);
            },
        };
        match size_position(self.policy.buy_amount, token_price) {
            Some(token_amount) => Ok(
                BuyOrder { mint, token_amount, max_sol_cost: self.policy.buy_amount },
            ),
            None => Err(SnipeError::InvalidPrice),
        }
    }

    /// What follows a purchase: where it was accepted, the sale of exactly
    /// what was bought, due after the policy's delay; where it was refused,
    /// nothing.
    pub fn settle_buy(&self, token_mint: &str, token_amount: u64, accepted: bool, now_ms: u64) -> (r:
        Option<PendingSale>)
        ensures
            r is Some <==> accepted,
            r is Some ==> r->Some_0.asset_id@ == token_mint@ && r->Some_0.asset_amount
                == token_amount && r->Some_0.due_at == spec_due_time(
                now_ms,
                self.policy().sell_delay_ms,
            ),
    {
        if accepted {
            Some(
                PendingSale {
                    asset_id: token_mint.to_owned(),
                    asset_amount: token_amount,
                    due_at: due_time(now_ms, self.policy.sell_delay_ms),
                },
            )
        } else {
            None
        }
    }
}

/// Whether a pending sale is due at `now_ms`.
pub fn is_due(sale: &PendingSale, now_ms: u64) -> (r: bool)
    ensures
        r == spec_is_due(sale.due_at, now_ms),
{
    sale.due_at <= now_ms
}

/// Decides the sale of one due asset.
pub fn plan_sell(mint: &str, amount: AmountRecord) -> (r: Option<SellOrder>)
    ensures
        match r {
            Some(order) => spec_sell_order(mint@, amount) == Some(order@),
            None => spec_sell_order(mint@, amount) is None,
        },
{
    let key = match text_to_key(mint) {
        Some(key) => key,
        None => {
            return None;
        },
    };
    match amount {
        AmountRecord::Recorded(tokens) => Some(
            SellOrder { mint: key, token_amount: tokens, min_sol_receive: 0 },
        ),
        AmountRecord::Missing => Some(
            SellOrder { mint: key, token_amount: estimated_amount(), min_sol_receive: 0 },
        ),
        AmountRecord::Unavailable => None,
    }
}

/// Whether a batch of due assets needs a block reference: any batch but the
/// empty one does, and one reference serves the whole batch.
pub fn needs_block_reference(ready: &Vec<ReadySale>) -> (r: bool)
    ensures
        r == (ready@.len() > 0),
{
    ready.len() > 0
}

/// Decides the sales of a batch of due assets, in the order of the batch.
pub fn plan_sells(ready: &Vec<ReadySale>) -> (orders: Vec<SellOrder>)
    ensures
        sell_orders_view(orders@) == spec_sell_orders(ready@, ready@.len()),
{
    let mut orders: Vec<SellOrder> = Vec::new();
    assert(sell_orders_view(orders@) =~= Seq::empty());
    let mut i: usize = 0;
    while i < ready.len()
        invariant
            i <= ready@.len(),
            sell_orders_view(orders@) == spec_sell_orders(ready@, i as nat),
        decreases ready@.len() - i,
    {
        let ghost before = sell_orders_view(orders@);
        match plan_sell(ready[i].mint.as_str(), ready[i].amount) {
            Some(order) => {
                orders.push(order);
                assert(sell_orders_view(orders@) =~= before.push(order@));
            },
            None => {},
        }
        i = i + 1;
    }
    orders
}

/// An observed purchase is followed exactly when its amount lies between the
/// two bounds; each bound itself is followed.
pub proof fn lemma_bounds_are_inclusive(policy: TradePolicy, sol_amount: u64)
    ensures
        spec_should_trade(policy, sol_amount) <==> (policy.min_sol_price <= sol_amount
            <= policy.max_sol_price),
        policy.min_sol_price <= policy.max_sol_price ==> spec_should_trade(
            policy,
            policy.min_sol_price,
        ) && spec_should_trade(policy, policy.max_sol_price),
        sol_amount < policy.min_sol_price ==> !spec_should_trade(policy, sol_amount),
        sol_amount > policy.max_sol_price ==> !spec_should_trade(policy, sol_amount),
{
}

/// The sized amount is the largest whole number of token units whose cost at
/// the given price, with the slippage margin taken off, stays within the
/// amount spent: `20 * lamports * amount <= 17 * buy_amount * token_units`,
/// and one unit more would go beyond it, unless the amount is capped at the
/// largest `u64`.
pub proof fn lemma_sized_amount_is_floor(buy_amount: u64, price: Price)
    requires
        price.lamports > 0,
    ensures
        0 <= spec_sized_amount(buy_amount, price) <= u64::MAX,
        20 * price.lamports * spec_sized_amount(buy_amount, price) <= 17 * buy_amount
            * price.token_units,
        spec_sized_amount(buy_amount, price) < u64::MAX ==> 17 * buy_amount * price.token_units
            < 20 * price.lamports * (spec_sized_amount(buy_amount, price) + 1),
{
    let n = 17 * buy_amount * price.token_units;
    let d = 20 * price.lamports;
    assert(0 <= n) by (nonlinear_arith)
        requires
            n == 17 * buy_amount * price.token_units,
            0 <= buy_amount,
            0 <= price.token_units,
    ;
    vstd::arithmetic::div_mod::lemma_fundamental_div_mod(n, d);
    vstd::arithmetic::div_mod::lemma_div_pos_is_pos(n, d);
    vstd::arithmetic::div_mod::lemma_mod_bound(n, d);
    let q = n / d;
    assert(d * q <= n && n < d * (q + 1)) by (nonlinear_arith)
        requires
            n == d * q + n % d,
            0 <= n % d < d,
    ;
    let s = spec_sized_amount(buy_amount, price);
    assert(s <= q);
    assert(d * s <= d * q) by (nonlinear_arith)
        requires
            s <= q,
            0 < d,
    ;
    assert(20 * price.lamports * s == d * s) by (nonlinear_arith)
        requires
            d == 20 * price.lamports,
    ;
    assert(20 * price.lamports * (s + 1) == d * (s + 1)) by (nonlinear_arith)
        requires
            d == 20 * price.lamports,
    ;
}

} // verus!
