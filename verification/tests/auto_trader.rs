use pump_sniper::auto_trader::{
    amount_record, due_time, estimated_amount, is_due, needs_block_reference,
    parse_decimal_u64, plan_sell, plan_sells, size_position, AmountRecord, AutoTrader, BuyOrder, PendingSale, ReadySale,
    SellOrder, SnipeError, TradePolicy,
};
use pump_sniper::reserves::{default_price, Price};
use solana_sdk::pubkey::Pubkey;
use std::str::FromStr;

const MINT: &str = "6EF8rrecthR5Dkzon8Nwu78hRvfCKubJ14M5uBEwF6P";

fn mint_bytes() -> [u8; 32] {
    Pubkey::from_str(MINT).unwrap().to_bytes()
}

#[test]
fn a_new_trader_has_the_default_policy() {
    let trader = AutoTrader::new();
    assert_eq!(
        trader.current_policy(),
        TradePolicy {
            min_sol_price: 500_000_000,
            max_sol_price: 1_000_000_000,
            buy_amount: 100_000_000,
            sell_delay_ms: 5000,
        }
    );
    assert!(!trader.is_running());
}

#[test]
fn setters_change_only_their_own_setting() {
    let mut trader = AutoTrader::new();
    trader.set_price_range(1, 2);
    trader.set_buy_amount(3);
    trader.set_sell_delay(4);
    assert_eq!(
        trader.current_policy(),
        TradePolicy { min_sol_price: 1, max_sol_price: 2, buy_amount: 3, sell_delay_ms: 4 }
    );
    assert!(!trader.is_running());
    assert!(trader.start());
    assert!(trader.is_running());
    assert!(!trader.start());
    assert!(trader.is_running());
}

#[test]
fn both_bounds_are_inclusive() {
    let mut trader = AutoTrader::new();
    trader.set_price_range(500, 1000);
    assert!(!trader.should_snipe(499));
    assert!(trader.should_snipe(500));
    assert!(trader.should_snipe(750));
    assert!(trader.should_snipe(1000));
    assert!(!trader.should_snipe(1001));
    assert!(!trader.should_snipe(0));
    assert!(!trader.should_snipe(u64::MAX));
}

#[test]
fn an_empty_range_follows_nothing() {
    let mut trader = AutoTrader::new();
    trader.set_price_range(10, 9);
    assert!(!trader.should_snipe(9));
    assert!(!trader.should_snipe(10));
    trader.set_price_range(10, 10);
    assert!(trader.should_snipe(10));
}

#[test]
fn sizing_matches_the_formula() {
    let expected = (100_000_000f64 / 1e9 / 0.00000003 * 0.85 * 1_000_000.0).floor() as u64;
    assert_eq!(expected, 2_833_333_333_333);
    let price = Price { lamports: 30, token_units: 1_000_000 };
    assert_eq!(size_position(100_000_000, price), Some(expected));
    assert_eq!(size_position(100_000_000, price), size_position(100_000_000, price));
}

#[test]
fn sizing_at_the_initial_reserves() {
    let price = Price { lamports: 30_000_000_000, token_units: 1_073_000_000_000_000 };
    assert_eq!(size_position(100_000_000, price), Some(3_040_166_666_666));
    let human_price = (30_000_000_000f64 / 1e9) / (1_073_000_000_000_000f64 / 1e6);
    let float = (100_000_000f64 / 1e9 / human_price * 0.85 * 1_000_000.0).floor() as u64;
    assert!(float.abs_diff(3_040_166_666_666) <= 1);
}

#[test]
fn sizing_rounds_down_and_caps() {
    assert_eq!(size_position(20, Price { lamports: 17, token_units: 1 }), Some(1));
    assert_eq!(size_position(19, Price { lamports: 17, token_units: 1 }), Some(0));
    assert_eq!(size_position(0, Price { lamports: 1, token_units: 1 }), Some(0));
    assert_eq!(size_position(5, Price { lamports: 1, token_units: 0 }), Some(0));
    assert_eq!(size_position(u64::MAX, Price { lamports: 1, token_units: u64::MAX }), Some(u64::MAX));
    assert_eq!(size_position(u64::MAX, Price { lamports: u64::MAX, token_units: 20 }), Some(17));
    assert_eq!(
        size_position(u64::MAX, Price { lamports: u64::MAX, token_units: u64::MAX }),
        Some(15_679_732_462_653_118_872)
    );
}

#[test]
fn a_price_that_is_not_positive_is_refused() {
    assert_eq!(size_position(100, Price { lamports: 0, token_units: 5 }), None);
    assert_eq!(size_position(100, Price { lamports: 0, token_units: 0 }), None);
    let trader = AutoTrader::new();
    assert_eq!(
        trader.snipe_token(MINT, Price { lamports: 0, token_units: 1 }),
        Err(SnipeError::InvalidPrice)
    );
}

#[test]
fn a_mint_that_is_no_key_is_refused_first() {
    let trader = AutoTrader::new();
    assert_eq!(trader.snipe_token("not a key", default_price()), Err(SnipeError::InvalidMint));
    assert_eq!(
        trader.snipe_token("", Price { lamports: 0, token_units: 0 }),
        Err(SnipeError::InvalidMint)
    );
    assert_eq!(
        trader.snipe_token("6EF8rrecthR5Dkzon8Nwu78hRvfCKubJ14M5uBEwF6", default_price()),
        Err(SnipeError::InvalidMint)
    );
}

#[test]
fn a_snipe_spends_the_configured_amount_at_most() {
    let mut trader = AutoTrader::new();
    trader.set_buy_amount(200_000_000);
    let order = trader.snipe_token(MINT, Price { lamports: 30, token_units: 1_000_000 });
    assert_eq!(
        order,
        Ok(BuyOrder {
            mint: mint_bytes(),
            token_amount: 5_666_666_666_666,
            max_sol_cost: 200_000_000,
        })
    );
}

#[test]
fn an_accepted_buy_schedules_the_sale_of_what_was_bought() {
    let trader = AutoTrader::new();
    assert_eq!(
        trader.settle_buy("X", 77, true, 1_000),
        Some(PendingSale { asset_id: "X".to_string(), asset_amount: 77, due_at: 6_000 })
    );
    assert_eq!(trader.settle_buy("X", 77, false, 1_000), None);
}

#[test]
fn the_due_time_does_not_wrap() {
    assert_eq!(due_time(10, 5), 15);
    assert_eq!(due_time(u64::MAX - 1, 5), u64::MAX);
    assert_eq!(due_time(u64::MAX, 0), u64::MAX);
    let sale = PendingSale { asset_id: "X".to_string(), asset_amount: 1, due_at: 6_000 };
    assert!(!is_due(&sale, 5_999));
    assert!(is_due(&sale, 6_000));
    assert!(is_due(&sale, 6_001));
}

#[test]
fn the_estimate_matches_the_formula_at_the_default_price() {
    let expected = (100_000_000f64 / 1e9 / 0.000000033 * 0.85 * 1_000_000.0).floor() as u64;
    assert_eq!(estimated_amount(), expected);
    assert_eq!(estimated_amount(), 2_575_757_575_757);
    assert_eq!(size_position(100_000_000, default_price()), Some(2_575_757_575_757));
}

#[test]
fn stored_amounts_are_read_as_decimal_numbers() {
    assert_eq!(amount_record(Some("12345")), AmountRecord::Recorded(12345));
    assert_eq!(amount_record(Some("0")), AmountRecord::Recorded(0));
    assert_eq!(
        amount_record(Some("18446744073709551615")),
        AmountRecord::Recorded(u64::MAX)
    );
    assert_eq!(amount_record(Some("18446744073709551616")), AmountRecord::Missing);
    assert_eq!(amount_record(Some("12a")), AmountRecord::Missing);
    assert_eq!(amount_record(Some("")), AmountRecord::Missing);
    assert_eq!(amount_record(Some("-1")), AmountRecord::Missing);
    assert_eq!(amount_record(None), AmountRecord::Missing);
}

#[test]
fn a_due_sale_accepts_any_price() {
    assert_eq!(
        plan_sell(MINT, AmountRecord::Recorded(42)),
        Some(SellOrder { mint: mint_bytes(), token_amount: 42, min_sol_receive: 0 })
    );
    assert_eq!(
        plan_sell(MINT, AmountRecord::Missing),
        Some(SellOrder { mint: mint_bytes(), token_amount: 2_575_757_575_757, min_sol_receive: 0 })
    );
    assert_eq!(plan_sell(MINT, AmountRecord::Unavailable), None);
    assert_eq!(plan_sell("nonsense", AmountRecord::Recorded(42)), None);
}

#[test]
fn a_batch_is_planned_in_order_and_skips_what_cannot_be_sold() {
    let other = Pubkey::new_from_array([9u8; 32]);
    let ready = vec![
        ReadySale { mint: MINT.to_string(), amount: AmountRecord::Recorded(1) },
        ReadySale { mint: "bad".to_string(), amount: AmountRecord::Recorded(2) },
        ReadySale { mint: other.to_string(), amount: AmountRecord::Unavailable },
        ReadySale { mint: other.to_string(), amount: AmountRecord::Missing },
        ReadySale { mint: MINT.to_string(), amount: AmountRecord::Recorded(5) },
    ];
    assert!(needs_block_reference(&ready));
    assert_eq!(
        plan_sells(&ready),
        vec![
            SellOrder { mint: mint_bytes(), token_amount: 1, min_sol_receive: 0 },
            SellOrder { mint: [9u8; 32], token_amount: 2_575_757_575_757, min_sol_receive: 0 },
            SellOrder { mint: mint_bytes(), token_amount: 5, min_sol_receive: 0 },
        ]
    );
    assert!(!needs_block_reference(&Vec::new()));
    assert_eq!(plan_sells(&Vec::new()), Vec::new());
}

#[test]
fn decimal_text_is_read_as_the_standard_parser_reads_it() {
    let texts = [
        "0",
        "+0",
        "5",
        "+5",
        "+",
        "++5",
        "5+",
        "-5",
        "-0",
        " 5",
        "5 ",
        "",
        "007",
        "1_000",
        "0x10",
        "1e3",
        "12.5",
        "18446744073709551615",
        "+18446744073709551615",
        "18446744073709551616",
        "18446744073709551620",
        "28446744073709551615",
        "99999999999999999999999999",
        "00000000000000000000000000000018446744073709551615",
        "00000000000000000000000000000018446744073709551616",
        "\u{661}\u{662}\u{663}",
        "12\u{e9}",
        "1\n",
    ];
    for text in texts {
        assert_eq!(parse_decimal_u64(text), text.parse::<u64>().ok(), "text {:?}", text);
    }
    assert_eq!(parse_decimal_u64("2575757575757"), Some(2_575_757_575_757));
    assert_eq!(parse_decimal_u64("+"), None);
}
