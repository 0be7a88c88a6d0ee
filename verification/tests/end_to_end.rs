use pump_sniper::auto_trader::{
    is_due, plan_sells, AmountRecord, AutoTrader, PendingSale, ReadySale,
};
use pump_sniper::blockhash_cache::BlockhashCache;
use pump_sniper::instruction::{BUY_EVENT_DISCRIMINATOR, CREATE_EVENT_DISCRIMINATOR};
use pump_sniper::processor::{
    CompiledInstruction, TokenEvent, TransactionMessage, TransactionProcessor,
    TOKEN_CREATOR_PUBKEY,
};
use pump_sniper::reserves::TokenReserves;
use pump_sniper::transaction::{pump_buy, pump_sell, PUMP_BUY_SELECTOR, PUMP_SELL_SELECTOR};
use solana_sdk::pubkey::Pubkey;

fn string_bytes(text: &str) -> Vec<u8> {
    let mut out = (text.len() as u32).to_le_bytes().to_vec();
    out.extend_from_slice(text.as_bytes());
    out
}

#[test]
fn create_then_buy_then_delayed_sell() {
    let trader_key = [42u8; 32];
    let mint = [22u8; 32];
    let mint_text = Pubkey::new_from_array(mint).to_string();
    let keys = vec![[11u8; 32], mint, [33u8; 32], TOKEN_CREATOR_PUBKEY];

    let mut create = CREATE_EVENT_DISCRIMINATOR.to_vec();
    create.extend(string_bytes("X"));
    create.extend(string_bytes("X"));
    create.extend(string_bytes("x"));
    create.extend_from_slice(&[1u8; 32]);
    let mut buy = BUY_EVENT_DISCRIMINATOR.to_vec();
    buy.extend_from_slice(&2_000_000_000u64.to_le_bytes());
    buy.extend_from_slice(&700_000_000u64.to_le_bytes());

    let mut processor = TransactionProcessor::new(TOKEN_CREATOR_PUBKEY);
    let mut trader = AutoTrader::new();
    trader.start();
    let mut cache = BlockhashCache::new(500);

    let first = processor.process_message(&TransactionMessage {
        account_keys: keys.clone(),
        instructions: vec![CompiledInstruction { program_id_index: 3, data: create }],
    });
    assert!(matches!(&first[0], TokenEvent::Created { first_seen: true, .. }));
    assert_eq!(
        processor.reserves_of(&mint_text),
        Some(TokenReserves {
            virtual_sol_reserves: 30_000_000_000,
            virtual_token_reserves: 1_073_000_000_000_000,
        })
    );

    let second = processor.process_message(&TransactionMessage {
        account_keys: keys,
        instructions: vec![CompiledInstruction { program_id_index: 3, data: buy }],
    });
    let (observed, price) = match &second[0] {
        TokenEvent::Bought { mint, trade, price, .. } => {
            assert_eq!(mint, &mint_text);
            (trade.max_sol_cost, *price)
        }
        other => panic!("unexpected event {:?}", other),
    };
    assert!(trader.should_snipe(observed));

    let order = trader.snipe_token(&mint_text, price).unwrap();
    assert_eq!(order.mint, mint);
    assert_eq!(order.max_sol_cost, 100_000_000);
    let expected_amount = (17u128 * 100_000_000 * 1_072_998_000_000_000 / (20 * 30_700_000_000)) as u64;
    assert_eq!(order.token_amount, expected_amount);

    let now_nanos = 1_000_000_000u64;
    assert_eq!(cache.cached_blockhash(now_nanos), None);
    let reference = cache.store_fetched(Some([9u8; 32]), now_nanos).unwrap();
    let plan = pump_buy(&trader_key, &order.mint, order.token_amount, order.max_sol_cost, reference)
        .unwrap();
    assert_eq!(plan.recent_blockhash, [9u8; 32]);
    assert_eq!(&plan.directives[3].data[..8], &PUMP_BUY_SELECTOR);
    assert_eq!(&plan.directives[3].data[8..16], &expected_amount.to_le_bytes());

    let bought_at_ms = 10_000u64;
    let mut queue: Vec<PendingSale> = Vec::new();
    queue.extend(trader.settle_buy(&mint_text, order.token_amount, true, bought_at_ms));
    assert_eq!(queue.len(), 1);
    assert_eq!(queue[0].due_at, 15_000);

    assert!(!is_due(&queue[0], 14_999));
    let now_ms = 15_001u64;
    let mut ready = Vec::new();
    queue.retain(|sale| {
        if is_due(sale, now_ms) {
            ready.push(ReadySale {
                mint: sale.asset_id.clone(),
                amount: AmountRecord::Recorded(sale.asset_amount),
            });
            false
        } else {
            true
        }
    });
    assert!(queue.is_empty());
    let sells = plan_sells(&ready);
    assert_eq!(sells.len(), 1);
    assert_eq!(sells[0].mint, mint);
    assert_eq!(sells[0].token_amount, expected_amount);
    assert_eq!(sells[0].min_sol_receive, 0);

    let later_nanos = now_nanos + 5_001_000_000;
    assert_eq!(cache.cached_blockhash(later_nanos), None);
    let fresh = cache.store_fetched(Some([8u8; 32]), later_nanos).unwrap();
    let sale = pump_sell(&trader_key, &sells[0].mint, sells[0].token_amount, 0, fresh).unwrap();
    assert_eq!(sale.recent_blockhash, [8u8; 32]);
    assert_eq!(&sale.directives[2].data[..8], &PUMP_SELL_SELECTOR);
    assert_eq!(&sale.directives[2].data[8..16], &expected_amount.to_le_bytes());
    assert_eq!(&sale.directives[2].data[16..24], &0u64.to_le_bytes());
}
