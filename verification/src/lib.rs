//! Decision logic of an automated trader that follows a stream of ledger
//! transactions: decoding of the traded program's instructions, a virtual
//! reserve model per asset, the trading policy with its position sizing, a
//! short-lived cache for block references, and the layout of the buy and sell
//! transactions.

pub mod instruction;
pub mod keys;
pub mod reader;
pub mod reserves;
pub mod processor;
pub mod transaction;
pub mod auto_trader;
pub mod blockhash_cache;
pub mod client;
