//! Layout of the buy and sell transactions.
//!
//! A transaction is planned here as plain data: the directives in their
//! order, each with its program, its accounts and its payload, the payer,
//! the block reference the caller supplied, and how it is to be sent.
//! Signing and sending happen outside.

use crate::keys::{derived_address, find_derived_address, seeds_view};
use crate::reader::{u32_le_bytes, u64_le_bytes};
use solana_sdk::compute_budget::ComputeBudgetInstruction;
use vstd::prelude::*;

verus! {

/// Global state account of the token program.
pub const GLOBAL_ACCOUNT: [u8; 32] = [
    58, 134, 94, 105, 238, 15, 84, 128, 202, 188, 246, 99, 87, 228, 220, 47, 24, 213, 141, 69,
    193, 234, 116, 137, 251, 55, 35, 217, 121, 60, 114, 166,
];

/// Account that receives the token program's fees.
pub const FEE_RECIPIENT: [u8; 32] = [
    74, 194, 248, 208, 221, 92, 188, 151, 227, 40, 156, 25, 124, 181, 6, 42, 84, 243, 217, 86,
    185, 206, 110, 81, 21, 249, 101, 103, 170, 92, 179, 230,
];

/// Event authority of the token program.
pub const EVENT_AUTHORITY: [u8; 32] = [
    172, 241, 54, 235, 1, 252, 28, 78, 136, 61, 35, 200, 181, 132, 74, 181, 154, 55, 246, 106,
    221, 87, 197, 233, 172, 59, 83, 224, 89, 211, 92, 100,
];

/// Address of the token program.
pub const PUMP_PROGRAM_ID: [u8; 32] = [
    1, 86, 224, 246, 147, 102, 90, 207, 68, 219, 21, 104, 191, 23, 91, 170, 81, 137, 203, 151,
    245, 210, 255, 59, 101, 93, 43, 182, 253, 109, 24, 176,
];

/// Address of the intermediary program that every trade is addressed to.
pub const PROXY_PROGRAM: [u8; 32] = [
    145, 33, 144, 122, 240, 141, 197, 204, 72, 66, 111, 19, 36, 108, 79, 72, 41, 56, 165, 235,
    63, 36, 215, 231, 0, 59, 32, 116, 203, 205, 217, 190,
];

/// Address of the rent sysvar.
pub const SYSVAR_RENT_PUBKEY: [u8; 32] = [
    6, 167, 213, 23, 25, 44, 92, 81, 33, 140, 201, 76, 61, 74, 241, 127, 88, 218, 238, 8, 155,
    161, 253, 68, 227, 219, 217, 138, 0, 0, 0, 0,
];

/// Address of the system program.
pub const SYSTEM_PROGRAM: [u8; 32] = [
    0, 0, 0, 0, 0, 0, 0, 0, 0, 0, 0, 0, 0, 0, 0, 0, 0, 0, 0, 0, 0, 0, 0, 0, 0, 0, 0, 0, 0, 0, 0, 0,
];

/// Address of the program that owns token accounts.
pub const TOKEN_PROGRAM: [u8; 32] = [
    6, 221, 246, 225, 215, 101, 161, 147, 217, 203, 225, 70, 206, 235, 121, 172, 28, 180, 133,
    237, 95, 91, 55, 145, 58, 140, 245, 133, 126, 255, 0, 169,
];

/// Address of the program that derives and creates associated token accounts.
pub const ASSOCIATED_TOKEN_PROGRAM: [u8; 32] = [
    140, 151, 37, 143, 78, 36, 137, 241, 187, 61, 16, 41, 20, 142, 13, 131, 11, 90, 19, 153, 218,
    255, 16, 132, 4, 142, 123, 216, 219, 233, 248, 89,
];

/// Address of the program that takes the fee and compute directives.
pub const COMPUTE_BUDGET_PROGRAM: [u8; 32] = [
    3, 6, 70, 111, 229, 33, 23, 50, 255, 236, 173, 186, 114, 195, 155, 231, 188, 140, 229, 187,
    197, 247, 18, 107, 44, 67, 155, 58, 64, 0, 0, 0,
];

/// Selector of the intermediary program's buy.
pub const PUMP_BUY_SELECTOR: [u8; 8] = [82, 225, 119, 231, 78, 29, 45, 70];

/// Selector of the intermediary program's sell.
pub const PUMP_SELL_SELECTOR: [u8; 8] = [83, 225, 119, 231, 78, 29, 45, 70];

/// Selector of the intermediary program's "make sure the buyer's token
/// account exists".
pub const ATA_SELECTOR: [u8; 8] = [22, 51, 53, 97, 247, 184, 54, 78];

/// Seed of an asset's bonding curve address: the text `bonding-curve`.
pub const BONDING_CURVE_SEED: [u8; 13] = [
    98, 111, 110, 100, 105, 110, 103, 45, 99, 117, 114, 118, 101,
];

/// Price of a compute unit, in micro-lamports, offered for priority.
pub const COMPUTE_UNIT_PRICE: u64 = 200_000;

/// Compute units a trade may use.
pub const COMPUTE_UNIT_LIMIT: u32 = 200_000;

/// An account of a directive and how the directive uses it.
#[derive(Clone, Copy, Debug, PartialEq, Eq)]
pub struct AccountRole {
    pub pubkey: [u8; 32],
    pub is_signer: bool,
    pub is_writable: bool,
}

/// One directive of a transaction.
#[derive(Clone, Debug, PartialEq, Eq)]
pub struct Directive {
    pub program_id: [u8; 32],
    pub accounts: Vec<AccountRole>,
    pub data: Vec<u8>,
}

/// How settled the ledger state is that a transaction is checked against.
#[derive(Clone, Copy, Debug, PartialEq, Eq, Structural)]
pub enum Commitment {
    Processed,
    Confirmed,
    Finalized,
}

/// How a transaction is sent.
#[derive(Clone, Copy, Debug, PartialEq, Eq, Structural)]
pub struct SendOptions {
    pub skip_preflight: bool,
    pub preflight_commitment: Commitment,
    pub max_retries: u64,
}

/// A transaction, ready to be signed by its payer and sent.
#[derive(Clone, Debug, PartialEq, Eq)]
pub struct TransactionPlan {
    pub payer: [u8; 32],
    pub recent_blockhash: [u8; 32],
    pub directives: Vec<Directive>,
    pub options: SendOptions,
}

/// The three addresses of a trade that are derived from the trader and the
/// asset.
#[derive(Clone, Copy, Debug, PartialEq, Eq)]
pub struct TradeAccounts {
    pub bonding_curve: [u8; 32],
    pub associated_bonding_curve: [u8; 32],
    pub associated_user: [u8; 32],
}

/// Why a transaction could not be planned.
#[derive(Clone, Copy, Debug, PartialEq, Eq, Structural)]
pub enum PlanError {
    /// The ledger derives no address for the asset or one of its holders.
    NoDerivedAddress,
}

/// The mathematical content of an `AccountRole`.
pub struct AccountRoleView {
    pub pubkey: Seq<u8>,
    pub is_signer: bool,
    pub is_writable: bool,
}

/// The mathematical content of a `Directive`.
pub struct DirectiveView {
    pub program_id: Seq<u8>,
    pub accounts: Seq<AccountRoleView>,
    pub data: Seq<u8>,
}

/// The mathematical content of `TradeAccounts`.
pub struct TradeAccountsView {
    pub bonding_curve: Seq<u8>,
    pub associated_bonding_curve: Seq<u8>,
    pub associated_user: Seq<u8>,
}

impl View for AccountRole {
    type V = AccountRoleView;

    open spec fn view(&self) -> AccountRoleView {
        AccountRoleView {
            pubkey: self.pubkey@,
            is_signer: self.is_signer,
            is_writable: self.is_writable,
        }
    }
}

/// The contents of a list of accounts.
pub open spec fn roles_view(roles: Seq<AccountRole>) -> Seq<AccountRoleView> {
    Seq::new(roles.len(), |i: int| roles[i]@)
}

impl View for Directive {
    type V = DirectiveView;

    open spec fn view(&self) -> DirectiveView {
        DirectiveView {
            program_id: self.program_id@,
            accounts: roles_view(self.accounts@),
            data: self.data@,
        }
    }
}

/// The contents of a list of directives.
pub open spec fn directives_view(directives: Seq<Directive>) -> Seq<DirectiveView> {
    Seq::new(directives.len(), |i: int| directives[i]@)
}

impl View for TradeAccounts {
    type V = TradeAccountsView;

    open spec fn view(&self) -> TradeAccountsView {
        TradeAccountsView {
            bonding_curve: self.bonding_curve@,
            associated_bonding_curve: self.associated_bonding_curve@,
            associated_user: self.associated_user@,
        }
    }
}

/// An account that is only read.
pub open spec fn readonly(pubkey: Seq<u8>) -> AccountRoleView {
    AccountRoleView { pubkey, is_signer: false, is_writable: false }
}

/// An account that is written.
pub open spec fn writable(pubkey: Seq<u8>) -> AccountRoleView {
    AccountRoleView { pubkey, is_signer: false, is_writable: true }
}

/// An account that is written and signs.
pub open spec fn writable_signer(pubkey: Seq<u8>) -> AccountRoleView {
    AccountRoleView { pubkey, is_signer: true, is_writable: true }
}

/// The payload of a trade: its selector and two little-endian numbers.
pub open spec fn spec_trade_data(selector: Seq<u8>, first: u64, second: u64) -> Seq<u8> {
    selector + u64_le_bytes(first as int) + u64_le_bytes(second as int)
}

/// The address of the token account that `wallet` holds `mint` in.
pub open spec fn spec_associated_token_address(wallet: Seq<u8>, mint: Seq<u8>) -> Option<Seq<u8>> {
    derived_address(seq![wallet, TOKEN_PROGRAM@, mint], ASSOCIATED_TOKEN_PROGRAM@)
}

/// The address of the bonding curve of `mint`.
pub open spec fn spec_bonding_curve_address(mint: Seq<u8>) -> Option<Seq<u8>> {
    derived_address(seq![BONDING_CURVE_SEED@, mint], PUMP_PROGRAM_ID@)
}

/// The derived addresses of a trade of `mint` by `trader`, where the ledger
/// derives all three.
pub open spec fn spec_trade_accounts(trader: Seq<u8>, mint: Seq<u8>) -> Option<TradeAccountsView> {
    match spec_bonding_curve_address(mint) {
        None => None,
        Some(bonding_curve) => match spec_associated_token_address(trader, mint) {
            None => None,
            Some(associated_user) => match spec_associated_token_address(bonding_curve, mint) {
                None => None,
                Some(associated_bonding_curve) => Some(
                    TradeAccountsView { bonding_curve, associated_bonding_curve, associated_user },
                ),
            },
        },
    }
}

/// The directive that offers `micro_lamports` per compute unit.
pub open spec fn spec_unit_price_directive(micro_lamports: u64) -> DirectiveView {
    DirectiveView {
        program_id: COMPUTE_BUDGET_PROGRAM@,
        accounts: Seq::empty(),
        data: seq![3u8] + u64_le_bytes(micro_lamports as int),
    }
}

/// The directive that allows `units` compute units.
pub open spec fn spec_unit_limit_directive(units: u32) -> DirectiveView {
    DirectiveView {
        program_id: COMPUTE_BUDGET_PROGRAM@,
        accounts: Seq::empty(),
        data: seq![2u8] + u32_le_bytes(units as int),
    }
}

/// The directive that makes sure the trader's token account exists.
pub open spec fn spec_ensure_account_directive(
    trader: Seq<u8>,
    mint: Seq<u8>,
    accounts: TradeAccountsView,
) -> DirectiveView {
    DirectiveView {
        program_id: PROXY_PROGRAM@,
        accounts: seq![
            writable_signer(trader),
            writable(accounts.associated_user),
            readonly(mint),
            readonly(SYSTEM_PROGRAM@),
            readonly(TOKEN_PROGRAM@),
            readonly(ASSOCIATED_TOKEN_PROGRAM@),
        ],
        data: ATA_SELECTOR@ + seq![0u8],
    }
}

/// The buy directive.
pub open spec fn spec_buy_directive(
    trader: Seq<u8>,
    mint: Seq<u8>,
    accounts: TradeAccountsView,
    token_amount: u64,
    max_sol_cost: u64,
) -> DirectiveView {
    DirectiveView {
        program_id: PROXY_PROGRAM@,
        accounts: seq![
            readonly(GLOBAL_ACCOUNT@),
            writable(FEE_RECIPIENT@),
            readonly(mint),
            writable(accounts.bonding_curve),
            writable(accounts.associated_bonding_curve),
            writable(accounts.associated_user),
            writable_signer(trader),
            readonly(SYSTEM_PROGRAM@),
            readonly(TOKEN_PROGRAM@),
            readonly(SYSVAR_RENT_PUBKEY@),
            readonly(EVENT_AUTHORITY@),
            readonly(PUMP_PROGRAM_ID@),
        ],
        data: spec_trade_data(PUMP_BUY_SELECTOR@, token_amount, max_sol_cost),
    }
}

/// The sell directive.
pub open spec fn spec_sell_directive(
    trader: Seq<u8>,
    mint: Seq<u8>,
    accounts: TradeAccountsView,
    token_amount: u64,
    min_sol_receive: u64,
) -> DirectiveView {
    DirectiveView {
        program_id: PROXY_PROGRAM@,
        accounts: seq![
            readonly(GLOBAL_ACCOUNT@),
            writable(FEE_RECIPIENT@),
            readonly(mint),
            writable(accounts.bonding_curve),
            writable(accounts.associated_bonding_curve),
            writable(accounts.associated_user),
            writable_signer(trader),
            readonly(SYSTEM_PROGRAM@),
            readonly(ASSOCIATED_TOKEN_PROGRAM@),
            readonly(TOKEN_PROGRAM@),
            readonly(EVENT_AUTHORITY@),
            readonly(PUMP_PROGRAM_ID@),
        ],
        data: spec_trade_data(PUMP_SELL_SELECTOR@, token_amount, min_sol_receive),
    }
}

/// The directives of a buy, in their order: fee, compute limit, token
/// account, buy.
pub open spec fn spec_buy_directives(
    trader: Seq<u8>,
    mint: Seq<u8>,
    accounts: TradeAccountsView,
    token_amount: u64,
    max_sol_cost: u64,
) -> Seq<DirectiveView> {
    seq![
        spec_unit_price_directive(COMPUTE_UNIT_PRICE),
        spec_unit_limit_directive(COMPUTE_UNIT_LIMIT),
        spec_ensure_account_directive(trader, mint, accounts),
        spec_buy_directive(trader, mint, accounts, token_amount, max_sol_cost),
    ]
}

/// The directives of a sell, in their order: fee, compute limit, sell.
pub open spec fn spec_sell_directives(
    trader: Seq<u8>,
    mint: Seq<u8>,
    accounts: TradeAccountsView,
    token_amount: u64,
    min_sol_receive: u64,
) -> Seq<DirectiveView> {
    seq![
        spec_unit_price_directive(COMPUTE_UNIT_PRICE),
        spec_unit_limit_directive(COMPUTE_UNIT_LIMIT),
        spec_sell_directive(trader, mint, accounts, token_amount, min_sol_receive),
    ]
}

/// How every trade is sent: without a simulation first, checked against the
/// least settled state, and never sent twice.
pub open spec fn spec_send_options() -> SendOptions {
    SendOptions {
        skip_preflight: true,
        preflight_commitment: Commitment::Processed,
        max_retries: 0,
    }
}

/// Calls `ComputeBudgetInstruction::set_compute_unit_price` and copies the
/// instruction it returns: addressed to the compute budget program, with no
/// account, and with the byte 3 and the price in eight little-endian bytes
/// as its payload.
#[verifier::external_body]
fn unit_price_directive(micro_lamports: u64) -> (r: Directive)
    ensures
        r@ == spec_unit_price_directive(micro_lamports),
{
    let made = ComputeBudgetInstruction::set_compute_unit_price(micro_lamports);
    let accounts = made.accounts.iter().map(
        |meta|
            AccountRole {
                pubkey: meta.pubkey.to_bytes(),
                is_signer: meta.is_signer,
                is_writable: meta.is_writable,
            },
    ).collect();
    Directive { program_id: made.program_id.to_bytes(), accounts, data: made.data }
}

/// Calls `ComputeBudgetInstruction::set_compute_unit_limit` and copies the
/// instruction it returns: addressed to the compute budget program, with no
/// account, and with the byte 2 and the limit in four little-endian bytes as
/// its payload.
#[verifier::external_body]
fn unit_limit_directive(units: u32) -> (r: Directive)
    ensures
        r@ == spec_unit_limit_directive(units),
{
    let made = ComputeBudgetInstruction::set_compute_unit_limit(units);
    let accounts = made.accounts.iter().map(
        |meta|
            AccountRole {
                pubkey: meta.pubkey.to_bytes(),
                is_signer: meta.is_signer,
                is_writable: meta.is_writable,
            },
    ).collect();
    Directive { program_id: made.program_id.to_bytes(), accounts, data: made.data }
}

/// Appends the eight little-endian bytes of `value` to `data`.
pub fn append_u64_le(data: &mut Vec<u8>, value: u64)
    ensures
        final(data)@ == old(data)@ + u64_le_bytes(value as int),
{
    data.push((value % 0x100) as u8);
    data.push(((value / 0x100) % 0x100) as u8);
    data.push(((value / 0x1_0000) % 0x100) as u8);
    data.push(((value / 0x100_0000) % 0x100) as u8);
    data.push(((value / 0x1_0000_0000) % 0x100) as u8);
    data.push(((value / 0x100_0000_0000) % 0x100) as u8);
    data.push(((value / 0x1_0000_0000_0000) % 0x100) as u8);
    data.push(((value / 0x100_0000_0000_0000) % 0x100) as u8);
    assert(data@ =~= old(data)@ + u64_le_bytes(value as int));
}

/// Appends the bytes of `bytes` to `data`.
fn append_bytes(data: &mut Vec<u8>, bytes: &[u8])
    ensures
        final(data)@ == old(data)@ + bytes@,
{
    let mut i: usize = 0;
    while i < bytes.len()
        invariant
            i <= bytes@.len(),
            data@ == old(data)@ + bytes@.subrange(0, i as int),
        decreases bytes@.len() - i,
    {
        data.push(bytes[i]);
        assert(data@ =~= old(data)@ + bytes@.subrange(0, i + 1));
        i = i + 1;
    }
    assert(bytes@.subrange(0, bytes@.len() as int) =~= bytes@);
}

/// The payload of a trade: `selector`, then the two numbers in little-endian
/// bytes.
pub fn trade_data(selector: &[u8; 8], first: u64, second: u64) -> (data: Vec<u8>)
    ensures
        data@ == spec_trade_data(selector@, first, second),
{
    let mut data: Vec<u8> = Vec::new();
    append_bytes(&mut data, selector.as_slice());
    append_u64_le(&mut data, first);
    append_u64_le(&mut data, second);
    assert(data@ =~= spec_trade_data(selector@, first, second));
    data
}

/// A copy of `bytes` as a vector.
fn to_vec(bytes: &[u8]) -> (v: Vec<u8>)
    ensures
        v@ == bytes@,
{
    let mut v: Vec<u8> = Vec::new();
    append_bytes(&mut v, bytes);
    assert(v@ =~= bytes@);
    v
}

/// The address of the token account that `wallet` holds `mint` in, or `None`
/// where the ledger derives none.
pub fn associated_token_address(wallet: &[u8; 32], mint: &[u8; 32]) -> (r: Option<[u8; 32]>)
    ensures
        match r {
            Some(address) => spec_associated_token_address(wallet@, mint@) == Some(address@),
            None => spec_associated_token_address(wallet@, mint@) is None,
        },
{
    let mut seeds: Vec<Vec<u8>> = Vec::new();
    seeds.push(to_vec(wallet.as_slice()));
    seeds.push(to_vec(TOKEN_PROGRAM.as_slice()));
    seeds.push(to_vec(mint.as_slice()));
    assert(seeds_view(seeds@) =~= seq![wallet@, TOKEN_PROGRAM@, mint@]);
    find_derived_address(&seeds, &ASSOCIATED_TOKEN_PROGRAM)
}

/// The address of the bonding curve of `mint`, or `None` where the ledger
/// derives none.
pub fn bonding_curve_address(mint: &[u8; 32]) -> (r: Option<[u8; 32]>)
    ensures
        match r {
            Some(address) => spec_bonding_curve_address(mint@) == Some(address@),
            None => spec_bonding_curve_address(mint@) is None,
        },
{
    let mut seeds: Vec<Vec<u8>> = Vec::new();
    seeds.push(to_vec(BONDING_CURVE_SEED.as_slice()));
    seeds.push(to_vec(mint.as_slice()));
    assert(seeds_view(seeds@) =~= seq![BONDING_CURVE_SEED@, mint@]);
    find_derived_address(&seeds, &PUMP_PROGRAM_ID)
}

/// The derived addresses of a trade of `mint` by `trader`.
pub fn trade_accounts(trader: &[u8; 32], mint: &[u8; 32]) -> (r: Result<TradeAccounts, PlanError>)
    ensures
        match r {
            Ok(accounts) => spec_trade_accounts(trader@, mint@) == Some(accounts@),
            Err(e) => spec_trade_accounts(trader@, mint@) is None,
        },
{
    let bonding_curve = match bonding_curve_address(mint) {
        Some(address) => address,
        None => {
            return Err(PlanError::NoDerivedAddress);
        },
    };
    let associated_user = match associated_token_address(trader, mint) {
        Some(address) => address,
        None => {
            return Err(PlanError::NoDerivedAddress);
        },
    };
    let associated_bonding_curve = match associated_token_address(&bonding_curve, mint) {
        Some(address) => address,
        None => {
            return Err(PlanError::NoDerivedAddress);
        },
    };
    Ok(TradeAccounts { bonding_curve, associated_bonding_curve, associated_user })
}

/// An account that is only read.
fn readonly_role(pubkey: [u8; 32]) -> (r: AccountRole)
    ensures
        r@ == readonly(pubkey@),
{
    AccountRole { pubkey, is_signer: false, is_writable: false }
}

/// An account that is written.
fn writable_role(pubkey: [u8; 32]) -> (r: AccountRole)
    ensures
        r@ == writable(pubkey@),
{
    AccountRole { pubkey, is_signer: false, is_writable: true }
}

/// An account that is written and signs.
fn signer_role(pubkey: [u8; 32]) -> (r: AccountRole)
    ensures
        r@ == writable_signer(pubkey@),
{
    AccountRole { pubkey, is_signer: true, is_writable: true }
}

/// The directive that makes sure the trader's token account exists.
pub fn ensure_account_directive(trader: &[u8; 32], mint: &[u8; 32], accounts: &TradeAccounts) -> (r:
    Directive)
    ensures
        r@ == spec_ensure_account_directive(trader@, mint@, accounts@),
{
    let mut roles: Vec<AccountRole> = Vec::new();
    roles.push(signer_role(*trader));
    roles.push(writable_role(accounts.associated_user));
    roles.push(readonly_role(*mint));
    roles.push(readonly_role(SYSTEM_PROGRAM));
    roles.push(readonly_role(TOKEN_PROGRAM));
    roles.push(readonly_role(ASSOCIATED_TOKEN_PROGRAM));
    let mut data: Vec<u8> = to_vec(ATA_SELECTOR.as_slice());
    data.push(0);
    assert(data@ =~= ATA_SELECTOR@ + seq![0u8]);
    assert(roles_view(roles@) =~= spec_ensure_account_directive(
        trader@,
        mint@,
        accounts@,
    ).accounts);
    Directive { program_id: PROXY_PROGRAM, accounts: roles, data }
}

/// The buy directive.
pub fn buy_directive(
    trader: &[u8; 32],
    mint: &[u8; 32],
    accounts: &TradeAccounts,
    token_amount: u64,
    max_sol_cost: u64,
) -> (r: Directive)
    ensures
        r@ == spec_buy_directive(trader@, mint@, accounts@, token_amount, max_sol_cost),
{
    let mut roles: Vec<AccountRole> = Vec::new();
    roles.push(readonly_role(GLOBAL_ACCOUNT));
    roles.push(writable_role(FEE_RECIPIENT));
    roles.push(readonly_role(*mint));
    roles.push(writable_role(accounts.bonding_curve));
    roles.push(writable_role(accounts.associated_bonding_curve));
    roles.push(writable_role(accounts.associated_user));
    roles.push(signer_role(*trader));
    roles.push(readonly_role(SYSTEM_PROGRAM));
    roles.push(readonly_role(TOKEN_PROGRAM));
    roles.push(readonly_role(SYSVAR_RENT_PUBKEY));
    roles.push(readonly_role(EVENT_AUTHORITY));
    roles.push(readonly_role(PUMP_PROGRAM_ID));
    let data = trade_data(&PUMP_BUY_SELECTOR, token_amount, max_sol_cost);
    assert(roles_view(roles@) =~= spec_buy_directive(
        trader@,
        mint@,
        accounts@,
        token_amount,
        max_sol_cost,
    ).accounts);
    Directive { program_id: PROXY_PROGRAM, accounts: roles, data }
}

/// The sell directive.
pub fn sell_directive(
    trader: &[u8; 32],
    mint: &[u8; 32],
    accounts: &TradeAccounts,
    token_amount: u64,
    min_sol_receive: u64,
) -> (r: Directive)
    ensures
        r@ == spec_sell_directive(trader@, mint@, accounts@, token_amount, min_sol_receive),
{
    let mut roles: Vec<AccountRole> = Vec::new();
    roles.push(readonly_role(GLOBAL_ACCOUNT));
    roles.push(writable_role(FEE_RECIPIENT));
    roles.push(readonly_role(*mint));
    roles.push(writable_role(accounts.bonding_curve));
    roles.push(writable_role(accounts.associated_bonding_curve));
    roles.push(writable_role(accounts.associated_user));
    roles.push(signer_role(*trader));
    roles.push(readonly_role(SYSTEM_PROGRAM));
    roles.push(readonly_role(ASSOCIATED_TOKEN_PROGRAM));
    roles.push(readonly_role(TOKEN_PROGRAM));
    roles.push(readonly_role(EVENT_AUTHORITY));
    roles.push(readonly_role(PUMP_PROGRAM_ID));
    let data = trade_data(&PUMP_SELL_SELECTOR, token_amount, min_sol_receive);
    assert(roles_view(roles@) =~= spec_sell_directive(
        trader@,
        mint@,
        accounts@,
        token_amount,
        min_sol_receive,
    ).accounts);
    Directive { program_id: PROXY_PROGRAM, accounts: roles, data }
}

/// How every trade is sent.
pub fn send_options() -> (r: SendOptions)
    ensures
        r == spec_send_options(),
{
    SendOptions {
        skip_preflight: true,
        preflight_commitment: Commitment::Processed,
        max_retries: 0,
    }
}

/// Plans the purchase of `token_amount` of `token_mint` by `trader` for at
/// most `max_sol_cost` lamports, against the block reference `blockhash`.
///
/// Fails exactly where the ledger derives no address for the asset's bonding
/// curve or for one of the two token accounts.
pub fn pump_buy(
    trader: &[u8; 32],
    token_mint: &[u8; 32],
    token_amount: u64,
    max_sol_cost: u64,
    blockhash: [u8; 32],
) -> (r: Result<TransactionPlan, PlanError>)
    ensures
        match r {
            Ok(plan) => spec_trade_accounts(trader@, token_mint@) is Some && directives_view(
                plan.directives@,
            ) == spec_buy_directives(
                trader@,
                token_mint@,
                spec_trade_accounts(trader@, token_mint@)->Some_0,
                token_amount,
                max_sol_cost,
            ) && plan.payer == *trader && plan.recent_blockhash == blockhash && plan.options
                == spec_send_options(),
            Err(e) => spec_trade_accounts(trader@, token_mint@) is None,
        },
{
    let accounts = trade_accounts(trader, token_mint)?;
    let mut directives: Vec<Directive> = Vec::new();
    directives.push(unit_price_directive(COMPUTE_UNIT_PRICE));
    directives.push(unit_limit_directive(COMPUTE_UNIT_LIMIT));
    directives.push(ensure_account_directive(trader, token_mint, &accounts));
    directives.push(buy_directive(trader, token_mint, &accounts, token_amount, max_sol_cost));
    assert(directives_view(directives@) =~= spec_buy_directives(
        trader@,
        token_mint@,
        accounts@,
        token_amount,
        max_sol_cost,
    ));
    Ok(
        TransactionPlan {
            payer: *trader,
            recent_blockhash: blockhash,
            directives,
            options: send_options(),
        },
    )
}

/// Plans the sale of `token_amount` of `token_mint` by `trader` for at least
/// `min_sol_receive` lamports, against the block reference `blockhash`.
///
/// Fails exactly where the ledger derives no address for the asset's bonding
/// curve or for one of the two token accounts.
pub fn pump_sell(
    trader: &[u8; 32],
    token_mint: &[u8; 32],
    token_amount: u64,
    min_sol_receive: u64,
    blockhash: [u8; 32],
) -> (r: Result<TransactionPlan, PlanError>)
    ensures
        match r {
            Ok(plan) => spec_trade_accounts(trader@, token_mint@) is Some && directives_view(
                plan.directives@,
            ) == spec_sell_directives(
                trader@,
                token_mint@,
                spec_trade_accounts(trader@, token_mint@)->Some_0,
                token_amount,
                min_sol_receive,
            ) && plan.payer == *trader && plan.recent_blockhash == blockhash && plan.options
                == spec_send_options(),
            Err(e) => spec_trade_accounts(trader@, token_mint@) is None,
        },
{
    let accounts = trade_accounts(trader, token_mint)?;
    let mut directives: Vec<Directive> = Vec::new();
    directives.push(unit_price_directive(COMPUTE_UNIT_PRICE));
    directives.push(unit_limit_directive(COMPUTE_UNIT_LIMIT));
    directives.push(sell_directive(trader, token_mint, &accounts, token_amount, min_sol_receive));
    assert(directives_view(directives@) =~= spec_sell_directives(
        trader@,
        token_mint@,
        accounts@,
        token_amount,
        min_sol_receive,
    ));
    Ok(
        TransactionPlan {
            payer: *trader,
            recent_blockhash: blockhash,
            directives,
            options: send_options(),
        },
    )
}

} // verus!
