//! The call that creates a pool on the order-book venue.
//!
//! The function lays out the call: the accounts in the order the venue
//! expects, and the data it reads. Making the call is left to the caller.

use vstd::prelude::*;
use crate::cpi::{le_bytes, push_u64_le, AccountMeta, Instruction};
use crate::state::Pubkey;

verus! {

/// The venue's pool program.
pub const ID: [u8; 32] = [
    75, 217, 73, 196, 54, 2, 195, 63, 32, 119, 144, 237, 22, 163, 82, 76, 161, 185, 151, 92, 241,
    33, 162, 169, 12, 255, 236, 125, 248, 182, 138, 205,
];

/// Selects the creation of a pool.
pub const INITIALIZE2_DISCRIMINATOR: u8 = 1;

/// The accounts that the creation of a pool takes.
#[derive(Clone, Copy, Debug, PartialEq, Eq)]
pub struct Initialize2 {
    /// The token program.
    pub token_program: Pubkey,
    /// The system program.
    pub system_program: Pubkey,
    /// The rent record.
    pub rent: Pubkey,
    /// The pool.
    pub amm: Pubkey,
    /// The pool's authority.
    pub amm_authority: Pubkey,
    /// The pool's open orders.
    pub amm_open_orders: Pubkey,
    /// The pool's liquidity token.
    pub lp_mint: Pubkey,
    /// The base asset.
    pub coin_mint: Pubkey,
    /// The quote asset.
    pub pc_mint: Pubkey,
    /// The pool's account for the base asset.
    pub pool_coin_token_account: Pubkey,
    /// The pool's account for the quote asset.
    pub pool_pc_token_account: Pubkey,
    /// The pool's withdrawal queue.
    pub pool_withdraw_queue: Pubkey,
    /// The pool's target orders.
    pub amm_target_orders: Pubkey,
    /// The pool's temporary liquidity account.
    pub pool_temp_lp: Pubkey,
    /// The order-book program.
    pub open_book_program: Pubkey,
    /// The order-book market.
    pub open_book_market: Pubkey,
    /// Who pays for and signs the creation.
    pub user_wallet: Pubkey,
    /// Where the base asset comes from.
    pub user_token_coin: Pubkey,
    /// Where the quote asset comes from.
    pub user_token_pc: Pubkey,
    /// Where the liquidity tokens go.
    pub user_lp_token: Pubkey,
}

/// The venue's pool program.
pub fn id() -> (id: Pubkey)
    ensures
        id.bytes == ID,
{
    Pubkey::new_from_array(ID)
}

/// The data of a pool's creation: the selector, the nonce, and the opening
/// time and the two amounts, lowest byte first.
pub open spec fn ix_data(
    nonce: u8,
    open_time: u64,
    init_pc_amount: u64,
    init_coin_amount: u64,
) -> Seq<u8> {
    seq![INITIALIZE2_DISCRIMINATOR, nonce] + le_bytes(open_time) + le_bytes(init_pc_amount)
        + le_bytes(init_coin_amount)
}

/// The accounts of a pool's creation, as the venue expects them.
pub open spec fn initialize2_accounts(accounts: Initialize2) -> Seq<AccountMeta> {
    seq![
        AccountMeta::readonly(accounts.token_program, false),
        AccountMeta::readonly(accounts.system_program, false),
        AccountMeta::readonly(accounts.rent, false),
        AccountMeta::writable(accounts.amm, false),
        AccountMeta::readonly(accounts.amm_authority, false),
        AccountMeta::writable(accounts.amm_open_orders, false),
        AccountMeta::writable(accounts.lp_mint, false),
        AccountMeta::readonly(accounts.coin_mint, false),
        AccountMeta::readonly(accounts.pc_mint, false),
        AccountMeta::writable(accounts.pool_coin_token_account, false),
        AccountMeta::writable(accounts.pool_pc_token_account, false),
        AccountMeta::writable(accounts.pool_withdraw_queue, false),
        AccountMeta::writable(accounts.amm_target_orders, false),
        AccountMeta::writable(accounts.pool_temp_lp, false),
        AccountMeta::readonly(accounts.open_book_program, false),
        AccountMeta::readonly(accounts.open_book_market, false),
        AccountMeta::writable(accounts.user_wallet, true),
        AccountMeta::writable(accounts.user_token_coin, false),
        AccountMeta::writable(accounts.user_token_pc, false),
        AccountMeta::writable(accounts.user_lp_token, false),
    ]
}

/// The data of a pool's creation.
pub fn get_ix_data(nonce: u8, open_time: u64, init_pc_amount: u64, init_coin_amount: u64) -> (data:
    Vec<u8>)
    ensures
        data@ == ix_data(nonce, open_time, init_pc_amount, init_coin_amount),
        data@.len() == 26,
{
    let mut data: Vec<u8> = Vec::new();
    data.push(INITIALIZE2_DISCRIMINATOR);
    data.push(nonce);
    push_u64_le(&mut data, open_time);
    push_u64_le(&mut data, init_pc_amount);
    push_u64_le(&mut data, init_coin_amount);
    proof {
        assert(data@ =~= ix_data(nonce, open_time, init_pc_amount, init_coin_amount));
    }
    data
}

/// The call to `program` that creates a pool which opens at `open_time`
/// with `init_pc_amount` of the quote asset and `init_coin_amount` of the
/// base asset.
pub fn initialize2(
    program: Pubkey,
    accounts: &Initialize2,
    nonce: u8,
    open_time: u64,
    init_pc_amount: u64,
    init_coin_amount: u64,
) -> (ix: Instruction)
    ensures
        ix.program_id == program,
        ix.accounts@ == initialize2_accounts(*accounts),
        ix.data@ == ix_data(nonce, open_time, init_pc_amount, init_coin_amount),
{
    let mut metas: Vec<AccountMeta> = Vec::new();
    metas.push(AccountMeta::new_readonly(accounts.token_program, false));
    metas.push(AccountMeta::new_readonly(accounts.system_program, false));
    metas.push(AccountMeta::new_readonly(accounts.rent, false));
    metas.push(AccountMeta::new(accounts.amm, false));
    metas.push(AccountMeta::new_readonly(accounts.amm_authority, false));
    metas.push(AccountMeta::new(accounts.amm_open_orders, false));
    metas.push(AccountMeta::new(accounts.lp_mint, false));
    metas.push(AccountMeta::new_readonly(accounts.coin_mint, false));
    metas.push(AccountMeta::new_readonly(accounts.pc_mint, false));
    metas.push(AccountMeta::new(accounts.pool_coin_token_account, false));
    metas.push(AccountMeta::new(accounts.pool_pc_token_account, false));
    metas.push(AccountMeta::new(accounts.pool_withdraw_queue, false));
    metas.push(AccountMeta::new(accounts.amm_target_orders, false));
    metas.push(AccountMeta::new(accounts.pool_temp_lp, false));
    metas.push(AccountMeta::new_readonly(accounts.open_book_program, false));
    metas.push(AccountMeta::new_readonly(accounts.open_book_market, false));
    metas.push(AccountMeta::new(accounts.user_wallet, true));
    metas.push(AccountMeta::new(accounts.user_token_coin, false));
    metas.push(AccountMeta::new(accounts.user_token_pc, false));
    metas.push(AccountMeta::new(accounts.user_lp_token, false));
    proof {
        assert(metas@ =~= initialize2_accounts(*accounts));
    }
    Instruction {
        program_id: program,
        accounts: metas,
        data: get_ix_data(nonce, open_time, init_pc_amount, init_coin_amount),
    }
}

} // verus!
