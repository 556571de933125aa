//! Calls into the liquidity venue that graduated curves move to: creating
//! a pool, creating an escrow for locked liquidity, locking liquidity in
//! it, and claiming the fees that locked liquidity earns.
//!
//! Each function lays out one call: the accounts in the order the venue
//! expects, and the data it reads. Making the call is left to the caller.

use vstd::prelude::*;
use crate::cpi::{le_bytes, push_bytes, push_u64_le, AccountMeta, Instruction};
use crate::state::Pubkey;

verus! {

/// The venue's pool program.
pub const DYNAMIC_AMM_ID: [u8; 32] = [
    204, 248, 2, 212, 204, 204, 132, 215, 251, 33, 181, 247, 59, 73, 216, 26, 22, 197, 180, 200,
    142, 227, 35, 148, 225, 201, 29, 53, 136, 204, 64, 128,
];

/// The venue's vault program.
pub const DYNAMIC_VAULT_ID: [u8; 32] = [
    15, 191, 232, 132, 109, 104, 92, 189, 198, 44, 202, 126, 4, 199, 232, 246, 141, 204, 49, 58,
    179, 18, 119, 226, 224, 17, 42, 46, 192, 224, 82, 229,
];

/// The token metadata program.
pub const MPL_TOKEN_METADATA_ID: [u8; 32] = [
    11, 112, 101, 177, 227, 209, 124, 69, 56, 157, 82, 127, 107, 4, 195, 205, 88, 184, 108, 115,
    26, 160, 253, 181, 73, 182, 209, 188, 3, 248, 41, 70,
];

/// Selects the creation of a pool.
pub const INIT_POOL_DISCRIMINATOR: [u8; 8] = [0x2f, 0x48, 0x59, 0x40, 0xf8, 0x00, 0x7e, 0x3c];

/// Selects the creation of an escrow.
pub const CREATE_LOCK_ESCROW_DISCRIMINATOR: [u8; 8] = [
    0x34, 0x9c, 0x9a, 0x79, 0xe4, 0x27, 0x34, 0x3f,
];

/// Selects the locking of liquidity.
pub const LOCK_DISCRIMINATOR: [u8; 8] = [0x65, 0xd2, 0x38, 0xf5, 0xb0, 0x3f, 0x7c, 0x5e];

/// Selects the claiming of fees.
pub const CLAIM_FEE_DISCRIMINATOR: [u8; 8] = [0xa9, 0x20, 0x4f, 0x8f, 0x5b, 0x3a, 0x7e, 0x9c];

/// How a pool is set up when it is created.
#[derive(Clone, Copy, Debug, PartialEq, Eq)]
pub struct CustomizableParams {
    /// Trading fee in basis points.
    pub trade_fee_bps: u16,
    /// The venue's part of the trading fee, in basis points.
    pub protocol_trade_fee_bps: u16,
    /// Whether the pool opens at a slot (0) or at a time (1).
    pub activation_type: u8,
    /// The slot or time at which the pool opens, if it does not open at once.
    pub activation_point: Option<u64>,
    /// Whether the pool has an alpha vault.
    pub has_alpha_vault: bool,
    /// Kept for later use.
    pub padding: [u8; 90],
}

impl CustomizableParams {
    /// A pool with a trading fee of 0.25%, of which the venue takes
    /// nothing, that opens at once and has no alpha vault.
    pub open spec fn is_default(self) -> bool {
        &&& self.trade_fee_bps == 25
        &&& self.protocol_trade_fee_bps == 0
        &&& self.activation_type == 0
        &&& self.activation_point is None
        &&& !self.has_alpha_vault
        &&& forall|i: int| 0 <= i < 90 ==> self.padding[i] == 0
    }
}

impl Default for CustomizableParams {
    fn default() -> (params: CustomizableParams)
        ensures
            params.is_default(),
    {
        CustomizableParams {
            trade_fee_bps: 25,
            protocol_trade_fee_bps: 0,
            activation_type: 0,
            activation_point: None,
            has_alpha_vault: false,
            padding: [0u8; 90],
        }
    }
}

/// The accounts that the creation of a pool takes.
#[derive(Clone, Copy, Debug, PartialEq, Eq)]
pub struct InitializeCustomizablePermissionlessPool {
    /// The pool to create.
    pub pool: Pubkey,
    /// The pool's liquidity token.
    pub lp_mint: Pubkey,
    /// The graduated asset.
    pub token_a_mint: Pubkey,
    /// The quote asset.
    pub token_b_mint: Pubkey,
    /// The venue's vault for the graduated asset.
    pub a_vault: Pubkey,
    /// The venue's vault for the quote asset.
    pub b_vault: Pubkey,
    /// Token account of the first vault.
    pub a_token_vault: Pubkey,
    /// Token account of the second vault.
    pub b_token_vault: Pubkey,
    /// Liquidity token of the first vault.
    pub a_vault_lp_mint: Pubkey,
    /// Liquidity token of the second vault.
    pub b_vault_lp_mint: Pubkey,
    /// The pool's share of the first vault.
    pub a_vault_lp: Pubkey,
    /// The pool's share of the second vault.
    pub b_vault_lp: Pubkey,
    /// Where the graduated asset comes from.
    pub payer_token_a: Pubkey,
    /// Where the quote asset comes from.
    pub payer_token_b: Pubkey,
    /// Where the pool's liquidity tokens go.
    pub payer_pool_lp: Pubkey,
    /// The venue's fee account for the graduated asset.
    pub protocol_token_a_fee: Pubkey,
    /// The venue's fee account for the quote asset.
    pub protocol_token_b_fee: Pubkey,
    /// Who pays for and signs the creation.
    pub payer: Pubkey,
    /// The rent record.
    pub rent: Pubkey,
    /// Metadata of the liquidity token.
    pub mint_metadata: Pubkey,
    /// The metadata program.
    pub metadata_program: Pubkey,
    /// The venue's vault program.
    pub vault_program: Pubkey,
    /// The token program.
    pub token_program: Pubkey,
    /// The associated-token program.
    pub associated_token_program: Pubkey,
    /// The system program.
    pub system_program: Pubkey,
}

/// The accounts that the creation of an escrow takes.
#[derive(Clone, Copy, Debug, PartialEq, Eq)]
pub struct CreateLockEscrow {
    /// The pool.
    pub pool: Pubkey,
    /// The escrow to create.
    pub lock_escrow: Pubkey,
    /// Who will own the escrow.
    pub owner: Pubkey,
    /// The pool's liquidity token.
    pub lp_mint: Pubkey,
    /// Who pays for and signs the creation.
    pub payer: Pubkey,
    /// The system program.
    pub system_program: Pubkey,
}

/// The accounts that the locking of liquidity takes.
#[derive(Clone, Copy, Debug, PartialEq, Eq)]
pub struct Lock {
    /// The pool.
    pub pool: Pubkey,
    /// The escrow.
    pub lock_escrow: Pubkey,
    /// The pool's liquidity token.
    pub lp_mint: Pubkey,
    /// Who holds the liquidity tokens, and signs.
    pub owner: Pubkey,
    /// Where the liquidity tokens come from.
    pub source_tokens: Pubkey,
    /// Where the escrow keeps them.
    pub escrow_vault: Pubkey,
    /// The token program.
    pub token_program: Pubkey,
    /// The first vault.
    pub a_vault: Pubkey,
    /// The second vault.
    pub b_vault: Pubkey,
    /// Liquidity token of the first vault.
    pub a_vault_lp_mint: Pubkey,
    /// Liquidity token of the second vault.
    pub b_vault_lp_mint: Pubkey,
    /// The pool's share of the first vault.
    pub a_vault_lp: Pubkey,
    /// The pool's share of the second vault.
    pub b_vault_lp: Pubkey,
}

/// The accounts that the claiming of fees takes.
#[derive(Clone, Copy, Debug, PartialEq, Eq)]
pub struct ClaimFee {
    /// The pool.
    pub pool: Pubkey,
    /// The pool's liquidity token.
    pub lp_mint: Pubkey,
    /// The escrow.
    pub lock_escrow: Pubkey,
    /// Who owns the escrow, and signs.
    pub owner: Pubkey,
    /// The escrow's token account.
    pub source_tokens: Pubkey,
    /// Where the escrow keeps the liquidity tokens.
    pub escrow_vault: Pubkey,
    /// Token account of the first vault.
    pub a_token_vault: Pubkey,
    /// Token account of the second vault.
    pub b_token_vault: Pubkey,
    /// The first vault.
    pub a_vault: Pubkey,
    /// The second vault.
    pub b_vault: Pubkey,
    /// The pool's share of the first vault.
    pub a_vault_lp: Pubkey,
    /// The pool's share of the second vault.
    pub b_vault_lp: Pubkey,
    /// Liquidity token of the first vault.
    pub a_vault_lp_mint: Pubkey,
    /// Liquidity token of the second vault.
    pub b_vault_lp_mint: Pubkey,
    /// Where fees in the graduated asset go.
    pub user_a_token: Pubkey,
    /// Where fees in the quote asset go.
    pub user_b_token: Pubkey,
    /// The token program.
    pub token_program: Pubkey,
    /// The venue's vault program.
    pub vault_program: Pubkey,
}

/// The venue's pool program.
pub open spec fn dynamic_amm() -> Pubkey {
    Pubkey { bytes: DYNAMIC_AMM_ID }
}

/// The venue's pool program.
pub fn dynamic_amm_id() -> (id: Pubkey)
    ensures
        id == dynamic_amm(),
{
    Pubkey::new_from_array(DYNAMIC_AMM_ID)
}

/// The venue's vault program.
pub fn dynamic_vault_id() -> (id: Pubkey)
    ensures
        id.bytes == DYNAMIC_VAULT_ID,
{
    Pubkey::new_from_array(DYNAMIC_VAULT_ID)
}

/// The token metadata program.
pub fn mpl_token_metadata_id() -> (id: Pubkey)
    ensures
        id.bytes == MPL_TOKEN_METADATA_ID,
{
    Pubkey::new_from_array(MPL_TOKEN_METADATA_ID)
}

/// The accounts of a pool's creation, as the venue expects them.
pub open spec fn initialize_customizable_pool_accounts(
    accounts: InitializeCustomizablePermissionlessPool,
) -> Seq<AccountMeta> {
    seq![
        AccountMeta::writable(accounts.pool, false),
        AccountMeta::readonly(accounts.token_a_mint, false),
        AccountMeta::readonly(accounts.token_b_mint, false),
        AccountMeta::writable(accounts.a_vault, false),
        AccountMeta::writable(accounts.b_vault, false),
        AccountMeta::writable(accounts.a_token_vault, false),
        AccountMeta::writable(accounts.b_token_vault, false),
        AccountMeta::writable(accounts.a_vault_lp_mint, false),
        AccountMeta::writable(accounts.b_vault_lp_mint, false),
        AccountMeta::writable(accounts.a_vault_lp, false),
        AccountMeta::writable(accounts.b_vault_lp, false),
        AccountMeta::writable(accounts.payer_token_a, false),
        AccountMeta::writable(accounts.payer_token_b, false),
        AccountMeta::writable(accounts.payer_pool_lp, false),
        AccountMeta::writable(accounts.protocol_token_a_fee, false),
        AccountMeta::writable(accounts.protocol_token_b_fee, false),
        AccountMeta::writable(accounts.payer, true),
        AccountMeta::readonly(accounts.rent, false),
        AccountMeta::writable(accounts.mint_metadata, false),
        AccountMeta::readonly(accounts.metadata_program, false),
        AccountMeta::readonly(accounts.vault_program, false),
        AccountMeta::readonly(accounts.token_program, false),
        AccountMeta::readonly(accounts.associated_token_program, false),
        AccountMeta::writable(accounts.lp_mint, false),
        AccountMeta::readonly(accounts.system_program, false),
    ]
}

/// The call that creates a pool with `token_a_amount` of the graduated
/// asset and `token_b_amount` of the quote asset. `params` is the pool's
/// set-up in the venue's encoding. The data is the selector, the two
/// amounts, lowest byte first, and the set-up.
pub fn initialize_customizable_pool(
    accounts: &InitializeCustomizablePermissionlessPool,
    token_a_amount: u64,
    token_b_amount: u64,
    params: &[u8],
) -> (ix: Instruction)
    ensures
        ix.program_id == dynamic_amm(),
        ix.accounts@ == initialize_customizable_pool_accounts(*accounts),
        ix.data@ == INIT_POOL_DISCRIMINATOR@ + le_bytes(token_a_amount) + le_bytes(token_b_amount)
            + params@,
{
    let mut data: Vec<u8> = Vec::new();
    push_bytes(&mut data, INIT_POOL_DISCRIMINATOR.as_slice());
    push_u64_le(&mut data, token_a_amount);
    push_u64_le(&mut data, token_b_amount);
    push_bytes(&mut data, params);
    let mut metas: Vec<AccountMeta> = Vec::new();
    metas.push(AccountMeta::new(accounts.pool, false));
    metas.push(AccountMeta::new_readonly(accounts.token_a_mint, false));
    metas.push(AccountMeta::new_readonly(accounts.token_b_mint, false));
    metas.push(AccountMeta::new(accounts.a_vault, false));
    metas.push(AccountMeta::new(accounts.b_vault, false));
    metas.push(AccountMeta::new(accounts.a_token_vault, false));
    metas.push(AccountMeta::new(accounts.b_token_vault, false));
    metas.push(AccountMeta::new(accounts.a_vault_lp_mint, false));
    metas.push(AccountMeta::new(accounts.b_vault_lp_mint, false));
    metas.push(AccountMeta::new(accounts.a_vault_lp, false));
    metas.push(AccountMeta::new(accounts.b_vault_lp, false));
    metas.push(AccountMeta::new(accounts.payer_token_a, false));
    metas.push(AccountMeta::new(accounts.payer_token_b, false));
    metas.push(AccountMeta::new(accounts.payer_pool_lp, false));
    metas.push(AccountMeta::new(accounts.protocol_token_a_fee, false));
    metas.push(AccountMeta::new(accounts.protocol_token_b_fee, false));
    metas.push(AccountMeta::new(accounts.payer, true));
    metas.push(AccountMeta::new_readonly(accounts.rent, false));
    metas.push(AccountMeta::new(accounts.mint_metadata, false));
    metas.push(AccountMeta::new_readonly(accounts.metadata_program, false));
    metas.push(AccountMeta::new_readonly(accounts.vault_program, false));
    metas.push(AccountMeta::new_readonly(accounts.token_program, false));
    metas.push(AccountMeta::new_readonly(accounts.associated_token_program, false));
    metas.push(AccountMeta::new(accounts.lp_mint, false));
    metas.push(AccountMeta::new_readonly(accounts.system_program, false));
    proof {
        assert(metas@ =~= initialize_customizable_pool_accounts(*accounts));
    }
    Instruction { program_id: dynamic_amm_id(), accounts: metas, data }
}

/// The accounts of an escrow's creation, as the venue expects them.
pub open spec fn create_lock_escrow_accounts(accounts: CreateLockEscrow) -> Seq<AccountMeta> {
    seq![
        AccountMeta::readonly(accounts.pool, false),
        AccountMeta::writable(accounts.lock_escrow, false),
        AccountMeta::readonly(accounts.owner, false),
        AccountMeta::readonly(accounts.lp_mint, false),
        AccountMeta::writable(accounts.payer, true),
        AccountMeta::readonly(accounts.system_program, false),
    ]
}

/// The call that creates an escrow for locked liquidity. The data is the
/// selector alone.
pub fn create_lock_escrow(accounts: &CreateLockEscrow) -> (ix: Instruction)
    ensures
        ix.program_id == dynamic_amm(),
        ix.accounts@ == create_lock_escrow_accounts(*accounts),
        ix.data@ == CREATE_LOCK_ESCROW_DISCRIMINATOR@,
{
    let mut data: Vec<u8> = Vec::new();
    push_bytes(&mut data, CREATE_LOCK_ESCROW_DISCRIMINATOR.as_slice());
    let mut metas: Vec<AccountMeta> = Vec::new();
    metas.push(AccountMeta::new_readonly(accounts.pool, false));
    metas.push(AccountMeta::new(accounts.lock_escrow, false));
    metas.push(AccountMeta::new_readonly(accounts.owner, false));
    metas.push(AccountMeta::new_readonly(accounts.lp_mint, false));
    metas.push(AccountMeta::new(accounts.payer, true));
    metas.push(AccountMeta::new_readonly(accounts.system_program, false));
    proof {
        assert(metas@ =~= create_lock_escrow_accounts(*accounts));
    }
    Instruction { program_id: dynamic_amm_id(), accounts: metas, data }
}

/// The accounts of a locking of liquidity, as the venue expects them.
pub open spec fn lock_accounts(accounts: Lock) -> Seq<AccountMeta> {
    seq![
        AccountMeta::readonly(accounts.pool, false),
        AccountMeta::writable(accounts.lock_escrow, false),
        AccountMeta::readonly(accounts.lp_mint, false),
        AccountMeta::readonly(accounts.owner, true),
        AccountMeta::writable(accounts.source_tokens, false),
        AccountMeta::writable(accounts.escrow_vault, false),
        AccountMeta::readonly(accounts.token_program, false),
        AccountMeta::readonly(accounts.a_vault, false),
        AccountMeta::readonly(accounts.b_vault, false),
        AccountMeta::readonly(accounts.a_vault_lp_mint, false),
        AccountMeta::readonly(accounts.b_vault_lp_mint, false),
        AccountMeta::readonly(accounts.a_vault_lp, false),
        AccountMeta::readonly(accounts.b_vault_lp, false),
    ]
}

/// The call that locks `lp_amount` liquidity tokens in an escrow. The data
/// is the selector and the amount, lowest byte first.
pub fn lock(accounts: &Lock, lp_amount: u64) -> (ix: Instruction)
    ensures
        ix.program_id == dynamic_amm(),
        ix.accounts@ == lock_accounts(*accounts),
        ix.data@ == LOCK_DISCRIMINATOR@ + le_bytes(lp_amount),
{
    let mut data: Vec<u8> = Vec::new();
    push_bytes(&mut data, LOCK_DISCRIMINATOR.as_slice());
    push_u64_le(&mut data, lp_amount);
    let mut metas: Vec<AccountMeta> = Vec::new();
    metas.push(AccountMeta::new_readonly(accounts.pool, false));
    metas.push(AccountMeta::new(accounts.lock_escrow, false));
    metas.push(AccountMeta::new_readonly(accounts.lp_mint, false));
    metas.push(AccountMeta::new_readonly(accounts.owner, true));
    metas.push(AccountMeta::new(accounts.source_tokens, false));
    metas.push(AccountMeta::new(accounts.escrow_vault, false));
    metas.push(AccountMeta::new_readonly(accounts.token_program, false));
    metas.push(AccountMeta::new_readonly(accounts.a_vault, false));
    metas.push(AccountMeta::new_readonly(accounts.b_vault, false));
    metas.push(AccountMeta::new_readonly(accounts.a_vault_lp_mint, false));
    metas.push(AccountMeta::new_readonly(accounts.b_vault_lp_mint, false));
    metas.push(AccountMeta::new_readonly(accounts.a_vault_lp, false));
    metas.push(AccountMeta::new_readonly(accounts.b_vault_lp, false));
    proof {
        assert(metas@ =~= lock_accounts(*accounts));
    }
    Instruction { program_id: dynamic_amm_id(), accounts: metas, data }
}

/// The accounts of a claiming of fees, as the venue expects them.
pub open spec fn claim_fee_accounts(accounts: ClaimFee) -> Seq<AccountMeta> {
    seq![
        AccountMeta::writable(accounts.pool, false),
        AccountMeta::writable(accounts.lp_mint, false),
        AccountMeta::writable(accounts.lock_escrow, false),
        AccountMeta::readonly(accounts.owner, true),
        AccountMeta::readonly(accounts.source_tokens, false),
        AccountMeta::writable(accounts.a_vault, false),
        AccountMeta::writable(accounts.b_vault, false),
        AccountMeta::writable(accounts.a_vault_lp, false),
        AccountMeta::writable(accounts.b_vault_lp, false),
        AccountMeta::writable(accounts.a_vault_lp_mint, false),
        AccountMeta::writable(accounts.b_vault_lp_mint, false),
        AccountMeta::writable(accounts.user_a_token, false),
        AccountMeta::writable(accounts.user_b_token, false),
        AccountMeta::readonly(accounts.vault_program, false),
        AccountMeta::writable(accounts.escrow_vault, false),
        AccountMeta::readonly(accounts.token_program, false),
        AccountMeta::writable(accounts.a_token_vault, false),
        AccountMeta::writable(accounts.b_token_vault, false),
    ]
}

/// The call that claims up to `max_amount` of the fees that locked
/// liquidity has earned. The data is the selector and the amount, lowest
/// byte first.
pub fn claim_fee(accounts: &ClaimFee, max_amount: u64) -> (ix: Instruction)
    ensures
        ix.program_id == dynamic_amm(),
        ix.accounts@ == claim_fee_accounts(*accounts),
        ix.data@ == CLAIM_FEE_DISCRIMINATOR@ + le_bytes(max_amount),
{
    let mut data: Vec<u8> = Vec::new();
    push_bytes(&mut data, CLAIM_FEE_DISCRIMINATOR.as_slice());
    push_u64_le(&mut data, max_amount);
    let mut metas: Vec<AccountMeta> = Vec::new();
    metas.push(AccountMeta::new(accounts.pool, false));
    metas.push(AccountMeta::new(accounts.lp_mint, false));
    metas.push(AccountMeta::new(accounts.lock_escrow, false));
    metas.push(AccountMeta::new_readonly(accounts.owner, true));
    metas.push(AccountMeta::new_readonly(accounts.source_tokens, false));
    metas.push(AccountMeta::new(accounts.a_vault, false));
    metas.push(AccountMeta::new(accounts.b_vault, false));
    metas.push(AccountMeta::new(accounts.a_vault_lp, false));
    metas.push(AccountMeta::new(accounts.b_vault_lp, false));
    metas.push(AccountMeta::new(accounts.a_vault_lp_mint, false));
    metas.push(AccountMeta::new(accounts.b_vault_lp_mint, false));
    metas.push(AccountMeta::new(accounts.user_a_token, false));
    metas.push(AccountMeta::new(accounts.user_b_token, false));
    metas.push(AccountMeta::new_readonly(accounts.vault_program, false));
    metas.push(AccountMeta::new(accounts.escrow_vault, false));
    metas.push(AccountMeta::new_readonly(accounts.token_program, false));
    metas.push(AccountMeta::new(accounts.a_token_vault, false));
    metas.push(AccountMeta::new(accounts.b_token_vault, false));
    proof {
        assert(metas@ =~= claim_fee_accounts(*accounts));
    }
    Instruction { program_id: dynamic_amm_id(), accounts: metas, data }
}

} // verus!
