use fuse::cpi::{push_bytes, push_u64_le, AccountMeta, Instruction};
use fuse::meteora_interface::{
    claim_fee, create_lock_escrow, dynamic_amm_id, dynamic_vault_id, initialize_customizable_pool,
    lock, mpl_token_metadata_id, ClaimFee, CreateLockEscrow, CustomizableParams,
    InitializeCustomizablePermissionlessPool, Lock,
};
use fuse::raydium_interface::{get_ix_data, id as raydium_id, initialize2, Initialize2};
use fuse::state::Pubkey;
use std::str::FromStr;

fn vkey(n: u8) -> Pubkey {
    Pubkey::new_from_array([n; 32])
}

fn w(n: u8) -> AccountMeta {
    AccountMeta { pubkey: vkey(n), is_signer: false, is_writable: true }
}

fn r(n: u8) -> AccountMeta {
    AccountMeta { pubkey: vkey(n), is_signer: false, is_writable: false }
}

fn ws(n: u8) -> AccountMeta {
    AccountMeta { pubkey: vkey(n), is_signer: true, is_writable: true }
}

fn rs(n: u8) -> AccountMeta {
    AccountMeta { pubkey: vkey(n), is_signer: true, is_writable: false }
}

#[test]
fn numbers_are_written_lowest_byte_first() {
    let mut data: Vec<u8> = vec![9];
    push_u64_le(&mut data, 0x0102_0304_0506_0708);
    assert_eq!(data, vec![9, 8, 7, 6, 5, 4, 3, 2, 1]);
    let mut data: Vec<u8> = Vec::new();
    push_u64_le(&mut data, 1_000_000_000);
    push_u64_le(&mut data, 0);
    push_u64_le(&mut data, u64::MAX);
    assert_eq!(
        data,
        vec![
            0, 202, 154, 59, 0, 0, 0, 0, 0, 0, 0, 0, 0, 0, 0, 0, 255, 255, 255, 255, 255, 255, 255,
            255
        ]
    );
    push_bytes(&mut data, &[1, 2, 3]);
    assert_eq!(data.len(), 27);
    assert_eq!(data[24..], [1, 2, 3]);
}

#[test]
fn account_metas_say_what_the_callee_may_do() {
    assert_eq!(AccountMeta::new(vkey(1), false), w(1));
    assert_eq!(AccountMeta::new(vkey(1), true), ws(1));
    assert_eq!(AccountMeta::new_readonly(vkey(1), false), r(1));
    assert_eq!(AccountMeta::new_readonly(vkey(1), true), rs(1));
}

#[test]
fn program_identities_are_the_published_ones() {
    assert_eq!(
        dynamic_amm_id().to_bytes(),
        [
            204, 248, 2, 212, 204, 204, 132, 215, 251, 33, 181, 247, 59, 73, 216, 26, 22, 197, 180,
            200, 142, 227, 35, 148, 225, 201, 29, 53, 136, 204, 64, 128
        ]
    );
    assert_eq!(dynamic_vault_id().to_bytes()[..4], [15, 191, 232, 132]);
    assert_eq!(mpl_token_metadata_id().to_bytes()[..4], [11, 112, 101, 177]);
    assert_eq!(raydium_id().to_bytes()[..4], [75, 217, 73, 196]);
}

#[test]
fn default_pool_set_up_charges_a_quarter_percent() {
    let params = CustomizableParams::default();
    assert_eq!(params.trade_fee_bps, 25);
    assert_eq!(params.protocol_trade_fee_bps, 0);
    assert_eq!(params.activation_type, 0);
    assert_eq!(params.activation_point, None);
    assert!(!params.has_alpha_vault);
    assert_eq!(params.padding, [0u8; 90]);
}

#[test]
fn pool_creation_call_is_laid_out_as_the_venue_expects() {
    let accounts = InitializeCustomizablePermissionlessPool {
        pool: vkey(1),
        lp_mint: vkey(2),
        token_a_mint: vkey(3),
        token_b_mint: vkey(4),
        a_vault: vkey(5),
        b_vault: vkey(6),
        a_token_vault: vkey(7),
        b_token_vault: vkey(8),
        a_vault_lp_mint: vkey(9),
        b_vault_lp_mint: vkey(10),
        a_vault_lp: vkey(11),
        b_vault_lp: vkey(12),
        payer_token_a: vkey(13),
        payer_token_b: vkey(14),
        payer_pool_lp: vkey(15),
        protocol_token_a_fee: vkey(16),
        protocol_token_b_fee: vkey(17),
        payer: vkey(18),
        rent: vkey(19),
        mint_metadata: vkey(20),
        metadata_program: vkey(21),
        vault_program: vkey(22),
        token_program: vkey(23),
        associated_token_program: vkey(24),
        system_program: vkey(25),
    };
    let ix = initialize_customizable_pool(&accounts, 206_909_635_882_694, 85_000_000_000, &[7, 7]);
    assert_eq!(ix.program_id, dynamic_amm_id());
    assert_eq!(
        ix.accounts,
        vec![
            w(1),
            r(3),
            r(4),
            w(5),
            w(6),
            w(7),
            w(8),
            w(9),
            w(10),
            w(11),
            w(12),
            w(13),
            w(14),
            w(15),
            w(16),
            w(17),
            ws(18),
            r(19),
            w(20),
            r(21),
            r(22),
            r(23),
            r(24),
            w(2),
            r(25),
        ]
    );
    let mut data: Vec<u8> = vec![0x2f, 0x48, 0x59, 0x40, 0xf8, 0x00, 0x7e, 0x3c];
    data.extend_from_slice(&206_909_635_882_694u64.to_le_bytes());
    data.extend_from_slice(&85_000_000_000u64.to_le_bytes());
    data.extend_from_slice(&[7, 7]);
    assert_eq!(ix.data, data);
    assert_eq!(ix.data[16..24], [0, 18, 101, 202, 19, 0, 0, 0]);
}

#[test]
fn escrow_creation_call_is_laid_out_as_the_venue_expects() {
    let accounts = CreateLockEscrow {
        pool: vkey(1),
        lock_escrow: vkey(2),
        owner: vkey(3),
        lp_mint: vkey(4),
        payer: vkey(5),
        system_program: vkey(6),
    };
    assert_eq!(
        create_lock_escrow(&accounts),
        Instruction {
            program_id: dynamic_amm_id(),
            accounts: vec![r(1), w(2), r(3), r(4), ws(5), r(6)],
            data: vec![0x34, 0x9c, 0x9a, 0x79, 0xe4, 0x27, 0x34, 0x3f],
        }
    );
}

#[test]
fn lock_call_is_laid_out_as_the_venue_expects() {
    let accounts = Lock {
        pool: vkey(1),
        lock_escrow: vkey(2),
        lp_mint: vkey(3),
        owner: vkey(4),
        source_tokens: vkey(5),
        escrow_vault: vkey(6),
        token_program: vkey(7),
        a_vault: vkey(8),
        b_vault: vkey(9),
        a_vault_lp_mint: vkey(10),
        b_vault_lp_mint: vkey(11),
        a_vault_lp: vkey(12),
        b_vault_lp: vkey(13),
    };
    assert_eq!(
        lock(&accounts, 258),
        Instruction {
            program_id: dynamic_amm_id(),
            accounts: vec![
                r(1),
                w(2),
                r(3),
                rs(4),
                w(5),
                w(6),
                r(7),
                r(8),
                r(9),
                r(10),
                r(11),
                r(12),
                r(13)
            ],
            data: vec![0x65, 0xd2, 0x38, 0xf5, 0xb0, 0x3f, 0x7c, 0x5e, 2, 1, 0, 0, 0, 0, 0, 0],
        }
    );
}

#[test]
fn fee_claim_call_is_laid_out_as_the_venue_expects() {
    let accounts = ClaimFee {
        pool: vkey(1),
        lp_mint: vkey(2),
        lock_escrow: vkey(3),
        owner: vkey(4),
        source_tokens: vkey(5),
        escrow_vault: vkey(6),
        a_token_vault: vkey(7),
        b_token_vault: vkey(8),
        a_vault: vkey(9),
        b_vault: vkey(10),
        a_vault_lp: vkey(11),
        b_vault_lp: vkey(12),
        a_vault_lp_mint: vkey(13),
        b_vault_lp_mint: vkey(14),
        user_a_token: vkey(15),
        user_b_token: vkey(16),
        token_program: vkey(17),
        vault_program: vkey(18),
    };
    assert_eq!(
        claim_fee(&accounts, u64::MAX),
        Instruction {
            program_id: dynamic_amm_id(),
            accounts: vec![
                w(1),
                w(2),
                w(3),
                rs(4),
                r(5),
                w(9),
                w(10),
                w(11),
                w(12),
                w(13),
                w(14),
                w(15),
                w(16),
                r(18),
                w(6),
                r(17),
                w(7),
                w(8)
            ],
            data: vec![
                0xa9, 0x20, 0x4f, 0x8f, 0x5b, 0x3a, 0x7e, 0x9c, 255, 255, 255, 255, 255, 255, 255,
                255
            ],
        }
    );
}

#[test]
fn order_book_pool_data_starts_with_selector_and_nonce() {
    assert_eq!(
        get_ix_data(254, 1, 0x0102_0304_0506_0708, 1_000_000_000),
        vec![
            1, 254, 1, 0, 0, 0, 0, 0, 0, 0, 8, 7, 6, 5, 4, 3, 2, 1, 0, 202, 154, 59, 0, 0, 0, 0
        ]
    );
}

#[test]
fn order_book_pool_call_is_laid_out_as_the_venue_expects() {
    let accounts = Initialize2 {
        token_program: vkey(1),
        system_program: vkey(2),
        rent: vkey(3),
        amm: vkey(4),
        amm_authority: vkey(5),
        amm_open_orders: vkey(6),
        lp_mint: vkey(7),
        coin_mint: vkey(8),
        pc_mint: vkey(9),
        pool_coin_token_account: vkey(10),
        pool_pc_token_account: vkey(11),
        pool_withdraw_queue: vkey(12),
        amm_target_orders: vkey(13),
        pool_temp_lp: vkey(14),
        open_book_program: vkey(15),
        open_book_market: vkey(16),
        user_wallet: vkey(17),
        user_token_coin: vkey(18),
        user_token_pc: vkey(19),
        user_lp_token: vkey(20),
    };
    let ix = initialize2(vkey(99), &accounts, 3, 10, 20, 30);
    assert_eq!(ix.program_id, vkey(99));
    assert_eq!(
        ix.accounts,
        vec![
            r(1),
            r(2),
            r(3),
            w(4),
            r(5),
            w(6),
            w(7),
            r(8),
            r(9),
            w(10),
            w(11),
            w(12),
            w(13),
            w(14),
            r(15),
            r(16),
            ws(17),
            w(18),
            w(19),
            w(20)
        ]
    );
    assert_eq!(ix.data, get_ix_data(3, 10, 20, 30));
    assert_eq!(ix.data.len(), 26);
}

#[test]
fn program_identities_match_their_published_text() {
    let text = |s: &str| anchor_lang::prelude::Pubkey::from_str(s).unwrap().to_bytes();
    assert_eq!(
        dynamic_amm_id().to_bytes(),
        text("Eo7WjKq67rjJQSZxS6z3YkapzY3eMj6Xy8X5EQVn5UaB")
    );
    assert_eq!(
        dynamic_vault_id().to_bytes(),
        text("24Uqj9JCLxUeoC3hGfh5W3s9FM9uCHDS2SG3LYwBpyTi")
    );
    assert_eq!(
        mpl_token_metadata_id().to_bytes(),
        text("metaqbxxUerdq28cj1RbAWkYQm3ybzjb6a8bt518x1s")
    );
    assert_eq!(raydium_id().to_bytes(), text("675kPX9MHTjS2zt1qfr1NYHuzeLXfQM9H24wFSUt1Mp8"));
}

#[test]
fn account_metas_agree_with_the_runtime() {
    for signer in [false, true] {
        let ours = AccountMeta::new(vkey(7), signer);
        let theirs = anchor_lang::solana_program::instruction::AccountMeta::new(
            anchor_lang::prelude::Pubkey::new_from_array([7; 32]),
            signer,
        );
        assert_eq!(ours.pubkey.to_bytes(), theirs.pubkey.to_bytes());
        assert_eq!(ours.is_signer, theirs.is_signer);
        assert_eq!(ours.is_writable, theirs.is_writable);

        let ours = AccountMeta::new_readonly(vkey(7), signer);
        let theirs = anchor_lang::solana_program::instruction::AccountMeta::new_readonly(
            anchor_lang::prelude::Pubkey::new_from_array([7; 32]),
            signer,
        );
        assert_eq!(ours.pubkey.to_bytes(), theirs.pubkey.to_bytes());
        assert_eq!(ours.is_signer, theirs.is_signer);
        assert_eq!(ours.is_writable, theirs.is_writable);
    }
}

#[test]
fn identities_compare_as_the_runtime_compares_them() {
    let mut one = [0u8; 32];
    let mut other = [0u8; 32];
    for i in 0..32 {
        assert_eq!(
            Pubkey::new_from_array(one) == Pubkey::new_from_array(other),
            anchor_lang::prelude::Pubkey::new_from_array(one)
                == anchor_lang::prelude::Pubkey::new_from_array(other)
        );
        other[i] = 1;
        assert_eq!(
            Pubkey::new_from_array(one) == Pubkey::new_from_array(other),
            anchor_lang::prelude::Pubkey::new_from_array(one)
                == anchor_lang::prelude::Pubkey::new_from_array(other)
        );
        assert!(Pubkey::new_from_array(one) != Pubkey::new_from_array(other));
        one[i] = 1;
        assert!(Pubkey::new_from_array(one) == Pubkey::new_from_array(other));
    }
    assert_eq!(
        Pubkey::new_from_array(one).to_bytes(),
        anchor_lang::prelude::Pubkey::new_from_array(one).to_bytes()
    );
}
