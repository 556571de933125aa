//! What holds of a curve through any run of operations, from its launch to
//! its graduation and after.

use vstd::prelude::*;
use crate::config::ProtocolConfig;
use crate::instructions::buy::{
    buy_error,
    buy_refusal,
    curve_after_buy,
    lemma_buy_keeps_curve,
    Buy,
};
use crate::instructions::migrate::{curve_after_migrate, migrate_error, Migrate};
use crate::instructions::sell::{
    curve_after_sell,
    lemma_sell_keeps_curve,
    sell_error,
    sell_refusal,
    Sell,
};
use crate::state::BondingCurve;

verus! {

/// One request made of a curve.
#[derive(Clone, Debug, PartialEq, Eq)]
pub enum Operation {
    /// A buy of `amount_in` lamports at the time `now`. `accounts` says who
    /// buys and which referral records come with the buy; in place of its
    /// curve stands the one that the request is made of.
    Buy { accounts: Buy, now: i64, amount_in: u64, min_tokens_out: u64 },
    /// A sell of `amount_in` tokens. `accounts` says who sells and which
    /// referral records come with the sell; in place of its curve stands
    /// the one that the request is made of.
    Sell { accounts: Sell, amount_in: u64, min_sol_out: u64 },
    /// A migration. `accounts` says who asks and what the balances are; in
    /// place of its curve stands the one that the request is made of.
    Migrate { accounts: Migrate },
}

/// The curve after one request: changed as the operation says where the
/// request goes through, untouched where it is refused.
pub open spec fn step(curve: BondingCurve, config: ProtocolConfig, op: Operation) -> BondingCurve {
    match op {
        Operation::Buy { accounts, now, amount_in, min_tokens_out } => {
            if buy_refusal(
                Buy { curve_config: curve, ..accounts },
                config,
                now,
                amount_in,
                min_tokens_out,
            ) is None {
                curve_after_buy(curve, config, amount_in)
            } else {
                curve
            }
        },
        Operation::Sell { accounts, amount_in, min_sol_out } => {
            if sell_refusal(
                Sell { curve_config: curve, ..accounts },
                config,
                amount_in,
                min_sol_out,
            ) is None {
                curve_after_sell(curve, config, amount_in)
            } else {
                curve
            }
        },
        Operation::Migrate { accounts } => {
            if migrate_error(Migrate { curve_config: curve, ..accounts }, config) is None {
                curve_after_migrate(curve)
            } else {
                curve
            }
        },
    }
}

/// The curve after a run of requests, made one after the other.
pub open spec fn run(
    curve: BondingCurve,
    config: ProtocolConfig,
    ops: Seq<Operation>,
) -> BondingCurve
    decreases ops.len(),
{
    if ops.len() == 0 {
        curve
    } else {
        step(run(curve, config, ops.drop_last()), config, ops.last())
    }
}

/// What a curve never changes: who created it, which asset it prices, the
/// supply, the launch time, the address bump and the texts.
pub open spec fn same_asset(before: BondingCurve, after: BondingCurve) -> bool {
    &&& after.creator == before.creator
    &&& after.token_mint == before.token_mint
    &&& after.token_total_supply == before.token_total_supply
    &&& after.launch_timestamp == before.launch_timestamp
    &&& after.bump == before.bump
    &&& after.name == before.name
    &&& after.symbol == before.symbol
    &&& after.uri == before.uri
}

/// One request, whatever it is and whether or not it goes through, keeps a
/// well-formed curve well formed, never lowers the product of the pricing
/// counters, changes nothing of a completed curve, and changes nothing of
/// what a curve never changes. A trade never lowers what the creator is
/// owed, never completes a curve, and moves the real and the pricing
/// counter of each kind by the same amount; only a migration completes a
/// curve, and it leaves nothing owed.
pub proof fn lemma_step_keeps_invariants(curve: BondingCurve, config: ProtocolConfig, op: Operation)
    ensures
        curve.wf() ==> step(curve, config, op).wf(),
        step(curve, config, op).invariant_product() >= curve.invariant_product(),
        curve.complete ==> step(curve, config, op) == curve,
        same_asset(curve, step(curve, config, op)),
        !(op is Migrate) ==> {
            let after = step(curve, config, op);
            &&& after.complete == curve.complete
            &&& after.creator_fee_accumulated >= curve.creator_fee_accumulated
            &&& after.virtual_sol_reserves - after.real_sol_reserves == curve.virtual_sol_reserves
                - curve.real_sol_reserves
            &&& after.virtual_token_reserves - after.real_token_reserves
                == curve.virtual_token_reserves - curve.real_token_reserves
        },
        op is Migrate && step(curve, config, op) != curve ==> step(curve, config, op).complete
            && step(curve, config, op).creator_fee_accumulated == 0,
{
    match op {
        Operation::Buy { accounts, now, amount_in, min_tokens_out } => {
            if buy_error(curve, config, now, amount_in, min_tokens_out) is None {
                lemma_buy_keeps_curve(curve, config, now, amount_in, min_tokens_out);
            }
        },
        Operation::Sell { accounts, amount_in, min_sol_out } => {
            if sell_error(curve, config, amount_in, min_sol_out) is None {
                lemma_sell_keeps_curve(curve, config, amount_in, min_sol_out);
            }
        },
        Operation::Migrate { accounts } => {},
    }
}

/// Through any run of buys, sells and migrations, a well-formed curve stays
/// well formed, the product of its pricing counters never falls, a
/// completed curve stays as it is, and what a curve never changes is not
/// changed.
pub proof fn lemma_run_keeps_invariants(
    curve: BondingCurve,
    config: ProtocolConfig,
    ops: Seq<Operation>,
)
    ensures
        curve.wf() ==> run(curve, config, ops).wf(),
        run(curve, config, ops).invariant_product() >= curve.invariant_product(),
        curve.complete ==> run(curve, config, ops) == curve,
        same_asset(curve, run(curve, config, ops)),
    decreases ops.len(),
{
    if ops.len() > 0 {
        lemma_run_keeps_invariants(curve, config, ops.drop_last());
        lemma_step_keeps_invariants(run(curve, config, ops.drop_last()), config, ops.last());
    }
}

} // verus!
