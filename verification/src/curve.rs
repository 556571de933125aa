//! The constant-product pricing rule: what a trade against two reserve
//! counters pays out, and what price and market capitalisation the counters
//! imply.

use vstd::prelude::*;
use crate::constants::PRICE_PRECISION;
use crate::errors::FuseError;

verus! {

/// Tokens handed out for `sol_in` lamports: `virtual_token * sol_in /
/// (virtual_sol + sol_in)`, rounded down.
pub open spec fn tokens_out(virtual_sol: int, virtual_token: int, sol_in: int) -> int {
    (virtual_token * sol_in) / (virtual_sol + sol_in)
}

/// Lamports handed out for `token_in` tokens: `virtual_sol * token_in /
/// (virtual_token + token_in)`, rounded down.
pub open spec fn sol_out(virtual_sol: int, virtual_token: int, token_in: int) -> int {
    (virtual_sol * token_in) / (virtual_token + token_in)
}

/// What both trades have in common. For `amount_in`, paid into the reserve
/// `reserve_in`, a trader gets the share `amount_in / (reserve_in +
/// amount_in)` of the reserve `reserve_out`, rounded down.
pub open spec fn swap_out(reserve_in: int, reserve_out: int, amount_in: int) -> int {
    (reserve_out * amount_in) / (reserve_in + amount_in)
}

/// Lamports per token, scaled by one million (`PRICE_PRECISION`) and
/// rounded down.
pub open spec fn price(virtual_sol: int, virtual_token: int) -> int {
    (virtual_sol * 1_000_000) / virtual_token
}

/// Value of `total_supply` tokens at the scaled price `price`.
pub open spec fn market_cap(total_supply: int, price: int) -> int {
    (total_supply * price) / 1_000_000
}

/// The 64 low bits of a natural number: what a 64-bit field keeps of it.
pub open spec fn low_64_bits(x: int) -> int {
    x % 0x1_0000_0000_0000_0000
}

/// The price as a 64-bit field reports it.
pub open spec fn reported_price(virtual_sol: u64, virtual_token: u64) -> int {
    low_64_bits(price(virtual_sol as int, virtual_token as int))
}

/// The market capitalisation as a 64-bit field reports it.
pub open spec fn reported_market_cap(
    virtual_sol: u64,
    virtual_token: u64,
    total_supply: u64,
) -> int {
    low_64_bits(market_cap(total_supply as int, reported_price(virtual_sol, virtual_token)))
}

/// Where the price fits in 64 bits, it is reported as it is, and so is the
/// market capitalisation.
pub proof fn lemma_reported_as_is_where_it_fits(
    virtual_sol: u64,
    virtual_token: u64,
    total_supply: u64,
)
    requires
        virtual_token > 0,
    ensures
        price(virtual_sol as int, virtual_token as int) >= 0,
        price(virtual_sol as int, virtual_token as int) <= u64::MAX ==> reported_price(
            virtual_sol,
            virtual_token,
        ) == price(virtual_sol as int, virtual_token as int),
        market_cap(total_supply as int, reported_price(virtual_sol, virtual_token)) >= 0,
        market_cap(total_supply as int, reported_price(virtual_sol, virtual_token)) <= u64::MAX
            ==> reported_market_cap(virtual_sol, virtual_token, total_supply) == market_cap(
            total_supply as int,
            reported_price(virtual_sol, virtual_token),
        ),
{
    let p = price(virtual_sol as int, virtual_token as int);
    vstd::arithmetic::div_mod::lemma_div_pos_is_pos(virtual_sol * 1_000_000, virtual_token as int);
    if p <= u64::MAX {
        vstd::arithmetic::div_mod::lemma_small_mod(p as nat, 0x1_0000_0000_0000_0000);
    }
    let rp = reported_price(virtual_sol, virtual_token);
    vstd::arithmetic::div_mod::lemma_mod_bound(p, 0x1_0000_0000_0000_0000);
    assert(total_supply * rp >= 0) by (nonlinear_arith)
        requires
            total_supply >= 0,
            rp >= 0,
    ;
    let cap = market_cap(total_supply as int, rp);
    if cap <= u64::MAX {
        vstd::arithmetic::div_mod::lemma_small_mod(cap as nat, 0x1_0000_0000_0000_0000);
    }
}

/// A trade pays out no more than the reserve holds, and less than all of it
/// while the paying-in reserve is not empty.
pub proof fn lemma_swap_out_bounds(reserve_in: int, reserve_out: int, amount_in: int)
    requires
        reserve_in >= 0,
        reserve_out >= 0,
        amount_in >= 0,
        reserve_in + amount_in > 0,
    ensures
        0 <= swap_out(reserve_in, reserve_out, amount_in) <= reserve_out,
        swap_out(reserve_in, reserve_out, amount_in) * (reserve_in + amount_in) <= reserve_out
            * amount_in,
        reserve_in > 0 && reserve_out > 0 ==> swap_out(reserve_in, reserve_out, amount_in)
            < reserve_out,
{
    let d = reserve_in + amount_in;
    let n = reserve_out * amount_in;
    let q = n / d;
    assert(n >= 0) by (nonlinear_arith)
        requires
            n == reserve_out * amount_in,
            reserve_out >= 0,
            amount_in >= 0,
    ;
    vstd::arithmetic::div_mod::lemma_fundamental_div_mod(n, d);
    vstd::arithmetic::div_mod::lemma_mod_bound(n, d);
    vstd::arithmetic::div_mod::lemma_div_pos_is_pos(n, d);
    assert(q * d <= n) by (nonlinear_arith)
        requires
            n == d * q + n % d,
            0 <= n % d,
    ;
    assert(q <= reserve_out) by (nonlinear_arith)
        requires
            q * d <= reserve_out * amount_in,
            0 <= amount_in <= d,
            d > 0,
            reserve_out >= 0,
            q >= 0,
    ;
    if reserve_in > 0 && reserve_out > 0 {
        assert(q < reserve_out) by (nonlinear_arith)
            requires
                q * d <= reserve_out * amount_in,
                0 <= amount_in < d,
                reserve_out > 0,
                q >= 0,
        ;
    }
}

/// A trade never lowers the product of the two reserves.
pub proof fn lemma_swap_keeps_product(reserve_in: int, reserve_out: int, amount_in: int)
    requires
        reserve_in >= 0,
        reserve_out >= 0,
        amount_in >= 0,
        reserve_in + amount_in > 0,
    ensures
        (reserve_in + amount_in) * (reserve_out - swap_out(reserve_in, reserve_out, amount_in))
            >= reserve_in * reserve_out,
{
    lemma_swap_out_bounds(reserve_in, reserve_out, amount_in);
    let q = swap_out(reserve_in, reserve_out, amount_in);
    assert((reserve_in + amount_in) * (reserve_out - q) >= reserve_in * reserve_out)
        by (nonlinear_arith)
        requires
            q * (reserve_in + amount_in) <= reserve_out * amount_in,
    ;
}

/// A larger amount paid in never pays out less.
pub proof fn lemma_swap_out_monotonic(reserve_in: int, reserve_out: int, a: int, b: int)
    requires
        reserve_in >= 0,
        reserve_out >= 0,
        0 <= a <= b,
        reserve_in + a > 0,
    ensures
        swap_out(reserve_in, reserve_out, a) <= swap_out(reserve_in, reserve_out, b),
{
    lemma_swap_out_bounds(reserve_in, reserve_out, a);
    let qa = swap_out(reserve_in, reserve_out, a);
    let da = reserve_in + a;
    let db = reserve_in + b;
    let nb = reserve_out * b;
    // qa * da <= reserve_out * a, hence qa * db <= reserve_out * b
    assert(qa * db <= nb) by (nonlinear_arith)
        requires
            qa * da <= reserve_out * a,
            da == reserve_in + a,
            db == reserve_in + b,
            nb == reserve_out * b,
            0 <= a <= b,
            0 <= qa <= reserve_out,
            reserve_in >= 0,
    ;
    vstd::arithmetic::div_mod::lemma_div_is_ordered(qa * db, nb, db);
    vstd::arithmetic::div_mod::lemma_div_by_multiple(qa, db);
}

/// Both quotes grow with the amount paid in: whoever pays more lamports
/// gets no fewer tokens, and whoever hands in more tokens gets no fewer
/// lamports.
pub proof fn lemma_quotes_are_monotonic(virtual_sol: int, virtual_token: int, a: int, b: int)
    requires
        virtual_sol > 0,
        virtual_token > 0,
        0 <= a <= b,
    ensures
        tokens_out(virtual_sol, virtual_token, a) <= tokens_out(virtual_sol, virtual_token, b),
        sol_out(virtual_sol, virtual_token, a) <= sol_out(virtual_sol, virtual_token, b),
{
    lemma_swap_out_monotonic(virtual_sol, virtual_token, a, b);
    lemma_swap_out_monotonic(virtual_token, virtual_sol, a, b);
}

/// Paying the proceeds of a trade straight back returns no more than was
/// paid in.
pub proof fn lemma_swap_round_trip(reserve_in: int, reserve_out: int, amount_in: int)
    requires
        reserve_in >= 0,
        reserve_out > 0,
        amount_in >= 0,
        reserve_in + amount_in > 0,
    ensures
        ({
            let q = swap_out(reserve_in, reserve_out, amount_in);
            swap_out(reserve_out - q, reserve_in + amount_in, q) <= amount_in
        }),
{
    lemma_swap_out_bounds(reserve_in, reserve_out, amount_in);
    let q = swap_out(reserve_in, reserve_out, amount_in);
    let back = (reserve_in + amount_in) * q;
    assert(back <= amount_in * reserve_out) by (nonlinear_arith)
        requires
            q * (reserve_in + amount_in) <= reserve_out * amount_in,
            back == (reserve_in + amount_in) * q,
    ;
    assert((reserve_out - q) + q == reserve_out);
    vstd::arithmetic::div_mod::lemma_div_is_ordered(back, amount_in * reserve_out, reserve_out);
    vstd::arithmetic::div_mod::lemma_div_by_multiple(amount_in, reserve_out);
}

/// The product of two 64-bit numbers fits in 128 bits.
proof fn lemma_product_fits(a: u64, b: u64)
    ensures
        0 <= a * b <= 0xFFFF_FFFF_FFFF_FFFE_0000_0000_0000_0001,
{
    assert(0 <= a * b <= 0xFFFF_FFFF_FFFF_FFFF * 0xFFFF_FFFF_FFFF_FFFF) by (nonlinear_arith)
        requires
            0 <= a <= 0xFFFF_FFFF_FFFF_FFFF,
            0 <= b <= 0xFFFF_FFFF_FFFF_FFFF,
    ;
}

/// What a trade of `amount_in` into `reserve_in` gets out of `reserve_out`.
/// The division is refused only where there is nothing to divide by.
fn quote(reserve_in: u64, reserve_out: u64, amount_in: u64) -> (r: Result<u64, FuseError>)
    ensures
        r is Ok <==> reserve_in + amount_in > 0,
        r matches Err(e) ==> e == FuseError::MathOverflow,
        r matches Ok(out) ==> out == (reserve_out * amount_in) / (reserve_in + amount_in),
{
    proof {
        lemma_product_fits(reserve_out, amount_in);
    }
    let numerator: u128 = (reserve_out as u128) * (amount_in as u128);
    let denominator: u128 = (reserve_in as u128) + (amount_in as u128);
    if denominator == 0 {
        return Err(FuseError::MathOverflow);
    }
    let out: u128 = numerator / denominator;
    proof {
        lemma_swap_out_bounds(reserve_in as int, reserve_out as int, amount_in as int);
    }
    Ok(out as u64)
}

/// Tokens that `sol_in` lamports buy from a curve with the given pricing
/// counters. Refused with `MathOverflow` exactly when both `sol_in` and the
/// SOL counter are zero.
pub fn calculate_tokens_out(
    virtual_sol_reserves: u64,
    virtual_token_reserves: u64,
    sol_in: u64,
) -> (r:
    Result<u64, FuseError>)
    ensures
        r is Ok <==> virtual_sol_reserves + sol_in > 0,
        r matches Err(e) ==> e == FuseError::MathOverflow,
        r matches Ok(out) ==> out == tokens_out(
            virtual_sol_reserves as int,
            virtual_token_reserves as int,
            sol_in as int,
        ),
{
    quote(virtual_sol_reserves, virtual_token_reserves, sol_in)
}

/// Lamports that `token_in` tokens fetch from a curve with the given pricing
/// counters. Refused with `MathOverflow` exactly when both `token_in` and the
/// token counter are zero.
pub fn calculate_sol_out(
    virtual_sol_reserves: u64,
    virtual_token_reserves: u64,
    token_in: u64,
) -> (r:
    Result<u64, FuseError>)
    ensures
        r is Ok <==> virtual_token_reserves + token_in > 0,
        r matches Err(e) ==> e == FuseError::MathOverflow,
        r matches Ok(out) ==> out == sol_out(
            virtual_sol_reserves as int,
            virtual_token_reserves as int,
            token_in as int,
        ),
{
    quote(virtual_token_reserves, virtual_sol_reserves, token_in)
}

/// What a 64-bit field keeps of a 128-bit number.
fn keep_low_64_bits(x: u128) -> (r: u64)
    ensures
        r == low_64_bits(x as int),
{
    assert((x as u64) == x % 0x1_0000_0000_0000_0000) by (bit_vector);
    #[verifier::truncate]
    (x as u64)
}

/// The current price in lamports per token, scaled by `PRICE_PRECISION`, as
/// a 64-bit field reports it.
pub fn calculate_current_price(virtual_sol: u64, virtual_tokens: u64) -> (p: u64)
    requires
        virtual_tokens > 0,
    ensures
        p == reported_price(virtual_sol, virtual_tokens),
{
    proof {
        lemma_product_fits(virtual_sol, PRICE_PRECISION);
    }
    let scaled: u128 = (virtual_sol as u128) * (PRICE_PRECISION as u128);
    keep_low_64_bits(scaled / (virtual_tokens as u128))
}

/// The market capitalisation of `total_supply` tokens at the current price,
/// as a 64-bit field reports it.
pub fn calculate_market_cap(virtual_sol: u64, virtual_tokens: u64, total_supply: u64) -> (cap: u64)
    requires
        virtual_tokens > 0,
    ensures
        cap == reported_market_cap(virtual_sol, virtual_tokens, total_supply),
{
    let p: u64 = calculate_current_price(virtual_sol, virtual_tokens);
    market_cap_at(p, total_supply)
}

/// The market capitalisation of `total_supply` tokens at the scaled price
/// `price`, as a 64-bit field reports it.
pub fn market_cap_at(price: u64, total_supply: u64) -> (cap: u64)
    ensures
        cap == low_64_bits(market_cap(total_supply as int, price as int)),
{
    proof {
        lemma_product_fits(total_supply, price);
    }
    let value: u128 = (total_supply as u128) * (price as u128);
    keep_low_64_bits(value / (PRICE_PRECISION as u128))
}

} // verus!
