//! Constant-product pricing in whole units.
//!
//! A pool holds `reserve_in` of the asset paid in and `reserve_out` of the
//! asset paid out. It keeps a fraction of what is paid in as its fee and
//! trades the rest along the curve `reserve_in * reserve_out = constant`.
//! Every division rounds down, and a step whose exact result does not fit
//! 64 bits is refused, never wrapped.

use vstd::prelude::*;

use crate::error::AutoBuyerError;

verus! {

/// The pool's fee on `amount_in`: the fraction
/// `fee_numerator / fee_denominator` of it, rounded down.
pub open spec fn fee_of(amount_in: int, fee_numerator: int, fee_denominator: int) -> int {
    amount_in * fee_numerator / fee_denominator
}

/// What the curve pays out for `amount_after_fee`, rounded down.
pub open spec fn output_of(amount_after_fee: int, reserve_in: int, reserve_out: int) -> int {
    amount_after_fee * reserve_out / (reserve_in + amount_after_fee)
}

/// Whether a step of the quote leaves the 64-bit range: the fee rate has no
/// denominator, the fee exceeds the amount, or a product or sum is too
/// large.
pub open spec fn quote_overflows(
    amount_in: u64,
    reserve_in: u64,
    reserve_out: u64,
    fee_numerator: u64,
    fee_denominator: u64,
) -> bool {
    let fee = fee_of(amount_in as int, fee_numerator as int, fee_denominator as int);
    ||| fee_denominator == 0
    ||| amount_in * fee_numerator > u64::MAX
    ||| fee > amount_in
    ||| (amount_in - fee) * reserve_out > u64::MAX
    ||| reserve_in + (amount_in - fee) > u64::MAX
}

/// The quote for swapping `amount_in` against the two reserves: the amount
/// paid out and the fee kept, or the reason there is none.
pub open spec fn quote(
    amount_in: u64,
    reserve_in: u64,
    reserve_out: u64,
    fee_numerator: u64,
    fee_denominator: u64,
) -> Result<(u64, u64), AutoBuyerError> {
    if reserve_in == 0 || reserve_out == 0 {
        Err(AutoBuyerError::InsufficientLiquidity)
    } else if quote_overflows(amount_in, reserve_in, reserve_out, fee_numerator, fee_denominator) {
        Err(AutoBuyerError::MathOverflow)
    } else {
        let fee = fee_of(amount_in as int, fee_numerator as int, fee_denominator as int);
        Ok((output_of(amount_in - fee, reserve_in as int, reserve_out as int) as u64, fee as u64))
    }
}

proof fn lemma_div_below(x: int, d: int, bound: int)
    by (nonlinear_arith)
    requires
        0 <= x,
        0 < d,
        x < bound * d,
    ensures
        x / d < bound,
{
}

proof fn lemma_div_at_least(x: int, d: int, q: int)
    by (nonlinear_arith)
    requires
        0 < d,
        q * d <= x,
    ensures
        q <= x / d,
{
}

proof fn lemma_div_floor(x: int, d: int)
    by (nonlinear_arith)
    requires
        0 <= x,
        0 < d,
    ensures
        0 <= x / d,
        (x / d) * d <= x,
        x < (x / d + 1) * d,
{
}

/// The curve never pays out a whole reserve.
proof fn lemma_output_bounds(amount: int, reserve_in: int, reserve_out: int)
    requires
        0 <= amount,
        0 < reserve_in,
        0 < reserve_out,
    ensures
        0 <= output_of(amount, reserve_in, reserve_out) < reserve_out,
{
    assert(amount * reserve_out < reserve_out * (reserve_in + amount)) by (nonlinear_arith)
        requires
            0 <= amount,
            0 < reserve_in,
            0 < reserve_out,
    ;
    assert(0 <= amount * reserve_out) by (nonlinear_arith)
        requires
            0 <= amount,
            0 < reserve_out,
    ;
    lemma_div_below(amount * reserve_out, reserve_in + amount, reserve_out);
    lemma_div_floor(amount * reserve_out, reserve_in + amount);
}

/// The curve pays out no less for more.
proof fn lemma_output_is_ordered(smaller: int, larger: int, reserve_in: int, reserve_out: int)
    requires
        0 <= smaller <= larger,
        0 < reserve_in,
        0 < reserve_out,
    ensures
        output_of(smaller, reserve_in, reserve_out) <= output_of(larger, reserve_in, reserve_out),
{
    let q = output_of(smaller, reserve_in, reserve_out);
    lemma_output_bounds(smaller, reserve_in, reserve_out);
    assert(0 <= smaller * reserve_out) by (nonlinear_arith)
        requires
            0 <= smaller,
            0 < reserve_out,
    ;
    lemma_div_floor(smaller * reserve_out, reserve_in + smaller);
    assert(q * (reserve_in + larger) <= larger * reserve_out) by (nonlinear_arith)
        requires
            q * (reserve_in + smaller) <= smaller * reserve_out,
            0 <= q < reserve_out,
            0 <= smaller <= larger,
    ;
    lemma_div_at_least(larger * reserve_out, reserve_in + larger, q);
}

/// A fee rate takes no less from more, and a higher rate takes no less.
proof fn lemma_fee_is_ordered(
    amount: int,
    numerator: int,
    larger_amount: int,
    larger_numerator: int,
    denominator: int,
)
    requires
        0 <= amount <= larger_amount,
        0 <= numerator <= larger_numerator,
        0 < denominator,
    ensures
        fee_of(amount, numerator, denominator) <= fee_of(
            larger_amount,
            larger_numerator,
            denominator,
        ),
{
    assert(0 <= amount * numerator <= larger_amount * larger_numerator) by (nonlinear_arith)
        requires
            0 <= amount <= larger_amount,
            0 <= numerator <= larger_numerator,
    ;
    lemma_div_floor(amount * numerator, denominator);
    lemma_div_at_least(
        larger_amount * larger_numerator,
        denominator,
        fee_of(amount, numerator, denominator),
    );
}

/// Where the fee leaves something of both amounts, the larger amount keeps
/// no less after the fee than the smaller.
proof fn lemma_after_fee_is_ordered(
    smaller: int,
    larger: int,
    numerator: int,
    denominator: int,
)
    requires
        0 <= smaller <= larger,
        0 <= numerator,
        0 < denominator,
        fee_of(smaller, numerator, denominator) <= smaller,
        fee_of(larger, numerator, denominator) <= larger,
    ensures
        smaller - fee_of(smaller, numerator, denominator) <= larger - fee_of(
            larger,
            numerator,
            denominator,
        ),
{
    let low = fee_of(smaller, numerator, denominator);
    let high = fee_of(larger, numerator, denominator);
    assert(0 <= smaller * numerator && 0 <= larger * numerator) by (nonlinear_arith)
        requires
            0 <= smaller <= larger,
            0 <= numerator,
    ;
    lemma_div_floor(smaller * numerator, denominator);
    lemma_div_floor(larger * numerator, denominator);
    if numerator <= denominator {
        // the fee grows by at most the growth of the amount
        assert(larger * numerator < (low + 1 + (larger - smaller)) * denominator)
            by (nonlinear_arith)
            requires
                smaller * numerator < (low + 1) * denominator,
                0 <= smaller <= larger,
                0 <= numerator <= denominator,
        ;
        lemma_div_below(larger * numerator, denominator, low + 1 + (larger - smaller));
    } else {
        // a rate above one leaves nothing of any amount it does not exceed
        assert(larger * denominator <= larger * numerator) by (nonlinear_arith)
            requires
                0 <= larger,
                denominator < numerator,
        ;
        lemma_div_at_least(larger * numerator, denominator, larger);
        assert(smaller * denominator <= smaller * numerator) by (nonlinear_arith)
            requires
                0 <= smaller,
                denominator < numerator,
        ;
        lemma_div_at_least(smaller * numerator, denominator, smaller);
    }
}

/// A quote never takes more in fee than was paid in, and never pays out a
/// whole reserve: no single swap drains the pool.
pub proof fn lemma_quote_bounds(
    amount_in: u64,
    reserve_in: u64,
    reserve_out: u64,
    fee_numerator: u64,
    fee_denominator: u64,
)
    ensures
        quote(amount_in, reserve_in, reserve_out, fee_numerator, fee_denominator) matches Ok(
            (amount_out, fee_amount),
        ) ==> {
            &&& fee_amount <= amount_in
            &&& amount_out < reserve_out
            &&& fee_amount == fee_of(
                amount_in as int,
                fee_numerator as int,
                fee_denominator as int,
            )
            &&& amount_out == output_of(
                amount_in - fee_amount,
                reserve_in as int,
                reserve_out as int,
            )
        },
{
    if quote(amount_in, reserve_in, reserve_out, fee_numerator, fee_denominator) is Ok {
        let fee = fee_of(amount_in as int, fee_numerator as int, fee_denominator as int);
        assert(0 <= amount_in * fee_numerator) by (nonlinear_arith);
        lemma_div_floor(amount_in * fee_numerator, fee_denominator as int);
        lemma_output_bounds(amount_in - fee, reserve_in as int, reserve_out as int);
    }
}

/// With the reserves and the fee rate fixed, paying in more never yields
/// less.
pub proof fn lemma_quote_grows_with_amount(
    amount_in: u64,
    larger_amount_in: u64,
    reserve_in: u64,
    reserve_out: u64,
    fee_numerator: u64,
    fee_denominator: u64,
)
    requires
        amount_in <= larger_amount_in,
    ensures
        ({
            let low = quote(amount_in, reserve_in, reserve_out, fee_numerator, fee_denominator);
            let high = quote(
                larger_amount_in,
                reserve_in,
                reserve_out,
                fee_numerator,
                fee_denominator,
            );
            low is Ok && high is Ok ==> low->Ok_0.0 <= high->Ok_0.0
        }),
{
    let low = quote(amount_in, reserve_in, reserve_out, fee_numerator, fee_denominator);
    let high = quote(larger_amount_in, reserve_in, reserve_out, fee_numerator, fee_denominator);
    if low is Ok && high is Ok {
        lemma_quote_bounds(amount_in, reserve_in, reserve_out, fee_numerator, fee_denominator);
        lemma_quote_bounds(
            larger_amount_in,
            reserve_in,
            reserve_out,
            fee_numerator,
            fee_denominator,
        );
        lemma_after_fee_is_ordered(
            amount_in as int,
            larger_amount_in as int,
            fee_numerator as int,
            fee_denominator as int,
        );
        lemma_output_is_ordered(
            amount_in - low->Ok_0.1,
            larger_amount_in - high->Ok_0.1,
            reserve_in as int,
            reserve_out as int,
        );
    }
}

/// With the amount and the reserves fixed, a higher fee rate never yields
/// more.
pub proof fn lemma_quote_shrinks_with_fee(
    amount_in: u64,
    reserve_in: u64,
    reserve_out: u64,
    fee_numerator: u64,
    larger_fee_numerator: u64,
    fee_denominator: u64,
)
    requires
        fee_numerator <= larger_fee_numerator,
    ensures
        ({
            let low = quote(amount_in, reserve_in, reserve_out, fee_numerator, fee_denominator);
            let high = quote(
                amount_in,
                reserve_in,
                reserve_out,
                larger_fee_numerator,
                fee_denominator,
            );
            low is Ok && high is Ok ==> high->Ok_0.0 <= low->Ok_0.0
        }),
{
    let low = quote(amount_in, reserve_in, reserve_out, fee_numerator, fee_denominator);
    let high = quote(amount_in, reserve_in, reserve_out, larger_fee_numerator, fee_denominator);
    if low is Ok && high is Ok {
        lemma_quote_bounds(amount_in, reserve_in, reserve_out, fee_numerator, fee_denominator);
        lemma_quote_bounds(
            amount_in,
            reserve_in,
            reserve_out,
            larger_fee_numerator,
            fee_denominator,
        );
        lemma_fee_is_ordered(
            amount_in as int,
            fee_numerator as int,
            amount_in as int,
            larger_fee_numerator as int,
            fee_denominator as int,
        );
        lemma_output_is_ordered(
            amount_in - high->Ok_0.1,
            amount_in - low->Ok_0.1,
            reserve_in as int,
            reserve_out as int,
        );
    }
}

/// A pool with an empty reserve quotes nothing, whatever is paid in.
pub proof fn lemma_empty_reserve_has_no_quote(
    amount_in: u64,
    reserve_in: u64,
    reserve_out: u64,
    fee_numerator: u64,
    fee_denominator: u64,
)
    requires
        reserve_in == 0 || reserve_out == 0,
    ensures
        quote(amount_in, reserve_in, reserve_out, fee_numerator, fee_denominator) == Err::<
            (u64, u64),
            AutoBuyerError,
        >(AutoBuyerError::InsufficientLiquidity),
{
}

/// Where the fee's product leaves the 64-bit range the quote is refused as
/// an overflow; no wrapped amount comes out.
pub proof fn lemma_fee_product_overflow_has_no_quote(
    amount_in: u64,
    reserve_in: u64,
    reserve_out: u64,
    fee_numerator: u64,
    fee_denominator: u64,
)
    requires
        reserve_in > 0,
        reserve_out > 0,
        amount_in * fee_numerator > u64::MAX,
    ensures
        quote(amount_in, reserve_in, reserve_out, fee_numerator, fee_denominator) == Err::<
            (u64, u64),
            AutoBuyerError,
        >(AutoBuyerError::MathOverflow),
{
}

} // verus!
