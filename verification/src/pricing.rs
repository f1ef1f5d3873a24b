//! The proportional price rule shared by the swap note script and its client: for `input`
//! units of the requested asset, a note offering `offered` for `requested` pays
//! `input * offered / requested`, rounded down.
use vstd::prelude::*;
use vstd::arithmetic::div_mod::*;
use vstd::arithmetic::mul::*;

verus! {

/// The amount of the offered asset paid out for `input_amount` of the requested asset: the
/// exact proportion `input_amount * offered_total / requested_total`, rounded down.
pub open spec fn output_amount(offered_total: int, requested_total: int, input_amount: int) -> int {
    (input_amount * offered_total) / requested_total
}

/// The amounts on which the price is defined and fits a `u64`: something is requested and
/// something is offered (the rule divides by whichever total is not the larger, so a zero in
/// either is a division by zero), and the payout is at most `u64::MAX`.
pub open spec fn output_amount_computable(offered_total: u64, requested_total: u64, input_amount: u64) -> bool {
    &&& requested_total > 0
    &&& offered_total > 0
    &&& output_amount(offered_total as int, requested_total as int, input_amount as int) <= u64::MAX
}

/// Tells whether `PswapNote::calculate_output_amount` is defined on these amounts.
pub fn output_amount_is_computable(offered_total: u64, requested_total: u64, input_amount: u64) -> (ok: bool)
    ensures
        ok == output_amount_computable(offered_total, requested_total, input_amount),
{
    if requested_total == 0 || offered_total == 0 {
        return false;
    }
    proof {
        lemma_mul_upper_bound(input_amount as int, u64::MAX as int, offered_total as int, u64::MAX as int);
        assert((u64::MAX as int) * (u64::MAX as int) <= u128::MAX) by (nonlinear_arith);
    }
    let product: u128 = input_amount as u128 * offered_total as u128;
    product / (requested_total as u128) <= u64::MAX as u128
}

/// The payout times the requested total never exceeds the input times the offered total, and
/// falls short of it by less than one requested total.
pub proof fn lemma_output_bounds(offered_total: int, requested_total: int, input_amount: int)
    requires
        offered_total >= 0,
        requested_total > 0,
        input_amount >= 0,
    ensures
        output_amount(offered_total, requested_total, input_amount) >= 0,
        output_amount(offered_total, requested_total, input_amount) * requested_total <= input_amount * offered_total,
        output_amount(offered_total, requested_total, input_amount) * requested_total + requested_total > input_amount * offered_total,
{
    let p = input_amount * offered_total;
    lemma_mul_nonnegative(input_amount, offered_total);
    lemma_fundamental_div_mod(p, requested_total);
    lemma_mod_pos_bound(p, requested_total);
    lemma_div_pos_is_pos(p, requested_total);
    lemma_mul_is_commutative(requested_total, p / requested_total);
}

/// Providing none of the requested asset pays out nothing.
pub proof fn law_zero_input_pays_nothing(offered_total: u64, requested_total: u64)
    requires
        requested_total > 0,
    ensures
        output_amount(offered_total as int, requested_total as int, 0) == 0,
{
    lemma_mul_basics(offered_total as int);
    lemma_div_of0(requested_total as int);
}

/// When the offered and the requested totals are equal, the swap trades one for one.
pub proof fn law_equal_totals_trade_one_to_one(total: u64, input_amount: u64)
    requires
        total > 0,
    ensures
        output_amount(total as int, total as int, input_amount as int) == input_amount,
{
    lemma_div_multiples_vanish(input_amount as int, total as int);
    lemma_mul_is_commutative(input_amount as int, total as int);
}

/// Providing more of the requested asset never pays out less.
pub proof fn law_output_monotone_in_input(offered_total: u64, requested_total: u64, smaller_input: u64, larger_input: u64)
    requires
        requested_total > 0,
        smaller_input <= larger_input,
    ensures
        output_amount(offered_total as int, requested_total as int, smaller_input as int)
            <= output_amount(offered_total as int, requested_total as int, larger_input as int),
{
    lemma_mul_inequality(smaller_input as int, larger_input as int, offered_total as int);
    lemma_div_is_ordered(smaller_input * offered_total, larger_input * offered_total, requested_total as int);
}

/// The payout never exceeds the exact proportion `input * offered / requested`, and is short of
/// it by less than one unit.
pub proof fn law_payout_is_floored_proportion(offered_total: u64, requested_total: u64, input_amount: u64)
    requires
        requested_total > 0,
    ensures
        output_amount(offered_total as int, requested_total as int, input_amount as int) * requested_total
            <= input_amount as int * offered_total,
        (output_amount(offered_total as int, requested_total as int, input_amount as int) + 1) * requested_total
            > input_amount as int * offered_total,
{
    lemma_output_bounds(offered_total as int, requested_total as int, input_amount as int);
    let out = output_amount(offered_total as int, requested_total as int, input_amount as int);
    lemma_mul_is_distributive_add_other_way(requested_total as int, out, 1);
}

/// Providing the whole requested amount pays out the whole offer.
pub proof fn law_full_fill_pays_whole_offer(offered_total: u64, requested_total: u64)
    requires
        requested_total > 0,
    ensures
        output_amount(offered_total as int, requested_total as int, requested_total as int) == offered_total,
{
    lemma_div_multiples_vanish(offered_total as int, requested_total as int);
    lemma_mul_is_commutative(offered_total as int, requested_total as int);
}

/// Providing at most the requested amount never pays out more than the offer, and providing
/// less than the requested amount pays out less than the offer when anything is offered.
pub proof fn law_fill_within_offer(offered_total: u64, requested_total: u64, input_amount: u64)
    requires
        requested_total > 0,
        input_amount <= requested_total,
    ensures
        output_amount(offered_total as int, requested_total as int, input_amount as int) <= offered_total,
        input_amount < requested_total && offered_total > 0
            ==> output_amount(offered_total as int, requested_total as int, input_amount as int) < offered_total,
{
    let (o, r, i) = (offered_total as int, requested_total as int, input_amount as int);
    lemma_output_bounds(o, r, i);
    let out = output_amount(o, r, i);
    assert(out <= o) by (nonlinear_arith)
        requires
            out * r <= i * o,
            i <= r,
            r > 0,
            o >= 0,
    {
        assert(i * o <= r * o);
    }
    if i < r && o > 0 {
        assert(out < o) by (nonlinear_arith)
            requires
                out * r <= i * o,
                i < r,
                r > 0,
                o > 0,
        {
            assert(i * o < r * o);
        }
    }
}

} // verus!
