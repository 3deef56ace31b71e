//! What slippage, quotes and the reading of amounts must satisfy.
use vstd::arithmetic::div_mod::lemma_fundamental_div_mod;
use vstd::prelude::*;

use crate::accounts::{sol_for, tokens_for, BondingCurveAccount, GlobalAccountView};
use crate::error::CurveError;
use crate::utils::{amount_digits, amount_of, decimal, is_digit, lowered, portion, raised};

verus! {

/// Whether `extra` is what `basis_points` of `amount` come to, in whole lamports, the rest dropped:
/// one basis point is one ten-thousandth.
pub open spec fn comes_to(amount: int, basis_points: int, extra: int) -> bool {
    extra * 10_000 <= amount * basis_points < (extra + 1) * 10_000
}

/// Whether a purchase of `amount` with a slippage of `basis_points` may cost `cost` at most: the
/// amount and its slippage, and the largest `u64` where that is more than a `u64` holds.
pub open spec fn may_cost(amount: u64, basis_points: int, cost: int) -> bool {
    if cost < u64::MAX {
        comes_to(amount as int, basis_points, cost - amount)
    } else {
        cost == u64::MAX && (cost - amount) * 10_000 <= amount * basis_points
    }
}

/// Whether a sale quoted at `amount` with `basis_points` off must bring `output` at least: the amount
/// without its slippage, and nothing where the slippage is the whole amount or more.
pub open spec fn must_bring(amount: int, basis_points: int, output: int) -> bool {
    if output > 0 {
        comes_to(amount, basis_points, amount - output)
    } else {
        output == 0 && amount * 10_000 <= amount * basis_points
    }
}

/// Every slippage counts in full, whatever it is: the extra of a purchase is `basis_points`
/// ten-thousandths of the amount, and so is what is cut from a sale.
pub proof fn slippage_counts_in_full(amount: u64, basis_points: u64)
    ensures
        may_cost(amount, basis_points as int, raised(amount as nat, basis_points as nat) as int),
        must_bring(
            amount as int,
            basis_points as int,
            lowered(amount as nat, basis_points as nat) as int,
        ),
{
    lemma_cuts(amount as nat, basis_points as nat);
    assert(portion(amount as nat, basis_points as nat) * 10_000 <= amount * basis_points);
}

/// What is left of an amount of any size.
proof fn lemma_cuts(amount: nat, basis_points: nat)
    ensures
        must_bring(amount as int, basis_points as int, lowered(amount, basis_points) as int),
        comes_to(amount as int, basis_points as int, portion(amount, basis_points) as int),
{
    let product = amount * basis_points;
    assert(portion(amount, basis_points) == product / 10_000);
}

/// There is only one cost and one output that fit an amount and a slippage.
pub proof fn slippage_leaves_no_choice(amount: u64, basis_points: int, one: int, other: int)
    requires
        basis_points >= 0,
    ensures
        may_cost(amount, basis_points, one) && may_cost(amount, basis_points, other) ==> one
            == other,
        must_bring(amount as int, basis_points, one) && must_bring(
            amount as int,
            basis_points,
            other,
        ) ==> one == other,
{
    let product = amount * basis_points;
}

/// A slippage of one hundred percent doubles what a purchase may cost, as far as a `u64` goes, and
/// lets a sale bring nothing.
pub proof fn full_slippage_doubles_the_cost(amount: u64)
    ensures
        2 * amount <= u64::MAX ==> raised(amount as nat, 10_000) == 2 * amount,
        lowered(amount as nat, 10_000) == 0,
{
    assert(portion(amount as nat, 10_000) == amount);
}

/// Whether `sol` lamports buy `tokens` from a curve with the given reserves: as many as are for sale,
/// or else the most for which the product of the virtual reserves still grows.
pub open spec fn buys(
    virtual_sol: int,
    virtual_tokens: int,
    real_tokens: int,
    sol: int,
    tokens: int,
) -> bool {
    &&& 0 <= tokens <= real_tokens
    &&& sol == 0 ==> tokens == 0
    &&& tokens > 0 ==> (virtual_tokens - tokens) * (virtual_sol + sol) > virtual_sol
        * virtual_tokens
    &&& sol > 0 && tokens < real_tokens ==> (virtual_tokens - tokens - 1) * (virtual_sol + sol)
        <= virtual_sol * virtual_tokens
}

/// A quoted purchase is the most that the curve can give.
pub proof fn purchase_is_the_most(
    virtual_sol: nat,
    virtual_tokens: nat,
    real_tokens: nat,
    sol: nat,
)
    ensures
        buys(
            virtual_sol as int,
            virtual_tokens as int,
            real_tokens as int,
            sol as int,
            tokens_for(virtual_sol, virtual_tokens, real_tokens, sol) as int,
        ),
{
    let tokens = tokens_for(virtual_sol, virtual_tokens, real_tokens, sol) as int;
    let product = (virtual_sol * virtual_tokens) as int;
    let reserves = (virtual_sol + sol) as int;
    if sol > 0 {
        let quotient = product / reserves;
        let rest = product % reserves;
        lemma_fundamental_div_mod(product, reserves);
        let kept = quotient + 1;
        assert(quotient * reserves <= product < kept * reserves) by (nonlinear_arith)
            requires
                kept == quotient + 1,
                product == reserves * quotient + rest,
                0 <= rest < reserves,
        ;
        if tokens > 0 {
            assert((virtual_tokens - tokens) * reserves >= kept * reserves) by (nonlinear_arith)
                requires
                    virtual_tokens - tokens >= kept,
                    reserves > 0,
            ;
        }
        if tokens < real_tokens {
            assert((virtual_tokens - tokens - 1) * reserves <= quotient * reserves)
                by (nonlinear_arith)
                requires
                    virtual_tokens - tokens - 1 <= quotient,
                    reserves > 0,
            ;
        }
    }
}

/// Whether a curve with the given reserves pays `lamports` for `tokens`: their share of the virtual
/// reserves once they are back, the rest dropped.
pub open spec fn pays(virtual_sol: int, virtual_tokens: int, tokens: int, lamports: int) -> bool {
    if tokens == 0 {
        lamports == 0
    } else {
        lamports * (virtual_tokens + tokens) <= tokens * virtual_sol < (lamports + 1) * (
        virtual_tokens + tokens)
    }
}

/// A quoted sale pays the share of the tokens.
pub proof fn sale_pays_the_share(virtual_sol: nat, virtual_tokens: nat, tokens: nat)
    ensures
        pays(
            virtual_sol as int,
            virtual_tokens as int,
            tokens as int,
            sol_for(virtual_sol, virtual_tokens, tokens) as int,
        ),
{
    if tokens > 0 {
        let worth = (tokens * virtual_sol) as int;
        let reserves = (virtual_tokens + tokens) as int;
        let paid = worth / reserves;
        let rest = worth % reserves;
        lemma_fundamental_div_mod(worth, reserves);
        assert(paid * reserves <= worth < (paid + 1) * reserves) by (nonlinear_arith)
            requires
                worth == reserves * paid + rest,
                0 <= rest < reserves,
        ;
    }
}

/// The first purchase of a new token is quoted from the initial reserves.
pub proof fn first_purchase_is_quoted_from_the_configuration(
    global: GlobalAccountView,
    amount: u64,
)
    ensures
        buys(
            global.initial_virtual_sol_reserves as int,
            global.initial_virtual_token_reserves as int,
            global.initial_real_token_reserves as int,
            amount as int,
            global.initial_buy_price(amount) as int,
        ),
{
    purchase_is_the_most(
        global.initial_virtual_sol_reserves as nat,
        global.initial_virtual_token_reserves as nat,
        global.initial_real_token_reserves as nat,
        amount as nat,
    );
}

/// A curve quotes from its own reserves, a sale after the fee, until it is complete; then it quotes
/// nothing.
pub proof fn curves_quote_from_their_reserves(
    curve: BondingCurveAccount,
    amount: u64,
    fee_basis_points: u64,
)
    ensures
        curve.complete ==> curve.buy_quote(amount) == Err::<nat, CurveError>(CurveError::Complete),
        curve.complete ==> curve.sell_quote(amount, fee_basis_points) == Err::<nat, CurveError>(
            CurveError::Complete,
        ),
        !curve.complete ==> curve.buy_quote(amount) is Ok,
        !curve.complete ==> buys(
            curve.virtual_sol_reserves as int,
            curve.virtual_token_reserves as int,
            curve.real_token_reserves as int,
            amount as int,
            curve.buy_quote(amount)->Ok_0 as int,
        ),
        !curve.complete ==> curve.sell_quote(amount, fee_basis_points) is Ok,
        !curve.complete ==> exists|gross: int|
            #[trigger] pays(
                curve.virtual_sol_reserves as int,
                curve.virtual_token_reserves as int,
                amount as int,
                gross,
            ) && must_bring(
                gross,
                fee_basis_points as int,
                curve.sell_quote(amount, fee_basis_points)->Ok_0 as int,
            ),
{
    if !curve.complete {
        let sol = curve.virtual_sol_reserves as nat;
        let tokens = curve.virtual_token_reserves as nat;
        purchase_is_the_most(sol, tokens, curve.real_token_reserves as nat, amount as nat);
        let gross = sol_for(sol, tokens, amount as nat);
        sale_pays_the_share(sol, tokens, amount as nat);
        lemma_cuts(gross, fee_basis_points as nat);
        assert(pays(sol as int, tokens as int, amount as int, gross as int));
    }
}

/// A single digit is read as that digit.
pub proof fn one_digit_is_its_value(digit: u8)
    requires
        digit <= 9,
    ensures
        amount_of(seq![(48 + digit) as u8]) == Some(digit as u64),
{
    let text = seq![(48 + digit) as u8];
    reveal_with_fuel(decimal, 2);
    assert(amount_digits(text) == text);
    assert(text.drop_last() =~= seq![]);
    assert(is_digit(text[0]));
}

/// A digit behind an amount makes it ten times as much and the digit more, or no amount where a
/// `u64` does not hold that.
pub proof fn one_more_digit_is_ten_times_as_much(text: Seq<u8>, digit: u8)
    requires
        digit <= 9,
        amount_of(text) is Some,
    ensures
        (amount_of(text)->0) * 10 + digit <= u64::MAX ==> amount_of(text.push((48 + digit) as u8))
            == Some(((amount_of(text)->0) * 10 + digit) as u64),
        (amount_of(text)->0) * 10 + digit > u64::MAX ==> amount_of(
            text.push((48 + digit) as u8),
        ) is None,
{
    let longer = text.push((48 + digit) as u8);
    let digits = amount_digits(text);
    assert(amount_digits(longer) =~= digits.push((48 + digit) as u8));
    assert(digits.push((48 + digit) as u8).drop_last() =~= digits);
    assert forall|i: int| 0 <= i < digits.len() + 1 implies is_digit(
        #[trigger] digits.push((48 + digit) as u8)[i],
    ) by {
        if i < digits.len() {
            assert(is_digit(digits[i]));
        }
    }
}

/// A plus sign in front changes nothing, unless there is one already.
pub proof fn plus_sign_changes_nothing(text: Seq<u8>)
    requires
        text.len() > 0,
        text[0] != 43,
    ensures
        amount_of(seq![43u8] + text) == amount_of(text),
{
    assert((seq![43u8] + text).drop_first() =~= text);
}

/// Whatever is not a digit, but for a plus sign in front, is in no amount; and an amount has a digit.
pub proof fn amounts_are_digits(text: Seq<u8>, at: int)
    ensures
        0 <= at < text.len() && !(48 <= text[at] <= 57) && !(at == 0 && text[at] == 43)
            ==> amount_of(text) is None,
        text.len() == 0 ==> amount_of(text) is None,
        text == seq![43u8] ==> amount_of(text) is None,
{
    if 0 <= at < text.len() && !(48 <= text[at] <= 57) && !(at == 0 && text[at] == 43) {
        if text[0] == 43 {
            assert(amount_digits(text)[at - 1] == text[at]);
        } else {
            assert(amount_digits(text)[at] == text[at]);
        }
    }
}

/// What has become too large stays too large, however it goes on.
pub proof fn too_large_stays_too_large(text: Seq<u8>, next: u8)
    requires
        text.len() > 1,
        amount_of(text) is None,
    ensures
        amount_of(text.push(next)) is None,
{
    let longer = text.push(next);
    let digits = amount_digits(text);
    assert(amount_digits(longer) =~= digits.push(next));
    assert(digits.push(next).drop_last() =~= digits);
    if amount_of(longer) is Some {
        assert forall|i: int| 0 <= i < digits.len() implies is_digit(#[trigger] digits[i]) by {
            assert(is_digit(digits.push(next)[i]));
        }
    }
}

} // verus!
