//! Slippage, token amounts, and the metadata of a new token.
use vstd::prelude::*;

verus! {

/// One hundred percent, in basis points.
pub const BASIS_POINTS: u64 = 10_000;

/// What is uploaded for a new token.
#[derive(Clone, Debug)]
pub struct CreateTokenMetadata {
    /// Name of the token.
    pub name: String,
    /// Ticker symbol of the token.
    pub symbol: String,
    /// Text that describes the token.
    pub description: String,
    /// Path of the image file.
    pub file: String,
}

/// What the upload reports of a new token.
#[derive(Clone, Debug)]
pub struct TokenMetadata {
    /// Name of the token.
    pub name: String,
    /// Ticker symbol of the token.
    pub symbol: String,
    /// Address of the uploaded image.
    pub image: String,
}

/// The texts of a [`TokenMetadata`].
pub struct TokenMetadataView {
    pub name: Seq<char>,
    pub symbol: Seq<char>,
    pub image: Seq<char>,
}

impl View for TokenMetadata {
    type V = TokenMetadataView;

    open spec fn view(&self) -> TokenMetadataView {
        TokenMetadataView { name: self.name@, symbol: self.symbol@, image: self.image@ }
    }
}

/// The part of `amount` that `basis_points` make up, rounded down.
pub open spec fn portion(amount: nat, basis_points: nat) -> nat {
    amount * basis_points / BASIS_POINTS as nat
}

/// `amount` raised by `basis_points`, at most the largest `u64`.
pub open spec fn raised(amount: nat, basis_points: nat) -> nat {
    if amount + portion(amount, basis_points) <= u64::MAX {
        amount + portion(amount, basis_points)
    } else {
        u64::MAX as nat
    }
}

/// `amount` lowered by `basis_points`, at least zero.
pub open spec fn lowered(amount: nat, basis_points: nat) -> nat {
    if portion(amount, basis_points) <= amount {
        (amount - portion(amount, basis_points)) as nat
    } else {
        0
    }
}

/// A product of two `u64` fits in a `u128`.
pub(crate) proof fn lemma_product_fits(a: u64, b: u64)
    ensures
        0 <= a * b <= u64::MAX * u64::MAX,
        u64::MAX * u64::MAX <= u128::MAX,
{
    assert(0 <= a * b <= u64::MAX * u64::MAX) by (nonlinear_arith)
        requires
            0 <= a <= u64::MAX,
            0 <= b <= u64::MAX,
    ;
}

/// The most that a purchase of `amount` lamports may cost, with the given slippage.
pub fn calculate_with_slippage_buy(amount: u64, basis_points: u64) -> (max_cost: u64)
    ensures
        max_cost == raised(amount as nat, basis_points as nat),
{
    proof {
        lemma_product_fits(amount, basis_points);
    }
    let extra: u128 = amount as u128 * basis_points as u128 / BASIS_POINTS as u128;
    let total: u128 = amount as u128 + extra;
    if total <= u64::MAX as u128 {
        total as u64
    } else {
        u64::MAX
    }
}

/// The least that a sale quoted at `amount` lamports must bring, with the given slippage.
pub fn calculate_with_slippage_sell(amount: u64, basis_points: u64) -> (min_output: u64)
    ensures
        min_output == lowered(amount as nat, basis_points as nat),
{
    proof {
        lemma_product_fits(amount, basis_points);
    }
    let cut: u128 = amount as u128 * basis_points as u128 / BASIS_POINTS as u128;
    if cut <= amount as u128 {
        amount - cut as u64
    } else {
        0
    }
}

/// Whether a byte is an ASCII decimal digit.
pub open spec fn is_digit(byte: u8) -> bool {
    48 <= byte <= 57
}

/// The number that a string of ASCII digits writes in base ten.
pub open spec fn decimal(digits: Seq<u8>) -> nat
    decreases digits.len(),
{
    if digits.len() == 0 {
        0
    } else {
        decimal(digits.drop_last()) * 10 + (digits.last() - 48) as nat
    }
}

/// The digits of an amount: what follows an optional plus sign.
pub open spec fn amount_digits(text: Seq<u8>) -> Seq<u8> {
    if text.len() > 0 && text[0] == 43 {
        text.drop_first()
    } else {
        text
    }
}

/// The amount that `text` writes, if it is an amount that a `u64` can hold.
pub open spec fn amount_of(text: Seq<u8>) -> Option<u64> {
    let digits = amount_digits(text);
    if digits.len() > 0 && (forall|i: int| 0 <= i < digits.len() ==> is_digit(#[trigger] digits[i]))
        && decimal(digits) <= u64::MAX {
        Some(decimal(digits) as u64)
    } else {
        None
    }
}

/// A longer string of digits writes a number no smaller.
proof fn lemma_decimal_prefix(digits: Seq<u8>, n: int)
    requires
        0 <= n <= digits.len(),
        forall|i: int| 0 <= i < digits.len() ==> is_digit(#[trigger] digits[i]),
    ensures
        decimal(digits.take(n)) <= decimal(digits),
    decreases digits.len(),
{
    if n == digits.len() {
        assert(digits.take(n) =~= digits);
    } else {
        lemma_decimal_prefix(digits.drop_last(), n);
        assert(digits.drop_last().take(n) =~= digits.take(n));
    }
}

/// Reads a token amount as token accounts report it: an optional plus sign, then decimal digits.
/// `None` where `text` is anything else, or where the number does not fit in a `u64`.
pub fn parse_amount(text: &str) -> (amount: Option<u64>)
    ensures
        amount == amount_of(vstd::utf8::encode_utf8(text@)),
{
    let bytes = text.as_bytes();
    let start: usize = if bytes.len() > 0 && bytes[0] == 43 {
        1
    } else {
        0
    };
    let ghost digits = amount_digits(bytes@);
    assert(digits =~= bytes@.skip(start as int));
    if bytes.len() == start {
        return None;
    }
    let mut value: u64 = 0;
    let mut i: usize = start;
    while i < bytes.len()
        invariant
            start <= i <= bytes.len(),
            bytes@ == vstd::utf8::encode_utf8(text@),
            digits == amount_digits(bytes@),
            digits == bytes@.skip(start as int),
            digits.len() == bytes.len() - start,
            digits.len() > 0,
            forall|k: int| 0 <= k < i - start ==> is_digit(#[trigger] digits[k]),
            value == decimal(digits.take(i - start)),
        decreases bytes.len() - i,
    {
        let byte: u8 = bytes[i];
        assert(byte == digits[i - start]);
        if byte < 48 || byte > 57 {
            assert(!is_digit(digits[i - start]));
            return None;
        }
        let wide: u128 = value as u128 * 10 + (byte - 48) as u128;
        assert(digits.take(i + 1 - start).drop_last() =~= digits.take(i - start));
        assert(wide == decimal(digits.take(i + 1 - start)));
        if wide > u64::MAX as u128 {
            proof {
                if forall|k: int| 0 <= k < digits.len() ==> is_digit(#[trigger] digits[k]) {
                    lemma_decimal_prefix(digits, i + 1 - start);
                }
            }
            return None;
        }
        value = wide as u64;
        i = i + 1;
    }
    assert(digits.take(i - start) =~= digits);
    Some(value)
}

} // verus!
