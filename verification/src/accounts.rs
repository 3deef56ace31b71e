//! The accounts of the Pump.fun program, and the quotes that they give.
use vstd::bytes::spec_u64_from_le_bytes;
use vstd::prelude::*;

use crate::error::CurveError;
use crate::pubkey::Pubkey;
use crate::utils::{lemma_product_fits, lowered, portion, BASIS_POINTS};

verus! {

/// Program-wide configuration
#[derive(Clone, Copy, Debug)]
pub struct GlobalAccount {
    /// Tag of the account type.
    pub discriminator: u64,
    /// Whether the program has been set up.
    pub initialized: bool,
    /// Who may change the configuration.
    pub authority: Pubkey,
    /// Who receives the trading fees.
    pub fee_recipient: Pubkey,
    /// Virtual token reserves of a new bonding curve.
    pub initial_virtual_token_reserves: u64,
    /// Virtual SOL reserves of a new bonding curve, in lamports.
    pub initial_virtual_sol_reserves: u64,
    /// Tokens that a new bonding curve has for sale.
    pub initial_real_token_reserves: u64,
    /// Total supply of a new token.
    pub token_total_supply: u64,
    /// Trading fee in basis points.
    pub fee_basis_points: u64,
}

/// A [`GlobalAccount`] with its addresses as byte strings.
pub struct GlobalAccountView {
    pub discriminator: u64,
    pub initialized: bool,
    pub authority: Seq<u8>,
    pub fee_recipient: Seq<u8>,
    pub initial_virtual_token_reserves: u64,
    pub initial_virtual_sol_reserves: u64,
    pub initial_real_token_reserves: u64,
    pub token_total_supply: u64,
    pub fee_basis_points: u64,
}

impl View for GlobalAccount {
    type V = GlobalAccountView;

    open spec fn view(&self) -> GlobalAccountView {
        GlobalAccountView {
            discriminator: self.discriminator,
            initialized: self.initialized,
            authority: self.authority@,
            fee_recipient: self.fee_recipient@,
            initial_virtual_token_reserves: self.initial_virtual_token_reserves,
            initial_virtual_sol_reserves: self.initial_virtual_sol_reserves,
            initial_real_token_reserves: self.initial_real_token_reserves,
            token_total_supply: self.token_total_supply,
            fee_basis_points: self.fee_basis_points,
        }
    }
}

/// Pricing parameters of one token
#[derive(Clone, Copy, Debug, PartialEq, Eq)]
pub struct BondingCurveAccount {
    /// Tag of the account type.
    pub discriminator: u64,
    /// Token reserves that set the price.
    pub virtual_token_reserves: u64,
    /// SOL reserves that set the price, in lamports.
    pub virtual_sol_reserves: u64,
    /// Tokens left for sale.
    pub real_token_reserves: u64,
    /// SOL that the curve holds, in lamports.
    pub real_sol_reserves: u64,
    /// Total supply of the token.
    pub token_total_supply: u64,
    /// Whether all tokens of the curve are sold.
    pub complete: bool,
}

/// The little-endian number in the eight bytes of `data` from `at` on.
pub open spec fn u64_at(data: Seq<u8>, at: int) -> u64 {
    spec_u64_from_le_bytes(data.subrange(at, at + 8))
}

/// The decimal digits of a byte.
pub open spec fn byte_text(byte: u8) -> Seq<char> {
    let digit = |value: int| (48 + value) as char;
    if byte < 10 {
        seq![digit(byte as int)]
    } else if byte < 100 {
        seq![digit(byte as int / 10), digit(byte as int % 10)]
    } else {
        seq![digit(byte as int / 100), digit(byte as int / 10 % 10), digit(byte as int % 10)]
    }
}

/// What is said of bytes that end before the last field does.
pub open spec fn too_short() -> Seq<char> {
    "Unexpected length of input"@
}

/// What is said of bytes that go on after the last field.
pub open spec fn too_long() -> Seq<char> {
    "Not all bytes read"@
}

/// What is said of a flag that is neither 0 nor 1.
pub open spec fn no_flag(byte: u8) -> Seq<char> {
    "Invalid bool representation: "@ + byte_text(byte)
}

/// The global account that `data` encodes: the fields in order, numbers little-endian, a flag as
/// the byte 0 or 1, and nothing after the last field. Where it encodes none, what is said of the
/// first thing that is wrong with it.
pub open spec fn global_account(data: Seq<u8>) -> Result<GlobalAccountView, Seq<char>> {
    if data.len() > 8 && data[8] > 1 {
        Err(no_flag(data[8]))
    } else if data.len() < 113 {
        Err(too_short())
    } else if data.len() > 113 {
        Err(too_long())
    } else {
        Ok(
            GlobalAccountView {
                discriminator: u64_at(data, 0),
                initialized: data[8] == 1,
                authority: data.subrange(9, 41),
                fee_recipient: data.subrange(41, 73),
                initial_virtual_token_reserves: u64_at(data, 73),
                initial_virtual_sol_reserves: u64_at(data, 81),
                initial_real_token_reserves: u64_at(data, 89),
                token_total_supply: u64_at(data, 97),
                fee_basis_points: u64_at(data, 105),
            },
        )
    }
}

/// The bonding curve account that `data` encodes, in the same way.
pub open spec fn bonding_curve_account(data: Seq<u8>) -> Result<BondingCurveAccount, Seq<char>> {
    if data.len() < 49 {
        Err(too_short())
    } else if data[48] > 1 {
        Err(no_flag(data[48]))
    } else if data.len() > 49 {
        Err(too_long())
    } else {
        Ok(
            BondingCurveAccount {
                discriminator: u64_at(data, 0),
                virtual_token_reserves: u64_at(data, 8),
                virtual_sol_reserves: u64_at(data, 16),
                real_token_reserves: u64_at(data, 24),
                real_sol_reserves: u64_at(data, 32),
                token_total_supply: u64_at(data, 40),
                complete: data[48] == 1,
            },
        )
    }
}

/// The fields of a global account, in the order of its encoding.
pub type GlobalFields = (u64, bool, [u8; 32], [u8; 32], u64, u64, u64, u64, u64);

/// The fields of a bonding curve account, in the order of its encoding.
pub type CurveFields = (u64, u64, u64, u64, u64, u64, bool);

/// The global account with the given fields.
pub open spec fn global_of(fields: GlobalFields) -> GlobalAccountView {
    GlobalAccountView {
        discriminator: fields.0,
        initialized: fields.1,
        authority: fields.2@,
        fee_recipient: fields.3@,
        initial_virtual_token_reserves: fields.4,
        initial_virtual_sol_reserves: fields.5,
        initial_real_token_reserves: fields.6,
        token_total_supply: fields.7,
        fee_basis_points: fields.8,
    }
}

/// The bonding curve account with the given fields.
pub open spec fn curve_of(fields: CurveFields) -> BondingCurveAccount {
    BondingCurveAccount {
        discriminator: fields.0,
        virtual_token_reserves: fields.1,
        virtual_sol_reserves: fields.2,
        real_token_reserves: fields.3,
        real_sol_reserves: fields.4,
        token_total_supply: fields.5,
        complete: fields.6,
    }
}

/// The global account with the decoded fields, or what the decoder says.
pub open spec fn global_decoded(fields: Result<GlobalFields, String>) -> Result<
    GlobalAccountView,
    Seq<char>,
> {
    match fields {
        Ok(fields) => Ok(global_of(fields)),
        Err(message) => Err(message@),
    }
}

/// The bonding curve account with the decoded fields, or what the decoder says.
pub open spec fn curve_decoded(fields: Result<CurveFields, String>) -> Result<
    BondingCurveAccount,
    Seq<char>,
> {
    match fields {
        Ok(fields) => Ok(curve_of(fields)),
        Err(message) => Err(message@),
    }
}

/// Calls `borsh::BorshDeserialize::try_from_slice` for the fields of a global account.
///
/// It reads the fields one after the other, a number as its little-endian bytes, a flag as the
/// byte 0 or 1, an address as its 32 bytes. It stops at the first field that the input is too short
/// for, or whose flag is another byte, and refuses input that goes on after the last field. Its
/// error is of the kind `InvalidData` each time, so that the message, which is handed on, is all
/// that the error tells.
#[verifier::external_body]
fn decode_global(data: &[u8]) -> (fields: Result<GlobalFields, String>)
    ensures
        global_decoded(fields) == global_account(data@),
{
    match <GlobalFields as borsh::BorshDeserialize>::try_from_slice(data) {
        Ok(fields) => Ok(fields),
        Err(error) => Err(error.to_string()),
    }
}

/// Calls `borsh::BorshDeserialize::try_from_slice` for the fields of a bonding curve account.
///
/// It reads them as [`decode_global`] says: six numbers and a flag.
#[verifier::external_body]
fn decode_curve(data: &[u8]) -> (fields: Result<CurveFields, String>)
    ensures
        curve_decoded(fields) == bonding_curve_account(data@),
{
    match <CurveFields as borsh::BorshDeserialize>::try_from_slice(data) {
        Ok(fields) => Ok(fields),
        Err(error) => Err(error.to_string()),
    }
}

/// The tokens that `sol` lamports buy from a curve with the given reserves: what keeps the product
/// of the virtual reserves from falling, rounded against the buyer, and no more than are for sale.
pub open spec fn tokens_for(
    virtual_sol: nat,
    virtual_tokens: nat,
    real_tokens: nat,
    sol: nat,
) -> nat {
    let kept = virtual_sol * virtual_tokens / (virtual_sol + sol) + 1;
    if sol == 0 || kept > virtual_tokens {
        0
    } else if virtual_tokens - kept < real_tokens {
        (virtual_tokens - kept) as nat
    } else {
        real_tokens
    }
}

/// The lamports that a curve with the given reserves pays for `tokens`, before the fee.
pub open spec fn sol_for(virtual_sol: nat, virtual_tokens: nat, tokens: nat) -> nat {
    if tokens == 0 {
        0
    } else {
        tokens * virtual_sol / (virtual_tokens + tokens)
    }
}

/// Division never makes a number larger, and undoes a multiplication by more.
proof fn lemma_quotient_bound(a: nat, b: nat, c: nat)
    requires
        c > 0,
        b <= c,
    ensures
        a * b / c <= a,
{
    assert(a * b <= a * c) by (nonlinear_arith)
        requires
            b <= c,
    ;
    vstd::arithmetic::div_mod::lemma_div_is_ordered((a * b) as int, (a * c) as int, c as int);
    vstd::arithmetic::div_mod::lemma_div_by_multiple(a as int, c as int);
}

/// The tokens that `sol` lamports buy from a curve with the given reserves.
fn quote_tokens(virtual_sol: u64, virtual_tokens: u64, real_tokens: u64, sol: u64) -> (tokens: u64)
    ensures
        tokens == tokens_for(
            virtual_sol as nat,
            virtual_tokens as nat,
            real_tokens as nat,
            sol as nat,
        ),
{
    if sol == 0 {
        return 0;
    }
    proof {
        lemma_product_fits(virtual_sol, virtual_tokens);
        lemma_quotient_bound(virtual_tokens as nat, virtual_sol as nat, (virtual_sol + sol) as nat);
        assert(virtual_tokens * virtual_sol == virtual_sol * virtual_tokens) by (nonlinear_arith);
    }
    let product: u128 = virtual_sol as u128 * virtual_tokens as u128;
    let reserves: u128 = virtual_sol as u128 + sol as u128;
    let kept: u128 = product / reserves + 1;
    if kept > virtual_tokens as u128 {
        return 0;
    }
    let bought: u128 = virtual_tokens as u128 - kept;
    if bought < real_tokens as u128 {
        bought as u64
    } else {
        real_tokens
    }
}

impl GlobalAccount {
    /// Decodes the bytes of the global account. Where they encode none, returns what the decoder
    /// says of them.
    pub fn try_from_slice(data: &[u8]) -> (account: Result<GlobalAccount, String>)
        ensures
            match account {
                Ok(a) => global_account(data@) == Ok::<GlobalAccountView, Seq<char>>(a@),
                Err(m) => global_account(data@) == Err::<GlobalAccountView, Seq<char>>(m@),
            },
    {
        match decode_global(data) {
            Ok(f) => Ok(
                GlobalAccount {
                    discriminator: f.0,
                    initialized: f.1,
                    authority: Pubkey::new(f.2),
                    fee_recipient: Pubkey::new(f.3),
                    initial_virtual_token_reserves: f.4,
                    initial_virtual_sol_reserves: f.5,
                    initial_real_token_reserves: f.6,
                    token_total_supply: f.7,
                    fee_basis_points: f.8,
                },
            ),
            Err(message) => Err(message),
        }
    }

    /// The tokens that the first purchase of a new token gets for `amount` lamports.
    pub fn get_initial_buy_price(&self, amount: u64) -> (tokens: u64)
        ensures
            tokens == self@.initial_buy_price(amount),
    {
        quote_tokens(
            self.initial_virtual_sol_reserves,
            self.initial_virtual_token_reserves,
            self.initial_real_token_reserves,
            amount,
        )
    }
}

impl GlobalAccountView {
    /// The tokens that the first purchase of a new token gets for `amount` lamports.
    pub open spec fn initial_buy_price(self, amount: u64) -> nat {
        tokens_for(
            self.initial_virtual_sol_reserves as nat,
            self.initial_virtual_token_reserves as nat,
            self.initial_real_token_reserves as nat,
            amount as nat,
        )
    }
}

impl BondingCurveAccount {
    /// The quote of a purchase: the tokens, unless the curve is complete.
    pub open spec fn buy_quote(self, amount: u64) -> Result<nat, CurveError> {
        if self.complete {
            Err(CurveError::Complete)
        } else {
            Ok(
                tokens_for(
                    self.virtual_sol_reserves as nat,
                    self.virtual_token_reserves as nat,
                    self.real_token_reserves as nat,
                    amount as nat,
                ),
            )
        }
    }

    /// The quote of a sale: the lamports that are left of the price once the fee is taken, unless
    /// the curve is complete.
    pub open spec fn sell_quote(self, amount: u64, fee_basis_points: u64) -> Result<
        nat,
        CurveError,
    > {
        if self.complete {
            Err(CurveError::Complete)
        } else {
            Ok(
                lowered(
                    sol_for(
                        self.virtual_sol_reserves as nat,
                        self.virtual_token_reserves as nat,
                        amount as nat,
                    ),
                    fee_basis_points as nat,
                ),
            )
        }
    }

    /// Decodes the bytes of a bonding curve account. Where they encode none, returns what the
    /// decoder says of them.
    pub fn try_from_slice(data: &[u8]) -> (account: Result<BondingCurveAccount, String>)
        ensures
            match account {
                Ok(a) => bonding_curve_account(data@) == Ok::<BondingCurveAccount, Seq<char>>(a),
                Err(m) => bonding_curve_account(data@) == Err::<BondingCurveAccount, Seq<char>>(m@),
            },
    {
        match decode_curve(data) {
            Ok(f) => Ok(
                BondingCurveAccount {
                    discriminator: f.0,
                    virtual_token_reserves: f.1,
                    virtual_sol_reserves: f.2,
                    real_token_reserves: f.3,
                    real_sol_reserves: f.4,
                    token_total_supply: f.5,
                    complete: f.6,
                },
            ),
            Err(message) => Err(message),
        }
    }

    /// The tokens that `amount` lamports buy.
    pub fn get_buy_price(&self, amount: u64) -> (tokens: Result<u64, CurveError>)
        ensures
            match tokens {
                Ok(n) => self.buy_quote(amount) == Ok::<nat, CurveError>(n as nat),
                Err(e) => self.buy_quote(amount) == Err::<nat, CurveError>(e),
            },
    {
        if self.complete {
            return Err(CurveError::Complete);
        }
        Ok(
            quote_tokens(
                self.virtual_sol_reserves,
                self.virtual_token_reserves,
                self.real_token_reserves,
                amount,
            ),
        )
    }

    /// The lamports that a sale of `amount` tokens brings after the fee.
    pub fn get_sell_price(&self, amount: u64, fee_basis_points: u64) -> (lamports: Result<
        u64,
        CurveError,
    >)
        ensures
            match lamports {
                Ok(n) => self.sell_quote(amount, fee_basis_points) == Ok::<nat, CurveError>(n as nat),
                Err(e) => self.sell_quote(amount, fee_basis_points) == Err::<nat, CurveError>(e),
            },
    {
        if self.complete {
            return Err(CurveError::Complete);
        }
        if amount == 0 {
            return Ok(0);
        }
        proof {
            lemma_product_fits(amount, self.virtual_sol_reserves);
            lemma_quotient_bound(
                self.virtual_sol_reserves as nat,
                amount as nat,
                (self.virtual_token_reserves + amount) as nat,
            );
            assert(self.virtual_sol_reserves * amount == amount * self.virtual_sol_reserves)
                by (nonlinear_arith);
        }
        let gross: u128 = amount as u128 * self.virtual_sol_reserves as u128 / (
        self.virtual_token_reserves as u128 + amount as u128);
        proof {
            lemma_product_fits(gross as u64, fee_basis_points);
        }
        let fee: u128 = gross * fee_basis_points as u128 / BASIS_POINTS as u128;
        assert(fee == portion(gross as nat, fee_basis_points as nat));
        if fee <= gross {
            Ok((gross - fee) as u64)
        } else {
            Ok(0)
        }
    }
}

} // verus!
