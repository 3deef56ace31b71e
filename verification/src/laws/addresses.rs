//! Which seeds every address comes from.
use vstd::prelude::*;
use vstd::utf8::{encode_utf8, is_ascii_chars, is_ascii_chars_encode_utf8};

use crate::address::{
    associated_address, bonding_curve_address, global_address, metadata_address,
    mint_authority_address, program_address, seed_bytes, token_account_address,
};
use crate::constants::accounts::{ASSOCIATED_TOKEN_PROGRAM, MPL_TOKEN_METADATA, TOKEN_PROGRAM};
use crate::constants::seeds::{
    BONDING_CURVE_SEED, GLOBAL_SEED, METADATA_SEED, MINT_AUTHORITY_SEED,
};
use crate::cpi;
use crate::instruction::{
    can_create, can_trade, curve_token_address, CreateAddresses, TradeAddresses,
};

verus! {

/// Each fixed seed is a word in ASCII.
pub proof fn seeds_are_words()
    ensures
        GLOBAL_SEED@ == encode_utf8("global"@),
        MINT_AUTHORITY_SEED@ == encode_utf8("mint-authority"@),
        BONDING_CURVE_SEED@ == encode_utf8("bonding-curve"@),
        METADATA_SEED@ == encode_utf8("metadata"@),
{
    reveal_strlit("global");
    reveal_strlit("mint-authority");
    reveal_strlit("bonding-curve");
    reveal_strlit("metadata");
    assert(is_ascii_chars("global"@));
    assert(is_ascii_chars("mint-authority"@));
    assert(is_ascii_chars("bonding-curve"@));
    assert(is_ascii_chars("metadata"@));
    is_ascii_chars_encode_utf8("global"@);
    is_ascii_chars_encode_utf8("mint-authority"@);
    is_ascii_chars_encode_utf8("bonding-curve"@);
    is_ascii_chars_encode_utf8("metadata"@);
    assert(GLOBAL_SEED@ =~= encode_utf8("global"@));
    assert(MINT_AUTHORITY_SEED@ =~= encode_utf8("mint-authority"@));
    assert(BONDING_CURVE_SEED@ =~= encode_utf8("bonding-curve"@));
    assert(METADATA_SEED@ =~= encode_utf8("metadata"@));
}

/// The global account and the mint authority are found under the Pump.fun program by one word each,
/// and there is no address where the search finds none.
pub proof fn fixed_addresses_come_from_one_word()
    ensures
        global_address() == match program_address(seq![encode_utf8("global"@)], cpi::ID@) {
            Some(found) => Some(found.0),
            None => None,
        },
        mint_authority_address() == match program_address(
            seq![encode_utf8("mint-authority"@)],
            cpi::ID@,
        ) {
            Some(found) => Some(found.0),
            None => None,
        },
{
    seeds_are_words();
}

/// The bonding curve of a token is found under the Pump.fun program by the word `bonding-curve` and
/// the bytes of the mint, in order.
pub proof fn bonding_curve_comes_from_the_mint(mint: Seq<u8>)
    ensures
        bonding_curve_address(mint) == match program_address(
            seq![encode_utf8("bonding-curve"@), mint],
            cpi::ID@,
        ) {
            Some(found) => Some(found.0),
            None => None,
        },
{
    seeds_are_words();
}

/// The metadata of a token is found under the token metadata program by the word `metadata`, that
/// program's own address and the bytes of the mint, in order.
pub proof fn metadata_comes_from_the_mint(mint: Seq<u8>)
    ensures
        metadata_address(mint) == match program_address(
            seq![encode_utf8("metadata"@), MPL_TOKEN_METADATA@, mint],
            MPL_TOKEN_METADATA@,
        ) {
            Some(found) => Some(found.0),
            None => None,
        },
{
    seeds_are_words();
}

/// A token account is found under the associated token account program by its owner, the token
/// program and the mint, in order; that of a bonding curve has the curve as its owner.
pub proof fn token_accounts_come_from_owner_and_mint(
    wallet: Seq<u8>,
    mint: Seq<u8>,
    token_program: Seq<u8>,
)
    ensures
        associated_address(wallet, mint, token_program) == match program_address(
            seq![wallet, token_program, mint],
            ASSOCIATED_TOKEN_PROGRAM@,
        ) {
            Some(found) => Some(found.0),
            None => None,
        },
        token_account_address(wallet, mint) == match program_address(
            seq![wallet, TOKEN_PROGRAM@, mint],
            ASSOCIATED_TOKEN_PROGRAM@,
        ) {
            Some(found) => Some(found.0),
            None => None,
        },
        curve_token_address(mint) == match program_address(
            seq![encode_utf8("bonding-curve"@), mint],
            cpi::ID@,
        ) {
            Some(curve) => match program_address(
                seq![curve.0, TOKEN_PROGRAM@, mint],
                ASSOCIATED_TOKEN_PROGRAM@,
            ) {
                Some(found) => Some(found.0),
                None => None,
            },
            None => None,
        },
{
    seeds_are_words();
}

/// The search is given the seeds as they are: as many, in the same order, byte for byte.
pub proof fn seeds_are_handed_on(seeds: Seq<&[u8]>)
    ensures
        seed_bytes(seeds).len() == seeds.len(),
        forall|i: int| 0 <= i < seeds.len() ==> #[trigger] seed_bytes(seeds)[i] == seeds[i]@,
{
}

/// The accounts of a new token, and of a trade, are those that the seeds lead to, and they are all
/// there exactly where every search finds one.
pub proof fn derived_accounts_are_those_of_the_seeds(
    create: CreateAddresses,
    trade: TradeAddresses,
    user: Seq<u8>,
    mint: Seq<u8>,
)
    ensures
        ({
            let global = program_address(seq![encode_utf8("global"@)], cpi::ID@);
            let authority = program_address(seq![encode_utf8("mint-authority"@)], cpi::ID@);
            let curve = program_address(seq![encode_utf8("bonding-curve"@), mint], cpi::ID@);
            let metadata = program_address(
                seq![encode_utf8("metadata"@), MPL_TOKEN_METADATA@, mint],
                MPL_TOKEN_METADATA@,
            );
            let curve_tokens = program_address(
                seq![(curve->0).0, TOKEN_PROGRAM@, mint],
                ASSOCIATED_TOKEN_PROGRAM@,
            );
            let user_tokens = program_address(
                seq![user, TOKEN_PROGRAM@, mint],
                ASSOCIATED_TOKEN_PROGRAM@,
            );
            &&& can_create(mint) <==> global is Some && authority is Some && curve is Some
                && metadata is Some && curve_tokens is Some
            &&& create.derive_from(mint) <==> can_create(mint) && create.global.bytes@ == (
            global->0).0 && create.mint_authority.bytes@ == (authority->0).0
                && create.bonding_curve.bytes@ == (curve->0).0 && create.metadata.bytes@ == (
            metadata->0).0 && create.associated_bonding_curve.bytes@ == (curve_tokens->0).0
            &&& can_trade(user, mint) <==> global is Some && curve is Some && curve_tokens is Some
                && user_tokens is Some
            &&& trade.derive_from(user, mint) <==> can_trade(user, mint) && trade.global.bytes@ == (
            global->0).0 && trade.bonding_curve.bytes@ == (curve->0).0
                && trade.associated_bonding_curve.bytes@ == (curve_tokens->0).0
                && trade.associated_user.bytes@ == (user_tokens->0).0
        }),
{
    seeds_are_words();
}

} // verus!
