//! Derivation of account addresses.
use vstd::prelude::*;

use crate::constants;
use crate::cpi;
use crate::pubkey::Pubkey;

verus! {

/// The address and bump seed that `Pubkey::try_find_program_address` finds for a list of seeds
/// under a program, or `None` where it finds none.
pub uninterp spec fn program_address(seeds: Seq<Seq<u8>>, program_id: Seq<u8>) -> Option<
    (Seq<u8>, u8),
>;

/// The address that a list of seeds has under a program, if it has one.
pub open spec fn derived(seeds: Seq<Seq<u8>>, program_id: Seq<u8>) -> Option<Seq<u8>> {
    match program_address(seeds, program_id) {
        Some(found) => Some(found.0),
        None => None,
    }
}

/// Address of the global state account.
pub open spec fn global_address() -> Option<Seq<u8>> {
    derived(seq![constants::seeds::GLOBAL_SEED@], cpi::ID@)
}

/// Address of the authority that mints every token.
pub open spec fn mint_authority_address() -> Option<Seq<u8>> {
    derived(seq![constants::seeds::MINT_AUTHORITY_SEED@], cpi::ID@)
}

/// Address of the bonding curve account of `mint`.
pub open spec fn bonding_curve_address(mint: Seq<u8>) -> Option<Seq<u8>> {
    derived(seq![constants::seeds::BONDING_CURVE_SEED@, mint], cpi::ID@)
}

/// Address of the metadata account of `mint`.
pub open spec fn metadata_address(mint: Seq<u8>) -> Option<Seq<u8>> {
    derived(
        seq![
            constants::seeds::METADATA_SEED@,
            constants::accounts::MPL_TOKEN_METADATA@,
            mint,
        ],
        constants::accounts::MPL_TOKEN_METADATA@,
    )
}

/// Address of the account in which `wallet` holds tokens of `mint`, under a token program.
pub open spec fn associated_address(
    wallet: Seq<u8>,
    mint: Seq<u8>,
    token_program: Seq<u8>,
) -> Option<Seq<u8>> {
    derived(seq![wallet, token_program, mint], constants::accounts::ASSOCIATED_TOKEN_PROGRAM@)
}

/// Address of the account in which `wallet` holds tokens of `mint`.
pub open spec fn token_account_address(wallet: Seq<u8>, mint: Seq<u8>) -> Option<Seq<u8>> {
    associated_address(wallet, mint, constants::accounts::TOKEN_PROGRAM@)
}

/// The byte strings that a list of seeds holds.
pub open spec fn seed_bytes(seeds: Seq<&[u8]>) -> Seq<Seq<u8>> {
    seeds.map_values(|seed: &[u8]| seed@)
}

/// Calls `solana_sdk::pubkey::Pubkey::try_find_program_address`.
///
/// The search hashes the seeds, a bump seed that counts down from 255, and the program's address,
/// until the hash is no point of the curve. Its result depends on nothing but the seeds and the
/// program, and is named by [`program_address`]; what the hash is, is not said.
#[verifier::external_body]
pub(crate) fn try_find_program_address(seeds: &[&[u8]], program_id: &Pubkey) -> (found: Option<
    (Pubkey, u8),
>)
    ensures
        found is Some <==> program_address(seed_bytes(seeds@), program_id@) is Some,
        found matches Some(pair) ==> program_address(seed_bytes(seeds@), program_id@) == Some(
            (pair.0@, pair.1),
        ),
{
    let program = solana_sdk::pubkey::Pubkey::new_from_array(program_id.bytes);
    match solana_sdk::pubkey::Pubkey::try_find_program_address(seeds, &program) {
        Some((key, bump)) => Some((Pubkey { bytes: key.to_bytes() }, bump)),
        None => None,
    }
}

/// Calls `solana_sdk::pubkey::Pubkey::find_program_address`.
///
/// It returns what `try_find_program_address` finds, and panics where that finds nothing; the
/// precondition rules the panic out.
#[verifier::external_body]
pub(crate) fn find_program_address(seeds: &[&[u8]], program_id: &Pubkey) -> (found: (Pubkey, u8))
    requires
        program_address(seed_bytes(seeds@), program_id@) is Some,
    ensures
        program_address(seed_bytes(seeds@), program_id@) == Some((found.0@, found.1)),
{
    let program = solana_sdk::pubkey::Pubkey::new_from_array(program_id.bytes);
    let (key, bump) = solana_sdk::pubkey::Pubkey::find_program_address(seeds, &program);
    (Pubkey { bytes: key.to_bytes() }, bump)
}

/// Calls `anchor_spl::associated_token::get_associated_token_address`.
///
/// It returns the address that the wallet, the token program and the mint, in this order, derive
/// under the associated token account program, and panics where they derive none.
#[verifier::external_body]
pub(crate) fn get_associated_token_address(wallet: &Pubkey, mint: &Pubkey) -> (address: Pubkey)
    requires
        token_account_address(wallet@, mint@) is Some,
    ensures
        token_account_address(wallet@, mint@) == Some(address@),
{
    let wallet_key = solana_sdk::pubkey::Pubkey::new_from_array(wallet.bytes);
    let mint_key = solana_sdk::pubkey::Pubkey::new_from_array(mint.bytes);
    let key = anchor_spl::associated_token::get_associated_token_address(&wallet_key, &mint_key);
    Pubkey { bytes: key.to_bytes() }
}

/// The account in which `wallet` holds tokens of `mint`, or `None` where no address can be derived
/// for it.
pub fn token_account(wallet: &Pubkey, mint: &Pubkey) -> (address: Option<Pubkey>)
    ensures
        address is Some <==> token_account_address(wallet@, mint@) is Some,
        address matches Some(key) ==> token_account_address(wallet@, mint@) == Some(key@),
{
    let token_program: [u8; 32] = constants::accounts::TOKEN_PROGRAM;
    let seeds: [&[u8]; 3] = [&wallet.bytes, &token_program, &mint.bytes];
    assert(seed_bytes(seeds@) =~= seq![wallet@, token_program@, mint@]);
    match try_find_program_address(
        &seeds,
        &Pubkey::new(constants::accounts::ASSOCIATED_TOKEN_PROGRAM),
    ) {
        Some(_) => Some(get_associated_token_address(wallet, mint)),
        None => None,
    }
}

} // verus!
