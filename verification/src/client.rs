//! The client: its configuration, and the accounts that it reads.
use vstd::prelude::*;

use crate::accounts::{
    bonding_curve_account, global_account, BondingCurveAccount, GlobalAccount, GlobalAccountView,
};
use crate::address::{
    bonding_curve_address, find_program_address, global_address, metadata_address,
    mint_authority_address, seed_bytes, try_find_program_address,
};
use crate::constants;
use crate::cpi;
use crate::error::{ClientError, ClientErrorView};
use crate::pubkey::Pubkey;

verus! {

/// Configuration for priority fee compute unit parameters
#[derive(Debug, Clone, Copy, PartialEq, Eq)]
pub struct PriorityFee {
    /// Maximum compute units that can be consumed by the transaction
    pub limit: Option<u32>,
    /// Price in micro-lamports per compute unit
    pub price: Option<u64>,
}

/// The endpoints of a Solana cluster (e.g. devnet, mainnet-beta)
#[derive(Clone, Debug, PartialEq, Eq)]
pub struct Cluster {
    /// Where requests go over HTTP.
    pub url: String,
    /// Where requests go over a websocket.
    pub ws_url: String,
}

/// How final a state must be to be reported.
#[derive(Clone, Copy, Debug, PartialEq, Eq)]
pub enum CommitmentLevel {
    Processed,
    Confirmed,
    Finalized,
}

/// Commitment config for transaction finality
#[derive(Clone, Copy, Debug, PartialEq, Eq)]
pub struct CommitmentConfig {
    pub commitment: CommitmentLevel,
}

/// What the program's requests are made with.
#[derive(Clone, Debug, PartialEq, Eq)]
pub struct Client {
    /// The cluster that is asked.
    pub cluster: Cluster,
    /// Who pays.
    pub payer: Pubkey,
    /// How final a state must be, where that is not left to the cluster.
    pub options: Option<CommitmentConfig>,
}

/// Main client for interacting with the Pump.fun program
#[derive(Clone, Debug, PartialEq, Eq)]
pub struct PumpFun {
    /// Endpoint for Solana network requests
    pub rpc: String,
    /// Who signs and pays for transactions
    pub payer: Pubkey,
    /// What the program's requests are made with
    pub client: Client,
    /// Address of the program that is called
    pub program: Pubkey,
}

/// What the bytes of the global account tell, once they have been read or could not be.
pub open spec fn read_global<E>(reply: Result<Seq<u8>, E>) -> Result<
    GlobalAccountView,
    ClientErrorView<E>,
> {
    match reply {
        Ok(data) => match global_account(data) {
            Ok(account) => Ok(account),
            Err(message) => Err(ClientErrorView::BorshError(message)),
        },
        Err(error) => Err(ClientErrorView::SolanaClientError(error)),
    }
}

/// What the bytes of a bonding curve account tell, once they have been read or could not be.
pub open spec fn read_curve<E>(reply: Result<Seq<u8>, E>) -> Result<
    BondingCurveAccount,
    ClientErrorView<E>,
> {
    match reply {
        Ok(data) => match bonding_curve_account(data) {
            Ok(account) => Ok(account),
            Err(message) => Err(ClientErrorView::BorshError(message)),
        },
        Err(error) => Err(ClientErrorView::SolanaClientError(error)),
    }
}

/// A reply that carries bytes, with the bytes as a sequence.
pub open spec fn data_view<E>(reply: Result<Vec<u8>, E>) -> Result<Seq<u8>, E> {
    match reply {
        Ok(data) => Ok(data@),
        Err(error) => Err(error),
    }
}

/// The view of a decoded global account.
pub open spec fn global_view<E>(account: Result<GlobalAccount, ClientError<E>>) -> Result<
    GlobalAccountView,
    ClientErrorView<E>,
> {
    match account {
        Ok(account) => Ok(account@),
        Err(error) => Err(error@),
    }
}

/// The view of a decoded bonding curve account.
pub open spec fn curve_view<E>(account: Result<BondingCurveAccount, ClientError<E>>) -> Result<
    BondingCurveAccount,
    ClientErrorView<E>,
> {
    match account {
        Ok(account) => Ok(account),
        Err(error) => Err(error@),
    }
}

impl PumpFun {
    /// Creates a new PumpFun client instance
    ///
    /// # Arguments
    ///
    /// * `cluster` - Solana cluster to connect to (e.g. devnet, mainnet-beta)
    /// * `payer` - Who signs and pays for transactions
    /// * `options` - Optional commitment config for transaction finality
    /// * `ws` - Whether to use websocket connection instead of HTTP
    pub fn new(
        cluster: Cluster,
        payer: Pubkey,
        options: Option<CommitmentConfig>,
        ws: Option<bool>,
    ) -> (client: PumpFun)
        ensures
            client.rpc@ == (if ws == Some(true) {
                cluster.ws_url@
            } else {
                cluster.url@
            }),
            client.payer == payer,
            client.client.cluster == cluster,
            client.client.payer == payer,
            client.client.options == options,
            client.program@ == cpi::ID@,
    {
        let rpc = if ws.unwrap_or(false) {
            cluster.ws_url.clone()
        } else {
            cluster.url.clone()
        };
        PumpFun {
            rpc,
            payer,
            client: Client { cluster, payer, options },
            program: Pubkey::new(cpi::ID),
        }
    }

    /// Gets the Program Derived Address (PDA) for the global state account
    ///
    /// Returns the PDA public key derived from the GLOBAL_SEED. See
    /// [`PumpFun::try_get_global_pda`] where it is not known that there is one.
    pub fn get_global_pda() -> (pda: Pubkey)
        requires
            global_address() is Some,
        ensures
            global_address() == Some(pda@),
    {
        let seed: [u8; 6] = constants::seeds::GLOBAL_SEED;
        let seeds: [&[u8]; 1] = [&seed];
        assert(seed_bytes(seeds@) =~= seq![seed@]);
        find_program_address(&seeds, &Pubkey::new(cpi::ID)).0
    }

    /// The PDA of the global state account, or `None` where the seed derives no address.
    pub fn try_get_global_pda() -> (pda: Option<Pubkey>)
        ensures
            pda is Some <==> global_address() is Some,
            pda matches Some(key) ==> global_address() == Some(key@),
    {
        let seed: [u8; 6] = constants::seeds::GLOBAL_SEED;
        let seeds: [&[u8]; 1] = [&seed];
        assert(seed_bytes(seeds@) =~= seq![seed@]);
        match try_find_program_address(&seeds, &Pubkey::new(cpi::ID)) {
            Some(_) => Some(Self::get_global_pda()),
            None => None,
        }
    }

    /// Gets the Program Derived Address (PDA) for the mint authority
    ///
    /// Returns the PDA public key derived from the MINT_AUTHORITY_SEED. See
    /// [`PumpFun::try_get_mint_authority_pda`] where it is not known that there is one.
    pub fn get_mint_authority_pda() -> (pda: Pubkey)
        requires
            mint_authority_address() is Some,
        ensures
            mint_authority_address() == Some(pda@),
    {
        let seed: [u8; 14] = constants::seeds::MINT_AUTHORITY_SEED;
        let seeds: [&[u8]; 1] = [&seed];
        assert(seed_bytes(seeds@) =~= seq![seed@]);
        find_program_address(&seeds, &Pubkey::new(cpi::ID)).0
    }

    /// The PDA of the mint authority, or `None` where the seed derives no address.
    pub fn try_get_mint_authority_pda() -> (pda: Option<Pubkey>)
        ensures
            pda is Some <==> mint_authority_address() is Some,
            pda matches Some(key) ==> mint_authority_address() == Some(key@),
    {
        let seed: [u8; 14] = constants::seeds::MINT_AUTHORITY_SEED;
        let seeds: [&[u8]; 1] = [&seed];
        assert(seed_bytes(seeds@) =~= seq![seed@]);
        match try_find_program_address(&seeds, &Pubkey::new(cpi::ID)) {
            Some(_) => Some(Self::get_mint_authority_pda()),
            None => None,
        }
    }

    /// Gets the Program Derived Address (PDA) for a token's bonding curve account
    ///
    /// Returns Some(PDA) if derivation succeeds, or None if it fails
    pub fn get_bonding_curve_pda(mint: &Pubkey) -> (pda: Option<Pubkey>)
        ensures
            pda is Some <==> bonding_curve_address(mint@) is Some,
            pda matches Some(key) ==> bonding_curve_address(mint@) == Some(key@),
    {
        let seed: [u8; 13] = constants::seeds::BONDING_CURVE_SEED;
        let seeds: [&[u8]; 2] = [&seed, &mint.bytes];
        assert(seed_bytes(seeds@) =~= seq![seed@, mint@]);
        match try_find_program_address(&seeds, &Pubkey::new(cpi::ID)) {
            Some(found) => Some(found.0),
            None => None,
        }
    }

    /// Gets the Program Derived Address (PDA) for a token's metadata account
    ///
    /// Returns the PDA public key for the token's metadata account. See
    /// [`PumpFun::try_get_metadata_pda`] where it is not known that there is one.
    pub fn get_metadata_pda(mint: &Pubkey) -> (pda: Pubkey)
        requires
            metadata_address(mint@) is Some,
        ensures
            metadata_address(mint@) == Some(pda@),
    {
        let seed: [u8; 8] = constants::seeds::METADATA_SEED;
        let program: [u8; 32] = constants::accounts::MPL_TOKEN_METADATA;
        let seeds: [&[u8]; 3] = [&seed, &program, &mint.bytes];
        assert(seed_bytes(seeds@) =~= seq![seed@, program@, mint@]);
        find_program_address(&seeds, &Pubkey::new(program)).0
    }

    /// The PDA of a token's metadata account, or `None` where the seeds derive no address.
    pub fn try_get_metadata_pda(mint: &Pubkey) -> (pda: Option<Pubkey>)
        ensures
            pda is Some <==> metadata_address(mint@) is Some,
            pda matches Some(key) ==> metadata_address(mint@) == Some(key@),
    {
        let seed: [u8; 8] = constants::seeds::METADATA_SEED;
        let program: [u8; 32] = constants::accounts::MPL_TOKEN_METADATA;
        let seeds: [&[u8]; 3] = [&seed, &program, &mint.bytes];
        assert(seed_bytes(seeds@) =~= seq![seed@, program@, mint@]);
        match try_find_program_address(&seeds, &Pubkey::new(program)) {
            Some(_) => Some(Self::get_metadata_pda(mint)),
            None => None,
        }
    }

    /// Gets the global state account data containing program-wide configuration
    ///
    /// Takes the data of the account at [`PumpFun::get_global_pda`], or why it was not read.
    pub fn get_global_account<E>(reply: Result<Vec<u8>, E>) -> (account: Result<
        GlobalAccount,
        ClientError<E>,
    >)
        ensures
            global_view(account) == read_global(data_view(reply)),
    {
        match reply {
            Ok(data) => match GlobalAccount::try_from_slice(data.as_slice()) {
                Ok(account) => Ok(account),
                Err(message) => Err(ClientError::BorshError(message)),
            },
            Err(error) => Err(ClientError::SolanaClientError(error)),
        }
    }

    /// The address at which a token's bonding curve account is read.
    pub fn find_bonding_curve_account<E>(mint: &Pubkey) -> (address: Result<
        Pubkey,
        ClientError<E>,
    >)
        ensures
            match address {
                Ok(key) => bonding_curve_address(mint@) == Some(key@),
                Err(error) => {
                    &&& bonding_curve_address(mint@) is None
                    &&& error == ClientError::<E>::BondingCurveNotFound
                },
            },
    {
        match Self::get_bonding_curve_pda(mint) {
            Some(key) => Ok(key),
            None => Err(ClientError::BondingCurveNotFound),
        }
    }

    /// Gets a token's bonding curve account data containing pricing parameters
    ///
    /// Takes the data of the account at [`PumpFun::find_bonding_curve_account`], or why it was not
    /// read.
    pub fn get_bonding_curve_account<E>(reply: Result<Vec<u8>, E>) -> (account: Result<
        BondingCurveAccount,
        ClientError<E>,
    >)
        ensures
            curve_view(account) == read_curve(data_view(reply)),
    {
        match reply {
            Ok(data) => match BondingCurveAccount::try_from_slice(data.as_slice()) {
                Ok(account) => Ok(account),
                Err(message) => Err(ClientError::BorshError(message)),
            },
            Err(error) => Err(ClientError::SolanaClientError(error)),
        }
    }
}

} // verus!
