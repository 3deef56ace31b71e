use anchor_spl::associated_token::get_associated_token_address;
use pumpfun::address::token_account;
use pumpfun::client::{Cluster, CommitmentConfig, CommitmentLevel, PumpFun};
use pumpfun::pubkey::Pubkey;
use solana_sdk::signature::Keypair;
use solana_sdk::signer::Signer;

fn key(text: &str) -> Pubkey {
    Pubkey::new(text.parse::<solana_sdk::pubkey::Pubkey>().unwrap().to_bytes())
}

fn public(keypair: &Keypair) -> Pubkey {
    Pubkey::new(keypair.pubkey().to_bytes())
}

fn devnet() -> Cluster {
    Cluster {
        url: "https://api.devnet.solana.com".to_string(),
        ws_url: "wss://api.devnet.solana.com".to_string(),
    }
}

#[test]
fn test_new_client() {
    let payer = Keypair::new();
    let client = PumpFun::new(devnet(), public(&payer), None, None);
    assert_eq!(client.payer, public(&payer));
}

#[test]
fn test_get_pdas() {
    let mint = Keypair::new();
    assert!(PumpFun::try_get_global_pda().is_some());
    assert!(PumpFun::try_get_mint_authority_pda().is_some());
    assert!(PumpFun::try_get_metadata_pda(&public(&mint)).is_some());
    let global_pda = PumpFun::get_global_pda();
    let mint_authority_pda = PumpFun::get_mint_authority_pda();
    let bonding_curve_pda = PumpFun::get_bonding_curve_pda(&public(&mint));
    let metadata_pda = PumpFun::get_metadata_pda(&public(&mint));
    let default = Pubkey::new(solana_sdk::pubkey::Pubkey::default().to_bytes());

    assert!(global_pda != default);
    assert!(mint_authority_pda != default);
    assert!(bonding_curve_pda.is_some());
    assert!(metadata_pda != default);
}

#[test]
fn client_talks_to_the_http_endpoint_unless_told_otherwise() {
    let payer = Pubkey::new([9; 32]);
    for ws in [None, Some(false)] {
        let client = PumpFun::new(devnet(), payer, None, ws);
        assert_eq!(client.rpc, "https://api.devnet.solana.com");
    }
    let client = PumpFun::new(devnet(), payer, None, Some(true));
    assert_eq!(client.rpc, "wss://api.devnet.solana.com");
}

#[test]
fn client_keeps_its_configuration() {
    let payer = Pubkey::new([9; 32]);
    let options = CommitmentConfig { commitment: CommitmentLevel::Finalized };
    let client = PumpFun::new(devnet(), payer, Some(options), None);
    assert_eq!(client.client.cluster, devnet());
    assert_eq!(client.client.payer, payer);
    assert_eq!(client.client.options, Some(options));
    assert_eq!(client.program, key("6EF8rrecthR5Dkzon8Nwu78hRvfCKubJ14M5uBEwF6P"));
    assert_eq!(PumpFun::new(devnet(), payer, None, None).client.options, None);
}

#[test]
fn pdas_without_a_mint_are_the_deployed_ones() {
    let global = key("4wTV1YmiEkRvAtNtsSGPtUrqRYQMe5SKy2uB4Jjaxnjf");
    assert_eq!(PumpFun::try_get_global_pda(), Some(global));
    assert_eq!(PumpFun::get_global_pda(), global);
    let authority = key("TSLvdd1pWpHVjahSpsvCXUbgwsL3JAcvokwaKt1eokM");
    assert_eq!(PumpFun::try_get_mint_authority_pda(), Some(authority));
    assert_eq!(PumpFun::get_mint_authority_pda(), authority);
}

#[test]
fn pdas_of_a_mint() {
    let mint = Pubkey::new([7; 32]);
    assert_eq!(
        PumpFun::get_bonding_curve_pda(&mint),
        Some(key("C9g5VaBtV8rx1sfxiVAnnwQSw1FxNhx33ExWh89rJwTe"))
    );
    let metadata = key("ujra22P6fooR9bYj8aMN7hqB5EcXizecG4pWQXNqa1C");
    assert_eq!(PumpFun::try_get_metadata_pda(&mint), Some(metadata));
    assert_eq!(PumpFun::get_metadata_pda(&mint), metadata);
}

#[test]
fn token_account_is_the_associated_one() {
    let wallet = solana_sdk::pubkey::Pubkey::new_from_array([9; 32]);
    let mint = solana_sdk::pubkey::Pubkey::new_from_array([7; 32]);
    let expected = get_associated_token_address(&wallet, &mint);
    assert_eq!(
        token_account(&Pubkey::new([9; 32]), &Pubkey::new([7; 32])),
        Some(Pubkey::new(expected.to_bytes()))
    );
    assert_eq!(expected.to_bytes()[0..4], [107, 228, 193, 172]);
}
