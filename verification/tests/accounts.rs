use pumpfun::accounts::{BondingCurveAccount, GlobalAccount};
use pumpfun::client::PumpFun;
use pumpfun::error::{ClientError, CurveError};
use pumpfun::pubkey::Pubkey;

const SOL: u64 = 1_000_000_000;

fn global_bytes() -> Vec<u8> {
    let mut data = 11u64.to_le_bytes().to_vec();
    data.push(1);
    data.extend([2u8; 32]);
    data.extend([3u8; 32]);
    for number in [1_073_000_000_000_000u64, 30 * SOL, 793_100_000_000_000, 1_000_000_000_000_000, 100] {
        data.extend(number.to_le_bytes());
    }
    data
}

fn curve_bytes(complete: u8) -> Vec<u8> {
    let mut data = Vec::new();
    for number in [12u64, 1_073_000_000_000_000, 30 * SOL, 793_100_000_000_000, 5, 1_000_000_000_000_000] {
        data.extend(number.to_le_bytes());
    }
    data.push(complete);
    data
}

fn curve() -> BondingCurveAccount {
    BondingCurveAccount::try_from_slice(&curve_bytes(0)).unwrap()
}

#[test]
fn global_account_decodes_field_by_field() {
    let account = GlobalAccount::try_from_slice(&global_bytes()).unwrap();
    assert_eq!(account.discriminator, 11);
    assert!(account.initialized);
    assert_eq!(account.authority, Pubkey::new([2; 32]));
    assert_eq!(account.fee_recipient, Pubkey::new([3; 32]));
    assert_eq!(account.initial_virtual_token_reserves, 1_073_000_000_000_000);
    assert_eq!(account.initial_virtual_sol_reserves, 30 * SOL);
    assert_eq!(account.initial_real_token_reserves, 793_100_000_000_000);
    assert_eq!(account.token_total_supply, 1_000_000_000_000_000);
    assert_eq!(account.fee_basis_points, 100);
}

#[test]
fn bonding_curve_account_decodes_field_by_field() {
    assert_eq!(
        curve(),
        BondingCurveAccount {
            discriminator: 12,
            virtual_token_reserves: 1_073_000_000_000_000,
            virtual_sol_reserves: 30 * SOL,
            real_token_reserves: 793_100_000_000_000,
            real_sol_reserves: 5,
            token_total_supply: 1_000_000_000_000_000,
            complete: false,
        }
    );
}

#[test]
fn accounts_of_another_length_do_not_decode() {
    let mut data = global_bytes();
    assert!(GlobalAccount::try_from_slice(&data[..112]).is_err());
    data.push(0);
    assert!(GlobalAccount::try_from_slice(&data).is_err());
    let mut data = curve_bytes(0);
    assert!(BondingCurveAccount::try_from_slice(&data[..48]).is_err());
    data.push(0);
    assert!(BondingCurveAccount::try_from_slice(&data).is_err());
    assert!(BondingCurveAccount::try_from_slice(&[]).is_err());
}

#[test]
fn flags_other_than_zero_and_one_do_not_decode() {
    let mut data = global_bytes();
    data[8] = 2;
    assert!(GlobalAccount::try_from_slice(&data).is_err());
    assert!(BondingCurveAccount::try_from_slice(&curve_bytes(2)).is_err());
}

#[test]
fn the_message_of_the_decoder_is_handed_on() {
    let said = |data: &[u8]| GlobalAccount::try_from_slice(data).unwrap_err();
    let said_of_curve = |data: &[u8]| BondingCurveAccount::try_from_slice(data).unwrap_err();
    let mut data = global_bytes();
    for length in [0, 7, 8, 9, 40, 112] {
        assert_eq!(said(&data[..length]), "Unexpected length of input");
    }
    data.push(0);
    assert_eq!(said(&data), "Not all bytes read");
    for (flag, digits) in [(2, "2"), (9, "9"), (10, "10"), (99, "99"), (100, "100"), (255, "255")] {
        let message = format!("Invalid bool representation: {digits}");
        data[8] = flag;
        assert_eq!(said(&data), message);
        assert_eq!(said(&data[..9]), message);
        assert_eq!(said(&data[..8]), "Unexpected length of input");
        let mut curve = curve_bytes(flag);
        assert_eq!(said_of_curve(&curve), message);
        assert_eq!(said_of_curve(&curve[..48]), "Unexpected length of input");
        curve.push(0);
        assert_eq!(said_of_curve(&curve), message);
    }
    assert_eq!(said_of_curve(&[0; 50]), "Not all bytes read");
    assert_eq!(said_of_curve(&[]), "Unexpected length of input");
}

#[test]
fn errors_of_the_decoder_are_all_invalid_data() {
    for data in [vec![], vec![5; 49], vec![0; 50]] {
        let error = <(u64, u64, u64, u64, u64, u64, bool) as borsh::BorshDeserialize>::try_from_slice(&data)
            .unwrap_err();
        assert_eq!(error.kind(), borsh::io::ErrorKind::InvalidData);
        assert_eq!(BondingCurveAccount::try_from_slice(&data).unwrap_err(), error.to_string());
    }
}

#[test]
fn readers_report_what_went_wrong() {
    assert!(PumpFun::get_global_account::<u8>(Ok(global_bytes())).is_ok());
    assert!(matches!(
        PumpFun::get_global_account(Err::<Vec<u8>, u8>(4)),
        Err(ClientError::SolanaClientError(4))
    ));
    assert!(matches!(
        PumpFun::get_global_account::<u8>(Ok(vec![1, 2])),
        Err(ClientError::BorshError(message)) if message == "Unexpected length of input"
    ));
    assert!(PumpFun::get_bonding_curve_account::<u8>(Ok(curve_bytes(1))).is_ok());
    assert!(matches!(
        PumpFun::get_bonding_curve_account(Err::<Vec<u8>, u8>(5)),
        Err(ClientError::SolanaClientError(5))
    ));
    assert!(matches!(
        PumpFun::get_bonding_curve_account::<u8>(Ok(curve_bytes(3))),
        Err(ClientError::BorshError(message)) if message == "Invalid bool representation: 3"
    ));
}

#[test]
fn bonding_curve_account_is_read_at_its_address() {
    let mint = Pubkey::new([7; 32]);
    let address = PumpFun::find_bonding_curve_account::<u8>(&mint).unwrap();
    assert_eq!(Some(address), PumpFun::get_bonding_curve_pda(&mint));
}

#[test]
fn first_purchase_of_a_new_token() {
    let account = GlobalAccount::try_from_slice(&global_bytes()).unwrap();
    assert_eq!(account.get_initial_buy_price(0), 0);
    assert_eq!(account.get_initial_buy_price(1), 35_766);
    assert_eq!(account.get_initial_buy_price(SOL), 34_612_903_225_806);
    assert_eq!(account.get_initial_buy_price(SOL * SOL), 793_100_000_000_000);
}

#[test]
fn purchase_quotes() {
    assert_eq!(curve().get_buy_price(0), Ok(0));
    assert_eq!(curve().get_buy_price(SOL), Ok(34_612_903_225_806));
    let empty = BondingCurveAccount { virtual_token_reserves: 0, ..curve() };
    assert_eq!(empty.get_buy_price(SOL), Ok(0));
    let nearly_sold = BondingCurveAccount { real_token_reserves: 17, ..curve() };
    assert_eq!(nearly_sold.get_buy_price(SOL), Ok(17));
}

#[test]
fn sale_quotes() {
    assert_eq!(curve().get_sell_price(0, 100), Ok(0));
    assert_eq!(curve().get_sell_price(34_612_903_225_806, 0), Ok(937_499_999));
    assert_eq!(curve().get_sell_price(34_612_903_225_806, 100), Ok(928_125_000));
    assert_eq!(curve().get_sell_price(34_612_903_225_806, 10_001), Ok(0));
}

#[test]
fn complete_curves_give_no_quote() {
    let complete = BondingCurveAccount::try_from_slice(&curve_bytes(1)).unwrap();
    assert_eq!(complete.get_buy_price(SOL), Err(CurveError::Complete));
    assert_eq!(complete.get_buy_price(0), Err(CurveError::Complete));
    assert_eq!(complete.get_sell_price(1, 100), Err(CurveError::Complete));
}

#[test]
fn purchase_keeps_the_product_on_examples() {
    let c = curve();
    for sol in [1, 77, SOL, 85 * SOL, 10_000 * SOL] {
        let tokens = c.get_buy_price(sol).unwrap();
        let before = c.virtual_sol_reserves as u128 * c.virtual_token_reserves as u128;
        let after = (c.virtual_sol_reserves + sol) as u128 * (c.virtual_token_reserves - tokens) as u128;
        assert!(after >= before);
        assert!(c.get_buy_price(sol + 1).unwrap() >= tokens);
    }
}

#[test]
fn sale_keeps_the_product_on_examples() {
    let c = curve();
    for tokens in [1, 1_000_000, 34_612_903_225_806] {
        let paid = c.get_sell_price(tokens, 0).unwrap();
        let before = c.virtual_sol_reserves as u128 * c.virtual_token_reserves as u128;
        let after = (c.virtual_sol_reserves - paid) as u128 * (c.virtual_token_reserves + tokens) as u128;
        assert!(after >= before);
    }
}

#[test]
fn round_trip_never_profits_on_examples() {
    let c = curve();
    for sol in [1, 77, SOL, 85 * SOL] {
        let tokens = c.get_buy_price(sol).unwrap();
        let later = BondingCurveAccount {
            virtual_sol_reserves: c.virtual_sol_reserves + sol,
            virtual_token_reserves: c.virtual_token_reserves - tokens,
            ..c
        };
        assert!(later.get_sell_price(tokens, 0).unwrap() <= sol);
    }
}
