use pumpfun::address::token_account;
use pumpfun::client::{Cluster, PriorityFee, PumpFun};
use pumpfun::cpi::instruction::{Buy, Create, Sell};
use pumpfun::error::{ClientError, CurveError};
use pumpfun::flow::{Action, Event, Flow, Stage};
use pumpfun::instruction;
use pumpfun::instruction::Instruction;
use pumpfun::pubkey::{Pubkey, Signature};
use pumpfun::request::TransactionRequest;
use pumpfun::utils::{CreateTokenMetadata, TokenMetadata};

const SOL: u64 = 1_000_000_000;

type Reply = Event<&'static str>;

fn key(byte: u8) -> Pubkey {
    Pubkey::new([byte; 32])
}

fn payer() -> Pubkey {
    key(9)
}

fn mint() -> Pubkey {
    key(7)
}

fn client() -> PumpFun {
    let cluster = Cluster { url: "http".to_string(), ws_url: "ws".to_string() };
    PumpFun::new(cluster, payer(), None, None)
}

fn metadata() -> CreateTokenMetadata {
    CreateTokenMetadata {
        name: "Doge".to_string(),
        symbol: "DOGE".to_string(),
        description: "A dog".to_string(),
        file: "dog.png".to_string(),
    }
}

fn uploaded() -> Reply {
    Event::Uploaded(Ok(TokenMetadata {
        name: "Doge!".to_string(),
        symbol: "DOGE!".to_string(),
        image: "ipfs://dog".to_string(),
    }))
}

fn global() -> Reply {
    let mut data = vec![0; 8];
    data.push(1);
    data.extend([2u8; 32]);
    data.extend([3u8; 32]);
    for number in [1_073_000_000_000_000u64, 30 * SOL, 793_100_000_000_000, 1_000_000_000_000_000, 100] {
        data.extend(number.to_le_bytes());
    }
    Event::Account(Ok(data))
}

fn curve(complete: u8) -> Reply {
    let mut data = vec![0; 8];
    for number in [1_073_000_000_000_000u64, 30 * SOL, 793_100_000_000_000, 5, 1_000_000_000_000_000] {
        data.extend(number.to_le_bytes());
    }
    data.push(complete);
    Event::Account(Ok(data))
}

fn fetched(step: Option<(Flow, Action<&'static str>)>, address: Pubkey) -> Flow {
    match step {
        Some((flow, Action::FetchAccount(asked))) => {
            assert_eq!(asked, address);
            flow
        }
        other => panic!("{other:?}"),
    }
}

fn sent(step: Option<(Flow, Action<&'static str>)>) -> (Flow, TransactionRequest) {
    match step {
        Some((flow, Action::Send(request))) => (flow, request),
        other => panic!("{other:?}"),
    }
}

fn ended(step: Option<(Flow, Action<&'static str>)>) -> Result<Signature, ClientError<&'static str>> {
    match step {
        Some((flow, Action::Finish(outcome))) => {
            assert!(matches!(flow.stage, Stage::Finished));
            assert!(flow.resume(Event::Sent(Err("late"))).is_none());
            outcome
        }
        other => panic!("{other:?}"),
    }
}

fn undecoded(outcome: Result<Signature, ClientError<&'static str>>) -> String {
    match outcome {
        Err(ClientError::BorshError(message)) => message,
        other => panic!("{other:?}"),
    }
}

fn create_instruction() -> Instruction {
    let args = Create {
        _name: "Doge!".to_string(),
        _symbol: "DOGE!".to_string(),
        _uri: "ipfs://dog".to_string(),
        _creator: payer(),
    };
    instruction::create(&payer(), &mint(), &args).unwrap()
}

fn account_instruction() -> Instruction {
    let wallet = solana_sdk::pubkey::Pubkey::new_from_array([9; 32]);
    let token = solana_sdk::pubkey::Pubkey::new_from_array([7; 32]);
    let program = "TokenkegQfeZyiNwAJbNbGKPFXCWuBvf9Ss623VQ5DA".parse().unwrap();
    let ix = anchor_spl::associated_token::spl_associated_token_account::instruction::create_associated_token_account(
        &wallet, &wallet, &token, &program,
    );
    Instruction {
        program_id: Pubkey::new(ix.program_id.to_bytes()),
        accounts: ix
            .accounts
            .iter()
            .map(|m| instruction::AccountMeta {
                pubkey: Pubkey::new(m.pubkey.to_bytes()),
                is_signer: m.is_signer,
                is_writable: m.is_writable,
            })
            .collect(),
        data: ix.data,
    }
}

fn buy_instruction(amount: u64, max_sol_cost: u64) -> Instruction {
    let args = Buy { _amount: amount, _max_sol_cost: max_sol_cost };
    instruction::buy(&payer(), &mint(), &key(3), &args).unwrap()
}

fn sell_instruction(amount: u64, min_sol_output: u64) -> Instruction {
    let args = Sell { _amount: amount, _min_sol_output: min_sol_output };
    instruction::sell(&payer(), &mint(), &key(3), &args).unwrap()
}

fn global_address() -> Pubkey {
    PumpFun::try_get_global_pda().unwrap()
}

fn curve_address() -> Pubkey {
    PumpFun::get_bonding_curve_pda(&mint()).unwrap()
}

fn account_address() -> Pubkey {
    token_account(&payer(), &mint()).unwrap()
}

#[test]
fn create_uploads_then_sends() {
    let fee = PriorityFee { limit: Some(5), price: None };
    let (flow, action) = client().create::<&'static str>(&mint(), metadata(), Some(fee));
    match action {
        Action::UploadMetadata(asked) => {
            assert_eq!(asked.name, "Doge");
            assert_eq!(asked.file, "dog.png");
        }
        other => panic!("{other:?}"),
    }
    let (flow, request) = sent(flow.resume(uploaded()));
    assert_eq!(request.instructions.len(), 2);
    assert_eq!(request.instructions[0].data, vec![2, 5, 0, 0, 0]);
    assert_eq!(request.instructions[1], create_instruction());
    assert_eq!(request.signers, vec![payer(), mint()]);
    let signature = Signature { bytes: [8; 64] };
    assert_eq!(ended(flow.resume(Event::Sent(Ok(signature)))).unwrap(), signature);
}

#[test]
fn create_reports_a_failed_upload() {
    let (flow, _) = client().create::<&str>(&mint(), metadata(), None);
    let outcome = ended(flow.resume(Event::Uploaded(Err("no ipfs"))));
    assert!(matches!(outcome, Err(ClientError::UploadMetadataError("no ipfs"))));
}

#[test]
fn refused_transactions_are_reported() {
    let (flow, _) = client().create::<&str>(&mint(), metadata(), None);
    let (flow, _) = sent(flow.resume(uploaded()));
    let outcome = ended(flow.resume(Event::Sent(Err("refused"))));
    assert!(matches!(outcome, Err(ClientError::AnchorClientError("refused"))));
}

#[test]
fn create_and_buy_sends_both_at_once() {
    for account in [Ok(vec![]), Err("missing")] {
        let found = account.is_ok();
        let (flow, action) = client().create_and_buy::<&str>(&mint(), metadata(), SOL, None, None);
        assert!(matches!(action, Action::UploadMetadata(_)));
        let flow = fetched(flow.resume(uploaded()), global_address());
        let flow = fetched(flow.resume(global()), account_address());
        let (flow, request) = sent(flow.resume(Event::Account(account)));
        let mut expected = vec![create_instruction()];
        if !found {
            expected.push(account_instruction());
        }
        expected.push(buy_instruction(34_612_903_225_806, 1_050_000_000));
        assert_eq!(request.instructions, expected);
        assert_eq!(request.signers, vec![payer(), mint()]);
        let signature = Signature { bytes: [8; 64] };
        assert_eq!(ended(flow.resume(Event::Sent(Ok(signature)))).unwrap(), signature);
    }
}

#[test]
fn create_and_buy_reports_failures() {
    let start = || client().create_and_buy::<&str>(&mint(), metadata(), SOL, Some(0), None).0;
    let outcome = ended(start().resume(Event::Uploaded(Err("no ipfs"))));
    assert!(matches!(outcome, Err(ClientError::UploadMetadataError("no ipfs"))));
    let flow = fetched(start().resume(uploaded()), global_address());
    let outcome = ended(flow.clone().resume(Event::Account(Err("offline"))));
    assert!(matches!(outcome, Err(ClientError::SolanaClientError("offline"))));
    let outcome = ended(flow.resume(Event::Account(Ok(vec![1]))));
    assert_eq!(undecoded(outcome), "Unexpected length of input");
}

#[test]
fn buy_reads_quotes_and_sends() {
    for account in [Ok(vec![]), Err("missing")] {
        let found = account.is_ok();
        let flow = fetched(client().buy(&mint(), SOL, Some(100), None), global_address());
        let flow = fetched(flow.resume(global()), curve_address());
        let flow = fetched(flow.resume(curve(0)), account_address());
        let (_, request) = sent(flow.resume(Event::Account(account)));
        let mut expected = Vec::new();
        if !found {
            expected.push(account_instruction());
        }
        expected.push(buy_instruction(34_612_903_225_806, 1_010_000_000));
        assert_eq!(request.instructions, expected);
        assert_eq!(request.signers, vec![payer()]);
    }
}

#[test]
fn buy_reports_failures() {
    let start = || fetched(client().buy(&mint(), SOL, None, None), global_address());
    let outcome = ended(start().resume(Event::Account(Err("offline"))));
    assert!(matches!(outcome, Err(ClientError::SolanaClientError("offline"))));
    let outcome = ended(start().resume(Event::Account(Ok(vec![77; 9]))));
    assert_eq!(undecoded(outcome), "Invalid bool representation: 77");
    let flow = fetched(start().resume(global()), curve_address());
    let outcome = ended(flow.clone().resume(Event::Account(Err("offline"))));
    assert!(matches!(outcome, Err(ClientError::SolanaClientError("offline"))));
    let outcome = ended(flow.clone().resume(Event::Account(Ok(vec![1; 50]))));
    assert_eq!(undecoded(outcome), "Not all bytes read");
    let outcome = ended(flow.resume(curve(1)));
    assert!(matches!(outcome, Err(ClientError::BondingCurveError(CurveError::Complete))));
}

fn sale(amount: Option<u64>, slippage: Option<u64>, balance: &str) -> TransactionRequest {
    let flow = match client().sell::<&str>(&mint(), amount, slippage, None) {
        Some((flow, Action::FetchTokenBalance(asked))) => {
            assert_eq!(asked, account_address());
            flow
        }
        other => panic!("{other:?}"),
    };
    let flow = fetched(flow.resume(Event::Balance(Ok(balance.to_string()))), global_address());
    let flow = fetched(flow.resume(global()), curve_address());
    sent(flow.resume(curve(0))).1
}

#[test]
fn sell_reads_quotes_and_sends() {
    let request = sale(Some(34_612_903_225_806), Some(1_000), "99999999999999");
    assert_eq!(request.instructions, vec![sell_instruction(34_612_903_225_806, 835_312_500)]);
    assert_eq!(request.signers, vec![payer()]);
}

#[test]
fn sell_without_an_amount_sells_the_balance() {
    let request = sale(None, None, "34612903225806");
    assert_eq!(request.instructions, vec![sell_instruction(34_612_903_225_806, 881_718_750)]);
    assert_eq!(request, sale(Some(34_612_903_225_806), None, "34612903225806"));
}

#[test]
fn slippage_is_500_unless_given() {
    assert_eq!(sale(None, None, "34612903225806"), sale(None, Some(500), "34612903225806"));
    assert_ne!(sale(None, None, "34612903225806"), sale(None, Some(501), "34612903225806"));
    let bought = |slippage| {
        let flow = fetched(client().buy(&mint(), SOL, slippage, None), global_address());
        let flow = fetched(flow.resume(global()), curve_address());
        let flow = fetched(flow.resume(curve(0)), account_address());
        sent(flow.resume(Event::Account(Ok(vec![])))).1
    };
    assert_eq!(bought(None), bought(Some(500)));
    assert_ne!(bought(None), bought(Some(0)));
}

#[test]
fn sell_reports_failures() {
    let start = || client().sell::<&'static str>(&mint(), Some(1), None, None).unwrap().0;
    let outcome = ended(start().resume(Event::Balance(Err("offline"))));
    assert!(matches!(outcome, Err(ClientError::SolanaClientError("offline"))));
    let flow = fetched(start().resume(Event::Balance(Ok("5".to_string()))), global_address());
    let outcome = ended(flow.clone().resume(Event::Account(Err("offline"))));
    assert!(matches!(outcome, Err(ClientError::SolanaClientError("offline"))));
    let outcome = ended(flow.clone().resume(Event::Account(Ok(vec![0; 114]))));
    assert_eq!(undecoded(outcome), "Not all bytes read");
    let flow = fetched(flow.resume(global()), curve_address());
    let outcome = ended(flow.clone().resume(Event::Account(Err("offline"))));
    assert!(matches!(outcome, Err(ClientError::SolanaClientError("offline"))));
    let outcome = ended(flow.clone().resume(curve(255)));
    assert_eq!(undecoded(outcome), "Invalid bool representation: 255");
    let outcome = ended(flow.resume(curve(1)));
    assert!(matches!(outcome, Err(ClientError::BondingCurveError(CurveError::Complete))));
}

#[test]
fn sell_reports_a_balance_that_is_no_amount() {
    for amount in [None, Some(1)] {
        for text in ["a lot", "", "+", "-1", " 5", "5.0", "18446744073709551616"] {
            let (flow, _) = client().sell::<&'static str>(&mint(), amount, None, None).unwrap();
            match ended(flow.resume(Event::Balance(Ok(text.to_string())))) {
                Err(ClientError::InvalidBalance(reported)) => assert_eq!(reported, text),
                other => panic!("{other:?}"),
            }
        }
        for text in ["0", "+5", "007", "18446744073709551615"] {
            let (flow, _) = client().sell::<&'static str>(&mint(), amount, None, None).unwrap();
            fetched(flow.resume(Event::Balance(Ok(text.to_string()))), global_address());
        }
    }
}

#[test]
fn steps_that_are_not_possible_are_refused() {
    let start = || client().sell::<&'static str>(&mint(), Some(1), None, None).unwrap().0;
    assert!(start().resume(global()).is_none());
    let (flow, _) = client().create::<&str>(&mint(), metadata(), None);
    assert!(flow.clone().resume(global()).is_none());
    let (flow, _) = sent(flow.resume(uploaded()));
    assert!(flow.resume(uploaded()).is_none());
}

#[test]
fn transactions_are_signed_by_everyone_they_need() {
    let check = |request: TransactionRequest| {
        assert_eq!(request.signers[0], payer());
        for instruction in &request.instructions {
            for account in &instruction.accounts {
                assert!(!account.is_signer || request.signers.contains(&account.pubkey));
            }
        }
    };
    check(sale(None, None, "17"));
    let (flow, _) = client().create_and_buy::<&str>(&mint(), metadata(), SOL, None, None);
    let flow = fetched(flow.resume(uploaded()), global_address());
    let flow = fetched(flow.resume(global()), account_address());
    check(sent(flow.resume(Event::Account(Err("missing")))).1);
    let (flow, _) = client().create::<&str>(&mint(), metadata(), None);
    check(sent(flow.resume(uploaded())).1);
}
