use pumpfun::client::PriorityFee;
use pumpfun::cpi::instruction::{Buy, Create, Sell};
use pumpfun::instruction;
use pumpfun::instruction::{AccountMeta, CreateAddresses, Instruction, TradeAddresses};
use pumpfun::pubkey::Pubkey;
use pumpfun::request::{
    buy_request, create_and_buy_request, create_request, sell_request, TransactionRequest,
};

fn key(byte: u8) -> Pubkey {
    Pubkey::new([byte; 32])
}

fn named(text: &str) -> Pubkey {
    Pubkey::new(text.parse::<solana_sdk::pubkey::Pubkey>().unwrap().to_bytes())
}

fn meta(pubkey: Pubkey, is_signer: bool, is_writable: bool) -> AccountMeta {
    AccountMeta { pubkey, is_signer, is_writable }
}

fn program() -> Pubkey {
    named("6EF8rrecthR5Dkzon8Nwu78hRvfCKubJ14M5uBEwF6P")
}

fn plain(byte: u8) -> Instruction {
    Instruction { program_id: key(byte), accounts: vec![], data: vec![byte] }
}

fn trade_addresses() -> TradeAddresses {
    TradeAddresses {
        global: key(1),
        bonding_curve: key(2),
        associated_bonding_curve: key(3),
        associated_user: key(4),
    }
}

fn create_args() -> Create {
    Create {
        _name: "Doge".to_string(),
        _symbol: "D".to_string(),
        _uri: "\u{e9}".to_string(),
        _creator: key(9),
    }
}

#[test]
fn create_data_is_tag_texts_and_creator() {
    let mut expected = vec![24, 30, 200, 40, 5, 28, 7, 119];
    expected.extend([4, 0, 0, 0, b'D', b'o', b'g', b'e']);
    expected.extend([1, 0, 0, 0, b'D']);
    expected.extend([2, 0, 0, 0, 0xc3, 0xa9]);
    expected.extend([9; 32]);
    assert_eq!(create_args().data(), Some(expected));
}

#[test]
fn create_data_is_what_borsh_writes() {
    let args = create_args();
    let fields = (args._name.clone(), args._symbol.clone(), args._uri.clone(), args._creator.bytes);
    assert_eq!(args.data().unwrap()[8..].to_vec(), borsh::to_vec(&fields).unwrap());
}

#[test]
fn trade_data_is_tag_and_numbers() {
    assert_eq!(
        Buy { _amount: 258, _max_sol_cost: 3 }.data(),
        vec![102, 6, 61, 18, 1, 218, 235, 234, 2, 1, 0, 0, 0, 0, 0, 0, 3, 0, 0, 0, 0, 0, 0, 0]
    );
    assert_eq!(
        Sell { _amount: 5, _min_sol_output: 259 }.data(),
        vec![51, 230, 133, 164, 1, 127, 131, 173, 5, 0, 0, 0, 0, 0, 0, 0, 3, 1, 0, 0, 0, 0, 0, 0]
    );
}

#[test]
fn trade_data_differs_with_its_arguments() {
    let data = Buy { _amount: 1, _max_sol_cost: 2 }.data();
    assert_ne!(data, Buy { _amount: 2, _max_sol_cost: 1 }.data());
    assert_ne!(data, Buy { _amount: 1, _max_sol_cost: 3 }.data());
}

#[test]
fn create_instruction_names_its_accounts() {
    let addresses = CreateAddresses {
        mint_authority: key(1),
        bonding_curve: key(2),
        associated_bonding_curve: key(3),
        global: key(4),
        metadata: key(5),
    };
    let ix = instruction::create_with(&key(9), &key(7), &addresses, &create_args()).unwrap();
    assert_eq!(ix.program_id, program());
    assert_eq!(
        ix.accounts,
        vec![
            meta(key(7), true, true),
            meta(key(1), false, false),
            meta(key(2), false, true),
            meta(key(3), false, true),
            meta(key(4), false, false),
            meta(named("metaqbxxUerdq28cj1RbAWkYQm3ybzjb6a8bt518x1s"), false, false),
            meta(key(5), false, true),
            meta(key(9), true, true),
            meta(named("11111111111111111111111111111111"), false, false),
            meta(named("TokenkegQfeZyiNwAJbNbGKPFXCWuBvf9Ss623VQ5DA"), false, false),
            meta(named("ATokenGPvbdGVxr1b2hvZbsiqW5xWH25efTNsLJA8knL"), false, false),
            meta(named("SysvarRent111111111111111111111111111111111"), false, false),
            meta(named("Ce6TQqeHC9p8KetsN6JsjHK7UTZk7nasjjnr7XxXp9F1"), false, false),
            meta(program(), false, false),
        ]
    );
    assert_eq!(Some(ix.data), create_args().data());
}

#[test]
fn buy_instruction_names_its_accounts() {
    let args = Buy { _amount: 1, _max_sol_cost: 2 };
    let ix = instruction::buy_with(&key(9), &key(7), &key(8), &trade_addresses(), &args);
    assert_eq!(ix.program_id, program());
    assert_eq!(
        ix.accounts,
        vec![
            meta(key(1), false, false),
            meta(key(8), false, true),
            meta(key(7), false, false),
            meta(key(2), false, true),
            meta(key(3), false, true),
            meta(key(4), false, true),
            meta(key(9), true, true),
            meta(named("11111111111111111111111111111111"), false, false),
            meta(named("TokenkegQfeZyiNwAJbNbGKPFXCWuBvf9Ss623VQ5DA"), false, false),
            meta(named("SysvarRent111111111111111111111111111111111"), false, false),
            meta(named("Ce6TQqeHC9p8KetsN6JsjHK7UTZk7nasjjnr7XxXp9F1"), false, false),
            meta(program(), false, false),
        ]
    );
    assert_eq!(ix.data, args.data());
}

#[test]
fn sell_instruction_names_its_accounts() {
    let args = Sell { _amount: 1, _min_sol_output: 2 };
    let ix = instruction::sell_with(&key(9), &key(7), &key(8), &trade_addresses(), &args);
    assert_eq!(ix.program_id, program());
    assert_eq!(
        ix.accounts,
        vec![
            meta(key(1), false, false),
            meta(key(8), false, true),
            meta(key(7), false, false),
            meta(key(2), false, true),
            meta(key(3), false, true),
            meta(key(4), false, true),
            meta(key(9), true, true),
            meta(named("11111111111111111111111111111111"), false, false),
            meta(named("ATokenGPvbdGVxr1b2hvZbsiqW5xWH25efTNsLJA8knL"), false, false),
            meta(named("TokenkegQfeZyiNwAJbNbGKPFXCWuBvf9Ss623VQ5DA"), false, false),
            meta(named("Ce6TQqeHC9p8KetsN6JsjHK7UTZk7nasjjnr7XxXp9F1"), false, false),
            meta(program(), false, false),
        ]
    );
    assert_eq!(ix.data, args.data());
}

#[test]
fn instructions_derive_their_accounts() {
    let trade = TradeAddresses::derive(&key(9), &key(7)).unwrap();
    assert_eq!(trade.global, named("4wTV1YmiEkRvAtNtsSGPtUrqRYQMe5SKy2uB4Jjaxnjf"));
    assert_eq!(trade.bonding_curve, named("C9g5VaBtV8rx1sfxiVAnnwQSw1FxNhx33ExWh89rJwTe"));
    let buy = Buy { _amount: 1, _max_sol_cost: 2 };
    assert_eq!(
        instruction::buy(&key(9), &key(7), &key(8), &buy),
        Some(instruction::buy_with(&key(9), &key(7), &key(8), &trade, &buy))
    );
    let sell = Sell { _amount: 1, _min_sol_output: 2 };
    assert_eq!(
        instruction::sell(&key(9), &key(7), &key(8), &sell),
        Some(instruction::sell_with(&key(9), &key(7), &key(8), &trade, &sell))
    );
    let created = CreateAddresses::derive(&key(7)).unwrap();
    assert_eq!(created.bonding_curve, trade.bonding_curve);
    assert_eq!(created.metadata, named("ujra22P6fooR9bYj8aMN7hqB5EcXizecG4pWQXNqa1C"));
    assert_eq!(created.mint_authority, named("TSLvdd1pWpHVjahSpsvCXUbgwsL3JAcvokwaKt1eokM"));
    assert_eq!(
        instruction::create(&key(9), &key(7), &create_args()),
        instruction::create_with(&key(9), &key(7), &created, &create_args())
    );
}

#[test]
fn priority_fee_comes_first() {
    let budget = named("ComputeBudget111111111111111111111111111111");
    let limit = Instruction { program_id: budget, accounts: vec![], data: vec![2, 1, 1, 0, 0] };
    let price = Instruction {
        program_id: budget,
        accounts: vec![],
        data: vec![3, 255, 0, 0, 0, 0, 0, 0, 0],
    };
    let fee = |limit, price| Some(PriorityFee { limit, price });
    assert_eq!(
        TransactionRequest::new(fee(Some(257), Some(255))).instructions,
        vec![limit.clone(), price.clone()]
    );
    assert_eq!(TransactionRequest::new(fee(Some(257), None)).instructions, vec![limit.clone()]);
    assert_eq!(TransactionRequest::new(fee(None, Some(255))).instructions, vec![price]);
    assert_eq!(TransactionRequest::new(fee(None, None)).instructions, vec![]);
    assert_eq!(TransactionRequest::new(None).instructions, vec![]);
    assert_eq!(TransactionRequest::new(None).signers, vec![]);
    assert_eq!(
        create_request(&key(9), &key(7), fee(Some(257), None), plain(1)).instructions,
        vec![limit, plain(1)]
    );
}

#[test]
fn requests_keep_the_order_of_their_instructions() {
    let create = create_request(&key(9), &key(7), None, plain(1));
    assert_eq!(create.instructions, vec![plain(1)]);
    assert_eq!(create.signers, vec![key(9), key(7)]);
    let both = create_and_buy_request(&key(9), &key(7), None, plain(1), Some(plain(2)), plain(3));
    assert_eq!(both.instructions, vec![plain(1), plain(2), plain(3)]);
    assert_eq!(both.signers, vec![key(9), key(7)]);
    let both = create_and_buy_request(&key(9), &key(7), None, plain(1), None, plain(3));
    assert_eq!(both.instructions, vec![plain(1), plain(3)]);
    let buy = buy_request(&key(9), None, Some(plain(2)), plain(3));
    assert_eq!(buy.instructions, vec![plain(2), plain(3)]);
    assert_eq!(buy.signers, vec![key(9)]);
    assert_eq!(buy_request(&key(9), None, None, plain(3)).instructions, vec![plain(3)]);
    let sell = sell_request(&key(9), None, plain(4));
    assert_eq!(sell.instructions, vec![plain(4)]);
    assert_eq!(sell.signers, vec![key(9)]);
}
