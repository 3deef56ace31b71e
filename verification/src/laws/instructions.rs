//! What the programs read of each instruction.
use vstd::bytes::{
    lemma_auto_spec_u32_to_from_le_bytes, lemma_auto_spec_u64_to_from_le_bytes,
    spec_u32_from_le_bytes, spec_u32_to_le_bytes, spec_u64_from_le_bytes, spec_u64_to_le_bytes,
};
use vstd::prelude::*;
use vstd::utf8::{encode_utf8, encode_utf8_decode_utf8};

use crate::address::program_address;
use crate::client::PriorityFee;
use crate::constants::accounts::{
    ASSOCIATED_TOKEN_PROGRAM, COMPUTE_BUDGET_PROGRAM, EVENT_AUTHORITY, MPL_TOKEN_METADATA, RENT,
    SYSTEM_PROGRAM, TOKEN_PROGRAM,
};
use crate::cpi;
use crate::cpi::instruction::{
    encodable, text_bytes, two_numbers, CreateView, BUY_DISCRIMINATOR, CREATE_DISCRIMINATOR,
    SELL_DISCRIMINATOR,
};
use crate::flow::{create_args, missing_account};
use crate::instruction::{
    buy_instruction, compute_unit_limit, compute_unit_price, create_instruction, creation,
    purchase, sale, sell_instruction, token_account_creation, AccountMetaView, InstructionView,
};
use crate::laws::addresses::{
    bonding_curve_comes_from_the_mint, fixed_addresses_come_from_one_word,
    metadata_comes_from_the_mint, token_accounts_come_from_owner_and_mint,
};
use crate::request::fee_instructions;
use crate::utils::TokenMetadataView;

verus! {

/// The number that eight bytes of `data`, from `at` on, make up.
pub open spec fn number_at(data: Seq<u8>, at: int) -> u64 {
    spec_u64_from_le_bytes(data.subrange(at, at + 8))
}

/// Whether a reader finds `text` in `data` at `at`: the number of its bytes in four bytes, and then
/// all of its bytes.
pub open spec fn text_at(data: Seq<u8>, at: int, text: Seq<char>) -> bool {
    let size = encode_utf8(text).len() as int;
    &&& 0 <= at <= at + 4 + size <= data.len()
    &&& spec_u32_from_le_bytes(data.subrange(at, at + 4)) == size
    &&& data.subrange(at + 4, at + 4 + size) == encode_utf8(text)
}

/// Whether `data` calls `create` with a name, a symbol, the address of the metadata and a creator, one
/// behind the other and with nothing behind the creator.
pub open spec fn calls_create(
    data: Seq<u8>,
    name: Seq<char>,
    symbol: Seq<char>,
    uri: Seq<char>,
    creator: Seq<u8>,
) -> bool {
    let second = 12 + encode_utf8(name).len() as int;
    let third = second + 4 + encode_utf8(symbol).len() as int;
    let fourth = third + 4 + encode_utf8(uri).len() as int;
    &&& data.len() == fourth + creator.len()
    &&& data.take(8) == seq![24u8, 30, 200, 40, 5, 28, 7, 119]
    &&& text_at(data, 8, name)
    &&& text_at(data, second, symbol)
    &&& text_at(data, third, uri)
    &&& data.skip(fourth) == creator
}

/// Whether `data` is a call by the given tag with two numbers, and nothing else.
pub open spec fn calls_with(data: Seq<u8>, tag: Seq<u8>, first: u64, second: u64) -> bool {
    &&& data.len() == 24
    &&& data.take(8) == tag
    &&& number_at(data, 8) == first
    &&& number_at(data, 16) == second
}

/// The encoding of a text is four bytes longer than the text's UTF-8 bytes and can be read back, with
/// anything in front of it and behind it. A text can be encoded where four bytes hold its length.
pub proof fn texts_are_readable(front: Seq<u8>, text: Seq<char>, back: Seq<u8>)
    ensures
        encodable(text) <==> encode_utf8(text).len() <= 0xffff_ffff,
        text_bytes(text).len() == encode_utf8(text).len() + 4,
        encodable(text) ==> text_at(front + text_bytes(text) + back, front.len() as int, text),
{
    lemma_auto_spec_u32_to_from_le_bytes();
    let size = encode_utf8(text).len() as int;
    let at = front.len() as int;
    let data = front + text_bytes(text) + back;
    assert(spec_u32_to_le_bytes(size as u32).len() == 4);
    assert(data.subrange(at, at + 4) =~= spec_u32_to_le_bytes(size as u32));
    assert(data.subrange(at + 4, at + 4 + size) =~= encode_utf8(text));
}

/// The data of `create` reads as its four arguments, in order, whatever they are, where the texts can
/// be encoded.
pub proof fn create_data_is_readable(args: CreateView)
    ensures
        args.encodable() <==> encode_utf8(args.name).len() <= 0xffff_ffff && encode_utf8(
            args.symbol,
        ).len() <= 0xffff_ffff && encode_utf8(args.uri).len() <= 0xffff_ffff,
        args.encodable() ==> calls_create(
            args.data(),
            args.name,
            args.symbol,
            args.uri,
            args.creator,
        ),
{
    if args.encodable() {
        let data = args.data();
        let tag = CREATE_DISCRIMINATOR@;
        let name = text_bytes(args.name);
        let symbol = text_bytes(args.symbol);
        let uri = text_bytes(args.uri);
        texts_are_readable(tag, args.name, symbol + uri + args.creator);
        texts_are_readable(tag + name, args.symbol, uri + args.creator);
        texts_are_readable(tag + name + symbol, args.uri, args.creator);
        assert(data =~= tag + name + (symbol + uri + args.creator));
        assert(data =~= tag + name + symbol + (uri + args.creator));
        assert(data.take(8) =~= seq![24u8, 30, 200, 40, 5, 28, 7, 119]);
        assert(data.skip(data.len() - args.creator.len()) =~= args.creator);
    }
}

/// Two texts that are read at one place are the same.
proof fn lemma_one_text_at_a_place(data: Seq<u8>, at: int, one: Seq<char>, other: Seq<char>)
    requires
        text_at(data, at, one),
        text_at(data, at, other),
    ensures
        one == other,
{
    encode_utf8_decode_utf8(one);
    encode_utf8_decode_utf8(other);
    assert(encode_utf8(one) == encode_utf8(other));
}

/// Two calls of `create` with the same data have the same arguments: the name, the symbol, the
/// address of the metadata and the creator can all be read back.
pub proof fn create_arguments_are_recoverable(one: CreateView, other: CreateView)
    requires
        one.encodable(),
        other.encodable(),
        one.data() == other.data(),
    ensures
        one == other,
{
    create_data_is_readable(one);
    create_data_is_readable(other);
    let data = one.data();
    lemma_one_text_at_a_place(data, 8, one.name, other.name);
    let second = 12 + encode_utf8(one.name).len() as int;
    lemma_one_text_at_a_place(data, second, one.symbol, other.symbol);
    let third = second + 4 + encode_utf8(one.symbol).len() as int;
    lemma_one_text_at_a_place(data, third, one.uri, other.uri);
}

/// The data of a trade reads as its two numbers.
pub proof fn trade_data_is_readable(first: u64, second: u64)
    ensures
        calls_with(
            two_numbers(BUY_DISCRIMINATOR@, first, second),
            seq![102u8, 6, 61, 18, 1, 218, 235, 234],
            first,
            second,
        ),
        calls_with(
            two_numbers(SELL_DISCRIMINATOR@, first, second),
            seq![51u8, 230, 133, 164, 1, 127, 131, 173],
            first,
            second,
        ),
{
    lemma_auto_spec_u64_to_from_le_bytes();
    let buy = two_numbers(BUY_DISCRIMINATOR@, first, second);
    let sell = two_numbers(SELL_DISCRIMINATOR@, first, second);
    assert(spec_u64_to_le_bytes(first).len() == 8 && spec_u64_to_le_bytes(second).len() == 8);
    assert(buy.take(8) =~= seq![102u8, 6, 61, 18, 1, 218, 235, 234]);
    assert(sell.take(8) =~= seq![51u8, 230, 133, 164, 1, 127, 131, 173]);
    assert(buy.subrange(8, 16) =~= spec_u64_to_le_bytes(first));
    assert(buy.subrange(16, 24) =~= spec_u64_to_le_bytes(second));
    assert(sell.subrange(8, 16) =~= spec_u64_to_le_bytes(first));
    assert(sell.subrange(16, 24) =~= spec_u64_to_le_bytes(second));
}

/// The addresses that an instruction names, in order.
pub open spec fn named(instruction: InstructionView) -> Seq<Seq<u8>> {
    instruction.accounts.map_values(|account: AccountMetaView| account.pubkey)
}

/// Whether an instruction calls the Pump.fun program to create `mint`: the mint and the user sign, and
/// besides them the curve, its tokens and the metadata may change.
pub open spec fn creates(
    instruction: InstructionView,
    user: Seq<u8>,
    mint: Seq<u8>,
    authority: Seq<u8>,
    curve: Seq<u8>,
    curve_tokens: Seq<u8>,
    global: Seq<u8>,
    metadata: Seq<u8>,
) -> bool {
    &&& instruction.program_id == cpi::ID@
    &&& named(instruction) == seq![
        mint,
        authority,
        curve,
        curve_tokens,
        global,
        MPL_TOKEN_METADATA@,
        metadata,
        user,
        SYSTEM_PROGRAM@,
        TOKEN_PROGRAM@,
        ASSOCIATED_TOKEN_PROGRAM@,
        RENT@,
        EVENT_AUTHORITY@,
        cpi::ID@,
    ]
    &&& forall|i: int|
        0 <= i < 14 ==> ((#[trigger] instruction.accounts[i]).is_signer <==> i == 0 || i == 7)
    &&& forall|i: int|
        0 <= i < 14 ==> ((#[trigger] instruction.accounts[i]).is_writable <==> i == 0 || i == 2 || i
            == 3 || i == 6 || i == 7)
}

/// Whether an instruction calls the Pump.fun program to trade `mint`, with two given programs or
/// sysvars behind the system program: only the user signs, and besides the user the fee recipient, the
/// curve, its tokens and the user's tokens may change.
pub open spec fn trades(
    instruction: InstructionView,
    user: Seq<u8>,
    mint: Seq<u8>,
    fee_recipient: Seq<u8>,
    global: Seq<u8>,
    curve: Seq<u8>,
    curve_tokens: Seq<u8>,
    user_tokens: Seq<u8>,
    ninth: Seq<u8>,
    tenth: Seq<u8>,
) -> bool {
    &&& instruction.program_id == cpi::ID@
    &&& named(instruction) == seq![
        global,
        fee_recipient,
        mint,
        curve,
        curve_tokens,
        user_tokens,
        user,
        SYSTEM_PROGRAM@,
        ninth,
        tenth,
        EVENT_AUTHORITY@,
        cpi::ID@,
    ]
    &&& forall|i: int| 0 <= i < 12 ==> ((#[trigger] instruction.accounts[i]).is_signer <==> i == 6)
    &&& forall|i: int|
        0 <= i < 12 ==> ((#[trigger] instruction.accounts[i]).is_writable <==> i == 1 || 3 <= i
            <= 6)
}

/// The instruction that creates a token names every account where the program looks for it and
/// carries the arguments.
pub proof fn create_instructions_name_their_accounts(
    user: Seq<u8>,
    mint: Seq<u8>,
    authority: Seq<u8>,
    curve: Seq<u8>,
    curve_tokens: Seq<u8>,
    global: Seq<u8>,
    metadata: Seq<u8>,
    args: CreateView,
)
    ensures
        ({
            let create = create_instruction(
                user,
                mint,
                authority,
                curve,
                curve_tokens,
                global,
                metadata,
                args,
            );
            &&& creates(
                create,
                user,
                mint,
                authority,
                curve,
                curve_tokens,
                global,
                metadata,
            )
            &&& args.encodable() ==> calls_create(
                create.data,
                args.name,
                args.symbol,
                args.uri,
                args.creator,
            )
        }),
{
    create_data_is_readable(args);
    let create = create_instruction(
        user,
        mint,
        authority,
        curve,
        curve_tokens,
        global,
        metadata,
        args,
    );
    assert(named(create) =~= seq![
        mint,
        authority,
        curve,
        curve_tokens,
        global,
        MPL_TOKEN_METADATA@,
        metadata,
        user,
        SYSTEM_PROGRAM@,
        TOKEN_PROGRAM@,
        ASSOCIATED_TOKEN_PROGRAM@,
        RENT@,
        EVENT_AUTHORITY@,
        cpi::ID@,
    ]);
}

/// The instructions that trade a token name every account where the program looks for it and carry
/// both numbers.
pub proof fn trade_instructions_name_their_accounts(
    user: Seq<u8>,
    mint: Seq<u8>,
    fee_recipient: Seq<u8>,
    global: Seq<u8>,
    curve: Seq<u8>,
    curve_tokens: Seq<u8>,
    user_tokens: Seq<u8>,
    amount: u64,
    bound: u64,
)
    ensures
        ({
            let buy = buy_instruction(
                user,
                mint,
                fee_recipient,
                global,
                curve,
                curve_tokens,
                user_tokens,
                amount,
                bound,
            );
            &&& trades(
                buy,
                user,
                mint,
                fee_recipient,
                global,
                curve,
                curve_tokens,
                user_tokens,
                TOKEN_PROGRAM@,
                RENT@,
            )
            &&& calls_with(buy.data, seq![102u8, 6, 61, 18, 1, 218, 235, 234], amount, bound)
        }),
        ({
            let sell = sell_instruction(
                user,
                mint,
                fee_recipient,
                global,
                curve,
                curve_tokens,
                user_tokens,
                amount,
                bound,
            );
            &&& trades(
                sell,
                user,
                mint,
                fee_recipient,
                global,
                curve,
                curve_tokens,
                user_tokens,
                ASSOCIATED_TOKEN_PROGRAM@,
                TOKEN_PROGRAM@,
            )
            &&& calls_with(sell.data, seq![51u8, 230, 133, 164, 1, 127, 131, 173], amount, bound)
        }),
{
    trade_data_is_readable(amount, bound);
    let buy = buy_instruction(
        user,
        mint,
        fee_recipient,
        global,
        curve,
        curve_tokens,
        user_tokens,
        amount,
        bound,
    );
    let sell = sell_instruction(
        user,
        mint,
        fee_recipient,
        global,
        curve,
        curve_tokens,
        user_tokens,
        amount,
        bound,
    );
    assert(named(buy) =~= seq![
        global,
        fee_recipient,
        mint,
        curve,
        curve_tokens,
        user_tokens,
        user,
        SYSTEM_PROGRAM@,
        TOKEN_PROGRAM@,
        RENT@,
        EVENT_AUTHORITY@,
        cpi::ID@,
    ]);
    assert(named(sell) =~= seq![
        global,
        fee_recipient,
        mint,
        curve,
        curve_tokens,
        user_tokens,
        user,
        SYSTEM_PROGRAM@,
        ASSOCIATED_TOKEN_PROGRAM@,
        TOKEN_PROGRAM@,
        EVENT_AUTHORITY@,
        cpi::ID@,
    ]);
}

/// The global account, if it has an address.
pub open spec fn found_global() -> Option<(Seq<u8>, u8)> {
    program_address(seq![encode_utf8("global"@)], cpi::ID@)
}

/// The mint authority, if it has an address.
pub open spec fn found_authority() -> Option<(Seq<u8>, u8)> {
    program_address(seq![encode_utf8("mint-authority"@)], cpi::ID@)
}

/// The bonding curve of a token, if it has an address.
pub open spec fn found_curve(mint: Seq<u8>) -> Option<(Seq<u8>, u8)> {
    program_address(seq![encode_utf8("bonding-curve"@), mint], cpi::ID@)
}

/// The metadata of a token, if it has an address.
pub open spec fn found_metadata(mint: Seq<u8>) -> Option<(Seq<u8>, u8)> {
    program_address(
        seq![encode_utf8("metadata"@), MPL_TOKEN_METADATA@, mint],
        MPL_TOKEN_METADATA@,
    )
}

/// The tokens of an owner, if their account has an address.
pub open spec fn found_tokens(owner: Seq<u8>, mint: Seq<u8>) -> Option<(Seq<u8>, u8)> {
    program_address(seq![owner, TOKEN_PROGRAM@, mint], ASSOCIATED_TOKEN_PROGRAM@)
}

/// Whether every account that a trade of `mint` by `user` touches has an address.
pub open spec fn tradable(user: Seq<u8>, mint: Seq<u8>) -> bool {
    &&& found_global() is Some
    &&& found_curve(mint) is Some
    &&& found_tokens((found_curve(mint)->0).0, mint) is Some
    &&& found_tokens(user, mint) is Some
}

/// Whether every account that the creation of `mint` touches has an address.
pub open spec fn creatable(mint: Seq<u8>) -> bool {
    &&& found_global() is Some
    &&& found_authority() is Some
    &&& found_curve(mint) is Some
    &&& found_tokens((found_curve(mint)->0).0, mint) is Some
    &&& found_metadata(mint) is Some
}

/// Whether an instruction creates `mint` for `user` from what an upload reported: the name, the
/// symbol, and the address of the image.
pub open spec fn creates_token(
    instruction: InstructionView,
    user: Seq<u8>,
    mint: Seq<u8>,
    token: TokenMetadataView,
) -> bool {
    &&& creates(
        instruction,
        user,
        mint,
        (found_authority()->0).0,
        (found_curve(mint)->0).0,
        (found_tokens((found_curve(mint)->0).0, mint)->0).0,
        (found_global()->0).0,
        (found_metadata(mint)->0).0,
    )
    &&& calls_create(instruction.data, token.name, token.symbol, token.image, user)
}

/// Whether an instruction buys `amount` tokens of `mint` for `user` at `max_sol_cost` at most.
pub open spec fn buys_tokens(
    instruction: InstructionView,
    user: Seq<u8>,
    mint: Seq<u8>,
    fee_recipient: Seq<u8>,
    amount: u64,
    max_sol_cost: u64,
) -> bool {
    &&& trades(
        instruction,
        user,
        mint,
        fee_recipient,
        (found_global()->0).0,
        (found_curve(mint)->0).0,
        (found_tokens((found_curve(mint)->0).0, mint)->0).0,
        (found_tokens(user, mint)->0).0,
        TOKEN_PROGRAM@,
        RENT@,
    )
    &&& calls_with(
        instruction.data,
        seq![102u8, 6, 61, 18, 1, 218, 235, 234],
        amount,
        max_sol_cost,
    )
}

/// Whether an instruction sells `amount` tokens of `mint` for `user` at `min_sol_output` at least.
pub open spec fn sells_tokens(
    instruction: InstructionView,
    user: Seq<u8>,
    mint: Seq<u8>,
    fee_recipient: Seq<u8>,
    amount: u64,
    min_sol_output: u64,
) -> bool {
    &&& trades(
        instruction,
        user,
        mint,
        fee_recipient,
        (found_global()->0).0,
        (found_curve(mint)->0).0,
        (found_tokens((found_curve(mint)->0).0, mint)->0).0,
        (found_tokens(user, mint)->0).0,
        ASSOCIATED_TOKEN_PROGRAM@,
        TOKEN_PROGRAM@,
    )
    &&& calls_with(
        instruction.data,
        seq![51u8, 230, 133, 164, 1, 127, 131, 173],
        amount,
        min_sol_output,
    )
}

/// Whether an instruction creates the account in which `user` holds tokens of `mint`, at the expense
/// of `funder`: only the funder signs, and the funder and the new account may change.
pub open spec fn opens_account(
    instruction: InstructionView,
    funder: Seq<u8>,
    user: Seq<u8>,
    mint: Seq<u8>,
    token_program: Seq<u8>,
    address: Seq<u8>,
) -> bool {
    &&& instruction.program_id == ASSOCIATED_TOKEN_PROGRAM@
    &&& named(instruction) == seq![
        funder,
        address,
        user,
        mint,
        SYSTEM_PROGRAM@,
        token_program,
    ]
    &&& forall|i: int| 0 <= i < 6 ==> ((#[trigger] instruction.accounts[i]).is_signer <==> i == 0)
    &&& forall|i: int| 0 <= i < 6 ==> ((#[trigger] instruction.accounts[i]).is_writable <==> i <= 1)
    &&& instruction.data == seq![0u8]
}

/// There is an instruction exactly where every account that it names has an address, and every text
/// can be encoded; and it does what it is for, for every user, mint and argument.
pub proof fn instructions_do_what_they_are_for(
    user: Seq<u8>,
    mint: Seq<u8>,
    fee_recipient: Seq<u8>,
    amount: u64,
    bound: u64,
    args: CreateView,
)
    ensures
        creation(user, mint, args) is Some <==> creatable(mint) && args.encodable(),
        creation(user, mint, args) matches Some(create) ==> creates(
            create,
            user,
            mint,
            (found_authority()->0).0,
            (found_curve(mint)->0).0,
            (found_tokens((found_curve(mint)->0).0, mint)->0).0,
            (found_global()->0).0,
            (found_metadata(mint)->0).0,
        ) && calls_create(create.data, args.name, args.symbol, args.uri, args.creator),
        purchase(user, mint, fee_recipient, amount, bound) is Some <==> tradable(user, mint),
        purchase(user, mint, fee_recipient, amount, bound) matches Some(buy) ==> buys_tokens(
            buy,
            user,
            mint,
            fee_recipient,
            amount,
            bound,
        ),
        sale(user, mint, fee_recipient, amount, bound) is Some <==> tradable(user, mint),
        sale(user, mint, fee_recipient, amount, bound) matches Some(sell) ==> sells_tokens(
            sell,
            user,
            mint,
            fee_recipient,
            amount,
            bound,
        ),
{
    fixed_addresses_come_from_one_word();
    bonding_curve_comes_from_the_mint(mint);
    metadata_comes_from_the_mint(mint);
    token_accounts_come_from_owner_and_mint(user, mint, TOKEN_PROGRAM@);
    let curve = (found_curve(mint)->0).0;
    let curve_tokens = (found_tokens(curve, mint)->0).0;
    let global = (found_global()->0).0;
    create_instructions_name_their_accounts(
        user,
        mint,
        (found_authority()->0).0,
        curve,
        curve_tokens,
        global,
        (found_metadata(mint)->0).0,
        args,
    );
    trade_instructions_name_their_accounts(
        user,
        mint,
        fee_recipient,
        global,
        curve,
        curve_tokens,
        (found_tokens(user, mint)->0).0,
        amount,
        bound,
    );
}

/// A token is created from what the upload reported, with the payer as its creator.
pub proof fn tokens_are_created_as_uploaded(
    user: Seq<u8>,
    mint: Seq<u8>,
    token: TokenMetadataView,
)
    ensures
        creation(user, mint, create_args(user, token)) is Some <==> creatable(mint) && encode_utf8(
            token.name,
        ).len() <= 0xffff_ffff && encode_utf8(token.symbol).len() <= 0xffff_ffff && encode_utf8(
            token.image,
        ).len() <= 0xffff_ffff,
        creation(user, mint, create_args(user, token)) matches Some(create) ==> creates_token(
            create,
            user,
            mint,
            token,
        ),
{
    instructions_do_what_they_are_for(user, mint, user, 0, 0, create_args(user, token));
    create_data_is_readable(create_args(user, token));
}

/// The payer's token account is created exactly where it was not found, by the payer and for the
/// payer.
pub proof fn missing_accounts_are_opened(
    funder: Seq<u8>,
    user: Seq<u8>,
    mint: Seq<u8>,
    token_program: Seq<u8>,
    address: Seq<u8>,
)
    ensures
        opens_account(
            token_account_creation(funder, user, mint, token_program, address),
            funder,
            user,
            mint,
            token_program,
            address,
        ),
        missing_account(user, mint, true) is None,
        missing_account(user, mint, false) is Some,
        found_tokens(user, mint) is Some ==> opens_account(
            missing_account(user, mint, false)->0,
            user,
            user,
            mint,
            TOKEN_PROGRAM@,
            (found_tokens(user, mint)->0).0,
        ),
{
    token_accounts_come_from_owner_and_mint(user, mint, TOKEN_PROGRAM@);
    assert(named(token_account_creation(funder, user, mint, token_program, address)) =~= seq![
        funder,
        address,
        user,
        mint,
        SYSTEM_PROGRAM@,
        token_program,
    ]);
    assert(named(missing_account(user, mint, false)->0) =~= seq![
        user,
        (missing_account(user, mint, false)->0).accounts[1].pubkey,
        user,
        mint,
        SYSTEM_PROGRAM@,
        TOKEN_PROGRAM@,
    ]);
}

/// How many instructions a priority fee puts in front of a transaction: one for each part of it that
/// is given.
pub open spec fn fee_count(fee: Option<PriorityFee>) -> int {
    match fee {
        None => 0,
        Some(PriorityFee { limit: None, price: None }) => 0,
        Some(PriorityFee { limit: Some(_), price: None }) => 1,
        Some(PriorityFee { limit: None, price: Some(_) }) => 1,
        Some(PriorityFee { limit: Some(_), price: Some(_) }) => 2,
    }
}

/// Whether instructions begin with those of a priority fee: the bound on the compute units first, and
/// then the price of one.
pub open spec fn begins_with_fee(
    instructions: Seq<InstructionView>,
    fee: Option<PriorityFee>,
) -> bool {
    &&& instructions.len() >= fee_count(fee)
    &&& forall|i: int|
        0 <= i < fee_count(fee) ==> (#[trigger] instructions[i]).program_id
            == COMPUTE_BUDGET_PROGRAM@ && instructions[i].accounts.len() == 0
    &&& fee matches Some(fee) ==> fee.limit matches Some(units) ==> {
        let data = instructions[0].data;
        data.len() == 5 && data[0] == 2 && spec_u32_from_le_bytes(data.skip(1)) == units
    }
    &&& fee matches Some(given) ==> given.price matches Some(price) ==> {
        let data = instructions[fee_count(fee) - 1].data;
        data.len() == 9 && data[0] == 3 && spec_u64_from_le_bytes(data.skip(1)) == price
    }
}

/// A priority fee becomes one instruction for each part that is given, the bound first, and nothing
/// else.
pub proof fn fees_are_readable(fee: Option<PriorityFee>)
    ensures
        fee_instructions(fee).len() == fee_count(fee),
        begins_with_fee(fee_instructions(fee), fee),
{
    lemma_auto_spec_u32_to_from_le_bytes();
    lemma_auto_spec_u64_to_from_le_bytes();
    if let Some(given) = fee {
        if let Some(units) = given.limit {
            assert(compute_unit_limit(units).data.skip(1) =~= spec_u32_to_le_bytes(units));
            assert(spec_u32_to_le_bytes(units).len() == 4);
            assert(fee_instructions(fee)[0] == compute_unit_limit(units));
        }
        if let Some(price) = given.price {
            assert(compute_unit_price(price).data.skip(1) =~= spec_u64_to_le_bytes(price));
            assert(spec_u64_to_le_bytes(price).len() == 8);
            assert(fee_instructions(fee)[fee_count(fee) - 1] == compute_unit_price(price));
        }
    }
}

} // verus!
