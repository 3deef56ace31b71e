//! The instructions of a transaction.
use vstd::bytes::{spec_u32_to_le_bytes, spec_u64_to_le_bytes};
use vstd::prelude::*;

use crate::address::{
    associated_address, bonding_curve_address, global_address, metadata_address,
    mint_authority_address, token_account, token_account_address,
};
use crate::client::PumpFun;
use crate::constants;
use crate::cpi;
use crate::cpi::instruction::{two_numbers, CreateView, BUY_DISCRIMINATOR, SELL_DISCRIMINATOR};
use crate::pubkey::Pubkey;

verus! {

/// An account that an instruction refers to.
#[derive(Clone, Copy, Debug, PartialEq, Eq)]
pub struct AccountMeta {
    /// Address of the account.
    pub pubkey: Pubkey,
    /// Whether the account must sign the transaction.
    pub is_signer: bool,
    /// Whether the instruction may change the account.
    pub is_writable: bool,
}

/// An [`AccountMeta`] with its address as a byte string.
pub struct AccountMetaView {
    pub pubkey: Seq<u8>,
    pub is_signer: bool,
    pub is_writable: bool,
}

impl View for AccountMeta {
    type V = AccountMetaView;

    open spec fn view(&self) -> AccountMetaView {
        AccountMetaView {
            pubkey: self.pubkey@,
            is_signer: self.is_signer,
            is_writable: self.is_writable,
        }
    }
}

/// One call of a program.
#[derive(Clone, Debug, PartialEq, Eq)]
pub struct Instruction {
    /// The program that is called.
    pub program_id: Pubkey,
    /// The accounts that it is given.
    pub accounts: Vec<AccountMeta>,
    /// The bytes that it is given.
    pub data: Vec<u8>,
}

/// An [`Instruction`] with its contents as sequences.
#[verifier::ext_equal]
pub struct InstructionView {
    pub program_id: Seq<u8>,
    pub accounts: Seq<AccountMetaView>,
    pub data: Seq<u8>,
}

impl View for Instruction {
    type V = InstructionView;

    open spec fn view(&self) -> InstructionView {
        InstructionView {
            program_id: self.program_id@,
            accounts: metas(self.accounts@),
            data: self.data@,
        }
    }
}

/// The accounts of an instruction, each by its view.
pub open spec fn metas(accounts: Seq<AccountMeta>) -> Seq<AccountMetaView> {
    accounts.map_values(|account: AccountMeta| account@)
}

/// An account that signs and may be changed.
pub open spec fn payer_meta(pubkey: Seq<u8>) -> AccountMetaView {
    AccountMetaView { pubkey, is_signer: true, is_writable: true }
}

/// An account that may be changed.
pub open spec fn writable_meta(pubkey: Seq<u8>) -> AccountMetaView {
    AccountMetaView { pubkey, is_signer: false, is_writable: true }
}

/// An account that is only read.
pub open spec fn readonly_meta(pubkey: Seq<u8>) -> AccountMetaView {
    AccountMetaView { pubkey, is_signer: false, is_writable: false }
}

/// Bounds the compute units that the transaction may consume.
pub open spec fn compute_unit_limit(units: u32) -> InstructionView {
    InstructionView {
        program_id: constants::accounts::COMPUTE_BUDGET_PROGRAM@,
        accounts: seq![],
        data: seq![2u8] + spec_u32_to_le_bytes(units),
    }
}

/// Sets the price, in micro-lamports, of a compute unit.
pub open spec fn compute_unit_price(micro_lamports: u64) -> InstructionView {
    InstructionView {
        program_id: constants::accounts::COMPUTE_BUDGET_PROGRAM@,
        accounts: seq![],
        data: seq![3u8] + spec_u64_to_le_bytes(micro_lamports),
    }
}

/// Creates the account at `address`, in which `wallet` holds tokens of `mint`, at the expense of
/// `funder`.
pub open spec fn token_account_creation(
    funder: Seq<u8>,
    wallet: Seq<u8>,
    mint: Seq<u8>,
    token_program: Seq<u8>,
    address: Seq<u8>,
) -> InstructionView {
    InstructionView {
        program_id: constants::accounts::ASSOCIATED_TOKEN_PROGRAM@,
        accounts: seq![
            payer_meta(funder),
            writable_meta(address),
            readonly_meta(wallet),
            readonly_meta(mint),
            readonly_meta(constants::accounts::SYSTEM_PROGRAM@),
            readonly_meta(token_program),
        ],
        data: seq![0u8],
    }
}

/// Calls `solana_sdk::compute_budget::ComputeBudgetInstruction::set_compute_unit_limit`.
///
/// The instruction is addressed to the compute budget program, names no account, and carries the
/// tag 2 and the little-endian number.
#[verifier::external_body]
pub(crate) fn set_compute_unit_limit(units: u32) -> (instruction: Instruction)
    ensures
        instruction@ == compute_unit_limit(units),
{
    let ix = solana_sdk::compute_budget::ComputeBudgetInstruction::set_compute_unit_limit(units);
    Instruction {
        program_id: Pubkey { bytes: ix.program_id.to_bytes() },
        accounts: ix.accounts.into_iter().map(
            |m| AccountMeta {
                pubkey: Pubkey { bytes: m.pubkey.to_bytes() },
                is_signer: m.is_signer,
                is_writable: m.is_writable,
            },
        ).collect(),
        data: ix.data,
    }
}

/// Calls `solana_sdk::compute_budget::ComputeBudgetInstruction::set_compute_unit_price`.
///
/// The instruction is addressed to the compute budget program, names no account, and carries the
/// tag 3 and the little-endian number.
#[verifier::external_body]
pub(crate) fn set_compute_unit_price(micro_lamports: u64) -> (instruction: Instruction)
    ensures
        instruction@ == compute_unit_price(micro_lamports),
{
    let ix = solana_sdk::compute_budget::ComputeBudgetInstruction::set_compute_unit_price(
        micro_lamports,
    );
    Instruction {
        program_id: Pubkey { bytes: ix.program_id.to_bytes() },
        accounts: ix.accounts.into_iter().map(
            |m| AccountMeta {
                pubkey: Pubkey { bytes: m.pubkey.to_bytes() },
                is_signer: m.is_signer,
                is_writable: m.is_writable,
            },
        ).collect(),
        data: ix.data,
    }
}

/// Calls `anchor_spl::associated_token::spl_associated_token_account::instruction::`
/// `create_associated_token_account`.
///
/// The instruction is addressed to the associated token account program, names the funder, the new
/// account, the wallet, the mint, the system program and the token program, and carries the tag 0.
/// The call panics where the new account has no address; the precondition rules that out.
#[verifier::external_body]
pub(crate) fn create_associated_token_account(
    funder: &Pubkey,
    wallet: &Pubkey,
    mint: &Pubkey,
    token_program: &Pubkey,
) -> (instruction: Instruction)
    requires
        associated_address(wallet@, mint@, token_program@) is Some,
    ensures
        instruction@ == token_account_creation(
            funder@,
            wallet@,
            mint@,
            token_program@,
            associated_address(wallet@, mint@, token_program@)->0,
        ),
{
    let key = |k: &Pubkey| solana_sdk::pubkey::Pubkey::new_from_array(k.bytes);
    let ix =
        anchor_spl::associated_token::spl_associated_token_account::instruction::create_associated_token_account(
        &key(funder), &key(wallet), &key(mint), &key(token_program));
    Instruction {
        program_id: Pubkey { bytes: ix.program_id.to_bytes() },
        accounts: ix.accounts.into_iter().map(|m| AccountMeta {
                pubkey: Pubkey { bytes: m.pubkey.to_bytes() },
                is_signer: m.is_signer,
                is_writable: m.is_writable,
            }).collect(),
        data: ix.data,
    }
}

/// The accounts that a new token brings with it.
#[derive(Clone, Copy, Debug, PartialEq, Eq)]
pub struct CreateAddresses {
    pub mint_authority: Pubkey,
    pub bonding_curve: Pubkey,
    pub associated_bonding_curve: Pubkey,
    pub global: Pubkey,
    pub metadata: Pubkey,
}

/// The accounts that a trade of a token touches.
#[derive(Clone, Copy, Debug, PartialEq, Eq)]
pub struct TradeAddresses {
    pub global: Pubkey,
    pub bonding_curve: Pubkey,
    pub associated_bonding_curve: Pubkey,
    pub associated_user: Pubkey,
}

/// The account in which the bonding curve of `mint` holds its tokens.
pub open spec fn curve_token_address(mint: Seq<u8>) -> Option<Seq<u8>> {
    match bonding_curve_address(mint) {
        Some(curve) => token_account_address(curve, mint),
        None => None,
    }
}

/// Whether every account that a new token brings with it has an address.
pub open spec fn can_create(mint: Seq<u8>) -> bool {
    &&& mint_authority_address() is Some
    &&& bonding_curve_address(mint) is Some
    &&& curve_token_address(mint) is Some
    &&& global_address() is Some
    &&& metadata_address(mint) is Some
}

/// Whether every account that a trade touches has an address.
pub open spec fn can_trade(user: Seq<u8>, mint: Seq<u8>) -> bool {
    &&& global_address() is Some
    &&& bonding_curve_address(mint) is Some
    &&& curve_token_address(mint) is Some
    &&& token_account_address(user, mint) is Some
}

/// The instruction that creates a token, given the accounts that it brings with it.
pub open spec fn create_instruction(
    user: Seq<u8>,
    mint: Seq<u8>,
    mint_authority: Seq<u8>,
    bonding_curve: Seq<u8>,
    associated_bonding_curve: Seq<u8>,
    global: Seq<u8>,
    metadata: Seq<u8>,
    args: CreateView,
) -> InstructionView {
    InstructionView {
        program_id: cpi::ID@,
        accounts: seq![
            payer_meta(mint),
            readonly_meta(mint_authority),
            writable_meta(bonding_curve),
            writable_meta(associated_bonding_curve),
            readonly_meta(global),
            readonly_meta(constants::accounts::MPL_TOKEN_METADATA@),
            writable_meta(metadata),
            payer_meta(user),
            readonly_meta(constants::accounts::SYSTEM_PROGRAM@),
            readonly_meta(constants::accounts::TOKEN_PROGRAM@),
            readonly_meta(constants::accounts::ASSOCIATED_TOKEN_PROGRAM@),
            readonly_meta(constants::accounts::RENT@),
            readonly_meta(constants::accounts::EVENT_AUTHORITY@),
            readonly_meta(cpi::ID@),
        ],
        data: args.data(),
    }
}

/// The instruction that buys tokens, given the accounts that the trade touches.
pub open spec fn buy_instruction(
    user: Seq<u8>,
    mint: Seq<u8>,
    fee_recipient: Seq<u8>,
    global: Seq<u8>,
    bonding_curve: Seq<u8>,
    associated_bonding_curve: Seq<u8>,
    associated_user: Seq<u8>,
    amount: u64,
    max_sol_cost: u64,
) -> InstructionView {
    InstructionView {
        program_id: cpi::ID@,
        accounts: seq![
            readonly_meta(global),
            writable_meta(fee_recipient),
            readonly_meta(mint),
            writable_meta(bonding_curve),
            writable_meta(associated_bonding_curve),
            writable_meta(associated_user),
            payer_meta(user),
            readonly_meta(constants::accounts::SYSTEM_PROGRAM@),
            readonly_meta(constants::accounts::TOKEN_PROGRAM@),
            readonly_meta(constants::accounts::RENT@),
            readonly_meta(constants::accounts::EVENT_AUTHORITY@),
            readonly_meta(cpi::ID@),
        ],
        data: two_numbers(BUY_DISCRIMINATOR@, amount, max_sol_cost),
    }
}

/// The instruction that sells tokens, given the accounts that the trade touches.
pub open spec fn sell_instruction(
    user: Seq<u8>,
    mint: Seq<u8>,
    fee_recipient: Seq<u8>,
    global: Seq<u8>,
    bonding_curve: Seq<u8>,
    associated_bonding_curve: Seq<u8>,
    associated_user: Seq<u8>,
    amount: u64,
    min_sol_output: u64,
) -> InstructionView {
    InstructionView {
        program_id: cpi::ID@,
        accounts: seq![
            readonly_meta(global),
            writable_meta(fee_recipient),
            readonly_meta(mint),
            writable_meta(bonding_curve),
            writable_meta(associated_bonding_curve),
            writable_meta(associated_user),
            payer_meta(user),
            readonly_meta(constants::accounts::SYSTEM_PROGRAM@),
            readonly_meta(constants::accounts::ASSOCIATED_TOKEN_PROGRAM@),
            readonly_meta(constants::accounts::TOKEN_PROGRAM@),
            readonly_meta(constants::accounts::EVENT_AUTHORITY@),
            readonly_meta(cpi::ID@),
        ],
        data: two_numbers(SELL_DISCRIMINATOR@, amount, min_sol_output),
    }
}

/// The instruction with which `user` creates `mint`, or `None` where one of its accounts has no
/// address or one of its texts is too long.
pub open spec fn creation(user: Seq<u8>, mint: Seq<u8>, args: CreateView) -> Option<
    InstructionView,
> {
    if can_create(mint) && args.encodable() {
        Some(
            create_instruction(
                user,
                mint,
                mint_authority_address()->0,
                bonding_curve_address(mint)->0,
                curve_token_address(mint)->0,
                global_address()->0,
                metadata_address(mint)->0,
                args,
            ),
        )
    } else {
        None
    }
}

/// The instruction with which `user` buys tokens of `mint`, or `None` where one of its accounts has
/// no address.
pub open spec fn purchase(
    user: Seq<u8>,
    mint: Seq<u8>,
    fee_recipient: Seq<u8>,
    amount: u64,
    max_sol_cost: u64,
) -> Option<InstructionView> {
    if can_trade(user, mint) {
        Some(
            buy_instruction(
                user,
                mint,
                fee_recipient,
                global_address()->0,
                bonding_curve_address(mint)->0,
                curve_token_address(mint)->0,
                token_account_address(user, mint)->0,
                amount,
                max_sol_cost,
            ),
        )
    } else {
        None
    }
}

/// The instruction with which `user` sells tokens of `mint`, or `None` where one of its accounts has
/// no address.
pub open spec fn sale(
    user: Seq<u8>,
    mint: Seq<u8>,
    fee_recipient: Seq<u8>,
    amount: u64,
    min_sol_output: u64,
) -> Option<InstructionView> {
    if can_trade(user, mint) {
        Some(
            sell_instruction(
                user,
                mint,
                fee_recipient,
                global_address()->0,
                bonding_curve_address(mint)->0,
                curve_token_address(mint)->0,
                token_account_address(user, mint)->0,
                amount,
                min_sol_output,
            ),
        )
    } else {
        None
    }
}

/// An account that signs and may be changed.
fn payer_account(pubkey: &Pubkey) -> (meta: AccountMeta)
    ensures
        meta@ == payer_meta(pubkey@),
{
    AccountMeta { pubkey: *pubkey, is_signer: true, is_writable: true }
}

/// An account that may be changed.
fn writable_account(pubkey: &Pubkey) -> (meta: AccountMeta)
    ensures
        meta@ == writable_meta(pubkey@),
{
    AccountMeta { pubkey: *pubkey, is_signer: false, is_writable: true }
}

/// An account that is only read.
fn readonly_account(pubkey: &Pubkey) -> (meta: AccountMeta)
    ensures
        meta@ == readonly_meta(pubkey@),
{
    AccountMeta { pubkey: *pubkey, is_signer: false, is_writable: false }
}

/// An account fixed by the on-chain programs, which is only read.
fn fixed_account(bytes: [u8; 32]) -> (meta: AccountMeta)
    ensures
        meta@ == readonly_meta(bytes@),
{
    AccountMeta { pubkey: Pubkey::new(bytes), is_signer: false, is_writable: false }
}

impl CreateAddresses {
    /// Whether these are the accounts that `mint` brings with it.
    pub open spec fn derive_from(self, mint: Seq<u8>) -> bool {
        &&& mint_authority_address() == Some(self.mint_authority@)
        &&& bonding_curve_address(mint) == Some(self.bonding_curve@)
        &&& curve_token_address(mint) == Some(self.associated_bonding_curve@)
        &&& global_address() == Some(self.global@)
        &&& metadata_address(mint) == Some(self.metadata@)
    }

    /// Derives the accounts that the new token `mint` brings with it, or returns `None` where one of
    /// them has no address.
    pub fn derive(mint: &Pubkey) -> (addresses: Option<CreateAddresses>)
        ensures
            addresses is Some <==> can_create(mint@),
            addresses matches Some(a) ==> a.derive_from(mint@),
    {
        let mint_authority = match PumpFun::try_get_mint_authority_pda() {
            Some(key) => key,
            None => return None,
        };
        let bonding_curve = match PumpFun::get_bonding_curve_pda(mint) {
            Some(key) => key,
            None => return None,
        };
        let associated_bonding_curve = match token_account(&bonding_curve, mint) {
            Some(key) => key,
            None => return None,
        };
        let global = match PumpFun::try_get_global_pda() {
            Some(key) => key,
            None => return None,
        };
        let metadata = match PumpFun::try_get_metadata_pda(mint) {
            Some(key) => key,
            None => return None,
        };
        Some(
            CreateAddresses {
                mint_authority,
                bonding_curve,
                associated_bonding_curve,
                global,
                metadata,
            },
        )
    }
}

impl TradeAddresses {
    /// Whether these are the accounts that a trade of `mint` by `user` touches.
    pub open spec fn derive_from(self, user: Seq<u8>, mint: Seq<u8>) -> bool {
        &&& global_address() == Some(self.global@)
        &&& bonding_curve_address(mint) == Some(self.bonding_curve@)
        &&& curve_token_address(mint) == Some(self.associated_bonding_curve@)
        &&& token_account_address(user, mint) == Some(self.associated_user@)
    }

    /// Derives the accounts that a trade of `mint` by `user` touches, or returns `None` where one of
    /// them has no address.
    pub fn derive(user: &Pubkey, mint: &Pubkey) -> (addresses: Option<TradeAddresses>)
        ensures
            addresses is Some <==> can_trade(user@, mint@),
            addresses matches Some(a) ==> a.derive_from(user@, mint@),
    {
        let global = match PumpFun::try_get_global_pda() {
            Some(key) => key,
            None => return None,
        };
        let bonding_curve = match PumpFun::get_bonding_curve_pda(mint) {
            Some(key) => key,
            None => return None,
        };
        let associated_bonding_curve = match token_account(&bonding_curve, mint) {
            Some(key) => key,
            None => return None,
        };
        let associated_user = match token_account(user, mint) {
            Some(key) => key,
            None => return None,
        };
        Some(TradeAddresses { global, bonding_curve, associated_bonding_curve, associated_user })
    }
}

/// The instruction that creates a token, given the accounts that it brings with it; `None` where a
/// text is too long to be encoded.
pub fn create_with(
    user: &Pubkey,
    mint: &Pubkey,
    addresses: &CreateAddresses,
    args: &cpi::instruction::Create,
) -> (instruction: Option<Instruction>)
    ensures
        instruction is Some <==> args@.encodable(),
        instruction matches Some(i) ==> i@ == create_instruction(
            user@,
            mint@,
            addresses.mint_authority@,
            addresses.bonding_curve@,
            addresses.associated_bonding_curve@,
            addresses.global@,
            addresses.metadata@,
            args@,
        ),
{
    let data = match args.data() {
        Some(data) => data,
        None => return None,
    };
    let instruction = Instruction {
        program_id: Pubkey::new(cpi::ID),
        accounts: vec![
            payer_account(mint),
            readonly_account(&addresses.mint_authority),
            writable_account(&addresses.bonding_curve),
            writable_account(&addresses.associated_bonding_curve),
            readonly_account(&addresses.global),
            fixed_account(constants::accounts::MPL_TOKEN_METADATA),
            writable_account(&addresses.metadata),
            payer_account(user),
            fixed_account(constants::accounts::SYSTEM_PROGRAM),
            fixed_account(constants::accounts::TOKEN_PROGRAM),
            fixed_account(constants::accounts::ASSOCIATED_TOKEN_PROGRAM),
            fixed_account(constants::accounts::RENT),
            fixed_account(constants::accounts::EVENT_AUTHORITY),
            fixed_account(cpi::ID),
        ],
        data,
    };
    assert(instruction@ =~= create_instruction(
        user@,
        mint@,
        addresses.mint_authority@,
        addresses.bonding_curve@,
        addresses.associated_bonding_curve@,
        addresses.global@,
        addresses.metadata@,
        args@,
    ));
    Some(instruction)
}

/// The instruction that buys tokens, given the accounts that the trade touches.
pub fn buy_with(
    user: &Pubkey,
    mint: &Pubkey,
    fee_recipient: &Pubkey,
    addresses: &TradeAddresses,
    args: &cpi::instruction::Buy,
) -> (instruction: Instruction)
    ensures
        instruction@ == buy_instruction(
            user@,
            mint@,
            fee_recipient@,
            addresses.global@,
            addresses.bonding_curve@,
            addresses.associated_bonding_curve@,
            addresses.associated_user@,
            args._amount,
            args._max_sol_cost,
        ),
{
    Instruction {
        program_id: Pubkey::new(cpi::ID),
        accounts: vec![
            readonly_account(&addresses.global),
            writable_account(fee_recipient),
            readonly_account(mint),
            writable_account(&addresses.bonding_curve),
            writable_account(&addresses.associated_bonding_curve),
            writable_account(&addresses.associated_user),
            payer_account(user),
            fixed_account(constants::accounts::SYSTEM_PROGRAM),
            fixed_account(constants::accounts::TOKEN_PROGRAM),
            fixed_account(constants::accounts::RENT),
            fixed_account(constants::accounts::EVENT_AUTHORITY),
            fixed_account(cpi::ID),
        ],
        data: args.data(),
    }
}

/// The instruction that sells tokens, given the accounts that the trade touches.
pub fn sell_with(
    user: &Pubkey,
    mint: &Pubkey,
    fee_recipient: &Pubkey,
    addresses: &TradeAddresses,
    args: &cpi::instruction::Sell,
) -> (instruction: Instruction)
    ensures
        instruction@ == sell_instruction(
            user@,
            mint@,
            fee_recipient@,
            addresses.global@,
            addresses.bonding_curve@,
            addresses.associated_bonding_curve@,
            addresses.associated_user@,
            args._amount,
            args._min_sol_output,
        ),
{
    Instruction {
        program_id: Pubkey::new(cpi::ID),
        accounts: vec![
            readonly_account(&addresses.global),
            writable_account(fee_recipient),
            readonly_account(mint),
            writable_account(&addresses.bonding_curve),
            writable_account(&addresses.associated_bonding_curve),
            writable_account(&addresses.associated_user),
            payer_account(user),
            fixed_account(constants::accounts::SYSTEM_PROGRAM),
            fixed_account(constants::accounts::ASSOCIATED_TOKEN_PROGRAM),
            fixed_account(constants::accounts::TOKEN_PROGRAM),
            fixed_account(constants::accounts::EVENT_AUTHORITY),
            fixed_account(cpi::ID),
        ],
        data: args.data(),
    }
}

/// The instruction with which `user` creates `mint`, or `None` where one of its accounts has no
/// address or one of its texts is too long.
pub fn create(user: &Pubkey, mint: &Pubkey, args: &cpi::instruction::Create) -> (instruction: Option<
    Instruction,
>)
    ensures
        instruction is Some <==> creation(user@, mint@, args@) is Some,
        instruction matches Some(i) ==> creation(user@, mint@, args@) == Some(i@),
{
    match CreateAddresses::derive(mint) {
        Some(addresses) => create_with(user, mint, &addresses, args),
        None => None,
    }
}

/// The instruction with which `user` buys tokens of `mint`, or `None` where one of its accounts has
/// no address.
pub fn buy(
    user: &Pubkey,
    mint: &Pubkey,
    fee_recipient: &Pubkey,
    args: &cpi::instruction::Buy,
) -> (instruction: Option<Instruction>)
    ensures
        instruction is Some <==> can_trade(user@, mint@),
        instruction matches Some(i) ==> purchase(
            user@,
            mint@,
            fee_recipient@,
            args._amount,
            args._max_sol_cost,
        ) == Some(i@),
{
    match TradeAddresses::derive(user, mint) {
        Some(addresses) => Some(buy_with(user, mint, fee_recipient, &addresses, args)),
        None => None,
    }
}

/// The instruction with which `user` sells tokens of `mint`, or `None` where one of its accounts has
/// no address.
pub fn sell(
    user: &Pubkey,
    mint: &Pubkey,
    fee_recipient: &Pubkey,
    args: &cpi::instruction::Sell,
) -> (instruction: Option<Instruction>)
    ensures
        instruction is Some <==> can_trade(user@, mint@),
        instruction matches Some(i) ==> sale(
            user@,
            mint@,
            fee_recipient@,
            args._amount,
            args._min_sol_output,
        ) == Some(i@),
{
    match TradeAddresses::derive(user, mint) {
        Some(addresses) => Some(sell_with(user, mint, fee_recipient, &addresses, args)),
        None => None,
    }
}

} // verus!
