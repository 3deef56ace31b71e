//! The views that contracts speak of keep everything that the values hold.
use vstd::prelude::*;

use crate::accounts::{BondingCurveAccount, GlobalAccount, GlobalAccountView};
use crate::client::{curve_view, data_view, global_view};
use crate::cpi::instruction::Create;
use crate::error::{ClientError, ClientErrorView, CurveError};
use crate::flow::{
    step_view, text_view, token_view, Action, ActionView, Event, EventView, Flow, FlowView,
    Operation, Stage, StageView,
};
use crate::instruction::{AccountMeta, Instruction};
use crate::pubkey::{Pubkey, Signature};
use crate::request::{optional_view, TransactionRequest};
use crate::utils::{CreateTokenMetadata, TokenMetadata, TokenMetadataView};

verus! {

/// An address is its 32 bytes, in order.
pub proof fn addresses_are_their_bytes(key: Pubkey)
    ensures
        key@ == key.bytes@,
        key@.len() == 32,
{
}

/// An instruction is its program, its accounts in order with their flags, and its data.
pub proof fn instructions_are_what_they_hold(instruction: Instruction)
    ensures
        instruction@.program_id == instruction.program_id.bytes@,
        instruction@.data == instruction.data@,
        instruction@.accounts.len() == instruction.accounts@.len(),
        forall|i: int|
            0 <= i < instruction.accounts@.len() ==> {
                &&& (#[trigger] instruction@.accounts[i]).pubkey
                    == instruction.accounts@[i].pubkey.bytes@
                &&& instruction@.accounts[i].is_signer == instruction.accounts@[i].is_signer
                &&& instruction@.accounts[i].is_writable == instruction.accounts@[i].is_writable
            },
        optional_view(Some(instruction)) == Some(instruction@),
        optional_view(None) is None,
{
}

/// An account of an instruction is its address and its flags.
pub proof fn account_metas_are_what_they_hold(meta: AccountMeta)
    ensures
        meta@.pubkey == meta.pubkey.bytes@,
        meta@.is_signer == meta.is_signer,
        meta@.is_writable == meta.is_writable,
{
}

/// A transaction is its instructions and its signers, as many as there are, in order.
pub proof fn transactions_are_what_they_hold(request: TransactionRequest)
    ensures
        request@.instructions.len() == request.instructions@.len(),
        request@.signers.len() == request.signers@.len(),
        forall|i: int|
            0 <= i < request.instructions@.len() ==> #[trigger] request@.instructions[i]
                == request.instructions@[i]@,
        forall|i: int|
            0 <= i < request.signers@.len() ==> #[trigger] request@.signers[i]
                == request.signers@[i].bytes@,
{
}

/// The arguments of a creation, and what an upload reported, are their texts.
pub proof fn texts_are_what_they_hold(args: Create, token: TokenMetadata)
    ensures
        args@.name == args._name@,
        args@.symbol == args._symbol@,
        args@.uri == args._uri@,
        args@.creator == args._creator.bytes@,
        token@.name == token.name@,
        token@.symbol == token.symbol@,
        token@.image == token.image@,
{
}

/// A global account is its fields.
pub proof fn global_accounts_are_their_fields(account: GlobalAccount)
    ensures
        account@.discriminator == account.discriminator,
        account@.initialized == account.initialized,
        account@.authority == account.authority.bytes@,
        account@.fee_recipient == account.fee_recipient.bytes@,
        account@.initial_virtual_token_reserves == account.initial_virtual_token_reserves,
        account@.initial_virtual_sol_reserves == account.initial_virtual_sol_reserves,
        account@.initial_real_token_reserves == account.initial_real_token_reserves,
        account@.token_total_supply == account.token_total_supply,
        account@.fee_basis_points == account.fee_basis_points,
{
}

/// An error keeps its kind and what it carries.
pub proof fn errors_keep_what_they_carry<E>(error: E, curve: CurveError, text: String)
    ensures
        ClientError::<E>::BondingCurveNotFound@ == ClientErrorView::<E>::BondingCurveNotFound,
        ClientError::<E>::BondingCurveError(curve)@ == ClientErrorView::<E>::BondingCurveError(
            curve,
        ),
        ClientError::<E>::BorshError(text)@ == ClientErrorView::<E>::BorshError(text@),
        ClientError::<E>::InvalidBalance(text)@ == ClientErrorView::<E>::InvalidBalance(text@),
        ClientError::SolanaClientError(error)@ == ClientErrorView::SolanaClientError(error),
        ClientError::UploadMetadataError(error)@ == ClientErrorView::UploadMetadataError(error),
        ClientError::AnchorClientError(error)@ == ClientErrorView::AnchorClientError(error),
{
}

/// A reply keeps what was read, or why it was not.
pub proof fn replies_keep_what_was_read<E>(
    data: Vec<u8>,
    text: String,
    token: TokenMetadata,
    global: GlobalAccount,
    curve: BondingCurveAccount,
    failure: ClientError<E>,
    error: E,
)
    ensures
        data_view::<E>(Ok(data)) == Ok::<Seq<u8>, E>(data@),
        data_view::<E>(Err(error)) == Err::<Seq<u8>, E>(error),
        text_view::<E>(Ok(text)) == Ok::<Seq<char>, E>(text@),
        text_view::<E>(Err(error)) == Err::<Seq<char>, E>(error),
        token_view::<E>(Ok(token)) == Ok::<TokenMetadataView, E>(token@),
        token_view::<E>(Err(error)) == Err::<TokenMetadataView, E>(error),
        global_view::<E>(Ok(global)) == Ok::<GlobalAccountView, ClientErrorView<E>>(global@),
        global_view(Err(failure)) == Err::<GlobalAccountView, ClientErrorView<E>>(failure@),
        curve_view::<E>(Ok(curve)) == Ok::<BondingCurveAccount, ClientErrorView<E>>(curve),
        curve_view(Err(failure)) == Err::<BondingCurveAccount, ClientErrorView<E>>(failure@),
{
}

/// An event keeps what it reports.
pub proof fn events_keep_what_they_report<E>(
    token: TokenMetadata,
    data: Vec<u8>,
    text: String,
    sent: Result<Signature, E>,
    error: E,
)
    ensures
        Event::<E>::Uploaded(Ok(token))@ == EventView::<E>::Uploaded(Ok(token@)),
        Event::Uploaded(Err(error))@ == EventView::Uploaded(Err(error)),
        Event::<E>::Account(Ok(data))@ == EventView::<E>::Account(Ok(data@)),
        Event::Account(Err(error))@ == EventView::Account(Err(error)),
        Event::<E>::Balance(Ok(text))@ == EventView::<E>::Balance(Ok(text@)),
        Event::Balance(Err(error))@ == EventView::Balance(Err(error)),
        Event::Sent(sent)@ == EventView::Sent(sent),
{
}

/// An action keeps what it asks for.
pub proof fn actions_keep_what_they_ask_for<E>(
    metadata: CreateTokenMetadata,
    address: Pubkey,
    request: TransactionRequest,
    signature: Signature,
    error: ClientError<E>,
    flow: Flow,
    action: Action<E>,
)
    ensures
        Action::<E>::UploadMetadata(metadata)@ == ActionView::<E>::UploadMetadata(metadata),
        Action::<E>::FetchAccount(address)@ == ActionView::<E>::FetchAccount(address.bytes@),
        Action::<E>::FetchTokenBalance(address)@ == ActionView::<E>::FetchTokenBalance(
            address.bytes@,
        ),
        Action::<E>::Send(request)@ == ActionView::<E>::Send(request@),
        Action::<E>::Finish(Ok(signature))@ == ActionView::<E>::Finish(Ok(signature)),
        Action::<E>::Finish(Err(error))@ == ActionView::<E>::Finish(Err(error@)),
        step_view(Some((flow, action))) == Some((flow@, action@)),
        step_view::<E>(None) is None,
{
}

/// An operation keeps what it is about, and a stage what was learned so far.
pub proof fn flows_keep_what_they_know(
    flow: Flow,
    operation: Operation,
    token: TokenMetadata,
    recipient: Pubkey,
    amount: u64,
    number: u64,
    other: u64,
    given: Option<u64>,
)
    ensures
        flow@ == (FlowView { operation: flow.operation@, stage: flow.stage@ }),
        operation@.payer == operation.payer.bytes@,
        operation@.mint == operation.mint.bytes@,
        operation@.fee == operation.fee,
        Stage::CreateUpload@ == StageView::CreateUpload,
        (Stage::LaunchUpload { amount_sol: amount, slippage: number })@ == (
        StageView::LaunchUpload { amount_sol: amount, slippage: number }),
        (Stage::LaunchGlobal { amount_sol: amount, slippage: number, token })@ == (
        StageView::LaunchGlobal { amount_sol: amount, slippage: number, token: token@ }),
        (Stage::LaunchAccount { token, fee_recipient: recipient, amount, max_sol_cost: number })@
            == (StageView::LaunchAccount {
            token: token@,
            fee_recipient: recipient.bytes@,
            amount,
            max_sol_cost: number,
        }),
        (Stage::BuyGlobal { amount_sol: amount, slippage: number })@ == (StageView::BuyGlobal {
            amount_sol: amount,
            slippage: number,
        }),
        (Stage::BuyCurve { amount_sol: amount, slippage: number, fee_recipient: recipient })@ == (
        StageView::BuyCurve {
            amount_sol: amount,
            slippage: number,
            fee_recipient: recipient.bytes@,
        }),
        (Stage::BuyAccount { fee_recipient: recipient, amount, max_sol_cost: number })@ == (
        StageView::BuyAccount { fee_recipient: recipient.bytes@, amount, max_sol_cost: number }),
        (Stage::SellBalance { amount_token: given, slippage: number })@ == (
        StageView::SellBalance { amount_token: given, slippage: number }),
        (Stage::SellGlobal { amount, slippage: number })@ == (StageView::SellGlobal {
            amount,
            slippage: number,
        }),
        (Stage::SellCurve {
            amount,
            slippage: number,
            fee_recipient: recipient,
            fee_basis_points: other,
        })@ == (StageView::SellCurve {
            amount,
            slippage: number,
            fee_recipient: recipient.bytes@,
            fee_basis_points: other,
        }),
        Stage::Sending@ == StageView::Sending,
        Stage::Finished@ == StageView::Finished,
{
}

} // verus!
