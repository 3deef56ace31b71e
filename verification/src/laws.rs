//! What holds of the operations as a whole.
pub mod addresses;
pub mod amounts;
pub mod decoding;
pub mod instructions;
pub mod operations;
pub mod transactions;
pub mod views;

use vstd::arithmetic::div_mod::{
    lemma_div_by_multiple, lemma_div_is_ordered, lemma_div_is_ordered_by_denominator,
    lemma_fundamental_div_mod,
};
use vstd::bytes::{
    lemma_auto_spec_u64_to_from_le_bytes, spec_u64_from_le_bytes, spec_u64_to_le_bytes,
};
use vstd::prelude::*;
use vstd::utf8::encode_utf8;

use crate::accounts::{bonding_curve_account, global_account, sol_for, tokens_for};
use crate::address::{bonding_curve_address, global_address, token_account_address};
use crate::client::{read_curve, read_global};
use crate::cpi::instruction::two_numbers;
use crate::error::ClientErrorView;
use crate::flow::{
    create_args, missing_account, start_buy, start_create, start_create_and_buy, start_sell, step,
    ActionView, EventView, FlowView, OperationView, StageView,
};
use crate::instruction::{creation, purchase, sale, writable_meta, InstructionView};
use crate::pubkey::Signature;
use crate::request::{
    buy_transaction, create_and_buy_transaction, create_transaction, fee_instructions,
    sell_transaction, TransactionRequestView,
};
use crate::utils::{
    amount_of, lowered, portion, raised, CreateTokenMetadata, TokenMetadataView, BASIS_POINTS,
};

verus! {

/// The first transaction that an operation sends, or how it ends without one, when events reach it
/// one after the other; `None` where it does neither.
pub open spec fn run<E>(flow: FlowView, events: Seq<EventView<E>>) -> Option<ActionView<E>>
    decreases events.len(),
{
    if events.len() == 0 {
        None
    } else {
        match step(flow, events[0]) {
            Some((next, action)) => if action is Send || action is Finish {
                Some(action)
            } else {
                run(next, events.drop_first())
            },
            None => None,
        }
    }
}

/// What comes of an operation: a transaction to send, or an error.
pub open spec fn concluded<E>(
    outcome: Option<Result<TransactionRequestView, ClientErrorView<E>>>,
) -> Option<ActionView<E>> {
    match outcome {
        Some(Ok(request)) => Some(ActionView::Send(request)),
        Some(Err(error)) => Some(ActionView::Finish(Err(error))),
        None => None,
    }
}

/// What comes of the creation of a token.
pub open spec fn create_outcome<E>(
    op: OperationView,
    upload: Result<TokenMetadataView, E>,
) -> Option<Result<TransactionRequestView, ClientErrorView<E>>> {
    match upload {
        Err(error) => Some(Err(ClientErrorView::UploadMetadataError(error))),
        Ok(token) => match creation(op.payer, op.mint, create_args(op.payer, token)) {
            Some(create) => Some(Ok(create_transaction(op.payer, op.mint, op.fee, create))),
            None => None,
        },
    }
}

/// The creation of a token runs as one upload, and then sends the transaction that creates the token,
/// or reports that the upload failed.
pub proof fn create_runs<E>(
    op: OperationView,
    metadata: CreateTokenMetadata,
    upload: Result<TokenMetadataView, E>,
)
    ensures
        run(start_create::<E>(op, metadata).0, seq![EventView::Uploaded(upload)]) == concluded(
            create_outcome(op, upload),
        ),
{
    reveal_with_fuel(run, 2);
}

/// What comes of the creation of a token with a first purchase.
pub open spec fn create_and_buy_outcome<E>(
    op: OperationView,
    amount_sol: u64,
    slippage: u64,
    upload: Result<TokenMetadataView, E>,
    global: Result<Seq<u8>, E>,
    account_found: bool,
) -> Option<Result<TransactionRequestView, ClientErrorView<E>>> {
    match upload {
        Err(error) => Some(Err(ClientErrorView::UploadMetadataError(error))),
        Ok(token) => if global_address() is None {
            None
        } else {
            match read_global(global) {
                Err(error) => Some(Err(error)),
                Ok(account) => match (
                    creation(op.payer, op.mint, create_args(op.payer, token)),
                    purchase(
                        op.payer,
                        op.mint,
                        account.fee_recipient,
                        account.initial_buy_price(amount_sol) as u64,
                        raised(amount_sol as nat, slippage as nat) as u64,
                    ),
                ) {
                    (Some(create), Some(buy)) => Some(
                        Ok(
                            create_and_buy_transaction(
                                op.payer,
                                op.mint,
                                op.fee,
                                create,
                                missing_account(op.payer, op.mint, account_found),
                                buy,
                            ),
                        ),
                    ),
                    _ => None,
                },
            }
        },
    }
}

/// The creation of a token with a first purchase runs as one upload, one read of the global account
/// and one look at the payer's token account, and then sends both in a single transaction: the tokens
/// that the configured reserves give for the lamports to spend, at no more than these lamports and
/// the slippage. A failure of the upload or of the read ends it without a transaction; a token account
/// that is not found is created first.
pub proof fn create_and_buy_runs<E>(
    op: OperationView,
    metadata: CreateTokenMetadata,
    amount_sol: u64,
    slippage: u64,
    upload: Result<TokenMetadataView, E>,
    global: Result<Seq<u8>, E>,
    account: Result<Seq<u8>, E>,
)
    ensures
        run(
            start_create_and_buy::<E>(op, metadata, amount_sol, Some(slippage)).0,
            seq![
                EventView::Uploaded(upload),
                EventView::Account(global),
                EventView::Account(account),
            ],
        ) == concluded(
            create_and_buy_outcome(op, amount_sol, slippage, upload, global, account is Ok),
        ),
{
    reveal_with_fuel(run, 4);
    let events = seq![
        EventView::Uploaded(upload),
        EventView::Account(global),
        EventView::Account(account),
    ];
    assert(events.drop_first()[0] == events[1]);
    assert(events.drop_first().drop_first()[0] == events[2]);
}

/// What comes of a purchase.
pub open spec fn buy_outcome<E>(
    op: OperationView,
    amount_sol: u64,
    slippage: u64,
    global: Result<Seq<u8>, E>,
    curve: Result<Seq<u8>, E>,
    account_found: bool,
) -> Option<Result<TransactionRequestView, ClientErrorView<E>>> {
    match read_global(global) {
        Err(error) => Some(Err(error)),
        Ok(account) => if bonding_curve_address(op.mint) is None {
            Some(Err(ClientErrorView::BondingCurveNotFound))
        } else {
            match read_curve(curve) {
                Err(error) => Some(Err(error)),
                Ok(curve) => match curve.buy_quote(amount_sol) {
                    Err(error) => Some(Err(ClientErrorView::BondingCurveError(error))),
                    Ok(tokens) => match purchase(
                        op.payer,
                        op.mint,
                        account.fee_recipient,
                        tokens as u64,
                        raised(amount_sol as nat, slippage as nat) as u64,
                    ) {
                        Some(buy) => Some(
                            Ok(
                                buy_transaction(
                                    op.payer,
                                    op.fee,
                                    missing_account(op.payer, op.mint, account_found),
                                    buy,
                                ),
                            ),
                        ),
                        None => None,
                    },
                },
            }
        },
    }
}

/// A purchase runs as one read of the global account, one of the bonding curve account and one look at
/// the payer's token account, and then sends the transaction that buys the quoted tokens at no more
/// than the lamports to spend and the slippage. The first failure ends it without a transaction; a
/// token account that is not found is created first.
pub proof fn buy_runs<E>(
    op: OperationView,
    amount_sol: u64,
    slippage: u64,
    global: Result<Seq<u8>, E>,
    curve: Result<Seq<u8>, E>,
    account: Result<Seq<u8>, E>,
)
    requires
        start_buy::<E>(op, amount_sol, Some(slippage)) is Some,
    ensures
        run(
            (start_buy::<E>(op, amount_sol, Some(slippage))->0).0,
            seq![
                EventView::Account(global),
                EventView::Account(curve),
                EventView::Account(account),
            ],
        ) == concluded(buy_outcome(op, amount_sol, slippage, global, curve, account is Ok)),
{
    reveal_with_fuel(run, 4);
    let events = seq![
        EventView::Account(global),
        EventView::Account(curve),
        EventView::Account(account),
    ];
    assert(events.drop_first()[0] == events[1]);
    assert(events.drop_first().drop_first()[0] == events[2]);
}

/// What comes of a sale.
pub open spec fn sell_outcome<E>(
    op: OperationView,
    amount_token: Option<u64>,
    slippage: u64,
    balance: Result<Seq<char>, E>,
    global: Result<Seq<u8>, E>,
    curve: Result<Seq<u8>, E>,
) -> Option<Result<TransactionRequestView, ClientErrorView<E>>> {
    match balance {
        Err(error) => Some(Err(ClientErrorView::SolanaClientError(error))),
        Ok(text) => if amount_of(encode_utf8(text)) is None {
            Some(Err(ClientErrorView::InvalidBalance(text)))
        } else if global_address() is None {
            None
        } else {
            let amount = match amount_token {
                Some(amount) => amount,
                None => amount_of(encode_utf8(text))->0,
            };
            match read_global(global) {
                Err(error) => Some(Err(error)),
                Ok(account) => if bonding_curve_address(op.mint) is None {
                    Some(Err(ClientErrorView::BondingCurveNotFound))
                } else {
                    match read_curve(curve) {
                        Err(error) => Some(Err(error)),
                        Ok(curve) => match curve.sell_quote(amount, account.fee_basis_points) {
                            Err(error) => Some(Err(ClientErrorView::BondingCurveError(error))),
                            Ok(lamports) => match sale(
                                op.payer,
                                op.mint,
                                account.fee_recipient,
                                amount,
                                lowered(lamports, slippage as nat) as u64,
                            ) {
                                Some(sell) => Some(
                                    Ok(sell_transaction(op.payer, op.fee, sell)),
                                ),
                                None => None,
                            },
                        },
                    }
                },
            }
        },
    }
}

/// A sale runs as one read of the balance, one of the global account and one of the bonding curve
/// account, and then sends the transaction that sells the amount, or the balance where no amount is
/// given, for no less than the quote without the slippage. The first failure, a balance that is no
/// amount among them, ends it without a transaction.
pub proof fn sell_runs<E>(
    op: OperationView,
    amount_token: Option<u64>,
    slippage: u64,
    balance: Result<Seq<char>, E>,
    global: Result<Seq<u8>, E>,
    curve: Result<Seq<u8>, E>,
)
    requires
        start_sell::<E>(op, amount_token, Some(slippage)) is Some,
    ensures
        run(
            (start_sell::<E>(op, amount_token, Some(slippage))->0).0,
            seq![
                EventView::Balance(balance),
                EventView::Account(global),
                EventView::Account(curve),
            ],
        ) == concluded(sell_outcome(op, amount_token, slippage, balance, global, curve)),
{
    reveal_with_fuel(run, 4);
    let events = seq![
        EventView::Balance(balance),
        EventView::Account(global),
        EventView::Account(curve),
    ];
    assert(events.drop_first()[0] == events[1]);
    assert(events.drop_first().drop_first()[0] == events[2]);
}

/// An operation with no slippage given is the operation with a slippage of 500 basis points.
pub proof fn slippage_defaults_to_500<E>(
    op: OperationView,
    metadata: CreateTokenMetadata,
    amount_sol: u64,
    amount_token: Option<u64>,
)
    ensures
        start_create_and_buy::<E>(op, metadata, amount_sol, None) == start_create_and_buy::<E>(
            op,
            metadata,
            amount_sol,
            Some(500),
        ),
        start_buy::<E>(op, amount_sol, None) == start_buy::<E>(op, amount_sol, Some(500)),
        start_sell::<E>(op, amount_token, None) == start_sell::<E>(op, amount_token, Some(500)),
{
}

/// A sale with no amount given goes on as the sale of the entire balance.
pub proof fn sale_without_amount_sells_the_balance<E>(
    op: OperationView,
    slippage: Option<u64>,
    balance: Seq<char>,
)
    requires
        start_sell::<E>(op, None, slippage) is Some,
        amount_of(encode_utf8(balance)) is Some,
    ensures
        start_sell::<E>(op, amount_of(encode_utf8(balance)), slippage) is Some,
        step(
            (start_sell::<E>(op, None, slippage)->0).0,
            EventView::<E>::Balance(Ok(balance)),
        ) == step(
            (start_sell::<E>(op, amount_of(encode_utf8(balance)), slippage)->0).0,
            EventView::<E>::Balance(Ok(balance)),
        ),
{
}

/// Who pays, for which token, and at which priority, never changes.
pub proof fn operation_is_kept<E>(flow: FlowView, event: EventView<E>)
    requires
        step(flow, event) is Some,
    ensures
        (step(flow, event)->0).0.operation == flow.operation,
{
}

/// The events that an operation can still take.
pub open spec fn events_left(stage: StageView) -> nat {
    match stage {
        StageView::CreateUpload => 2,
        StageView::LaunchUpload { .. } => 4,
        StageView::LaunchGlobal { .. } => 3,
        StageView::LaunchAccount { .. } => 2,
        StageView::BuyGlobal { .. } => 4,
        StageView::BuyCurve { .. } => 3,
        StageView::BuyAccount { .. } => 2,
        StageView::SellBalance { .. } => 4,
        StageView::SellGlobal { .. } => 3,
        StageView::SellCurve { .. } => 2,
        StageView::Sending => 1,
        StageView::Finished => 0,
    }
}

/// Every event brings an operation closer to its end, which it reaches after four events at most.
pub proof fn operations_end<E>(flow: FlowView, event: EventView<E>)
    requires
        step(flow, event) is Some,
    ensures
        events_left((step(flow, event)->0).0.stage) < events_left(flow.stage) <= 4,
{
}

/// Once an operation has sent its transaction it only reports how that went, and once it has ended it
/// takes no further event. Only the reply to the transaction can end an operation with a signature.
pub proof fn sending_and_ending<E>(flow: FlowView, event: EventView<E>)
    ensures
        flow.stage is Finished ==> step(flow, event) is None,
        step(flow, event) matches Some(next) ==> (next.1 is Send <==> next.0.stage is Sending),
        step(flow, event) matches Some(next) ==> (next.1 is Finish <==> next.0.stage is Finished),
        step(flow, event) matches Some(next) ==> flow.stage is Sending ==> next.1 is Finish,
        step(flow, event) matches Some((_, ActionView::Finish(Ok(signature)))) ==> flow.stage
            is Sending && event == EventView::<E>::Sent(Ok(signature)),
{
}

/// How many transactions an operation sends when events reach it one after the other.
pub open spec fn transactions_sent<E>(flow: FlowView, events: Seq<EventView<E>>) -> nat
    decreases events.len(),
{
    if events.len() == 0 {
        0
    } else {
        match step(flow, events[0]) {
            Some((next, action)) => {
                let here: nat = if action is Send {
                    1
                } else {
                    0
                };
                here + transactions_sent(next, events.drop_first())
            },
            None => 0,
        }
    }
}

/// An operation that has sent its transaction, or has ended, sends nothing.
proof fn lemma_nothing_more_is_sent<E>(flow: FlowView, events: Seq<EventView<E>>)
    requires
        flow.stage is Sending || flow.stage is Finished,
    ensures
        transactions_sent(flow, events) == 0,
    decreases events.len(),
{
    if events.len() > 0 {
        sending_and_ending(flow, events[0]);
        if let Some((next, _)) = step(flow, events[0]) {
            lemma_nothing_more_is_sent(next, events.drop_first());
        }
    }
}

/// Whatever reaches an operation, it sends at most one transaction.
pub proof fn at_most_one_transaction<E>(flow: FlowView, events: Seq<EventView<E>>)
    ensures
        transactions_sent(flow, events) <= 1,
    decreases events.len(),
{
    if events.len() > 0 {
        sending_and_ending(flow, events[0]);
        if let Some((next, action)) = step(flow, events[0]) {
            if action is Send {
                lemma_nothing_more_is_sent(next, events.drop_first());
            } else {
                at_most_one_transaction(next, events.drop_first());
            }
        }
    }
}

/// A transaction that is accepted ends the operation with its signature.
pub proof fn accepted_transactions_return_their_signature<E>(flow: FlowView, signature: Signature)
    requires
        flow.stage is Sending,
    ensures
        step(flow, EventView::<E>::Sent(Ok(signature))) == Some(
            (flow.operation.at(StageView::Finished), ActionView::<E>::Finish(Ok(signature))),
        ),
{
}

/// The account that an operation looks for before a purchase is the one that the transaction creates
/// where it is missing, and the one that receives the tokens.
pub proof fn purchase_fills_the_account_looked_for(
    op: OperationView,
    fee_recipient: Seq<u8>,
    amount: u64,
    max_sol_cost: u64,
)
    requires
        purchase(op.payer, op.mint, fee_recipient, amount, max_sol_cost) is Some,
    ensures
        token_account_address(op.payer, op.mint) is Some,
        (missing_account(op.payer, op.mint, false)->0).accounts[1] == writable_meta(
            token_account_address(op.payer, op.mint)->0,
        ),
        (purchase(op.payer, op.mint, fee_recipient, amount, max_sol_cost)->0).accounts[5]
            == writable_meta(token_account_address(op.payer, op.mint)->0),
{
}

/// Whether an operation only looks whether the payer's token account exists.
pub open spec fn looks_for_account(stage: StageView) -> bool {
    stage is LaunchAccount || stage is BuyAccount
}

/// The failure that an event reports, if it reports one.
pub open spec fn failure<E>(event: EventView<E>) -> Option<E> {
    match event {
        EventView::Uploaded(Err(error)) => Some(error),
        EventView::Account(Err(error)) => Some(error),
        EventView::Balance(Err(error)) => Some(error),
        EventView::Sent(Err(error)) => Some(error),
        _ => None,
    }
}

/// The error with which an operation reports the failure of an event.
pub open spec fn reported<E>(event: EventView<E>, error: E) -> ClientErrorView<E> {
    match event {
        EventView::Uploaded(_) => ClientErrorView::UploadMetadataError(error),
        EventView::Sent(_) => ClientErrorView::AnchorClientError(error),
        _ => ClientErrorView::SolanaClientError(error),
    }
}

/// A failed upload, read or transaction ends the operation with that failure. The one exception is the
/// look for the payer's token account, whose failure never ends an operation.
pub proof fn failures_end_the_operation<E>(flow: FlowView, event: EventView<E>, error: E)
    requires
        step(flow, event) is Some,
        failure(event) == Some(error),
    ensures
        looks_for_account(flow.stage) ==> (step(flow, event)->0).1 is Send,
        !looks_for_account(flow.stage) ==> (step(flow, event)->0).1 == ActionView::Finish(
            Err(reported(event, error)),
        ),
{
}

/// A balance that is no amount ends a sale with the text that was reported for it, whether or not an
/// amount to sell was given.
pub proof fn sale_needs_a_readable_balance<E>(
    op: OperationView,
    amount_token: Option<u64>,
    slippage: Option<u64>,
    balance: Seq<char>,
)
    requires
        start_sell::<E>(op, amount_token, slippage) is Some,
        amount_of(encode_utf8(balance)) is None,
    ensures
        step(
            (start_sell::<E>(op, amount_token, slippage)->0).0,
            EventView::<E>::Balance(Ok(balance)),
        ) == op.finish::<E>(Err(ClientErrorView::InvalidBalance(balance))),
{
}

/// What is wrong with the bytes of the account that an operation waits for, if anything is.
pub open spec fn undecodable(stage: StageView, data: Seq<u8>) -> Option<Seq<char>> {
    match stage {
        StageView::LaunchGlobal { .. } | StageView::BuyGlobal { .. }
        | StageView::SellGlobal { .. } => global_account(data).err(),
        StageView::BuyCurve { .. } | StageView::SellCurve { .. } => bonding_curve_account(
            data,
        ).err(),
        _ => None,
    }
}

/// An account that does not decode ends the operation with what the decoder says of it.
pub proof fn undecodable_accounts_end_the_operation<E>(flow: FlowView, data: Seq<u8>)
    requires
        undecodable(flow.stage, data) is Some,
    ensures
        step(flow, EventView::<E>::Account(Ok(data))) == flow.operation.finish::<E>(
            Err(ClientErrorView::BorshError(undecodable(flow.stage, data)->0)),
        ),
{
}

/// Whether everyone that an instruction wants a signature of signs the transaction.
pub open spec fn signed(request: TransactionRequestView) -> bool {
    forall|i: int, k: int|
        #![trigger request.instructions[i].accounts[k]]
        0 <= i < request.instructions.len() && 0 <= k < request.instructions[i].accounts.len()
            && request.instructions[i].accounts[k].is_signer ==> request.signers.contains(
            request.instructions[i].accounts[k].pubkey,
        )
}

/// Whether everyone that an instruction wants a signature of is among `signers`.
pub open spec fn instruction_signed(instruction: InstructionView, signers: Seq<Seq<u8>>) -> bool {
    forall|k: int|
        0 <= k < instruction.accounts.len() && (#[trigger] instruction.accounts[k]).is_signer
            ==> signers.contains(instruction.accounts[k].pubkey)
}

/// A transaction of which each instruction is signed is signed.
proof fn lemma_signed(request: TransactionRequestView)
    requires
        forall|i: int|
            0 <= i < request.instructions.len() ==> instruction_signed(
                #[trigger] request.instructions[i],
                request.signers,
            ),
    ensures
        signed(request),
{
}

/// Every transaction that an operation sends starts with the instructions of its priority fee, is
/// signed by the payer first, and is signed by everyone that one of its instructions wants a signature
/// of.
pub proof fn transactions_are_signed<E>(flow: FlowView, event: EventView<E>)
    requires
        step(flow, event) is Some,
        (step(flow, event)->0).1 is Send,
    ensures
        signed((step(flow, event)->0).1->Send_0),
        (step(flow, event)->0).1->Send_0.signers.len() > 0,
        (step(flow, event)->0).1->Send_0.signers[0] == flow.operation.payer,
        fee_instructions(flow.operation.fee).is_prefix_of(
            (step(flow, event)->0).1->Send_0.instructions,
        ),
{
    let request = (step(flow, event)->0).1->Send_0;
    let op = flow.operation;
    let signers = request.signers;
    assert(signers[0] == op.payer && signers.contains(op.payer));
    if flow.stage is CreateUpload || flow.stage is LaunchAccount {
        assert(signers[1] == op.mint && signers.contains(op.mint));
    }
    assert forall|i: int| 0 <= i < request.instructions.len() implies instruction_signed(
        #[trigger] request.instructions[i],
        signers,
    ) by {}
    lemma_signed(request);
}

/// More basis points are a larger part of the same amount.
proof fn lemma_portion_is_ordered(amount: nat, basis_points: nat, more: nat)
    requires
        basis_points <= more,
    ensures
        portion(amount, basis_points) <= portion(amount, more),
{
    assert(amount * basis_points <= amount * more) by (nonlinear_arith)
        requires
            basis_points <= more,
    ;
    lemma_div_is_ordered(
        (amount * basis_points) as int,
        (amount * more) as int,
        BASIS_POINTS as int,
    );
}

/// Slippage never lowers what a purchase may cost and never raises what a sale must bring; without
/// slippage both stay as they are, and more slippage is never stricter. With a slippage of one hundred
/// percent a sale need bring nothing.
pub proof fn slippage_only_loosens(amount: u64, basis_points: nat, more: nat)
    requires
        basis_points <= more,
    ensures
        raised(amount as nat, basis_points) >= amount,
        lowered(amount as nat, basis_points) <= amount,
        raised(amount as nat, 0) == amount,
        lowered(amount as nat, 0) == amount,
        raised(amount as nat, basis_points) <= raised(amount as nat, more),
        lowered(amount as nat, more) <= lowered(amount as nat, basis_points),
        basis_points >= BASIS_POINTS ==> lowered(amount as nat, basis_points) == 0,
{
    lemma_portion_is_ordered(amount as nat, basis_points, more);
    assert(amount * 0 == 0);
    if basis_points >= BASIS_POINTS {
        lemma_portion_is_ordered(amount as nat, BASIS_POINTS as nat, basis_points);
        assert(amount * BASIS_POINTS / BASIS_POINTS as int == amount);
    }
}

/// A purchase takes no more tokens than are for sale, and never lowers the product of the virtual
/// reserves.
pub proof fn purchase_keeps_the_product(
    virtual_sol: nat,
    virtual_tokens: nat,
    real_tokens: nat,
    sol: nat,
)
    ensures
        tokens_for(virtual_sol, virtual_tokens, real_tokens, sol) <= real_tokens,
        tokens_for(virtual_sol, virtual_tokens, real_tokens, sol) <= virtual_tokens,
        (virtual_tokens - tokens_for(virtual_sol, virtual_tokens, real_tokens, sol)) * (virtual_sol
            + sol) >= virtual_sol * virtual_tokens,
{
    let tokens = tokens_for(virtual_sol, virtual_tokens, real_tokens, sol);
    let product = virtual_sol * virtual_tokens;
    let reserves = virtual_sol + sol;
    if tokens == 0 {
        assert(virtual_tokens * reserves >= product) by (nonlinear_arith)
            requires
                reserves == virtual_sol + sol,
                product == virtual_sol * virtual_tokens,
        ;
    } else {
        let quotient = product / reserves;
        let rest = product % reserves;
        let kept = quotient + 1;
        lemma_fundamental_div_mod(product as int, reserves as int);
        assert(kept * reserves >= product) by (nonlinear_arith)
            requires
                kept == quotient + 1,
                product == reserves * quotient + rest,
                rest < reserves,
        ;
        assert((virtual_tokens - tokens) * reserves >= kept * reserves) by (nonlinear_arith)
            requires
                virtual_tokens - tokens >= kept,
                reserves >= 0,
        ;
    }
}

/// Spending more never buys fewer tokens.
pub proof fn purchase_is_ordered(
    virtual_sol: nat,
    virtual_tokens: nat,
    real_tokens: nat,
    sol: nat,
    more: nat,
)
    requires
        sol <= more,
    ensures
        tokens_for(virtual_sol, virtual_tokens, real_tokens, sol) <= tokens_for(
            virtual_sol,
            virtual_tokens,
            real_tokens,
            more,
        ),
{
    if sol > 0 {
        lemma_div_is_ordered_by_denominator(
            (virtual_sol * virtual_tokens) as int,
            (virtual_sol + sol) as int,
            (virtual_sol + more) as int,
        );
    }
}

/// A sale pays no more lamports than the virtual reserves hold, and never lowers the product of the
/// virtual reserves.
pub proof fn sale_keeps_the_product(virtual_sol: nat, virtual_tokens: nat, tokens: nat)
    ensures
        sol_for(virtual_sol, virtual_tokens, tokens) <= virtual_sol,
        (virtual_sol - sol_for(virtual_sol, virtual_tokens, tokens)) * (virtual_tokens + tokens)
            >= virtual_sol * virtual_tokens,
{
    let paid = sol_for(virtual_sol, virtual_tokens, tokens);
    let reserves = virtual_tokens + tokens;
    if tokens > 0 {
        lemma_fundamental_div_mod((tokens * virtual_sol) as int, reserves as int);
        assert(paid * reserves <= tokens * virtual_sol) by (nonlinear_arith)
            requires
                paid == tokens * virtual_sol / reserves,
                tokens * virtual_sol == reserves * (tokens * virtual_sol / reserves) + (tokens
                    * virtual_sol) % reserves,
                (tokens * virtual_sol) % reserves >= 0,
        ;
        assert(paid <= virtual_sol) by (nonlinear_arith)
            requires
                paid * reserves <= tokens * virtual_sol,
                reserves == virtual_tokens + tokens,
                tokens > 0,
        ;
        assert((virtual_sol - paid) * reserves >= virtual_sol * virtual_tokens) by (nonlinear_arith)
            requires
                paid * reserves <= tokens * virtual_sol,
                reserves == virtual_tokens + tokens,
        ;
    }
}

/// Selling back what was just bought pays no more than was spent.
pub proof fn round_trip_never_profits(
    virtual_sol: nat,
    virtual_tokens: nat,
    real_tokens: nat,
    sol: nat,
)
    ensures
        sol_for(
            virtual_sol + sol,
            (virtual_tokens - tokens_for(virtual_sol, virtual_tokens, real_tokens, sol)) as nat,
            tokens_for(virtual_sol, virtual_tokens, real_tokens, sol),
        ) <= sol,
{
    let tokens = tokens_for(virtual_sol, virtual_tokens, real_tokens, sol);
    purchase_keeps_the_product(virtual_sol, virtual_tokens, real_tokens, sol);
    if tokens > 0 {
        let worth = tokens * (virtual_sol + sol);
        assert(worth <= sol * virtual_tokens) by (nonlinear_arith)
            requires
                worth == tokens * (virtual_sol + sol),
                (virtual_tokens - tokens) * (virtual_sol + sol) >= virtual_sol * virtual_tokens,
        ;
        lemma_div_is_ordered(worth as int, (sol * virtual_tokens) as int, virtual_tokens as int);
        lemma_div_by_multiple(sol as int, virtual_tokens as int);
    }
}

/// The bytes of a trade's arguments determine the arguments.
pub proof fn arguments_are_recoverable(
    tag: Seq<u8>,
    first: u64,
    second: u64,
    other_first: u64,
    other_second: u64,
)
    requires
        two_numbers(tag, first, second) == two_numbers(tag, other_first, other_second),
    ensures
        first == other_first,
        second == other_second,
{
    lemma_auto_spec_u64_to_from_le_bytes();
    let data = two_numbers(tag, first, second);
    let n = tag.len() as int;
    assert(spec_u64_to_le_bytes(first) =~= data.subrange(n, n + 8));
    assert(spec_u64_to_le_bytes(second) =~= data.subrange(n + 8, n + 16));
    let other = two_numbers(tag, other_first, other_second);
    assert(spec_u64_to_le_bytes(other_first) =~= other.subrange(n, n + 8));
    assert(spec_u64_to_le_bytes(other_second) =~= other.subrange(n + 8, n + 16));
    assert(spec_u64_from_le_bytes(spec_u64_to_le_bytes(first)) == first);
    assert(spec_u64_from_le_bytes(spec_u64_to_le_bytes(second)) == second);
}

} // verus!
