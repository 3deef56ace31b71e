//! What each operation asks for, step by step, and what it sends in the end.
use vstd::prelude::*;
use vstd::utf8::encode_utf8;

use crate::accounts::{bonding_curve_account, global_account, sol_for};
use crate::client::{PriorityFee, PumpFun};
use crate::constants::accounts::TOKEN_PROGRAM;
use crate::error::{ClientErrorView, CurveError};
use crate::flow::{
    create_args, missing_account, start_buy, start_create, start_create_and_buy, start_sell, step,
    ActionView, EventView, FlowView, OperationView, StageView,
};
use crate::instruction::{creation, purchase, sale};
use crate::laws::addresses::{
    bonding_curve_comes_from_the_mint, fixed_addresses_come_from_one_word,
    token_accounts_come_from_owner_and_mint,
};
use crate::laws::amounts::{
    buys, curves_quote_from_their_reserves, first_purchase_is_quoted_from_the_configuration,
    may_cost, must_bring, pays, slippage_counts_in_full,
};
use crate::laws::decoding::fields_stand_in_order;
use crate::laws::instructions::{
    buys_tokens, creatable, creates_token, found_curve, found_global, found_tokens,
    instructions_do_what_they_are_for, missing_accounts_are_opened, number_at, opens_account,
    sells_tokens, tokens_are_created_as_uploaded, tradable,
};
use crate::laws::run;
use crate::laws::transactions::{creations_are_complete, holds, trades_are_complete};
use crate::pubkey::Signature;
use crate::request::TransactionRequestView;
use crate::utils::{amount_of, lowered, CreateTokenMetadata, TokenMetadataView};

verus! {

/// The slippage that counts: the given one, and else 500 basis points.
pub open spec fn slippage_that_counts(given: Option<u64>) -> u64 {
    match given {
        Some(slippage) => slippage,
        None => 500,
    }
}

/// Whether four bytes hold the length of every text of a token.
pub open spec fn writable(token: TokenMetadataView) -> bool {
    &&& encode_utf8(token.name).len() <= 0xffff_ffff
    &&& encode_utf8(token.symbol).len() <= 0xffff_ffff
    &&& encode_utf8(token.image).len() <= 0xffff_ffff
}

/// Whether bytes are a global account.
pub open spec fn is_global(data: Seq<u8>) -> bool {
    data.len() == 113 && data[8] <= 1
}

/// Whether bytes are a bonding curve account.
pub open spec fn is_curve(data: Seq<u8>) -> bool {
    data.len() == 49 && data[48] <= 1
}

/// An operation is about the payer of its client, and the mint and the fee that it was given.
pub proof fn operations_are_about_what_was_given(
    client: PumpFun,
    mint: Seq<u8>,
    fee: Option<PriorityFee>,
)
    ensures
        client.operation(mint, fee).payer == client.payer.bytes@,
        client.operation(mint, fee).mint == mint,
        client.operation(mint, fee).fee == fee,
{
}

/// Each operation begins with what it needs first, and with the amounts and the slippage that it was
/// given: a creation hands the metadata to the upload, a purchase reads the global account, and a
/// sale reads the balance of the payer's token account.
pub proof fn operations_begin_with_what_was_given<E>(
    op: OperationView,
    metadata: CreateTokenMetadata,
    amount_sol: u64,
    amount_token: Option<u64>,
    slippage: Option<u64>,
)
    ensures
        start_create::<E>(op, metadata) == (
            (FlowView { operation: op, stage: StageView::CreateUpload }),
            ActionView::<E>::UploadMetadata(metadata),
        ),
        start_create_and_buy::<E>(op, metadata, amount_sol, slippage) == (
            (FlowView {
                operation: op,
                stage: StageView::LaunchUpload {
                    amount_sol,
                    slippage: slippage_that_counts(slippage),
                },
            }),
            ActionView::<E>::UploadMetadata(metadata),
        ),
        found_global() is None ==> start_buy::<E>(op, amount_sol, slippage) is None,
        found_global() is Some ==> start_buy::<E>(op, amount_sol, slippage) == Some(
            (
                (FlowView {
                    operation: op,
                    stage: StageView::BuyGlobal {
                        amount_sol,
                        slippage: slippage_that_counts(slippage),
                    },
                }),
                ActionView::<E>::FetchAccount((found_global()->0).0),
            ),
        ),
        found_tokens(op.payer, op.mint) is None ==> start_sell::<E>(
            op,
            amount_token,
            slippage,
        ) is None,
        found_tokens(op.payer, op.mint) is Some ==> start_sell::<E>(op, amount_token, slippage)
            == Some(
            (
                (FlowView {
                    operation: op,
                    stage: StageView::SellBalance {
                        amount_token,
                        slippage: slippage_that_counts(slippage),
                    },
                }),
                ActionView::<E>::FetchTokenBalance((found_tokens(op.payer, op.mint)->0).0),
            ),
        ),
{
    fixed_addresses_come_from_one_word();
    token_accounts_come_from_owner_and_mint(op.payer, op.mint, TOKEN_PROGRAM@);
}

/// Whether an operation waits for an event of this kind.
pub open spec fn waits_for<E>(stage: StageView, event: EventView<E>) -> bool {
    match event {
        EventView::Uploaded(_) => stage is CreateUpload || stage is LaunchUpload,
        EventView::Balance(_) => stage is SellBalance,
        EventView::Sent(_) => stage is Sending,
        EventView::Account(_) => stage is LaunchGlobal || stage is LaunchAccount
            || stage is BuyGlobal || stage is BuyCurve || stage is BuyAccount || stage is SellGlobal
            || stage is SellCurve,
    }
}

/// An operation takes no event but one that it waits for.
pub proof fn unexpected_events_are_refused<E>(flow: FlowView, event: EventView<E>)
    requires
        !waits_for(flow.stage, event),
    ensures
        step(flow, event) is None,
{
}

/// Every failure that an operation waits for is reported, and ends it: none is passed over. A token
/// account that is not found is no failure.
pub proof fn failures_are_reported<E>(flow: FlowView, error: E)
    ensures
        flow.stage is CreateUpload || flow.stage is LaunchUpload ==> step(
            flow,
            EventView::Uploaded(Err(error)),
        ) == Some(
            (
                (FlowView { operation: flow.operation, stage: StageView::Finished }),
                ActionView::<E>::Finish(Err(ClientErrorView::UploadMetadataError(error))),
            ),
        ),
        flow.stage is LaunchGlobal || flow.stage is BuyGlobal || flow.stage is BuyCurve
            || flow.stage is SellGlobal || flow.stage is SellCurve ==> step(
            flow,
            EventView::Account(Err(error)),
        ) == Some(
            (
                (FlowView { operation: flow.operation, stage: StageView::Finished }),
                ActionView::<E>::Finish(Err(ClientErrorView::SolanaClientError(error))),
            ),
        ),
        flow.stage is SellBalance ==> step(flow, EventView::Balance(Err(error))) == Some(
            (
                (FlowView { operation: flow.operation, stage: StageView::Finished }),
                ActionView::<E>::Finish(Err(ClientErrorView::SolanaClientError(error))),
            ),
        ),
        flow.stage is Sending ==> step(flow, EventView::Sent(Err(error))) == Some(
            (
                (FlowView { operation: flow.operation, stage: StageView::Finished }),
                ActionView::<E>::Finish(Err(ClientErrorView::AnchorClientError(error))),
            ),
        ),
{
}

/// Once its transaction is accepted, an operation ends with the signature of it.
pub proof fn signatures_are_returned<E>(flow: FlowView, signature: Signature)
    requires
        flow.stage is Sending,
    ensures
        step(flow, EventView::<E>::Sent(Ok(signature))) == Some(
            (
                (FlowView { operation: flow.operation, stage: StageView::Finished }),
                ActionView::<E>::Finish(Ok(signature)),
            ),
        ),
{
}

/// Bytes that are no account end an operation with what the decoder says of them; a curve that is
/// complete ends it with that; and so does a curve without an address.
pub proof fn unusable_accounts_are_reported<E>(flow: FlowView, data: Seq<u8>)
    ensures
        (flow.stage is LaunchGlobal || flow.stage is BuyGlobal || flow.stage is SellGlobal)
            && !is_global(data) ==> global_account(data) is Err && step(
            flow,
            EventView::<E>::Account(Ok(data)),
        ) == Some(
            (
                (FlowView { operation: flow.operation, stage: StageView::Finished }),
                ActionView::<E>::Finish(
                    Err(ClientErrorView::BorshError(global_account(data)->Err_0)),
                ),
            ),
        ),
        (flow.stage is BuyCurve || flow.stage is SellCurve) && !is_curve(data)
            ==> bonding_curve_account(data) is Err && step(
            flow,
            EventView::<E>::Account(Ok(data)),
        ) == Some(
            (
                (FlowView { operation: flow.operation, stage: StageView::Finished }),
                ActionView::<E>::Finish(
                    Err(ClientErrorView::BorshError(bonding_curve_account(data)->Err_0)),
                ),
            ),
        ),
        (flow.stage is BuyCurve || flow.stage is SellCurve) && is_curve(data) && data[48] == 1
            ==> step(flow, EventView::<E>::Account(Ok(data))) == Some(
            (
                (FlowView { operation: flow.operation, stage: StageView::Finished }),
                ActionView::<E>::Finish(
                    Err(ClientErrorView::BondingCurveError(CurveError::Complete)),
                ),
            ),
        ),
        (flow.stage is BuyGlobal || flow.stage is SellGlobal) && is_global(data) && found_curve(
            flow.operation.mint,
        ) is None ==> step(flow, EventView::<E>::Account(Ok(data))) == Some(
            (
                (FlowView { operation: flow.operation, stage: StageView::Finished }),
                ActionView::<E>::Finish(Err(ClientErrorView::BondingCurveNotFound)),
            ),
        ),
{
    bonding_curve_comes_from_the_mint(flow.operation.mint);
}

/// A creation sends its transaction once the upload has reported the token: the creation of it, from
/// the name, the symbol and the image that were reported.
pub proof fn uploaded_tokens_are_created<E>(op: OperationView, token: TokenMetadataView)
    ensures
        ({
            let next = step(
                FlowView { operation: op, stage: StageView::CreateUpload },
                EventView::<E>::Uploaded(Ok(token)),
            );
            &&& next is Some <==> creatable(op.mint) && writable(token)
            &&& next matches Some((flow, action)) ==> {
                &&& flow == (FlowView { operation: op, stage: StageView::Sending })
                &&& action is Send
                &&& creation_is_sent(action->Send_0, op, token)
            }
        }),
{
    tokens_are_created_as_uploaded(op.payer, op.mint, token);
    if let Some(create) = creation(op.payer, op.mint, create_args(op.payer, token)) {
        creations_are_complete(op.payer, op.mint, op.fee, create, create, create);
    }
}

/// Whether a transaction creates the token of an operation, and nothing else.
pub open spec fn creation_is_sent(
    request: TransactionRequestView,
    op: OperationView,
    token: TokenMetadataView,
) -> bool {
    exists|create|
        #[trigger] creates_token(create, op.payer, op.mint, token) && holds(
            request,
            op.fee,
            seq![create],
            seq![op.payer, op.mint],
        )
}

/// Whether a transaction creates the token of an operation, opens the payer's token account where it
/// is missing, and buys `amount` tokens at `max_sol_cost` at most.
pub open spec fn creation_and_purchase_are_sent(
    request: TransactionRequestView,
    op: OperationView,
    token: TokenMetadataView,
    missing: bool,
    fee_recipient: Seq<u8>,
    amount: u64,
    max_sol_cost: u64,
) -> bool {
    exists|create, open, buy|
        {
            &&& #[trigger] creates_token(create, op.payer, op.mint, token)
            &&& #[trigger] opens_account(
                open,
                op.payer,
                op.payer,
                op.mint,
                TOKEN_PROGRAM@,
                (found_tokens(op.payer, op.mint)->0).0,
            )
            &&& #[trigger] buys_tokens(
                buy,
                op.payer,
                op.mint,
                fee_recipient,
                amount,
                max_sol_cost,
            )
            &&& holds(
                request,
                op.fee,
                if missing {
                    seq![create, open, buy]
                } else {
                    seq![create, buy]
                },
                seq![op.payer, op.mint],
            )
        }
}

/// Whether a transaction opens the payer's token account where it is missing, and buys `amount` tokens
/// at `max_sol_cost` at most.
pub open spec fn purchase_is_sent(
    request: TransactionRequestView,
    op: OperationView,
    missing: bool,
    fee_recipient: Seq<u8>,
    amount: u64,
    max_sol_cost: u64,
) -> bool {
    exists|open, buy|
        {
            &&& #[trigger] opens_account(
                open,
                op.payer,
                op.payer,
                op.mint,
                TOKEN_PROGRAM@,
                (found_tokens(op.payer, op.mint)->0).0,
            )
            &&& #[trigger] buys_tokens(
                buy,
                op.payer,
                op.mint,
                fee_recipient,
                amount,
                max_sol_cost,
            )
            &&& holds(
                request,
                op.fee,
                if missing {
                    seq![open, buy]
                } else {
                    seq![buy]
                },
                seq![op.payer],
            )
        }
}

/// Whether a transaction sells `amount` tokens at `min_sol_output` at least, and nothing else.
pub open spec fn sale_is_sent(
    request: TransactionRequestView,
    op: OperationView,
    fee_recipient: Seq<u8>,
    amount: u64,
    min_sol_output: u64,
) -> bool {
    exists|sell|
        #[trigger] sells_tokens(
            sell,
            op.payer,
            op.mint,
            fee_recipient,
            amount,
            min_sol_output,
        ) && holds(request, op.fee, seq![sell], seq![op.payer])
}

/// A creation with a first purchase reads the global account once the upload has reported the token,
/// and keeps what was reported and given.
pub proof fn launches_read_the_configuration<E>(
    op: OperationView,
    amount_sol: u64,
    slippage: u64,
    token: TokenMetadataView,
)
    ensures
        ({
            let next = step(
                FlowView {
                    operation: op,
                    stage: StageView::LaunchUpload { amount_sol, slippage },
                },
                EventView::<E>::Uploaded(Ok(token)),
            );
            &&& found_global() is None ==> next is None
            &&& found_global() is Some ==> next == Some(
                (
                    FlowView {
                        operation: op,
                        stage: StageView::LaunchGlobal { amount_sol, slippage, token },
                    },
                    ActionView::<E>::FetchAccount((found_global()->0).0),
                ),
            )
        }),
{
    fixed_addresses_come_from_one_word();
}

/// Once the global account is read, a creation with a first purchase is to buy what the initial
/// reserves give for the lamports, at these lamports and the slippage at most, and looks for the
/// payer's token account.
pub proof fn launches_quote_the_first_purchase<E>(
    op: OperationView,
    amount_sol: u64,
    slippage: u64,
    token: TokenMetadataView,
    data: Seq<u8>,
)
    requires
        is_global(data),
    ensures
        ({
            let next = step(
                FlowView {
                    operation: op,
                    stage: StageView::LaunchGlobal { amount_sol, slippage, token },
                },
                EventView::<E>::Account(Ok(data)),
            );
            &&& next is Some <==> found_tokens(op.payer, op.mint) is Some
            &&& next matches Some((flow, action)) ==> {
                &&& action == ActionView::<E>::FetchAccount(
                    (found_tokens(op.payer, op.mint)->0).0,
                )
                &&& flow.operation == op
                &&& flow.stage matches StageView::LaunchAccount {
                    token: kept,
                    fee_recipient,
                    amount,
                    max_sol_cost,
                } && {
                    &&& kept == token
                    &&& fee_recipient == data.subrange(41, 73)
                    &&& buys(
                        number_at(data, 81) as int,
                        number_at(data, 73) as int,
                        number_at(data, 89) as int,
                        amount_sol as int,
                        amount as int,
                    )
                    &&& may_cost(amount_sol, slippage as int, max_sol_cost as int)
                }
            }
        }),
{
    token_accounts_come_from_owner_and_mint(op.payer, op.mint, TOKEN_PROGRAM@);
    fields_stand_in_order(data, data);
    first_purchase_is_quoted_from_the_configuration(global_account(data)->Ok_0, amount_sol);
    slippage_counts_in_full(amount_sol, slippage);
}

/// Once it has looked for the payer's token account, a creation with a first purchase sends both in
/// one transaction.
pub proof fn launches_create_and_buy<E>(
    op: OperationView,
    token: TokenMetadataView,
    fee_recipient: Seq<u8>,
    amount: u64,
    max_sol_cost: u64,
    account: Result<Seq<u8>, E>,
)
    ensures
        ({
            let next = step(
                FlowView {
                    operation: op,
                    stage: StageView::LaunchAccount { token, fee_recipient, amount, max_sol_cost },
                },
                EventView::Account(account),
            );
            &&& next is Some <==> creatable(op.mint) && tradable(op.payer, op.mint) && writable(
                token,
            )
            &&& next matches Some((flow, action)) ==> {
                &&& flow == (FlowView { operation: op, stage: StageView::Sending })
                &&& action is Send
                &&& creation_and_purchase_are_sent(
                    action->Send_0,
                    op,
                    token,
                    account is Err,
                    fee_recipient,
                    amount,
                    max_sol_cost,
                )
            }
        }),
{
    tokens_are_created_as_uploaded(op.payer, op.mint, token);
    instructions_do_what_they_are_for(
        op.payer,
        op.mint,
        fee_recipient,
        amount,
        max_sol_cost,
        create_args(op.payer, token),
    );
    missing_accounts_are_opened(op.payer, op.payer, op.mint, TOKEN_PROGRAM@, op.mint);
    if let (Some(create), Some(buy)) = (
        creation(op.payer, op.mint, create_args(op.payer, token)),
        purchase(op.payer, op.mint, fee_recipient, amount, max_sol_cost),
    ) {
        let open = missing_account(op.payer, op.mint, false)->0;
        creations_are_complete(op.payer, op.mint, op.fee, create, open, buy);
        assert(creates_token(create, op.payer, op.mint, token));
        assert(opens_account(
            open,
            op.payer,
            op.payer,
            op.mint,
            TOKEN_PROGRAM@,
            (found_tokens(op.payer, op.mint)->0).0,
        ));
        assert(buys_tokens(buy, op.payer, op.mint, fee_recipient, amount, max_sol_cost));
    }
}

/// Once the global account is read, a trade reads the bonding curve of its token, and keeps what was
/// given and who receives the fee.
pub proof fn trades_read_the_curve<E>(
    op: OperationView,
    amount: u64,
    slippage: u64,
    data: Seq<u8>,
)
    requires
        is_global(data),
        found_curve(op.mint) is Some,
    ensures
        step(
            (FlowView {
                operation: op,
                stage: StageView::BuyGlobal { amount_sol: amount, slippage },
            }),
            EventView::<E>::Account(Ok(data)),
        ) == Some(
            (
                (FlowView {
                    operation: op,
                    stage: StageView::BuyCurve {
                        amount_sol: amount,
                        slippage,
                        fee_recipient: data.subrange(41, 73),
                    },
                }),
                ActionView::<E>::FetchAccount((found_curve(op.mint)->0).0),
            ),
        ),
        step(
            (FlowView { operation: op, stage: StageView::SellGlobal { amount, slippage } }),
            EventView::<E>::Account(Ok(data)),
        ) == Some(
            (
                (FlowView {
                    operation: op,
                    stage: StageView::SellCurve {
                        amount,
                        slippage,
                        fee_recipient: data.subrange(41, 73),
                        fee_basis_points: number_at(data, 105),
                    },
                }),
                ActionView::<E>::FetchAccount((found_curve(op.mint)->0).0),
            ),
        ),
{
    bonding_curve_comes_from_the_mint(op.mint);
    fields_stand_in_order(data, data);
}

/// Once the curve is read, a purchase is to buy what the curve gives for the lamports, at these
/// lamports and the slippage at most, and looks for the payer's token account.
pub proof fn purchases_quote_the_curve<E>(
    op: OperationView,
    amount_sol: u64,
    slippage: u64,
    fee_recipient: Seq<u8>,
    data: Seq<u8>,
)
    requires
        is_curve(data),
        data[48] == 0,
    ensures
        ({
            let next = step(
                FlowView {
                    operation: op,
                    stage: StageView::BuyCurve { amount_sol, slippage, fee_recipient },
                },
                EventView::<E>::Account(Ok(data)),
            );
            &&& next is Some <==> found_tokens(op.payer, op.mint) is Some
            &&& next matches Some((flow, action)) ==> {
                &&& action == ActionView::<E>::FetchAccount(
                    (found_tokens(op.payer, op.mint)->0).0,
                )
                &&& flow.operation == op
                &&& flow.stage matches StageView::BuyAccount {
                    fee_recipient: kept,
                    amount,
                    max_sol_cost,
                } && {
                    &&& kept == fee_recipient
                    &&& buys(
                        number_at(data, 16) as int,
                        number_at(data, 8) as int,
                        number_at(data, 24) as int,
                        amount_sol as int,
                        amount as int,
                    )
                    &&& may_cost(amount_sol, slippage as int, max_sol_cost as int)
                }
            }
        }),
{
    token_accounts_come_from_owner_and_mint(op.payer, op.mint, TOKEN_PROGRAM@);
    fields_stand_in_order(data, data);
    curves_quote_from_their_reserves(bonding_curve_account(data)->Ok_0, amount_sol, 0);
    slippage_counts_in_full(amount_sol, slippage);
}

/// Once it has looked for the payer's token account, a purchase sends its transaction.
pub proof fn purchases_buy<E>(
    op: OperationView,
    fee_recipient: Seq<u8>,
    amount: u64,
    max_sol_cost: u64,
    account: Result<Seq<u8>, E>,
)
    ensures
        ({
            let next = step(
                FlowView {
                    operation: op,
                    stage: StageView::BuyAccount { fee_recipient, amount, max_sol_cost },
                },
                EventView::Account(account),
            );
            &&& next is Some <==> tradable(op.payer, op.mint)
            &&& next matches Some((flow, action)) ==> {
                &&& flow == (FlowView { operation: op, stage: StageView::Sending })
                &&& action is Send
                &&& purchase_is_sent(
                    action->Send_0,
                    op,
                    account is Err,
                    fee_recipient,
                    amount,
                    max_sol_cost,
                )
            }
        }),
{
    let token = TokenMetadataView { name: seq![], symbol: seq![], image: seq![] };
    instructions_do_what_they_are_for(
        op.payer,
        op.mint,
        fee_recipient,
        amount,
        max_sol_cost,
        create_args(op.payer, token),
    );
    missing_accounts_are_opened(op.payer, op.payer, op.mint, TOKEN_PROGRAM@, op.mint);
    if let Some(buy) = purchase(op.payer, op.mint, fee_recipient, amount, max_sol_cost) {
        let open = missing_account(op.payer, op.mint, false)->0;
        trades_are_complete(op.payer, op.fee, open, buy);
        assert(opens_account(
            open,
            op.payer,
            op.payer,
            op.mint,
            TOKEN_PROGRAM@,
            (found_tokens(op.payer, op.mint)->0).0,
        ));
        assert(buys_tokens(buy, op.payer, op.mint, fee_recipient, amount, max_sol_cost));
    }
}

/// Once the balance is read, a sale is to sell the given amount, or the whole balance where none is
/// given, and reads the global account. A balance that is no amount ends the sale either way.
pub proof fn sales_know_their_amount<E>(
    op: OperationView,
    amount_token: Option<u64>,
    slippage: u64,
    text: Seq<char>,
)
    ensures
        ({
            let balance = amount_of(encode_utf8(text));
            let next = step(
                FlowView {
                    operation: op,
                    stage: StageView::SellBalance { amount_token, slippage },
                },
                EventView::<E>::Balance(Ok(text)),
            );
            &&& balance is None ==> next == Some(
                (
                    FlowView { operation: op, stage: StageView::Finished },
                    ActionView::<E>::Finish(Err(ClientErrorView::InvalidBalance(text))),
                ),
            )
            &&& balance is Some && found_global() is None ==> next is None
            &&& balance is Some && found_global() is Some ==> {
                &&& next matches Some((flow, action)) && {
                    &&& action == ActionView::<E>::FetchAccount((found_global()->0).0)
                    &&& flow.operation == op
                    &&& flow.stage matches StageView::SellGlobal { amount, slippage: kept } && {
                        &&& kept == slippage
                        &&& amount_token matches Some(given) ==> amount == given
                        &&& amount_token is None ==> Some(amount) == balance
                    }
                }
            }
        }),
{
    fixed_addresses_come_from_one_word();
}

/// Whether a sale of `amount` tokens to a curve with these bytes, after a fee, with a slippage, must
/// bring `output` at least.
pub open spec fn sale_must_bring(
    curve: Seq<u8>,
    amount: u64,
    fee_basis_points: u64,
    slippage: u64,
    output: u64,
) -> bool {
    exists|gross: int, net: int|
        {
            &&& #[trigger] pays(
                number_at(curve, 16) as int,
                number_at(curve, 8) as int,
                amount as int,
                gross,
            )
            &&& #[trigger] must_bring(gross, fee_basis_points as int, net)
            &&& must_bring(net, slippage as int, output as int)
        }
}

/// Once the curve is read, a sale sends its transaction: the amount, for no less than what the curve
/// pays, without the fee and without the slippage.
pub proof fn sales_sell<E>(
    op: OperationView,
    amount: u64,
    slippage: u64,
    fee_recipient: Seq<u8>,
    fee_basis_points: u64,
    data: Seq<u8>,
)
    requires
        is_curve(data),
        data[48] == 0,
    ensures
        ({
            let next = step(
                FlowView {
                    operation: op,
                    stage: StageView::SellCurve {
                        amount,
                        slippage,
                        fee_recipient,
                        fee_basis_points,
                    },
                },
                EventView::<E>::Account(Ok(data)),
            );
            &&& next is Some <==> tradable(op.payer, op.mint)
            &&& next matches Some((flow, action)) ==> {
                &&& flow == (FlowView { operation: op, stage: StageView::Sending })
                &&& action is Send
                &&& exists|output: u64|
                    #[trigger] sale_must_bring(data, amount, fee_basis_points, slippage, output)
                        && sale_is_sent(action->Send_0, op, fee_recipient, amount, output)
            }
        }),
{
    let token = TokenMetadataView { name: seq![], symbol: seq![], image: seq![] };
    let curve = bonding_curve_account(data)->Ok_0;
    fields_stand_in_order(data, data);
    curves_quote_from_their_reserves(curve, amount, fee_basis_points);
    let net = curve.sell_quote(amount, fee_basis_points)->Ok_0;
    let gross = sol_for(
        curve.virtual_sol_reserves as nat,
        curve.virtual_token_reserves as nat,
        amount as nat,
    );
    crate::laws::sale_keeps_the_product(
        curve.virtual_sol_reserves as nat,
        curve.virtual_token_reserves as nat,
        amount as nat,
    );
    assert(gross <= curve.virtual_sol_reserves);
    assert(net <= gross);
    slippage_counts_in_full(net as u64, slippage);
    let output = lowered(net, slippage as nat) as u64;
    assert(sale_must_bring(data, amount, fee_basis_points, slippage, output));
    instructions_do_what_they_are_for(
        op.payer,
        op.mint,
        fee_recipient,
        amount,
        output,
        create_args(op.payer, token),
    );
    if let Some(sell) = sale(op.payer, op.mint, fee_recipient, amount, output) {
        trades_are_complete(op.payer, op.fee, sell, sell);
        assert(sells_tokens(sell, op.payer, op.mint, fee_recipient, amount, output));
    }
}

/// A creation, from its start: whatever the upload reports is created.
pub proof fn create_creates_what_was_uploaded<E>(
    op: OperationView,
    metadata: CreateTokenMetadata,
    token: TokenMetadataView,
)
    requires
        creatable(op.mint),
        writable(token),
    ensures
        run(
            start_create::<E>(op, metadata).0,
            seq![EventView::<E>::Uploaded(Ok(token))],
        ) matches Some(ActionView::Send(request)) && creation_is_sent(request, op, token),
{
    reveal_with_fuel(run, 2);
    uploaded_tokens_are_created::<E>(op, token);
}

/// A creation with a first purchase, from its start: the token is created as it was uploaded, and
/// what the initial reserves give for the lamports is bought, at these lamports and the slippage at
/// most, in one transaction.
pub proof fn create_and_buy_does_both<E>(
    op: OperationView,
    metadata: CreateTokenMetadata,
    amount_sol: u64,
    slippage: Option<u64>,
    token: TokenMetadataView,
    global: Seq<u8>,
    account: Result<Seq<u8>, E>,
)
    requires
        creatable(op.mint),
        tradable(op.payer, op.mint),
        writable(token),
        is_global(global),
    ensures
        run(
            start_create_and_buy::<E>(op, metadata, amount_sol, slippage).0,
            seq![
                EventView::<E>::Uploaded(Ok(token)),
                EventView::Account(Ok(global)),
                EventView::Account(account),
            ],
        ) matches Some(ActionView::Send(request)) && exists|amount: u64, cost: u64|
            {
                &&& #[trigger] buys(
                    number_at(global, 81) as int,
                    number_at(global, 73) as int,
                    number_at(global, 89) as int,
                    amount_sol as int,
                    amount as int,
                )
                &&& #[trigger] may_cost(
                    amount_sol,
                    slippage_that_counts(slippage) as int,
                    cost as int,
                )
                &&& creation_and_purchase_are_sent(
                    request,
                    op,
                    token,
                    account is Err,
                    global.subrange(41, 73),
                    amount,
                    cost,
                )
            },
{
    reveal_with_fuel(run, 4);
    let events = seq![
        EventView::<E>::Uploaded(Ok(token)),
        EventView::Account(Ok(global)),
        EventView::Account(account),
    ];
    assert(events.drop_first()[0] == events[1]);
    assert(events.drop_first().drop_first()[0] == events[2]);
    let counted = slippage_that_counts(slippage);
    launches_read_the_configuration::<E>(op, amount_sol, counted, token);
    launches_quote_the_first_purchase::<E>(op, amount_sol, counted, token, global);
    let quoted = (step(
        (FlowView {
            operation: op,
            stage: StageView::LaunchGlobal { amount_sol, slippage: counted, token },
        }),
        EventView::<E>::Account(Ok(global)),
    )->0).0;
    let amount = quoted.stage->LaunchAccount_amount;
    let cost = quoted.stage->LaunchAccount_max_sol_cost;
    launches_create_and_buy(op, token, global.subrange(41, 73), amount, cost, account);
}

/// A purchase, from its start: what the curve gives for the lamports is bought, at these lamports and
/// the slippage at most.
pub proof fn buy_buys_what_the_curve_gives<E>(
    op: OperationView,
    amount_sol: u64,
    slippage: Option<u64>,
    global: Seq<u8>,
    curve: Seq<u8>,
    account: Result<Seq<u8>, E>,
)
    requires
        tradable(op.payer, op.mint),
        is_global(global),
        is_curve(curve),
        curve[48] == 0,
    ensures
        start_buy::<E>(op, amount_sol, slippage) is Some,
        run(
            (start_buy::<E>(op, amount_sol, slippage)->0).0,
            seq![
                EventView::<E>::Account(Ok(global)),
                EventView::Account(Ok(curve)),
                EventView::Account(account),
            ],
        ) matches Some(ActionView::Send(request)) && exists|amount: u64, cost: u64|
            {
                &&& #[trigger] buys(
                    number_at(curve, 16) as int,
                    number_at(curve, 8) as int,
                    number_at(curve, 24) as int,
                    amount_sol as int,
                    amount as int,
                )
                &&& #[trigger] may_cost(
                    amount_sol,
                    slippage_that_counts(slippage) as int,
                    cost as int,
                )
                &&& purchase_is_sent(
                    request,
                    op,
                    account is Err,
                    global.subrange(41, 73),
                    amount,
                    cost,
                )
            },
{
    reveal_with_fuel(run, 4);
    let events = seq![
        EventView::<E>::Account(Ok(global)),
        EventView::Account(Ok(curve)),
        EventView::Account(account),
    ];
    assert(events.drop_first()[0] == events[1]);
    assert(events.drop_first().drop_first()[0] == events[2]);
    let counted = slippage_that_counts(slippage);
    let fee_recipient = global.subrange(41, 73);
    fixed_addresses_come_from_one_word();
    trades_read_the_curve::<E>(op, amount_sol, counted, global);
    purchases_quote_the_curve::<E>(op, amount_sol, counted, fee_recipient, curve);
    let quoted = (step(
        (FlowView {
            operation: op,
            stage: StageView::BuyCurve { amount_sol, slippage: counted, fee_recipient },
        }),
        EventView::<E>::Account(Ok(curve)),
    )->0).0;
    let amount = quoted.stage->BuyAccount_amount;
    let cost = quoted.stage->BuyAccount_max_sol_cost;
    purchases_buy(op, fee_recipient, amount, cost, account);
}

/// A sale, from its start: the given amount, or the whole balance where none is given, is sold for no
/// less than what the curve pays, without the fee and without the slippage.
pub proof fn sell_sells_for_what_the_curve_pays<E>(
    op: OperationView,
    amount_token: Option<u64>,
    slippage: Option<u64>,
    balance: Seq<char>,
    global: Seq<u8>,
    curve: Seq<u8>,
)
    requires
        tradable(op.payer, op.mint),
        amount_of(encode_utf8(balance)) is Some,
        is_global(global),
        is_curve(curve),
        curve[48] == 0,
    ensures
        start_sell::<E>(op, amount_token, slippage) is Some,
        run(
            (start_sell::<E>(op, amount_token, slippage)->0).0,
            seq![
                EventView::<E>::Balance(Ok(balance)),
                EventView::Account(Ok(global)),
                EventView::Account(Ok(curve)),
            ],
        ) matches Some(ActionView::Send(request)) && exists|amount: u64, output: u64|
            {
                &&& amount_token matches Some(given) ==> amount == given
                &&& amount_token is None ==> Some(amount) == amount_of(encode_utf8(balance))
                &&& #[trigger] sale_must_bring(
                    curve,
                    amount,
                    number_at(global, 105),
                    slippage_that_counts(slippage),
                    output,
                )
                &&& sale_is_sent(request, op, global.subrange(41, 73), amount, output)
            },
{
    reveal_with_fuel(run, 4);
    let events = seq![
        EventView::<E>::Balance(Ok(balance)),
        EventView::Account(Ok(global)),
        EventView::Account(Ok(curve)),
    ];
    assert(events.drop_first()[0] == events[1]);
    assert(events.drop_first().drop_first()[0] == events[2]);
    let counted = slippage_that_counts(slippage);
    token_accounts_come_from_owner_and_mint(op.payer, op.mint, TOKEN_PROGRAM@);
    sales_know_their_amount::<E>(op, amount_token, counted, balance);
    let known = (step(
        (FlowView {
            operation: op,
            stage: StageView::SellBalance { amount_token, slippage: counted },
        }),
        EventView::<E>::Balance(Ok(balance)),
    )->0).0;
    let amount = known.stage->SellGlobal_amount;
    trades_read_the_curve::<E>(op, amount, counted, global);
    sales_sell::<E>(op, amount, counted, global.subrange(41, 73), number_at(global, 105), curve);
}

} // verus!
