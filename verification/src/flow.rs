//! The operations of the client, step by step.
//!
//! An operation alternates decisions with work that needs a network. A [`Flow`] makes the decisions:
//! it asks for one [`Action`] at a time, and goes on with the [`Event`] that reports how the action
//! ended.
use vstd::prelude::*;
use vstd::utf8::encode_utf8;

use crate::address::{
    bonding_curve_address, global_address, token_account, token_account_address,
};
use crate::client::{data_view, read_curve, read_global, PriorityFee, PumpFun};
use crate::constants;
use crate::cpi;
use crate::cpi::instruction::CreateView;
use crate::error::{ClientError, ClientErrorView};
use crate::instruction;
use crate::instruction::{
    create_associated_token_account, creation, purchase, sale, token_account_creation, Instruction,
    InstructionView,
};
use crate::pubkey::{Pubkey, Signature};
use crate::request::{
    buy_request, buy_transaction, create_and_buy_request, create_and_buy_transaction,
    create_request, create_transaction, optional_view, sell_request, sell_transaction,
    TransactionRequest, TransactionRequestView,
};
use crate::utils::{
    amount_of, calculate_with_slippage_buy, calculate_with_slippage_sell, lowered, parse_amount,
    raised, CreateTokenMetadata, TokenMetadata, TokenMetadataView,
};

verus! {

/// Slippage in basis points where none is given.
pub const DEFAULT_SLIPPAGE: u64 = 500;

/// What an operation waits for, and what it has learned so far.
#[derive(Clone, Debug)]
pub enum Stage {
    /// Creation of a token: the upload of the metadata.
    CreateUpload,
    /// Creation with a first purchase: the upload of the metadata.
    LaunchUpload { amount_sol: u64, slippage: u64 },
    /// Creation with a first purchase: the global account.
    LaunchGlobal { amount_sol: u64, slippage: u64, token: TokenMetadata },
    /// Creation with a first purchase: whether the payer's token account exists.
    LaunchAccount { token: TokenMetadata, fee_recipient: Pubkey, amount: u64, max_sol_cost: u64 },
    /// Purchase: the global account.
    BuyGlobal { amount_sol: u64, slippage: u64 },
    /// Purchase: the bonding curve account.
    BuyCurve { amount_sol: u64, slippage: u64, fee_recipient: Pubkey },
    /// Purchase: whether the payer's token account exists.
    BuyAccount { fee_recipient: Pubkey, amount: u64, max_sol_cost: u64 },
    /// Sale: the balance of the payer's token account.
    SellBalance { amount_token: Option<u64>, slippage: u64 },
    /// Sale: the global account.
    SellGlobal { amount: u64, slippage: u64 },
    /// Sale: the bonding curve account.
    SellCurve { amount: u64, slippage: u64, fee_recipient: Pubkey, fee_basis_points: u64 },
    /// The transaction is on its way.
    Sending,
    /// The operation has ended.
    Finished,
}

/// A [`Stage`] with its texts and addresses as sequences.
pub enum StageView {
    CreateUpload,
    LaunchUpload { amount_sol: u64, slippage: u64 },
    LaunchGlobal { amount_sol: u64, slippage: u64, token: TokenMetadataView },
    LaunchAccount {
        token: TokenMetadataView,
        fee_recipient: Seq<u8>,
        amount: u64,
        max_sol_cost: u64,
    },
    BuyGlobal { amount_sol: u64, slippage: u64 },
    BuyCurve { amount_sol: u64, slippage: u64, fee_recipient: Seq<u8> },
    BuyAccount { fee_recipient: Seq<u8>, amount: u64, max_sol_cost: u64 },
    SellBalance { amount_token: Option<u64>, slippage: u64 },
    SellGlobal { amount: u64, slippage: u64 },
    SellCurve { amount: u64, slippage: u64, fee_recipient: Seq<u8>, fee_basis_points: u64 },
    Sending,
    Finished,
}

impl View for Stage {
    type V = StageView;

    open spec fn view(&self) -> StageView {
        match *self {
            Stage::CreateUpload => StageView::CreateUpload,
            Stage::LaunchUpload { amount_sol, slippage } => StageView::LaunchUpload {
                amount_sol,
                slippage,
            },
            Stage::LaunchGlobal { amount_sol, slippage, token } => StageView::LaunchGlobal {
                amount_sol,
                slippage,
                token: token@,
            },
            Stage::LaunchAccount { token, fee_recipient, amount, max_sol_cost } =>
                StageView::LaunchAccount {
                token: token@,
                fee_recipient: fee_recipient@,
                amount,
                max_sol_cost,
            },
            Stage::BuyGlobal { amount_sol, slippage } => StageView::BuyGlobal {
                amount_sol,
                slippage,
            },
            Stage::BuyCurve { amount_sol, slippage, fee_recipient } => StageView::BuyCurve {
                amount_sol,
                slippage,
                fee_recipient: fee_recipient@,
            },
            Stage::BuyAccount { fee_recipient, amount, max_sol_cost } => StageView::BuyAccount {
                fee_recipient: fee_recipient@,
                amount,
                max_sol_cost,
            },
            Stage::SellBalance { amount_token, slippage } => StageView::SellBalance {
                amount_token,
                slippage,
            },
            Stage::SellGlobal { amount, slippage } => StageView::SellGlobal { amount, slippage },
            Stage::SellCurve { amount, slippage, fee_recipient, fee_basis_points } =>
                StageView::SellCurve {
                amount,
                slippage,
                fee_recipient: fee_recipient@,
                fee_basis_points,
            },
            Stage::Sending => StageView::Sending,
            Stage::Finished => StageView::Finished,
        }
    }
}

/// What stays the same throughout an operation.
#[derive(Clone, Copy, Debug, PartialEq, Eq)]
pub struct Operation {
    /// Who signs and pays.
    pub payer: Pubkey,
    /// The token that the operation is about.
    pub mint: Pubkey,
    /// Priority fee of the transaction.
    pub fee: Option<PriorityFee>,
}

/// An [`Operation`] with its addresses as byte strings.
pub struct OperationView {
    pub payer: Seq<u8>,
    pub mint: Seq<u8>,
    pub fee: Option<PriorityFee>,
}

impl View for Operation {
    type V = OperationView;

    open spec fn view(&self) -> OperationView {
        OperationView { payer: self.payer@, mint: self.mint@, fee: self.fee }
    }
}

/// An operation that is under way.
#[derive(Clone, Debug)]
pub struct Flow {
    /// What is being done.
    pub operation: Operation,
    /// What the operation waits for.
    pub stage: Stage,
}

/// A [`Flow`] with its contents as sequences.
pub struct FlowView {
    pub operation: OperationView,
    pub stage: StageView,
}

impl View for Flow {
    type V = FlowView;

    open spec fn view(&self) -> FlowView {
        FlowView { operation: self.operation@, stage: self.stage@ }
    }
}

/// What an operation asks for next.
#[derive(Debug)]
pub enum Action<E> {
    /// Upload the metadata of a new token.
    UploadMetadata(CreateTokenMetadata),
    /// Read the data of the account at an address.
    FetchAccount(Pubkey),
    /// Read the balance of the token account at an address.
    FetchTokenBalance(Pubkey),
    /// Sign the transaction and send it.
    Send(TransactionRequest),
    /// Nothing: this is how the operation ended.
    Finish(Result<Signature, ClientError<E>>),
}

/// An [`Action`] with its contents as sequences.
pub enum ActionView<E> {
    UploadMetadata(CreateTokenMetadata),
    FetchAccount(Seq<u8>),
    FetchTokenBalance(Seq<u8>),
    Send(TransactionRequestView),
    Finish(Result<Signature, ClientErrorView<E>>),
}

impl<E> View for Action<E> {
    type V = ActionView<E>;

    open spec fn view(&self) -> ActionView<E> {
        match *self {
            Action::UploadMetadata(metadata) => ActionView::UploadMetadata(metadata),
            Action::FetchAccount(address) => ActionView::FetchAccount(address@),
            Action::FetchTokenBalance(address) => ActionView::FetchTokenBalance(address@),
            Action::Send(request) => ActionView::Send(request@),
            Action::Finish(Ok(signature)) => ActionView::Finish(Ok(signature)),
            Action::Finish(Err(error)) => ActionView::Finish(Err(error@)),
        }
    }
}

/// How an action ended. `E` is why it failed.
#[derive(Debug)]
pub enum Event<E> {
    /// What the upload reported.
    Uploaded(Result<TokenMetadata, E>),
    /// The data of the account that was asked for.
    Account(Result<Vec<u8>, E>),
    /// The balance of the token account that was asked for, in decimal digits.
    Balance(Result<String, E>),
    /// The signature of the transaction that was sent.
    Sent(Result<Signature, E>),
}

/// An [`Event`] with its contents as sequences.
pub enum EventView<E> {
    Uploaded(Result<TokenMetadataView, E>),
    Account(Result<Seq<u8>, E>),
    Balance(Result<Seq<char>, E>),
    Sent(Result<Signature, E>),
}

impl<E> View for Event<E> {
    type V = EventView<E>;

    open spec fn view(&self) -> EventView<E> {
        match *self {
            Event::Uploaded(Ok(token)) => EventView::Uploaded(Ok(token@)),
            Event::Uploaded(Err(error)) => EventView::Uploaded(Err(error)),
            Event::Account(reply) => EventView::Account(data_view(reply)),
            Event::Balance(Ok(text)) => EventView::Balance(Ok(text@)),
            Event::Balance(Err(error)) => EventView::Balance(Err(error)),
            Event::Sent(reply) => EventView::Sent(reply),
        }
    }
}

/// The view of a step that may not be possible.
pub open spec fn step_view<E>(step: Option<(Flow, Action<E>)>) -> Option<
    (FlowView, ActionView<E>),
> {
    match step {
        Some(pair) => Some((pair.0@, pair.1@)),
        None => None,
    }
}

impl OperationView {
    /// The operation at a stage.
    pub open spec fn at(self, stage: StageView) -> FlowView {
        FlowView { operation: self, stage }
    }

    /// The operation goes on to `stage`, once the account at `address` has been read.
    pub open spec fn fetch<E>(self, stage: StageView, address: Option<Seq<u8>>) -> Option<
        (FlowView, ActionView<E>),
    > {
        match address {
            Some(address) => Some((self.at(stage), ActionView::FetchAccount(address))),
            None => None,
        }
    }

    /// The operation sends its transaction.
    pub open spec fn send<E>(self, request: TransactionRequestView) -> Option<
        (FlowView, ActionView<E>),
    > {
        Some((self.at(StageView::Sending), ActionView::Send(request)))
    }

    /// The operation ends.
    pub open spec fn finish<E>(self, outcome: Result<Signature, ClientErrorView<E>>) -> Option<
        (FlowView, ActionView<E>),
    > {
        Some((self.at(StageView::Finished), ActionView::Finish(outcome)))
    }
}

/// The arguments with which a token is created from what the upload reported.
pub open spec fn create_args(payer: Seq<u8>, token: TokenMetadataView) -> CreateView {
    CreateView { name: token.name, symbol: token.symbol, uri: token.image, creator: payer }
}

/// The creation of the payer's token account, if a look at that account has failed.
pub open spec fn missing_account(payer: Seq<u8>, mint: Seq<u8>, found: bool) -> Option<
    InstructionView,
> {
    if found {
        None
    } else {
        Some(
            token_account_creation(
                payer,
                payer,
                mint,
                constants::accounts::TOKEN_PROGRAM@,
                token_account_address(payer, mint)->0,
            ),
        )
    }
}

/// Creation of a token, after the upload.
pub open spec fn after_create_upload<E>(
    op: OperationView,
    reply: Result<TokenMetadataView, E>,
) -> Option<(FlowView, ActionView<E>)> {
    match reply {
        Err(error) => op.finish(Err(ClientErrorView::UploadMetadataError(error))),
        Ok(token) => match creation(op.payer, op.mint, create_args(op.payer, token)) {
            Some(create) => op.send(create_transaction(op.payer, op.mint, op.fee, create)),
            None => None,
        },
    }
}

/// Creation with a first purchase, after the upload.
pub open spec fn after_launch_upload<E>(
    op: OperationView,
    amount_sol: u64,
    slippage: u64,
    reply: Result<TokenMetadataView, E>,
) -> Option<(FlowView, ActionView<E>)> {
    match reply {
        Err(error) => op.finish(Err(ClientErrorView::UploadMetadataError(error))),
        Ok(token) => op.fetch(
            StageView::LaunchGlobal { amount_sol, slippage, token },
            global_address(),
        ),
    }
}

/// Creation with a first purchase, after the global account.
pub open spec fn after_launch_global<E>(
    op: OperationView,
    amount_sol: u64,
    slippage: u64,
    token: TokenMetadataView,
    reply: Result<Seq<u8>, E>,
) -> Option<(FlowView, ActionView<E>)> {
    match read_global(reply) {
        Err(error) => op.finish(Err(error)),
        Ok(global) => op.fetch(
            StageView::LaunchAccount {
                token,
                fee_recipient: global.fee_recipient,
                amount: global.initial_buy_price(amount_sol) as u64,
                max_sol_cost: raised(amount_sol as nat, slippage as nat) as u64,
            },
            token_account_address(op.payer, op.mint),
        ),
    }
}

/// Creation with a first purchase, after the look at the payer's token account.
pub open spec fn after_launch_account<E>(
    op: OperationView,
    token: TokenMetadataView,
    fee_recipient: Seq<u8>,
    amount: u64,
    max_sol_cost: u64,
    found: bool,
) -> Option<(FlowView, ActionView<E>)> {
    match (
        creation(op.payer, op.mint, create_args(op.payer, token)),
        purchase(op.payer, op.mint, fee_recipient, amount, max_sol_cost),
    ) {
        (Some(create), Some(buy)) => op.send(
            create_and_buy_transaction(
                op.payer,
                op.mint,
                op.fee,
                create,
                missing_account(op.payer, op.mint, found),
                buy,
            ),
        ),
        _ => None,
    }
}

/// Purchase, after the global account.
pub open spec fn after_buy_global<E>(
    op: OperationView,
    amount_sol: u64,
    slippage: u64,
    reply: Result<Seq<u8>, E>,
) -> Option<(FlowView, ActionView<E>)> {
    match read_global(reply) {
        Err(error) => op.finish(Err(error)),
        Ok(global) => match bonding_curve_address(op.mint) {
            None => op.finish(Err(ClientErrorView::BondingCurveNotFound)),
            Some(curve) => op.fetch(
                StageView::BuyCurve { amount_sol, slippage, fee_recipient: global.fee_recipient },
                Some(curve),
            ),
        },
    }
}

/// Purchase, after the bonding curve account.
pub open spec fn after_buy_curve<E>(
    op: OperationView,
    amount_sol: u64,
    slippage: u64,
    fee_recipient: Seq<u8>,
    reply: Result<Seq<u8>, E>,
) -> Option<(FlowView, ActionView<E>)> {
    match read_curve(reply) {
        Err(error) => op.finish(Err(error)),
        Ok(curve) => match curve.buy_quote(amount_sol) {
            Err(error) => op.finish(Err(ClientErrorView::BondingCurveError(error))),
            Ok(tokens) => op.fetch(
                StageView::BuyAccount {
                    fee_recipient,
                    amount: tokens as u64,
                    max_sol_cost: raised(amount_sol as nat, slippage as nat) as u64,
                },
                token_account_address(op.payer, op.mint),
            ),
        },
    }
}

/// Purchase, after the look at the payer's token account.
pub open spec fn after_buy_account<E>(
    op: OperationView,
    fee_recipient: Seq<u8>,
    amount: u64,
    max_sol_cost: u64,
    found: bool,
) -> Option<(FlowView, ActionView<E>)> {
    match purchase(op.payer, op.mint, fee_recipient, amount, max_sol_cost) {
        Some(buy) => op.send(
            buy_transaction(
                op.payer,
                op.fee,
                missing_account(op.payer, op.mint, found),
                buy,
            ),
        ),
        None => None,
    }
}

/// Sale, after the balance: what is sold is the given amount, or else the balance. A balance that
/// is no amount ends the sale, whether or not an amount is given.
pub open spec fn after_sell_balance<E>(
    op: OperationView,
    amount_token: Option<u64>,
    slippage: u64,
    reply: Result<Seq<char>, E>,
) -> Option<(FlowView, ActionView<E>)> {
    match reply {
        Err(error) => op.finish(Err(ClientErrorView::SolanaClientError(error))),
        Ok(text) => match amount_of(encode_utf8(text)) {
            Some(balance) => op.fetch(
                StageView::SellGlobal {
                    amount: match amount_token {
                        Some(amount) => amount,
                        None => balance,
                    },
                    slippage,
                },
                global_address(),
            ),
            None => op.finish(Err(ClientErrorView::InvalidBalance(text))),
        },
    }
}

/// Sale, after the global account.
pub open spec fn after_sell_global<E>(
    op: OperationView,
    amount: u64,
    slippage: u64,
    reply: Result<Seq<u8>, E>,
) -> Option<(FlowView, ActionView<E>)> {
    match read_global(reply) {
        Err(error) => op.finish(Err(error)),
        Ok(global) => match bonding_curve_address(op.mint) {
            None => op.finish(Err(ClientErrorView::BondingCurveNotFound)),
            Some(curve) => op.fetch(
                StageView::SellCurve {
                    amount,
                    slippage,
                    fee_recipient: global.fee_recipient,
                    fee_basis_points: global.fee_basis_points,
                },
                Some(curve),
            ),
        },
    }
}

/// Sale, after the bonding curve account.
pub open spec fn after_sell_curve<E>(
    op: OperationView,
    amount: u64,
    slippage: u64,
    fee_recipient: Seq<u8>,
    fee_basis_points: u64,
    reply: Result<Seq<u8>, E>,
) -> Option<(FlowView, ActionView<E>)> {
    match read_curve(reply) {
        Err(error) => op.finish(Err(error)),
        Ok(curve) => match curve.sell_quote(amount, fee_basis_points) {
            Err(error) => op.finish(Err(ClientErrorView::BondingCurveError(error))),
            Ok(lamports) => match sale(
                op.payer,
                op.mint,
                fee_recipient,
                amount,
                lowered(lamports, slippage as nat) as u64,
            ) {
                Some(sell) => op.send(sell_transaction(op.payer, op.fee, sell)),
                None => None,
            },
        },
    }
}

/// Every operation, after its transaction was sent.
pub open spec fn after_sending<E>(op: OperationView, reply: Result<Signature, E>) -> Option<
    (FlowView, ActionView<E>),
> {
    match reply {
        Ok(signature) => op.finish(Ok(signature)),
        Err(error) => op.finish(Err(ClientErrorView::AnchorClientError(error))),
    }
}

/// The given slippage, or the default.
pub open spec fn slippage_or_default(slippage_basis_points: Option<u64>) -> u64 {
    match slippage_basis_points {
        Some(slippage) => slippage,
        None => DEFAULT_SLIPPAGE,
    }
}

/// How the creation of a token begins.
pub open spec fn start_create<E>(op: OperationView, metadata: CreateTokenMetadata) -> (
    FlowView,
    ActionView<E>,
) {
    (op.at(StageView::CreateUpload), ActionView::UploadMetadata(metadata))
}

/// How the creation of a token with a first purchase begins.
pub open spec fn start_create_and_buy<E>(
    op: OperationView,
    metadata: CreateTokenMetadata,
    amount_sol: u64,
    slippage_basis_points: Option<u64>,
) -> (FlowView, ActionView<E>) {
    (
        op.at(
            StageView::LaunchUpload {
                amount_sol,
                slippage: slippage_or_default(slippage_basis_points),
            },
        ),
        ActionView::UploadMetadata(metadata),
    )
}

/// How a purchase begins.
pub open spec fn start_buy<E>(
    op: OperationView,
    amount_sol: u64,
    slippage_basis_points: Option<u64>,
) -> Option<(FlowView, ActionView<E>)> {
    op.fetch(
        StageView::BuyGlobal { amount_sol, slippage: slippage_or_default(slippage_basis_points) },
        global_address(),
    )
}

/// How a sale begins.
pub open spec fn start_sell<E>(
    op: OperationView,
    amount_token: Option<u64>,
    slippage_basis_points: Option<u64>,
) -> Option<(FlowView, ActionView<E>)> {
    match token_account_address(op.payer, op.mint) {
        Some(address) => Some(
            (
                op.at(
                    StageView::SellBalance {
                        amount_token,
                        slippage: slippage_or_default(slippage_basis_points),
                    },
                ),
                ActionView::FetchTokenBalance(address),
            ),
        ),
        None => None,
    }
}

/// What an operation does when `event` reaches it. `None` where it does not wait for such an event,
/// where an account that it needs has no address, or where a text is too long to be encoded.
pub open spec fn step<E>(flow: FlowView, event: EventView<E>) -> Option<(FlowView, ActionView<E>)> {
    match (flow.stage, event) {
        (StageView::CreateUpload, EventView::Uploaded(reply)) => after_create_upload(flow.operation, reply),
        (StageView::LaunchUpload { amount_sol, slippage }, EventView::Uploaded(reply)) =>
            after_launch_upload(flow.operation, amount_sol, slippage, reply),
        (StageView::LaunchGlobal { amount_sol, slippage, token }, EventView::Account(reply)) =>
            after_launch_global(flow.operation, amount_sol, slippage, token, reply),
        (
            StageView::LaunchAccount { token, fee_recipient, amount, max_sol_cost },
            EventView::Account(reply),
        ) => after_launch_account(flow.operation, token, fee_recipient, amount, max_sol_cost, reply is Ok),
        (StageView::BuyGlobal { amount_sol, slippage }, EventView::Account(reply)) =>
            after_buy_global(flow.operation, amount_sol, slippage, reply),
        (
            StageView::BuyCurve { amount_sol, slippage, fee_recipient },
            EventView::Account(reply),
        ) => after_buy_curve(flow.operation, amount_sol, slippage, fee_recipient, reply),
        (
            StageView::BuyAccount { fee_recipient, amount, max_sol_cost },
            EventView::Account(reply),
        ) => after_buy_account(flow.operation, fee_recipient, amount, max_sol_cost, reply is Ok),
        (StageView::SellBalance { amount_token, slippage }, EventView::Balance(reply)) =>
            after_sell_balance(flow.operation, amount_token, slippage, reply),
        (StageView::SellGlobal { amount, slippage }, EventView::Account(reply)) =>
            after_sell_global(flow.operation, amount, slippage, reply),
        (
            StageView::SellCurve { amount, slippage, fee_recipient, fee_basis_points },
            EventView::Account(reply),
        ) => after_sell_curve(flow.operation, amount, slippage, fee_recipient, fee_basis_points, reply),
        (StageView::Sending, EventView::Sent(reply)) => after_sending(flow.operation, reply),
        _ => None,
    }
}

/// A report of the upload, with its texts as sequences.
pub open spec fn token_view<E>(reply: Result<TokenMetadata, E>) -> Result<TokenMetadataView, E> {
    match reply {
        Ok(token) => Ok(token@),
        Err(error) => Err(error),
    }
}

/// A text that was read, as a sequence.
pub open spec fn text_view<E>(reply: Result<String, E>) -> Result<Seq<char>, E> {
    match reply {
        Ok(text) => Ok(text@),
        Err(error) => Err(error),
    }
}

impl Operation {
    /// The operation at a stage.
    fn at(&self, stage: Stage) -> (flow: Flow)
        ensures
            flow@ == self@.at(stage@),
    {
        Flow { operation: *self, stage }
    }

    /// Asks for the account at an address.
    fn fetch<E>(&self, stage: Stage, address: Pubkey) -> (next: Option<(Flow, Action<E>)>)
        ensures
            step_view(next) == self@.fetch::<E>(stage@, Some(address@)),
    {
        Some((self.at(stage), Action::FetchAccount(address)))
    }

    /// Sends the transaction.
    fn send<E>(&self, request: TransactionRequest) -> (next: Option<(Flow, Action<E>)>)
        ensures
            step_view(next) == self@.send::<E>(request@),
    {
        Some((self.at(Stage::Sending), Action::Send(request)))
    }

    /// Ends with an error.
    fn fail<E>(&self, error: ClientError<E>) -> (next: Option<(Flow, Action<E>)>)
        ensures
            step_view(next) == self@.finish::<E>(Err(error@)),
    {
        Some((self.at(Stage::Finished), Action::Finish(Err(error))))
    }

    /// The instruction that creates the token from what the upload reported.
    fn creation(&self, token: TokenMetadata) -> (create: Option<Instruction>)
        ensures
            optional_view(create) == creation(
                self.payer@,
                self.mint@,
                create_args(self.payer@, token@),
            ),
    {
        instruction::create(
            &self.payer,
            &self.mint,
            &cpi::instruction::Create {
                _name: token.name,
                _symbol: token.symbol,
                _uri: token.image,
                _creator: self.payer,
            },
        )
    }

    /// The instruction that buys tokens.
    fn purchase(&self, fee_recipient: &Pubkey, amount: u64, max_sol_cost: u64) -> (buy: Option<
        Instruction,
    >)
        ensures
            optional_view(buy) == purchase(
                self.payer@,
                self.mint@,
                fee_recipient@,
                amount,
                max_sol_cost,
            ),
    {
        instruction::buy(
            &self.payer,
            &self.mint,
            fee_recipient,
            &cpi::instruction::Buy { _amount: amount, _max_sol_cost: max_sol_cost },
        )
    }

    /// The creation of the payer's token account, if a look at that account has failed.
    fn missing_account(&self, found: bool) -> (create: Option<Instruction>)
        requires
            token_account_address(self.payer@, self.mint@) is Some,
        ensures
            optional_view(create) == missing_account(self.payer@, self.mint@, found),
    {
        if found {
            None
        } else {
            Some(
                create_associated_token_account(
                    &self.payer,
                    &self.payer,
                    &self.mint,
                    &Pubkey::new(constants::accounts::TOKEN_PROGRAM),
                ),
            )
        }
    }

    /// Creation of a token, after the upload.
    fn after_create_upload<E>(&self, reply: Result<TokenMetadata, E>) -> (next: Option<
        (Flow, Action<E>),
    >)
        ensures
            step_view(next) == after_create_upload(self@, token_view(reply)),
    {
        match reply {
            Err(error) => self.fail(ClientError::UploadMetadataError(error)),
            Ok(token) => match self.creation(token) {
                Some(create) => self.send(
                    create_request(&self.payer, &self.mint, self.fee, create),
                ),
                None => None,
            },
        }
    }

    /// Creation with a first purchase, after the upload.
    fn after_launch_upload<E>(
        &self,
        amount_sol: u64,
        slippage: u64,
        reply: Result<TokenMetadata, E>,
    ) -> (next: Option<(Flow, Action<E>)>)
        ensures
            step_view(next) == after_launch_upload(self@, amount_sol, slippage, token_view(reply)),
    {
        match reply {
            Err(error) => self.fail(ClientError::UploadMetadataError(error)),
            Ok(token) => match PumpFun::try_get_global_pda() {
                Some(global) => self.fetch(
                    Stage::LaunchGlobal { amount_sol, slippage, token },
                    global,
                ),
                None => None,
            },
        }
    }

    /// Creation with a first purchase, after the global account.
    fn after_launch_global<E>(
        &self,
        amount_sol: u64,
        slippage: u64,
        token: TokenMetadata,
        reply: Result<Vec<u8>, E>,
    ) -> (next: Option<(Flow, Action<E>)>)
        ensures
            step_view(next) == after_launch_global(
                self@,
                amount_sol,
                slippage,
                token@,
                data_view(reply),
            ),
    {
        match PumpFun::get_global_account(reply) {
            Err(error) => self.fail(error),
            Ok(global) => {
                let amount: u64 = global.get_initial_buy_price(amount_sol);
                let max_sol_cost: u64 = calculate_with_slippage_buy(amount_sol, slippage);
                match token_account(&self.payer, &self.mint) {
                    Some(address) => self.fetch(
                        Stage::LaunchAccount {
                            token,
                            fee_recipient: global.fee_recipient,
                            amount,
                            max_sol_cost,
                        },
                        address,
                    ),
                    None => None,
                }
            },
        }
    }

    /// Creation with a first purchase, after the look at the payer's token account.
    fn after_launch_account<E>(
        &self,
        token: TokenMetadata,
        fee_recipient: &Pubkey,
        amount: u64,
        max_sol_cost: u64,
        found: bool,
    ) -> (next: Option<(Flow, Action<E>)>)
        ensures
            step_view(next) == after_launch_account::<E>(
                self@,
                token@,
                fee_recipient@,
                amount,
                max_sol_cost,
                found,
            ),
    {
        let create = match self.creation(token) {
            Some(create) => create,
            None => return None,
        };
        let buy = match self.purchase(fee_recipient, amount, max_sol_cost) {
            Some(buy) => buy,
            None => return None,
        };
        self.send(
            create_and_buy_request(
                &self.payer,
                &self.mint,
                self.fee,
                create,
                self.missing_account(found),
                buy,
            ),
        )
    }

    /// Purchase, after the global account.
    fn after_buy_global<E>(
        &self,
        amount_sol: u64,
        slippage: u64,
        reply: Result<Vec<u8>, E>,
    ) -> (next: Option<(Flow, Action<E>)>)
        ensures
            step_view(next) == after_buy_global(self@, amount_sol, slippage, data_view(reply)),
    {
        match PumpFun::get_global_account(reply) {
            Err(error) => self.fail(error),
            Ok(global) => match PumpFun::find_bonding_curve_account(&self.mint) {
                Err(error) => self.fail(error),
                Ok(curve) => self.fetch(
                    Stage::BuyCurve { amount_sol, slippage, fee_recipient: global.fee_recipient },
                    curve,
                ),
            },
        }
    }

    /// Purchase, after the bonding curve account.
    fn after_buy_curve<E>(
        &self,
        amount_sol: u64,
        slippage: u64,
        fee_recipient: Pubkey,
        reply: Result<Vec<u8>, E>,
    ) -> (next: Option<(Flow, Action<E>)>)
        ensures
            step_view(next) == after_buy_curve(
                self@,
                amount_sol,
                slippage,
                fee_recipient@,
                data_view(reply),
            ),
    {
        match PumpFun::get_bonding_curve_account(reply) {
            Err(error) => self.fail(error),
            Ok(curve) => match curve.get_buy_price(amount_sol) {
                Err(error) => self.fail(ClientError::BondingCurveError(error)),
                Ok(amount) => {
                    let max_sol_cost: u64 = calculate_with_slippage_buy(amount_sol, slippage);
                    match token_account(&self.payer, &self.mint) {
                        Some(address) => self.fetch(
                            Stage::BuyAccount { fee_recipient, amount, max_sol_cost },
                            address,
                        ),
                        None => None,
                    }
                },
            },
        }
    }

    /// Purchase, after the look at the payer's token account.
    fn after_buy_account<E>(
        &self,
        fee_recipient: &Pubkey,
        amount: u64,
        max_sol_cost: u64,
        found: bool,
    ) -> (next: Option<(Flow, Action<E>)>)
        ensures
            step_view(next) == after_buy_account::<E>(
                self@,
                fee_recipient@,
                amount,
                max_sol_cost,
                found,
            ),
    {
        match self.purchase(fee_recipient, amount, max_sol_cost) {
            Some(buy) => self.send(
                buy_request(&self.payer, self.fee, self.missing_account(found), buy),
            ),
            None => None,
        }
    }

    /// Sale, after the balance.
    fn after_sell_balance<E>(
        &self,
        amount_token: Option<u64>,
        slippage: u64,
        reply: Result<String, E>,
    ) -> (next: Option<(Flow, Action<E>)>)
        ensures
            step_view(next) == after_sell_balance(
                self@,
                amount_token,
                slippage,
                text_view(reply),
            ),
    {
        match reply {
            Err(error) => self.fail(ClientError::SolanaClientError(error)),
            Ok(text) => {
                let balance: u64 = match parse_amount(text.as_str()) {
                    Some(balance) => balance,
                    None => return self.fail(ClientError::InvalidBalance(text)),
                };
                let amount: u64 = amount_token.unwrap_or(balance);
                match PumpFun::try_get_global_pda() {
                    Some(global) => self.fetch(Stage::SellGlobal { amount, slippage }, global),
                    None => None,
                }
            },
        }
    }

    /// Sale, after the global account.
    fn after_sell_global<E>(
        &self,
        amount: u64,
        slippage: u64,
        reply: Result<Vec<u8>, E>,
    ) -> (next: Option<(Flow, Action<E>)>)
        ensures
            step_view(next) == after_sell_global(self@, amount, slippage, data_view(reply)),
    {
        match PumpFun::get_global_account(reply) {
            Err(error) => self.fail(error),
            Ok(global) => match PumpFun::find_bonding_curve_account(&self.mint) {
                Err(error) => self.fail(error),
                Ok(curve) => self.fetch(
                    Stage::SellCurve {
                        amount,
                        slippage,
                        fee_recipient: global.fee_recipient,
                        fee_basis_points: global.fee_basis_points,
                    },
                    curve,
                ),
            },
        }
    }

    /// Sale, after the bonding curve account.
    fn after_sell_curve<E>(
        &self,
        amount: u64,
        slippage: u64,
        fee_recipient: &Pubkey,
        fee_basis_points: u64,
        reply: Result<Vec<u8>, E>,
    ) -> (next: Option<(Flow, Action<E>)>)
        ensures
            step_view(next) == after_sell_curve(
                self@,
                amount,
                slippage,
                fee_recipient@,
                fee_basis_points,
                data_view(reply),
            ),
    {
        match PumpFun::get_bonding_curve_account(reply) {
            Err(error) => self.fail(error),
            Ok(curve) => match curve.get_sell_price(amount, fee_basis_points) {
                Err(error) => self.fail(ClientError::BondingCurveError(error)),
                Ok(lamports) => {
                    let min_sol_output: u64 = calculate_with_slippage_sell(lamports, slippage);
                    match instruction::sell(
                        &self.payer,
                        &self.mint,
                        fee_recipient,
                        &cpi::instruction::Sell {
                            _amount: amount,
                            _min_sol_output: min_sol_output,
                        },
                    ) {
                        Some(sell) => self.send(sell_request(&self.payer, self.fee, sell)),
                        None => None,
                    }
                },
            },
        }
    }

    /// Every operation, after its transaction was sent.
    fn after_sending<E>(&self, reply: Result<Signature, E>) -> (next: Option<(Flow, Action<E>)>)
        ensures
            step_view(next) == after_sending(self@, reply),
    {
        match reply {
            Ok(signature) => Some((self.at(Stage::Finished), Action::Finish(Ok(signature)))),
            Err(error) => self.fail(ClientError::AnchorClientError(error)),
        }
    }
}

impl PumpFun {
    /// What an operation of this client on `mint` is about.
    pub open spec fn operation(self, mint: Seq<u8>, fee: Option<PriorityFee>) -> OperationView {
        OperationView { payer: self.payer@, mint, fee }
    }

    /// Creates a new token with metadata by uploading metadata to IPFS and initializing on-chain
    /// accounts
    ///
    /// # Arguments
    ///
    /// * `mint` - The new token mint account that will be created
    /// * `metadata` - Token metadata including name, symbol, description and image file
    /// * `priority_fee` - Optional priority fee configuration for compute units
    ///
    /// # Returns
    ///
    /// Returns the operation, and its first action
    pub fn create<E>(
        &self,
        mint: &Pubkey,
        metadata: CreateTokenMetadata,
        priority_fee: Option<PriorityFee>,
    ) -> (start: (Flow, Action<E>))
        ensures
            (start.0@, start.1@) == start_create::<E>(
                self.operation(mint@, priority_fee),
                metadata,
            ),
    {
        let op = Operation { payer: self.payer, mint: *mint, fee: priority_fee };
        (op.at(Stage::CreateUpload), Action::UploadMetadata(metadata))
    }

    /// Creates a new token and immediately buys an initial amount in a single atomic transaction
    ///
    /// # Arguments
    ///
    /// * `mint` - The new token mint
    /// * `metadata` - Token metadata to upload to IPFS
    /// * `amount_sol` - Amount of SOL to spend on initial buy in lamports
    /// * `slippage_basis_points` - Optional maximum acceptable slippage in basis points (1 bp = 0.01%). Defaults to 500
    /// * `priority_fee` - Optional priority fee configuration for compute units
    ///
    /// # Returns
    ///
    /// Returns the operation, and its first action
    pub fn create_and_buy<E>(
        &self,
        mint: &Pubkey,
        metadata: CreateTokenMetadata,
        amount_sol: u64,
        slippage_basis_points: Option<u64>,
        priority_fee: Option<PriorityFee>,
    ) -> (start: (Flow, Action<E>))
        ensures
            (start.0@, start.1@) == start_create_and_buy::<E>(
                self.operation(mint@, priority_fee),
                metadata,
                amount_sol,
                slippage_basis_points,
            ),
    {
        let op = Operation { payer: self.payer, mint: *mint, fee: priority_fee };
        let slippage: u64 = slippage_basis_points.unwrap_or(DEFAULT_SLIPPAGE);
        (op.at(Stage::LaunchUpload { amount_sol, slippage }), Action::UploadMetadata(metadata))
    }

    /// Buys tokens from a bonding curve by spending SOL
    ///
    /// # Arguments
    ///
    /// * `mint` - Public key of the token mint to buy
    /// * `amount_sol` - Amount of SOL to spend in lamports
    /// * `slippage_basis_points` - Optional maximum acceptable slippage in basis points (1 bp = 0.01%). Defaults to 500
    /// * `priority_fee` - Optional priority fee configuration for compute units
    ///
    /// # Returns
    ///
    /// Returns the operation and its first action, or None where the global account has no address
    pub fn buy<E>(
        &self,
        mint: &Pubkey,
        amount_sol: u64,
        slippage_basis_points: Option<u64>,
        priority_fee: Option<PriorityFee>,
    ) -> (start: Option<(Flow, Action<E>)>)
        ensures
            step_view(start) == start_buy::<E>(
                self.operation(mint@, priority_fee),
                amount_sol,
                slippage_basis_points,
            ),
    {
        let op = Operation { payer: self.payer, mint: *mint, fee: priority_fee };
        let slippage: u64 = slippage_basis_points.unwrap_or(DEFAULT_SLIPPAGE);
        match Self::try_get_global_pda() {
            Some(global) => op.fetch(Stage::BuyGlobal { amount_sol, slippage }, global),
            None => None,
        }
    }

    /// Sells tokens back to the bonding curve in exchange for SOL
    ///
    /// # Arguments
    ///
    /// * `mint` - Public key of the token mint to sell
    /// * `amount_token` - Optional amount of tokens to sell in base units. If None, sells entire balance
    /// * `slippage_basis_points` - Optional maximum acceptable slippage in basis points (1 bp = 0.01%). Defaults to 500
    /// * `priority_fee` - Optional priority fee configuration for compute units
    ///
    /// # Returns
    ///
    /// Returns the operation and its first action, or None where the payer's token account has no
    /// address
    pub fn sell<E>(
        &self,
        mint: &Pubkey,
        amount_token: Option<u64>,
        slippage_basis_points: Option<u64>,
        priority_fee: Option<PriorityFee>,
    ) -> (start: Option<(Flow, Action<E>)>)
        ensures
            step_view(start) == start_sell::<E>(
                self.operation(mint@, priority_fee),
                amount_token,
                slippage_basis_points,
            ),
    {
        let op = Operation { payer: self.payer, mint: *mint, fee: priority_fee };
        let slippage: u64 = slippage_basis_points.unwrap_or(DEFAULT_SLIPPAGE);
        match token_account(&self.payer, mint) {
            Some(address) => Some(
                (
                    op.at(Stage::SellBalance { amount_token, slippage }),
                    Action::FetchTokenBalance(address),
                ),
            ),
            None => None,
        }
    }
}

impl Flow {
    /// Goes on with the operation, now that its last action has ended as `event` says.
    ///
    /// Returns the operation as it stands afterwards, and what it asks for next. `None` where the
    /// operation does not wait for such an event, where an account that it needs has no address, or
    /// where a text is too long to be encoded.
    pub fn resume<E>(self, event: Event<E>) -> (next: Option<(Flow, Action<E>)>)
        ensures
            step_view(next) == step(self@, event@),
    {
        let op = self.operation;
        match (self.stage, event) {
            (Stage::CreateUpload, Event::Uploaded(reply)) => op.after_create_upload(reply),
            (Stage::LaunchUpload { amount_sol, slippage }, Event::Uploaded(reply)) =>
                op.after_launch_upload(amount_sol, slippage, reply),
            (Stage::LaunchGlobal { amount_sol, slippage, token }, Event::Account(reply)) =>
                op.after_launch_global(amount_sol, slippage, token, reply),
            (
                Stage::LaunchAccount { token, fee_recipient, amount, max_sol_cost },
                Event::Account(reply),
            ) => op.after_launch_account(
                token,
                &fee_recipient,
                amount,
                max_sol_cost,
                reply.is_ok(),
            ),
            (Stage::BuyGlobal { amount_sol, slippage }, Event::Account(reply)) =>
                op.after_buy_global(amount_sol, slippage, reply),
            (Stage::BuyCurve { amount_sol, slippage, fee_recipient }, Event::Account(reply)) =>
                op.after_buy_curve(amount_sol, slippage, fee_recipient, reply),
            (Stage::BuyAccount { fee_recipient, amount, max_sol_cost }, Event::Account(reply)) =>
                op.after_buy_account(&fee_recipient, amount, max_sol_cost, reply.is_ok()),
            (Stage::SellBalance { amount_token, slippage }, Event::Balance(reply)) =>
                op.after_sell_balance(amount_token, slippage, reply),
            (Stage::SellGlobal { amount, slippage }, Event::Account(reply)) =>
                op.after_sell_global(amount, slippage, reply),
            (
                Stage::SellCurve { amount, slippage, fee_recipient, fee_basis_points },
                Event::Account(reply),
            ) => op.after_sell_curve(amount, slippage, &fee_recipient, fee_basis_points, reply),
            (Stage::Sending, Event::Sent(reply)) => op.after_sending(reply),
            _ => None,
        }
    }
}

} // verus!
