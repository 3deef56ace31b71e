//! Transactions that are ready to be signed and sent.
use vstd::prelude::*;

use crate::client::PriorityFee;
use crate::instruction::{
    compute_unit_limit, compute_unit_price, set_compute_unit_limit, set_compute_unit_price,
    Instruction, InstructionView,
};
use crate::pubkey::Pubkey;

verus! {

/// The instructions of one transaction, and who signs it.
#[derive(Clone, Debug, PartialEq, Eq)]
pub struct TransactionRequest {
    /// What the transaction does, in order.
    pub instructions: Vec<Instruction>,
    /// Who signs the transaction, in order.
    pub signers: Vec<Pubkey>,
}

/// A [`TransactionRequest`] with its contents as sequences.
#[verifier::ext_equal]
pub struct TransactionRequestView {
    pub instructions: Seq<InstructionView>,
    pub signers: Seq<Seq<u8>>,
}

/// Instructions, each by its view.
pub open spec fn instruction_views(instructions: Seq<Instruction>) -> Seq<InstructionView> {
    instructions.map_values(|instruction: Instruction| instruction@)
}

/// Addresses, each by its bytes.
pub open spec fn key_views(keys: Seq<Pubkey>) -> Seq<Seq<u8>> {
    keys.map_values(|key: Pubkey| key@)
}

impl View for TransactionRequest {
    type V = TransactionRequestView;

    open spec fn view(&self) -> TransactionRequestView {
        TransactionRequestView {
            instructions: instruction_views(self.instructions@),
            signers: key_views(self.signers@),
        }
    }
}

/// The instruction that bounds the compute units, where a bound is given.
pub open spec fn limit_instructions(limit: Option<u32>) -> Seq<InstructionView> {
    match limit {
        Some(units) => seq![compute_unit_limit(units)],
        None => seq![],
    }
}

/// The instruction that sets the price of a compute unit, where a price is given.
pub open spec fn price_instructions(price: Option<u64>) -> Seq<InstructionView> {
    match price {
        Some(micro_lamports) => seq![compute_unit_price(micro_lamports)],
        None => seq![],
    }
}

/// The instructions that a priority fee puts in front of a transaction: the limit, then the price.
pub open spec fn fee_instructions(fee: Option<PriorityFee>) -> Seq<InstructionView> {
    match fee {
        Some(fee) => limit_instructions(fee.limit) + price_instructions(fee.price),
        None => seq![],
    }
}

/// The creation of a token account, where it is needed.
pub open spec fn optional(instruction: Option<InstructionView>) -> Seq<InstructionView> {
    match instruction {
        Some(instruction) => seq![instruction],
        None => seq![],
    }
}

/// The view of an optional instruction.
pub open spec fn optional_view(instruction: Option<Instruction>) -> Option<InstructionView> {
    match instruction {
        Some(instruction) => Some(instruction@),
        None => None,
    }
}

/// The transaction that creates a token.
pub open spec fn create_transaction(
    payer: Seq<u8>,
    mint: Seq<u8>,
    fee: Option<PriorityFee>,
    create: InstructionView,
) -> TransactionRequestView {
    TransactionRequestView {
        instructions: fee_instructions(fee) + seq![create],
        signers: seq![payer, mint],
    }
}

/// The transaction that creates a token and makes the first purchase of it.
pub open spec fn create_and_buy_transaction(
    payer: Seq<u8>,
    mint: Seq<u8>,
    fee: Option<PriorityFee>,
    create: InstructionView,
    token_account: Option<InstructionView>,
    buy: InstructionView,
) -> TransactionRequestView {
    TransactionRequestView {
        instructions: fee_instructions(fee) + seq![create] + optional(token_account) + seq![buy],
        signers: seq![payer, mint],
    }
}

/// The transaction that buys tokens.
pub open spec fn buy_transaction(
    payer: Seq<u8>,
    fee: Option<PriorityFee>,
    token_account: Option<InstructionView>,
    buy: InstructionView,
) -> TransactionRequestView {
    TransactionRequestView {
        instructions: fee_instructions(fee) + optional(token_account) + seq![buy],
        signers: seq![payer],
    }
}

/// The transaction that sells tokens.
pub open spec fn sell_transaction(
    payer: Seq<u8>,
    fee: Option<PriorityFee>,
    sell: InstructionView,
) -> TransactionRequestView {
    TransactionRequestView {
        instructions: fee_instructions(fee) + seq![sell],
        signers: seq![payer],
    }
}

impl TransactionRequest {
    /// A transaction that starts with the instructions of the priority fee, if any.
    pub fn new(fee: Option<PriorityFee>) -> (request: TransactionRequest)
        ensures
            request@.instructions == fee_instructions(fee),
            request@.signers.len() == 0,
    {
        let mut request = TransactionRequest { instructions: Vec::new(), signers: Vec::new() };
        assert(request@.instructions =~= seq![]);
        if let Some(fee) = fee {
            if let Some(limit) = fee.limit {
                request.instruction(set_compute_unit_limit(limit));
            }
            assert(request@.instructions =~= limit_instructions(fee.limit));
            if let Some(price) = fee.price {
                request.instruction(set_compute_unit_price(price));
            }
            assert(request@.instructions =~= fee_instructions(Some(fee)));
        }
        request
    }

    /// Adds an instruction behind the others.
    pub fn instruction(&mut self, instruction: Instruction)
        ensures
            final(self)@.instructions == old(self)@.instructions.push(instruction@),
            final(self)@.signers == old(self)@.signers,
    {
        let ghost before = self@;
        self.instructions.push(instruction);
        assert(self@.instructions =~= before.instructions.push(instruction@));
    }

    /// Adds a signer behind the others.
    pub fn signer(&mut self, signer: &Pubkey)
        ensures
            final(self)@.instructions == old(self)@.instructions,
            final(self)@.signers == old(self)@.signers.push(signer@),
    {
        let ghost before = self@;
        self.signers.push(*signer);
        assert(self@.signers =~= before.signers.push(signer@));
    }
}

/// The transaction that creates a token: the priority fee, then the creation, signed by the payer and
/// the new mint.
pub fn create_request(
    payer: &Pubkey,
    mint: &Pubkey,
    fee: Option<PriorityFee>,
    create: Instruction,
) -> (request: TransactionRequest)
    ensures
        request@ == create_transaction(payer@, mint@, fee, create@),
{
    let mut request = TransactionRequest::new(fee);
    request.instruction(create);
    request.signer(payer);
    request.signer(mint);
    assert(request@ =~= create_transaction(payer@, mint@, fee, create@));
    request
}

/// The transaction that creates a token and makes the first purchase of it: the priority fee, the
/// creation, the payer's token account where it is to be created, and the purchase, signed by the
/// payer and the new mint.
pub fn create_and_buy_request(
    payer: &Pubkey,
    mint: &Pubkey,
    fee: Option<PriorityFee>,
    create: Instruction,
    token_account: Option<Instruction>,
    buy: Instruction,
) -> (request: TransactionRequest)
    ensures
        request@ == create_and_buy_transaction(
            payer@,
            mint@,
            fee,
            create@,
            optional_view(token_account),
            buy@,
        ),
{
    let mut request = TransactionRequest::new(fee);
    request.instruction(create);
    let ghost wanted = optional_view(token_account);
    if let Some(instruction) = token_account {
        request.instruction(instruction);
    }
    request.instruction(buy);
    request.signer(payer);
    request.signer(mint);
    assert(request@ =~= create_and_buy_transaction(payer@, mint@, fee, create@, wanted, buy@));
    request
}

/// The transaction that buys tokens: the priority fee, the payer's token account where it is to be
/// created, and the purchase, signed by the payer.
pub fn buy_request(
    payer: &Pubkey,
    fee: Option<PriorityFee>,
    token_account: Option<Instruction>,
    buy: Instruction,
) -> (request: TransactionRequest)
    ensures
        request@ == buy_transaction(payer@, fee, optional_view(token_account), buy@),
{
    let mut request = TransactionRequest::new(fee);
    let ghost wanted = optional_view(token_account);
    if let Some(instruction) = token_account {
        request.instruction(instruction);
    }
    request.instruction(buy);
    request.signer(payer);
    assert(request@ =~= buy_transaction(payer@, fee, wanted, buy@));
    request
}

/// The transaction that sells tokens: the priority fee, then the sale, signed by the payer.
pub fn sell_request(payer: &Pubkey, fee: Option<PriorityFee>, sell: Instruction) -> (request:
    TransactionRequest)
    ensures
        request@ == sell_transaction(payer@, fee, sell@),
{
    let mut request = TransactionRequest::new(fee);
    request.instruction(sell);
    request.signer(payer);
    assert(request@ =~= sell_transaction(payer@, fee, sell@));
    request
}

} // verus!
