//! What every transaction holds, in which order, and who signs it.
use vstd::prelude::*;

use crate::client::PriorityFee;
use crate::instruction::InstructionView;
use crate::laws::instructions::{begins_with_fee, fee_count, fees_are_readable};
use crate::request::{
    buy_transaction, create_and_buy_transaction, create_transaction, fee_instructions,
    sell_transaction, TransactionRequestView,
};

verus! {

/// Whether a transaction holds the instructions of its priority fee, then the given ones in order and
/// nothing else, and is signed by the given accounts in order.
pub open spec fn holds(
    transaction: TransactionRequestView,
    fee: Option<PriorityFee>,
    instructions: Seq<InstructionView>,
    signers: Seq<Seq<u8>>,
) -> bool {
    &&& begins_with_fee(transaction.instructions, fee)
    &&& transaction.instructions.skip(fee_count(fee)) == instructions
    &&& transaction.signers == signers
}

/// What a priority fee puts in front stays in front.
proof fn lemma_behind_the_fee(fee: Option<PriorityFee>, instructions: Seq<InstructionView>)
    ensures
        begins_with_fee(fee_instructions(fee) + instructions, fee),
        (fee_instructions(fee) + instructions).skip(fee_count(fee)) == instructions,
{
    fees_are_readable(fee);
    let all = fee_instructions(fee) + instructions;
    assert(forall|i: int| 0 <= i < fee_count(fee) ==> all[i] == #[trigger] fee_instructions(fee)[i]);
    assert(all.skip(fee_count(fee)) =~= instructions);
}

/// A creation is one instruction behind the fee; a creation with a first purchase is the creation, the
/// payer's token account where it is to be created, and the purchase at the end; both are signed by
/// the payer and the new mint. This is so for every priority fee.
pub proof fn creations_are_complete(
    payer: Seq<u8>,
    mint: Seq<u8>,
    fee: Option<PriorityFee>,
    create: InstructionView,
    account: InstructionView,
    buy: InstructionView,
)
    ensures
        holds(
            create_transaction(payer, mint, fee, create),
            fee,
            seq![create],
            seq![payer, mint],
        ),
        holds(
            create_and_buy_transaction(payer, mint, fee, create, None, buy),
            fee,
            seq![create, buy],
            seq![payer, mint],
        ),
        holds(
            create_and_buy_transaction(payer, mint, fee, create, Some(account), buy),
            fee,
            seq![create, account, buy],
            seq![payer, mint],
        ),
        create_and_buy_transaction(payer, mint, fee, create, None, buy).instructions.last() == buy,
        create_and_buy_transaction(payer, mint, fee, create, Some(account), buy).instructions.last()
            == buy,
{
    let one = create_and_buy_transaction(payer, mint, fee, create, None, buy);
    let other = create_and_buy_transaction(payer, mint, fee, create, Some(account), buy);
    lemma_behind_the_fee(fee, seq![create]);
    lemma_behind_the_fee(fee, seq![create, buy]);
    lemma_behind_the_fee(fee, seq![create, account, buy]);
    assert(one.instructions =~= fee_instructions(fee) + seq![create, buy]);
    assert(other.instructions =~= fee_instructions(fee) + seq![create, account, buy]);
}

/// A purchase is the payer's token account where it is to be created, and the purchase at the end; a
/// sale is one instruction; both are signed by the payer alone. This is so for every priority fee.
pub proof fn trades_are_complete(
    payer: Seq<u8>,
    fee: Option<PriorityFee>,
    account: InstructionView,
    trade: InstructionView,
)
    ensures
        holds(buy_transaction(payer, fee, None, trade), fee, seq![trade], seq![payer]),
        holds(
            buy_transaction(payer, fee, Some(account), trade),
            fee,
            seq![account, trade],
            seq![payer],
        ),
        holds(sell_transaction(payer, fee, trade), fee, seq![trade], seq![payer]),
{
    lemma_behind_the_fee(fee, seq![trade]);
    lemma_behind_the_fee(fee, seq![account, trade]);
    assert(buy_transaction(payer, fee, None, trade).instructions =~= fee_instructions(fee)
        + seq![trade]);
    assert(buy_transaction(payer, fee, Some(account), trade).instructions =~= fee_instructions(fee)
        + seq![account, trade]);
}

/// A priority fee only comes in front: two transactions that differ in nothing but their fees do the
/// same behind it, and are signed by the same accounts.
pub proof fn fees_only_come_in_front(
    payer: Seq<u8>,
    mint: Seq<u8>,
    fee: Option<PriorityFee>,
    other: Option<PriorityFee>,
    create: InstructionView,
    account: Option<InstructionView>,
    trade: InstructionView,
)
    ensures
        create_transaction(payer, mint, fee, create).instructions.skip(fee_count(fee))
            == create_transaction(payer, mint, other, create).instructions.skip(fee_count(other)),
        create_and_buy_transaction(
            payer,
            mint,
            fee,
            create,
            account,
            trade,
        ).instructions.skip(fee_count(fee)) == create_and_buy_transaction(
            payer,
            mint,
            other,
            create,
            account,
            trade,
        ).instructions.skip(fee_count(other)),
        buy_transaction(payer, fee, account, trade).instructions.skip(fee_count(fee))
            == buy_transaction(payer, other, account, trade).instructions.skip(fee_count(other)),
        sell_transaction(payer, fee, trade).instructions.skip(fee_count(fee)) == sell_transaction(
            payer,
            other,
            trade,
        ).instructions.skip(fee_count(other)),
        create_transaction(payer, mint, fee, create).signers == create_transaction(
            payer,
            mint,
            other,
            create,
        ).signers,
        create_and_buy_transaction(payer, mint, fee, create, account, trade).signers
            == create_and_buy_transaction(payer, mint, other, create, account, trade).signers,
        buy_transaction(payer, fee, account, trade).signers == buy_transaction(
            payer,
            other,
            account,
            trade,
        ).signers,
        sell_transaction(payer, fee, trade).signers == sell_transaction(
            payer,
            other,
            trade,
        ).signers,
{
    let opened = match account {
        Some(instruction) => instruction,
        None => trade,
    };
    creations_are_complete(payer, mint, fee, create, opened, trade);
    creations_are_complete(payer, mint, other, create, opened, trade);
    trades_are_complete(payer, fee, opened, trade);
    trades_are_complete(payer, other, opened, trade);
}

} // verus!
