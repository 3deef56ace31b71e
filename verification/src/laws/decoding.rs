//! What the bytes of an account say.
use vstd::bytes::{lemma_auto_spec_u64_to_from_le_bytes, spec_u64_to_le_bytes};
use vstd::prelude::*;

use crate::accounts::{
    bonding_curve_account, byte_text, curve_decoded, curve_of, global_account, global_decoded,
    global_of, no_flag, BondingCurveAccount, CurveFields, GlobalAccountView, GlobalFields,
};
use crate::client::{read_curve, read_global};
use crate::error::ClientErrorView;
use crate::laws::instructions::number_at;
use crate::utils::{amount_of, decimal, is_digit};

verus! {

/// A flag as a byte.
pub open spec fn flag(set: bool) -> Seq<u8> {
    if set {
        seq![1u8]
    } else {
        seq![0u8]
    }
}

/// A global account that is written down field by field is read back as it was, whatever its fields
/// hold.
pub proof fn global_account_is_read_back(account: GlobalAccountView)
    requires
        account.authority.len() == 32,
        account.fee_recipient.len() == 32,
    ensures
        global_account(
            spec_u64_to_le_bytes(account.discriminator) + flag(account.initialized)
                + account.authority + account.fee_recipient + spec_u64_to_le_bytes(
                account.initial_virtual_token_reserves,
            ) + spec_u64_to_le_bytes(account.initial_virtual_sol_reserves) + spec_u64_to_le_bytes(
                account.initial_real_token_reserves,
            ) + spec_u64_to_le_bytes(account.token_total_supply) + spec_u64_to_le_bytes(
                account.fee_basis_points,
            ),
        ) == Ok::<GlobalAccountView, Seq<char>>(account),
{
    lemma_auto_spec_u64_to_from_le_bytes();
    let data = spec_u64_to_le_bytes(account.discriminator) + flag(account.initialized)
        + account.authority + account.fee_recipient + spec_u64_to_le_bytes(
        account.initial_virtual_token_reserves,
    ) + spec_u64_to_le_bytes(account.initial_virtual_sol_reserves) + spec_u64_to_le_bytes(
        account.initial_real_token_reserves,
    ) + spec_u64_to_le_bytes(account.token_total_supply) + spec_u64_to_le_bytes(
        account.fee_basis_points,
    );
    assert(data.subrange(0, 8) =~= spec_u64_to_le_bytes(account.discriminator));
    assert(data.subrange(9, 41) =~= account.authority);
    assert(data.subrange(41, 73) =~= account.fee_recipient);
    assert(data.subrange(73, 81) =~= spec_u64_to_le_bytes(account.initial_virtual_token_reserves));
    assert(data.subrange(81, 89) =~= spec_u64_to_le_bytes(account.initial_virtual_sol_reserves));
    assert(data.subrange(89, 97) =~= spec_u64_to_le_bytes(account.initial_real_token_reserves));
    assert(data.subrange(97, 105) =~= spec_u64_to_le_bytes(account.token_total_supply));
    assert(data.subrange(105, 113) =~= spec_u64_to_le_bytes(account.fee_basis_points));
}

/// A bonding curve account that is written down field by field is read back as it was, whatever its
/// fields hold.
pub proof fn bonding_curve_account_is_read_back(account: BondingCurveAccount)
    ensures
        bonding_curve_account(
            spec_u64_to_le_bytes(account.discriminator) + spec_u64_to_le_bytes(
                account.virtual_token_reserves,
            ) + spec_u64_to_le_bytes(account.virtual_sol_reserves) + spec_u64_to_le_bytes(
                account.real_token_reserves,
            ) + spec_u64_to_le_bytes(account.real_sol_reserves) + spec_u64_to_le_bytes(
                account.token_total_supply,
            ) + flag(account.complete),
        ) == Ok::<BondingCurveAccount, Seq<char>>(account),
{
    lemma_auto_spec_u64_to_from_le_bytes();
    let data = spec_u64_to_le_bytes(account.discriminator) + spec_u64_to_le_bytes(
        account.virtual_token_reserves,
    ) + spec_u64_to_le_bytes(account.virtual_sol_reserves) + spec_u64_to_le_bytes(
        account.real_token_reserves,
    ) + spec_u64_to_le_bytes(account.real_sol_reserves) + spec_u64_to_le_bytes(
        account.token_total_supply,
    ) + flag(account.complete);
    assert(data.subrange(0, 8) =~= spec_u64_to_le_bytes(account.discriminator));
    assert(data.subrange(8, 16) =~= spec_u64_to_le_bytes(account.virtual_token_reserves));
    assert(data.subrange(16, 24) =~= spec_u64_to_le_bytes(account.virtual_sol_reserves));
    assert(data.subrange(24, 32) =~= spec_u64_to_le_bytes(account.real_token_reserves));
    assert(data.subrange(32, 40) =~= spec_u64_to_le_bytes(account.real_sol_reserves));
    assert(data.subrange(40, 48) =~= spec_u64_to_le_bytes(account.token_total_supply));
}

/// Where each field of an account stands in its bytes.
pub proof fn fields_stand_in_order(global: Seq<u8>, curve: Seq<u8>)
    ensures
        global.len() == 113 && global[8] <= 1 ==> global_account(global) is Ok,
        global_account(global) matches Ok(account) ==> {
            &&& account.discriminator == number_at(global, 0)
            &&& account.initialized == (global[8] == 1)
            &&& account.authority == global.subrange(9, 41)
            &&& account.fee_recipient == global.subrange(41, 73)
            &&& account.initial_virtual_token_reserves == number_at(global, 73)
            &&& account.initial_virtual_sol_reserves == number_at(global, 81)
            &&& account.initial_real_token_reserves == number_at(global, 89)
            &&& account.token_total_supply == number_at(global, 97)
            &&& account.fee_basis_points == number_at(global, 105)
        },
        curve.len() == 49 && curve[48] <= 1 ==> bonding_curve_account(curve) is Ok,
        bonding_curve_account(curve) matches Ok(account) ==> {
            &&& account.discriminator == number_at(curve, 0)
            &&& account.virtual_token_reserves == number_at(curve, 8)
            &&& account.virtual_sol_reserves == number_at(curve, 16)
            &&& account.real_token_reserves == number_at(curve, 24)
            &&& account.real_sol_reserves == number_at(curve, 32)
            &&& account.token_total_supply == number_at(curve, 40)
            &&& account.complete == (curve[48] == 1)
        },
{
}

/// Bytes that are cut off, that go on, or whose flag is no flag, are no account, and are refused with
/// what is wrong first.
pub proof fn damaged_accounts_are_refused(data: Seq<u8>)
    ensures
        data.len() < 113 && (data.len() <= 8 || data[8] <= 1) ==> global_account(data) == Err::<
            GlobalAccountView,
            Seq<char>,
        >("Unexpected length of input"@),
        data.len() > 113 && data[8] <= 1 ==> global_account(data) == Err::<
            GlobalAccountView,
            Seq<char>,
        >("Not all bytes read"@),
        data.len() > 8 && data[8] > 1 ==> global_account(data) == Err::<
            GlobalAccountView,
            Seq<char>,
        >("Invalid bool representation: "@ + byte_text(data[8])),
        data.len() < 49 ==> bonding_curve_account(data) == Err::<BondingCurveAccount, Seq<char>>(
            "Unexpected length of input"@,
        ),
        data.len() > 49 && data[48] <= 1 ==> bonding_curve_account(data) == Err::<
            BondingCurveAccount,
            Seq<char>,
        >("Not all bytes read"@),
        data.len() >= 49 && data[48] > 1 ==> bonding_curve_account(data) == Err::<
            BondingCurveAccount,
            Seq<char>,
        >("Invalid bool representation: "@ + byte_text(data[48])),
{
    assert(no_flag(data[8]) =~= "Invalid bool representation: "@ + byte_text(data[8]));
    assert(no_flag(data[48]) =~= "Invalid bool representation: "@ + byte_text(data[48]));
}

/// The digits of a byte write that byte, without a leading zero.
pub proof fn byte_text_writes_the_byte(byte: u8)
    ensures
        amount_of(byte_text(byte).map_values(|c: char| c as u8)) == Some(byte as u64),
        byte_text(byte).len() > 1 ==> byte_text(byte)[0] != '0',
        forall|i: int| 0 <= i < byte_text(byte).len() ==> '0' <= #[trigger] byte_text(byte)[i]
            <= '9',
{
    reveal_with_fuel(decimal, 4);
    let digits = byte_text(byte).map_values(|c: char| c as u8);
    assert(forall|i: int| 0 <= i < digits.len() ==> is_digit(#[trigger] digits[i]));
    assert(decimal(digits) == byte);
}

/// An account that was read is the one that its bytes say; one that was not read, or whose bytes are
/// no account, is the error that says so.
pub proof fn replies_are_read_as_they_are<E>(data: Seq<u8>, error: E)
    ensures
        read_global::<E>(Ok(data)) == match global_account(data) {
            Ok(account) => Ok(account),
            Err(message) => Err(ClientErrorView::<E>::BorshError(message)),
        },
        read_curve::<E>(Ok(data)) == match bonding_curve_account(data) {
            Ok(account) => Ok(account),
            Err(message) => Err(ClientErrorView::<E>::BorshError(message)),
        },
        read_global::<E>(Err(error)) == Err::<GlobalAccountView, ClientErrorView<E>>(
            ClientErrorView::SolanaClientError(error),
        ),
        read_curve::<E>(Err(error)) == Err::<BondingCurveAccount, ClientErrorView<E>>(
            ClientErrorView::SolanaClientError(error),
        ),
{
}

/// The decoded fields of an account are its fields, one for one, and a message of the decoder is that
/// message.
pub proof fn decoded_fields_are_kept(global: GlobalFields, curve: CurveFields, message: String)
    ensures
        global_of(global).discriminator == global.0,
        global_of(global).initialized == global.1,
        global_of(global).authority == global.2@,
        global_of(global).fee_recipient == global.3@,
        global_of(global).initial_virtual_token_reserves == global.4,
        global_of(global).initial_virtual_sol_reserves == global.5,
        global_of(global).initial_real_token_reserves == global.6,
        global_of(global).token_total_supply == global.7,
        global_of(global).fee_basis_points == global.8,
        curve_of(curve).discriminator == curve.0,
        curve_of(curve).virtual_token_reserves == curve.1,
        curve_of(curve).virtual_sol_reserves == curve.2,
        curve_of(curve).real_token_reserves == curve.3,
        curve_of(curve).real_sol_reserves == curve.4,
        curve_of(curve).token_total_supply == curve.5,
        curve_of(curve).complete == curve.6,
        global_decoded(Ok(global)) == Ok::<GlobalAccountView, Seq<char>>(global_of(global)),
        global_decoded(Err(message)) == Err::<GlobalAccountView, Seq<char>>(message@),
        curve_decoded(Ok(curve)) == Ok::<BondingCurveAccount, Seq<char>>(curve_of(curve)),
        curve_decoded(Err(message)) == Err::<BondingCurveAccount, Seq<char>>(message@),
{
}

} // verus!
