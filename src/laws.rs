use crate::address::Address;
use crate::custody::{custodial_of, CustodialAuthority};
use crate::handlers::{
    buy_result, cancel_result, list_result, listed_record, slot_after_list,
    slot_after_termination,
};
use crate::state::{Buy, Cancel, EscrowAccount, EscrowError, List};
use vstd::prelude::*;

verus! {

/// A signed listing of at most the holding account's balance, into a free
/// slot whose custodial address can be derived, succeeds: the holding
/// account's owner becomes the custodial address derived from the program
/// and the new record's address, and the record is stored.
pub proof fn listing_delegates_custody(program_id: Address, ctx: List, amount: u64)
    requires
        ctx.initializer_signed,
        amount <= ctx.initializer_token_account.amount,
        custodial_of(program_id, ctx.escrow_account) is Some,
    ensures
        list_result(program_id, ctx, None, amount) matches Ok(change) && change.account
            == ctx.initializer_token_account.key && change.new_authority == custodial_of(
            program_id,
            ctx.escrow_account,
        )->0.address,
        slot_after_list(program_id, ctx, None, amount) == Some(listed_record(ctx, amount)),
{
}

/// A signed listing of more than the holding account's balance fails with
/// `InsufficientBalance` and leaves the record slot as it was.
pub proof fn listing_beyond_balance_fails(program_id: Address, ctx: List, slot: Option<EscrowAccount>, amount: u64)
    requires
        ctx.initializer_signed,
        amount > ctx.initializer_token_account.amount,
    ensures
        list_result(program_id, ctx, slot, amount) == Err::<crate::state::SetAuthority, EscrowError>(
            EscrowError::InsufficientBalance,
        ),
        slot_after_list(program_id, ctx, slot, amount) == slot,
{
}

/// A cancellation by anyone but the record's seller fails with
/// `AuthorizationMismatch`; the record stays and no authority changes.
pub proof fn cancel_by_stranger_fails(program_id: Address, ctx: Cancel, record: EscrowAccount)
    requires
        ctx.user != record.seller,
    ensures
        cancel_result(program_id, ctx, Some(record)) == Err::<crate::state::Release, EscrowError>(
            EscrowError::AuthorizationMismatch,
        ),
        slot_after_termination(cancel_result(program_id, ctx, Some(record)), Some(record)) == Some(
            record,
        ),
{
}

/// A cancellation by the signing seller over the record's holding account
/// gives the holding account back to exactly that seller and empties the
/// slot; any later cancellation or purchase of it fails with
/// `RecordMismatch`.
pub proof fn cancel_restores_seller(
    program_id: Address,
    ctx: Cancel,
    record: EscrowAccount,
    later_cancel: Cancel,
    later_buy: Buy,
)
    requires
        ctx.user == record.seller,
        ctx.user_signed,
        ctx.pda_token_account == record.token_account_pubkey,
        custodial_of(program_id, ctx.escrow_account) is Some,
    ensures
        cancel_result(program_id, ctx, Some(record)) matches Ok(release)
            && release.restore.account == record.token_account_pubkey
            && release.restore.new_authority == record.seller,
        slot_after_termination(cancel_result(program_id, ctx, Some(record)), Some(record)) is None,
        cancel_result(program_id, later_cancel, None) == Err::<crate::state::Release, EscrowError>(
            EscrowError::RecordMismatch,
        ),
        buy_result(program_id, later_buy, None) == Err::<crate::state::Sale, EscrowError>(
            EscrowError::RecordMismatch,
        ),
{
}

/// A signed purchase over the record's holding account and seller pays the
/// record's amount from the buyer to the seller, gives custody back to the
/// seller rather than to the buyer, and empties the slot.
pub proof fn purchase_pays_seller(program_id: Address, ctx: Buy, record: EscrowAccount)
    requires
        ctx.buyer_signed,
        ctx.pda_deposit_token_account == record.token_account_pubkey,
        ctx.initializer_main_account == record.seller,
        custodial_of(program_id, ctx.escrow_account) is Some,
    ensures
        buy_result(program_id, ctx, Some(record)) matches Ok(sale) && sale.payment.from == ctx.buyer
            && sale.payment.to == record.seller && sale.payment.lamports == record.amount
            && sale.restore.account == record.token_account_pubkey
            && sale.restore.new_authority == record.seller && sale.close_to == record.seller,
        slot_after_termination(buy_result(program_id, ctx, Some(record)), Some(record)) is None,
{
}

/// Deriving the custodial authority twice from the same program and record
/// gives the same address and the same signing seeds.
pub proof fn custodial_derivation_is_deterministic(
    program_id: Address,
    record: Address,
    first: Option<CustodialAuthority>,
    second: Option<CustodialAuthority>,
)
    requires
        first == custodial_of(program_id, record),
        second == custodial_of(program_id, record),
    ensures
        first == second,
{
}

/// Once a cancellation or a purchase has ended a record, no later
/// cancellation or purchase of that record succeeds.
pub proof fn terminated_record_stays_closed(
    program_id: Address,
    slot: Option<EscrowAccount>,
    ending_cancel: Cancel,
    ending_buy: Buy,
    by_cancel: bool,
    later_cancel: Cancel,
    later_buy: Buy,
)
    requires
        by_cancel ==> cancel_result(program_id, ending_cancel, slot) is Ok,
        !by_cancel ==> buy_result(program_id, ending_buy, slot) is Ok,
    ensures
        ({
            let after = if by_cancel {
                slot_after_termination(cancel_result(program_id, ending_cancel, slot), slot)
            } else {
                slot_after_termination(buy_result(program_id, ending_buy, slot), slot)
            };
            &&& cancel_result(program_id, later_cancel, after) is Err
            &&& buy_result(program_id, later_buy, after) is Err
        }),
{
}

} // verus!
