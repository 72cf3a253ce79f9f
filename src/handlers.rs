use crate::address::Address;
use crate::custody::{custodial_of, find_custodial, lemma_address_from_view};
use crate::state::{
    zero_address, Buy, Cancel, EscrowAccount, EscrowError, List, Payment, Release, Sale,
    SetAuthority,
};
use vstd::prelude::*;

verus! {

/// The record that a successful listing stores.
pub open spec fn listed_record(ctx: List, amount: u64) -> EscrowAccount {
    EscrowAccount {
        is_initialized: true,
        token_account_pubkey: ctx.initializer_token_account.key,
        mint_key: zero_address(),
        seller: ctx.initializer,
        amount,
    }
}

/// The outcome of a listing against the record slot `slot`: the seller
/// must sign and hold at least `amount`, the slot must be free, and the
/// record's custodial address must be derivable. On success the holding
/// account's owner becomes that custodial address.
pub open spec fn list_result(program_id: Address, ctx: List, slot: Option<EscrowAccount>, amount: u64) -> Result<SetAuthority, EscrowError> {
    if !ctx.initializer_signed {
        Err(EscrowError::AuthorizationMismatch)
    } else if amount > ctx.initializer_token_account.amount {
        Err(EscrowError::InsufficientBalance)
    } else if slot is Some {
        Err(EscrowError::RecordMismatch)
    } else {
        match custodial_of(program_id, ctx.escrow_account) {
            None => Err(EscrowError::AddressDerivationFailed),
            Some(c) => Ok(SetAuthority {
                account: ctx.initializer_token_account.key,
                current_authority: ctx.initializer,
                new_authority: c.address,
                signer: None,
            }),
        }
    }
}

/// The record slot after a listing.
pub open spec fn slot_after_list(program_id: Address, ctx: List, slot: Option<EscrowAccount>, amount: u64) -> Option<EscrowAccount> {
    if list_result(program_id, ctx, slot, amount) is Ok {
        Some(listed_record(ctx, amount))
    } else {
        slot
    }
}

/// The outcome of a cancellation against the record slot `slot`: the record
/// must exist, the caller must be its seller and sign, and the holding
/// account must be the record's. On success custody goes back to the seller,
/// signed for by the custodial address, and the record is closed to the
/// seller.
pub open spec fn cancel_result(program_id: Address, ctx: Cancel, slot: Option<EscrowAccount>) -> Result<Release, EscrowError> {
    match slot {
        None => Err(EscrowError::RecordMismatch),
        Some(record) => if record.seller != ctx.user || !ctx.user_signed {
            Err(EscrowError::AuthorizationMismatch)
        } else if record.token_account_pubkey != ctx.pda_token_account {
            Err(EscrowError::RecordMismatch)
        } else {
            match custodial_of(program_id, ctx.escrow_account) {
                None => Err(EscrowError::AddressDerivationFailed),
                Some(c) => Ok(Release {
                    restore: SetAuthority {
                        account: ctx.pda_token_account,
                        current_authority: c.address,
                        new_authority: record.seller,
                        signer: Some(c),
                    },
                    close_to: record.seller,
                }),
            }
        },
    }
}

/// The outcome of a purchase against the record slot `slot`: the record
/// must exist, the buyer must sign, and the holding account and the
/// payment destination must be the record's. On success the buyer pays the
/// record's amount to the seller, custody goes back to the seller (not to
/// the buyer), and the record is closed to the seller.
pub open spec fn buy_result(program_id: Address, ctx: Buy, slot: Option<EscrowAccount>) -> Result<Sale, EscrowError> {
    match slot {
        None => Err(EscrowError::RecordMismatch),
        Some(record) => if !ctx.buyer_signed {
            Err(EscrowError::AuthorizationMismatch)
        } else if record.token_account_pubkey != ctx.pda_deposit_token_account
            || record.seller != ctx.initializer_main_account {
            Err(EscrowError::RecordMismatch)
        } else {
            match custodial_of(program_id, ctx.escrow_account) {
                None => Err(EscrowError::AddressDerivationFailed),
                Some(c) => Ok(Sale {
                    payment: Payment {
                        from: ctx.buyer,
                        to: ctx.initializer_main_account,
                        lamports: record.amount,
                    },
                    restore: SetAuthority {
                        account: ctx.pda_deposit_token_account,
                        current_authority: c.address,
                        new_authority: record.seller,
                        signer: Some(c),
                    },
                    close_to: record.seller,
                }),
            }
        },
    }
}

/// The record slot after a cancellation or a purchase: emptied on success.
pub open spec fn slot_after_termination<T>(r: Result<T, EscrowError>, slot: Option<EscrowAccount>) -> Option<EscrowAccount> {
    if r is Ok {
        None
    } else {
        slot
    }
}

/// Lists `initializer_amount` of the seller's holding account: stores the
/// record in `slot` and returns the authority change that hands the holding
/// account to the record's custodial address.
pub fn list(program_id: &Address, ctx: &List, slot: &mut Option<EscrowAccount>, initializer_amount: u64) -> (r: Result<SetAuthority, EscrowError>)
    ensures
        r == list_result(*program_id, *ctx, *old(slot), initializer_amount),
        *final(slot) == slot_after_list(*program_id, *ctx, *old(slot), initializer_amount),
{
    if !ctx.initializer_signed {
        return Err(EscrowError::AuthorizationMismatch);
    }
    if initializer_amount > ctx.initializer_token_account.amount {
        return Err(EscrowError::InsufficientBalance);
    }
    if slot.is_some() {
        return Err(EscrowError::RecordMismatch);
    }
    let custodial = match find_custodial(program_id, &ctx.escrow_account) {
        Some(c) => c,
        None => return Err(EscrowError::AddressDerivationFailed),
    };
    let mint_key = Address::zeroed();
    proof {
        lemma_address_from_view(mint_key);
    }
    *slot = Some(EscrowAccount {
        is_initialized: true,
        token_account_pubkey: ctx.initializer_token_account.key,
        mint_key,
        seller: ctx.initializer,
        amount: initializer_amount,
    });
    Ok(SetAuthority {
        account: ctx.initializer_token_account.key,
        current_authority: ctx.initializer,
        new_authority: custodial.address,
        signer: None,
    })
}

/// Cancels the listing in `slot`: empties it and returns the authority
/// change that gives the holding account back to the seller.
pub fn cancel(program_id: &Address, ctx: &Cancel, slot: &mut Option<EscrowAccount>) -> (r: Result<Release, EscrowError>)
    ensures
        r == cancel_result(*program_id, *ctx, *old(slot)),
        *final(slot) == slot_after_termination(r, *old(slot)),
{
    let record = match slot {
        Some(record) => *record,
        None => return Err(EscrowError::RecordMismatch),
    };
    if record.seller != ctx.user || !ctx.user_signed {
        return Err(EscrowError::AuthorizationMismatch);
    }
    if record.token_account_pubkey != ctx.pda_token_account {
        return Err(EscrowError::RecordMismatch);
    }
    let custodial = match find_custodial(program_id, &ctx.escrow_account) {
        Some(c) => c,
        None => return Err(EscrowError::AddressDerivationFailed),
    };
    *slot = None;
    Ok(Release {
        restore: SetAuthority {
            account: ctx.pda_token_account,
            current_authority: custodial.address,
            new_authority: record.seller,
            signer: Some(custodial),
        },
        close_to: record.seller,
    })
}

/// Buys the listing in `slot`: empties it and returns the payment to the
/// seller with the authority change that resolves custody (to the seller).
pub fn buy(program_id: &Address, ctx: &Buy, slot: &mut Option<EscrowAccount>) -> (r: Result<Sale, EscrowError>)
    ensures
        r == buy_result(*program_id, *ctx, *old(slot)),
        *final(slot) == slot_after_termination(r, *old(slot)),
{
    let record = match slot {
        Some(record) => *record,
        None => return Err(EscrowError::RecordMismatch),
    };
    if !ctx.buyer_signed {
        return Err(EscrowError::AuthorizationMismatch);
    }
    if record.token_account_pubkey != ctx.pda_deposit_token_account
        || record.seller != ctx.initializer_main_account {
        return Err(EscrowError::RecordMismatch);
    }
    let custodial = match find_custodial(program_id, &ctx.escrow_account) {
        Some(c) => c,
        None => return Err(EscrowError::AddressDerivationFailed),
    };
    *slot = None;
    Ok(Sale {
        payment: Payment {
            from: ctx.buyer,
            to: ctx.initializer_main_account,
            lamports: record.amount,
        },
        restore: SetAuthority {
            account: ctx.pda_deposit_token_account,
            current_authority: custodial.address,
            new_authority: record.seller,
            signer: Some(custodial),
        },
        close_to: record.seller,
    })
}

} // verus!
