use crate::address::Address;
use crate::custody::{address_from, CustodialAuthority};
use vstd::prelude::*;

verus! {

/// Why an escrow operation was refused.
#[derive(Clone, Copy, Debug, PartialEq, Eq, Structural)]
pub enum EscrowError {
    /// The listed amount exceeds the holding account's balance.
    InsufficientBalance,
    /// The caller is not the party the operation needs, or did not sign.
    AuthorizationMismatch,
    /// An account disagrees with the record, or the record does not exist.
    RecordMismatch,
    /// No custodial address can be derived for the record.
    AddressDerivationFailed,
}

/// The persisted description of one listing.
#[derive(Clone, Copy, Debug, PartialEq, Eq)]
pub struct EscrowAccount {
    pub is_initialized: bool,
    /// The holding account placed under custody.
    pub token_account_pubkey: Address,
    /// The asset class; kept but never checked.
    pub mint_key: Address,
    pub seller: Address,
    pub amount: u64,
}

impl EscrowAccount {
    /// Bytes of a stored record: a flag, three addresses and an amount.
    pub const LEN: usize = 1 + 32 + 32 + 32 + 8;

    /// Bytes reserved for a record account, with its leading 8-byte tag.
    pub const SPACE: usize = 8 + 1 + 32 + 32 + 32 + 8;
}

/// The all-zero address, as a spec value.
pub open spec fn zero_address() -> Address {
    address_from(Seq::new(32, |i: int| 0u8))
}

/// A token account as the ledger shows it when a call starts.
#[derive(Clone, Copy, Debug, PartialEq, Eq)]
pub struct HoldingAccount {
    pub key: Address,
    pub amount: u64,
}

/// The accounts of a listing.
#[derive(Clone, Copy, Debug, PartialEq, Eq)]
pub struct List {
    /// The seller.
    pub initializer: Address,
    pub initializer_signed: bool,
    /// The seller's holding account.
    pub initializer_token_account: HoldingAccount,
    /// The address of the record to create.
    pub escrow_account: Address,
}

/// The accounts of a cancellation.
#[derive(Clone, Copy, Debug, PartialEq, Eq)]
pub struct Cancel {
    /// The caller, who must be the record's seller.
    pub user: Address,
    pub user_signed: bool,
    /// The holding account under custody.
    pub pda_token_account: Address,
    /// The address of the record.
    pub escrow_account: Address,
}

/// The accounts of a purchase.
#[derive(Clone, Copy, Debug, PartialEq, Eq)]
pub struct Buy {
    /// The buyer, who signs and pays.
    pub buyer: Address,
    pub buyer_signed: bool,
    /// The holding account under custody.
    pub pda_deposit_token_account: Address,
    /// The seller's payment destination.
    pub initializer_main_account: Address,
    /// The address of the record.
    pub escrow_account: Address,
}

/// A change of a token account's owner authority. `signer` is present when
/// the current authority is a custodial address that the protocol signs for.
#[derive(Clone, Copy, Debug, PartialEq, Eq)]
pub struct SetAuthority {
    pub account: Address,
    pub current_authority: Address,
    pub new_authority: Address,
    pub signer: Option<CustodialAuthority>,
}

/// A payment of `lamports` from `from` to `to`.
#[derive(Clone, Copy, Debug, PartialEq, Eq)]
pub struct Payment {
    pub from: Address,
    pub to: Address,
    pub lamports: u64,
}

/// What a cancellation does on the ledger: give custody back, then close
/// the record and refund its deposit to `close_to`.
#[derive(Clone, Copy, Debug, PartialEq, Eq)]
pub struct Release {
    pub restore: SetAuthority,
    pub close_to: Address,
}

/// What a purchase does on the ledger, all or nothing: pay the seller,
/// resolve custody, close the record and refund its deposit to `close_to`.
#[derive(Clone, Copy, Debug, PartialEq, Eq)]
pub struct Sale {
    pub payment: Payment,
    pub restore: SetAuthority,
    pub close_to: Address,
}

} // verus!
