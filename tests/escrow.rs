use anchor_escrow::{
    buy, cancel, escrow_seed, find_custodial, list, Address, Buy, Cancel, EscrowAccount,
    EscrowError, HoldingAccount, List,
};
use anchor_lang::solana_program::pubkey::Pubkey;

fn addr(b: u8) -> Address {
    Address::new([b; 32])
}

fn program() -> Address {
    addr(7)
}

fn seller() -> Address {
    addr(1)
}

fn holding() -> Address {
    addr(2)
}

fn record_key() -> Address {
    addr(3)
}

fn buyer() -> Address {
    addr(4)
}

fn list_ctx(balance: u64, signed: bool) -> List {
    List {
        initializer: seller(),
        initializer_signed: signed,
        initializer_token_account: HoldingAccount { key: holding(), amount: balance },
        escrow_account: record_key(),
    }
}

fn cancel_ctx(user: Address, signed: bool, account: Address) -> Cancel {
    Cancel { user, user_signed: signed, pda_token_account: account, escrow_account: record_key() }
}

fn buy_ctx(signed: bool, account: Address, destination: Address) -> Buy {
    Buy {
        buyer: buyer(),
        buyer_signed: signed,
        pda_deposit_token_account: account,
        initializer_main_account: destination,
        escrow_account: record_key(),
    }
}

fn listed(amount: u64) -> Option<EscrowAccount> {
    let mut slot = None;
    list(&program(), &list_ctx(500, true), &mut slot, amount).unwrap();
    slot
}

fn custodial_address() -> Address {
    find_custodial(&program(), &record_key()).unwrap().address
}

#[test]
fn list_delegates_to_custodial_address() {
    let mut slot = None;
    let change = list(&program(), &list_ctx(500, true), &mut slot, 200).unwrap();
    assert_eq!(change.account, holding());
    assert_eq!(change.current_authority, seller());
    assert_eq!(change.new_authority, custodial_address());
    assert_ne!(change.new_authority, seller());
    assert_eq!(change.signer, None);
    let record = slot.unwrap();
    assert!(record.is_initialized);
    assert_eq!(record.seller, seller());
    assert_eq!(record.token_account_pubkey, holding());
    assert_eq!(record.mint_key, Address::zeroed());
    assert_eq!(record.amount, 200);
}

#[test]
fn list_whole_balance_succeeds() {
    let mut slot = None;
    assert!(list(&program(), &list_ctx(500, true), &mut slot, 500).is_ok());
    assert_eq!(slot.unwrap().amount, 500);
}

#[test]
fn list_beyond_balance_fails() {
    let mut slot = None;
    let r = list(&program(), &list_ctx(500, true), &mut slot, 501);
    assert_eq!(r, Err(EscrowError::InsufficientBalance));
    assert_eq!(slot, None);
}

#[test]
fn list_unsigned_fails() {
    let mut slot = None;
    let r = list(&program(), &list_ctx(500, false), &mut slot, 10);
    assert_eq!(r, Err(EscrowError::AuthorizationMismatch));
    assert_eq!(slot, None);
}

#[test]
fn list_into_used_slot_fails() {
    let mut slot = listed(100);
    let before = slot;
    let r = list(&program(), &list_ctx(500, true), &mut slot, 10);
    assert_eq!(r, Err(EscrowError::RecordMismatch));
    assert_eq!(slot, before);
}

#[test]
fn cancel_by_stranger_fails() {
    let mut slot = listed(100);
    let before = slot;
    let r = cancel(&program(), &cancel_ctx(buyer(), true, holding()), &mut slot);
    assert_eq!(r, Err(EscrowError::AuthorizationMismatch));
    assert_eq!(slot, before);
}

#[test]
fn cancel_unsigned_fails() {
    let mut slot = listed(100);
    let r = cancel(&program(), &cancel_ctx(seller(), false, holding()), &mut slot);
    assert_eq!(r, Err(EscrowError::AuthorizationMismatch));
    assert!(slot.is_some());
}

#[test]
fn cancel_wrong_holding_account_fails() {
    let mut slot = listed(100);
    let r = cancel(&program(), &cancel_ctx(seller(), true, addr(9)), &mut slot);
    assert_eq!(r, Err(EscrowError::RecordMismatch));
    assert!(slot.is_some());
}

#[test]
fn cancel_restores_seller_and_closes_record() {
    let mut slot = listed(100);
    let release = cancel(&program(), &cancel_ctx(seller(), true, holding()), &mut slot).unwrap();
    assert_eq!(release.restore.account, holding());
    assert_eq!(release.restore.current_authority, custodial_address());
    assert_eq!(release.restore.new_authority, seller());
    assert_eq!(release.restore.signer, find_custodial(&program(), &record_key()));
    assert_eq!(release.close_to, seller());
    assert_eq!(slot, None);
    let again = cancel(&program(), &cancel_ctx(seller(), true, holding()), &mut slot);
    assert_eq!(again, Err(EscrowError::RecordMismatch));
    let bought = buy(&program(), &buy_ctx(true, holding(), seller()), &mut slot);
    assert_eq!(bought, Err(EscrowError::RecordMismatch));
}

#[test]
fn buy_pays_seller_and_restores_seller() {
    let mut slot = listed(100);
    let sale = buy(&program(), &buy_ctx(true, holding(), seller()), &mut slot).unwrap();
    assert_eq!(sale.payment.from, buyer());
    assert_eq!(sale.payment.to, seller());
    assert_eq!(sale.payment.lamports, 100);
    assert_eq!(slot, None);
    assert_eq!(sale.restore.account, holding());
    assert_eq!(sale.restore.current_authority, custodial_address());
    assert_eq!(sale.restore.new_authority, seller());
    assert_ne!(sale.restore.new_authority, buyer());
    assert_eq!(sale.close_to, seller());
}

#[test]
fn buy_after_buy_fails() {
    let mut slot = listed(100);
    assert!(buy(&program(), &buy_ctx(true, holding(), seller()), &mut slot).is_ok());
    let again = buy(&program(), &buy_ctx(true, holding(), seller()), &mut slot);
    assert_eq!(again, Err(EscrowError::RecordMismatch));
    let cancelled = cancel(&program(), &cancel_ctx(seller(), true, holding()), &mut slot);
    assert_eq!(cancelled, Err(EscrowError::RecordMismatch));
}

#[test]
fn buy_wrong_seller_fails() {
    let mut slot = listed(100);
    let r = buy(&program(), &buy_ctx(true, holding(), addr(8)), &mut slot);
    assert_eq!(r, Err(EscrowError::RecordMismatch));
    assert!(slot.is_some());
}

#[test]
fn buy_wrong_holding_account_fails() {
    let mut slot = listed(100);
    let r = buy(&program(), &buy_ctx(true, addr(9), seller()), &mut slot);
    assert_eq!(r, Err(EscrowError::RecordMismatch));
    assert!(slot.is_some());
}

#[test]
fn buy_unsigned_fails() {
    let mut slot = listed(100);
    let r = buy(&program(), &buy_ctx(false, holding(), seller()), &mut slot);
    assert_eq!(r, Err(EscrowError::AuthorizationMismatch));
    assert!(slot.is_some());
}

#[test]
fn buy_without_record_fails() {
    let mut slot = None;
    let r = buy(&program(), &buy_ctx(true, holding(), seller()), &mut slot);
    assert_eq!(r, Err(EscrowError::RecordMismatch));
}

#[test]
fn derivation_is_deterministic() {
    let first = find_custodial(&program(), &record_key()).unwrap();
    let second = find_custodial(&program(), &record_key()).unwrap();
    assert_eq!(first, second);
    assert_eq!(first.signer_seeds(), second.signer_seeds());
}

#[test]
fn derivation_matches_program_address_search() {
    let found = find_custodial(&program(), &record_key()).unwrap();
    let expected = Pubkey::find_program_address(
        &[b"escrow", &record_key().bytes],
        &Pubkey::new_from_array(program().bytes),
    );
    assert_eq!(found.address.bytes, expected.0.to_bytes());
    assert_eq!(found.bump, expected.1);
    assert_ne!(found.address, record_key());
    assert_ne!(found.address, program());
}

#[test]
fn derivation_depends_on_record() {
    let a = find_custodial(&program(), &addr(3)).unwrap();
    let b = find_custodial(&program(), &addr(5)).unwrap();
    assert_ne!(a.address, b.address);
}

#[test]
fn signer_seeds_hold_seed_record_and_bump() {
    let c = find_custodial(&program(), &record_key()).unwrap();
    let seeds = c.signer_seeds();
    assert_eq!(seeds.len(), 3);
    assert_eq!(seeds[0], b"escrow".to_vec());
    assert_eq!(seeds[1], record_key().bytes.to_vec());
    assert_eq!(seeds[2], vec![c.bump]);
    assert_eq!(escrow_seed(), b"escrow".to_vec());
}

#[test]
fn record_layout_sizes() {
    assert_eq!(EscrowAccount::LEN, 105);
    assert_eq!(EscrowAccount::SPACE, 113);
}

#[test]
fn address_equality() {
    assert_eq!(addr(1), addr(1));
    assert_ne!(addr(1), addr(2));
    let mut bytes = [1u8; 32];
    bytes[31] = 0;
    assert_ne!(addr(1), Address::new(bytes));
    assert_eq!(Address::zeroed(), addr(0));
}
