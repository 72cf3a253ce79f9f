//! An escrow that hands custody of a token account to an address derived
//! for each listing, and gives it back on cancellation or purchase.
pub mod address;
pub mod custody;
pub mod handlers;
pub mod laws;
pub mod state;

pub use address::Address;
pub use custody::{escrow_seed, find_custodial, CustodialAuthority};
pub use handlers::{buy, cancel, list};
pub use state::{
    Buy, Cancel, EscrowAccount, EscrowError, HoldingAccount, List, Payment, Release, Sale,
    SetAuthority,
};
