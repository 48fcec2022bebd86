//! A dead man's switch escrow: an owner deposits funds and checks in before a
//! deadline; once the deadline passes without a check-in, the beneficiary may
//! claim the funds, while the owner may cancel and take them back at any time
//! until a claim has ended the record.

pub mod escrow;
pub mod laws;
pub mod pubkey;

pub use escrow::{
    cancel, checkin, claim, deposit, initialize, Cancel, Checkin, Claim, Deposit, ErrorCode,
    Escrow, Initialize,
};
pub use pubkey::Pubkey;
