pub mod cancel;
pub mod create_htlc;
pub mod withdraw;

pub use cancel::Cancel;
pub use create_htlc::CreateHTLC;
pub use create_htlc::CreateHTLCParams;
pub use withdraw::WithdrawToDestination;
