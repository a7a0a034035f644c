//! Group cost-splitting escrow: a group owner opens a group, members are
//! invited and each deposits once into a shared escrow, and after the due
//! time the escrow's whole balance is released to the owner.
//!
//! Every operation is a pure state transition over the three records
//! (`GroupAccount`, `MemberAccount`, `EscrowAccount`). Moving the actual
//! tokens is the asset ledger's work: the operations that depend on a
//! transfer take its outcome as an argument, and the ones that come before
//! it say what to transfer.

pub mod state;
pub mod group;
pub mod escrow;
pub mod authority;

pub use state::{Key, GroupAccount, MemberAccount, EscrowAccount, CustomError, TransferOutcome, transfer_result};
pub use group::{create_group, invite_member, group_name_fits, MAX_GROUP_NAME_LEN};
pub use escrow::{check_deposit, deposit_funds};
pub use authority::{escrow_seeds, escrow_authority, payout_order, execute_payout, PayoutOrder};
