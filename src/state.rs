use vstd::prelude::*;

verus! {

/// A 32-byte account address or signing authority.
#[derive(Clone, Copy, Debug)]
pub struct Key {
    pub bytes: [u8; 32],
}

/// A subscription group. `owner` is the only payout beneficiary;
/// `total_cost` is advisory and never enforced.
#[derive(Clone, Debug)]
pub struct GroupAccount {
    pub owner: Key,
    pub group_name: String,
    pub total_cost: u64,
    pub subscription_due: i64,
    pub member_count: u8,
    pub is_active: bool,
}

/// One invitation into a group, allowed to deposit exactly once.
#[derive(Clone, Copy, Debug)]
pub struct MemberAccount {
    pub group: Key,
    pub member: Key,
    pub contributed: u64,
    pub has_paid: bool,
}

/// The group's escrow: `total_held` is the running sum of accepted deposits,
/// `bump` the salt that with the group's address derives the escrow's
/// signing authority.
#[derive(Clone, Copy, Debug)]
pub struct EscrowAccount {
    pub group: Key,
    pub total_held: u64,
    pub bump: u8,
}

/// Why an operation was refused. Every refusal leaves all records as they were.
#[derive(Clone, Copy, Debug, PartialEq, Eq, Structural)]
pub enum CustomError {
    /// A deposit was attempted on a group that has already paid out.
    InactiveGroup,
    /// The member has already made its one deposit.
    AlreadyPaid,
    /// The payout was attempted before the group's due time.
    TooEarly,
    /// The group's name does not fit in the group record.
    AllocationError,
    /// The asset ledger found too small a balance for the transfer.
    InsufficientBalance,
    /// The asset ledger did not accept the transfer's authority.
    Unauthorized,
}

/// What the asset ledger answered to a transfer.
#[derive(Clone, Copy, Debug, PartialEq, Eq, Structural)]
pub enum TransferOutcome {
    Completed,
    InsufficientBalance,
    Unauthorized,
}

/// The error that a failed transfer surfaces as; `None` for a completed one.
pub open spec fn transfer_error(t: TransferOutcome) -> Option<CustomError> {
    match t {
        TransferOutcome::Completed => None,
        TransferOutcome::InsufficientBalance => Some(CustomError::InsufficientBalance),
        TransferOutcome::Unauthorized => Some(CustomError::Unauthorized),
    }
}

/// Maps a failed transfer to the library's error.
pub fn transfer_result(t: TransferOutcome) -> (r: Result<(), CustomError>)
    ensures
        match transfer_error(t) {
            None => r is Ok,
            Some(e) => r == Err::<(), CustomError>(e),
        },
{
    match t {
        TransferOutcome::Completed => Ok(()),
        TransferOutcome::InsufficientBalance => Err(CustomError::InsufficientBalance),
        TransferOutcome::Unauthorized => Err(CustomError::Unauthorized),
    }
}

} // verus!
