use vstd::prelude::*;
use anchor_lang::solana_program::pubkey::{Pubkey, PubkeyError};
use crate::state::{Key, GroupAccount, MemberAccount, EscrowAccount, CustomError, TransferOutcome,
    transfer_error, transfer_result};
use crate::escrow::{deposit_error, deposit_state};

verus! {

#[verifier::external_type_specification]
#[verifier::external_body]
pub struct ExPubkeyError(PubkeyError);

/// The program-derived address for `seeds` under `program_id`, or `None`
/// where those seeds derive no address (the hash falls on the curve, or the
/// seeds are too many or too long).
pub uninterp spec fn program_address(seeds: Seq<Seq<u8>>, program_id: Seq<u8>) -> Option<Seq<u8>>;

/// Relies on `Pubkey::create_program_address`: it hashes the seeds with the
/// program id and returns the address when the hash lies off the curve, and
/// an error otherwise; the answer depends on its arguments alone.
#[verifier::external_body]
fn create_program_address(seeds: &Vec<Vec<u8>>, program_id: &Key) -> (r: Result<Key, PubkeyError>)
    ensures
        r is Ok <==> program_address(seeds.deep_view(), program_id.bytes@) is Some,
        r matches Ok(k) ==> program_address(seeds.deep_view(), program_id.bytes@) == Some(
            k.bytes@,
        ),
{
    let slices: Vec<&[u8]> = seeds.iter().map(|s| s.as_slice()).collect();
    Pubkey::create_program_address(&slices, &Pubkey::new_from_array(program_id.bytes))
        .map(|k| Key { bytes: k.to_bytes() })
}

/// The seeds of the escrow's signing authority: the group's address, then
/// the one-byte salt.
pub open spec fn escrow_seeds_of(group_key: Key, bump: u8) -> Seq<Seq<u8>> {
    seq![group_key.bytes@, seq![bump]]
}

/// Builds the seeds that sign for the escrow of the group at `group_key`.
pub fn escrow_seeds(group_key: &Key, bump: u8) -> (r: Vec<Vec<u8>>)
    ensures
        r.deep_view() == escrow_seeds_of(*group_key, bump),
{
    let mut first: Vec<u8> = Vec::new();
    let mut i: usize = 0;
    while i < 32
        invariant
            i <= 32,
            first@ == group_key.bytes@.subrange(0, i as int),
        decreases 32 - i,
    {
        first.push(group_key.bytes[i]);
        i = i + 1;
    }
    assert(first@ =~= group_key.bytes@);
    let mut second: Vec<u8> = Vec::new();
    second.push(bump);
    let mut r: Vec<Vec<u8>> = Vec::new();
    r.push(first);
    r.push(second);
    assert(r@[0].deep_view() =~= group_key.bytes@);
    assert(r@[1].deep_view() =~= seq![bump]);
    assert(r.deep_view() =~= escrow_seeds_of(*group_key, bump));
    r
}

/// The escrow's signing authority for the group at `group_key`, derived
/// from the group's address and `bump` under `program_id`; no private key
/// belongs to it. `None` where those seeds derive no address.
pub fn escrow_authority(group_key: &Key, bump: u8, program_id: &Key) -> (r: Option<Key>)
    ensures
        match program_address(escrow_seeds_of(*group_key, bump), program_id.bytes@) {
            Some(a) => r matches Some(k) && k.bytes@ == a,
            None => r is None,
        },
{
    let seeds = escrow_seeds(group_key, bump);
    match create_program_address(&seeds, program_id) {
        Ok(k) => Some(k),
        Err(_) => None,
    }
}

/// The transfer that releases the escrow: the whole balance, signed with the
/// escrow's seeds.
pub struct PayoutOrder {
    pub amount: u64,
    pub seeds: Vec<Vec<u8>>,
}

/// Decides whether the escrow of the group at `group_key` may be paid out at
/// host time `now`, and if so what to transfer: all of `total_held`, whatever
/// the group's state.
pub fn payout_order(group: &GroupAccount, group_key: &Key, escrow: &EscrowAccount, now: i64) -> (r:
    Result<PayoutOrder, CustomError>)
    ensures
        now < group.subscription_due ==> (r matches Err(e) && e == CustomError::TooEarly),
        now >= group.subscription_due ==> (r matches Ok(o) && o.amount == escrow.total_held
            && o.seeds.deep_view() == escrow_seeds_of(*group_key, escrow.bump)),
{
    if now < group.subscription_due {
        return Err(CustomError::TooEarly);
    }
    Ok(PayoutOrder { amount: escrow.total_held, seeds: escrow_seeds(group_key, escrow.bump) })
}

/// Why a payout is refused: too early, or the ledger refused the transfer.
pub open spec fn payout_error(group: GroupAccount, now: i64, transfer: TransferOutcome) -> Option<CustomError> {
    if now < group.subscription_due {
        Some(CustomError::TooEarly)
    } else {
        transfer_error(transfer)
    }
}

/// The group after a payout attempt: inactive once it succeeds, unchanged
/// when it is refused.
pub open spec fn payout_state(group: GroupAccount, now: i64, transfer: TransferOutcome) -> GroupAccount {
    if payout_error(group, now, transfer) is Some {
        group
    } else {
        GroupAccount {
            owner: group.owner,
            group_name: group.group_name,
            total_cost: group.total_cost,
            subscription_due: group.subscription_due,
            member_count: group.member_count,
            is_active: false,
        }
    }
}

/// Completes the payout at host time `now`, given the ledger's answer to
/// the transfer of the escrow's balance to the chosen destination; returns
/// the amount released. The group is not required to be active, and the
/// escrow's balance is left as it is.
pub fn execute_payout(group: &mut GroupAccount, escrow: &EscrowAccount, now: i64, transfer: TransferOutcome) -> (r:
    Result<u64, CustomError>)
    ensures
        match payout_error(*old(group), now, transfer) {
            None => r == Ok::<u64, CustomError>(escrow.total_held),
            Some(e) => r == Err::<u64, CustomError>(e),
        },
        *final(group) == payout_state(*old(group), now, transfer),
{
    if now < group.subscription_due {
        return Err(CustomError::TooEarly);
    }
    transfer_result(transfer)?;
    group.is_active = false;
    Ok(escrow.total_held)
}

/// Once a payout has succeeded, every later deposit on that group is refused
/// as inactive, whatever the member, the amount and the ledger's answer, and
/// changes nothing.
pub proof fn lemma_no_deposit_after_payout(
    group: GroupAccount,
    now: i64,
    transfer: TransferOutcome,
    member: MemberAccount,
    escrow: EscrowAccount,
    amount: u64,
    deposit_transfer: TransferOutcome,
)
    requires
        payout_error(group, now, transfer) is None,
    ensures
        ({
            let g = payout_state(group, now, transfer);
            &&& !g.is_active
            &&& deposit_error(g, member, deposit_transfer) == Some(CustomError::InactiveGroup)
            &&& deposit_state(g, member, escrow, amount, deposit_transfer) == (member, escrow)
        }),
{
}

} // verus!
