use vstd::prelude::*;
use crate::state::{GroupAccount, MemberAccount, EscrowAccount, CustomError, TransferOutcome,
    transfer_error, transfer_result};

verus! {

/// Why a deposit is refused, checked in this order: an inactive group, a
/// member that has already paid, then the ledger's answer to the transfer.
pub open spec fn deposit_error(group: GroupAccount, member: MemberAccount, transfer: TransferOutcome) -> Option<CustomError> {
    if !group.is_active {
        Some(CustomError::InactiveGroup)
    } else if member.has_paid {
        Some(CustomError::AlreadyPaid)
    } else {
        transfer_error(transfer)
    }
}

/// The member record after its deposit of `amount`: the amount is assigned,
/// not added.
pub open spec fn paid_member(member: MemberAccount, amount: u64) -> MemberAccount {
    MemberAccount { group: member.group, member: member.member, contributed: amount, has_paid: true }
}

/// The escrow record after a deposit of `amount` is credited.
pub open spec fn credited(escrow: EscrowAccount, amount: u64) -> EscrowAccount {
    EscrowAccount {
        group: escrow.group,
        total_held: (escrow.total_held + amount) as u64,
        bump: escrow.bump,
    }
}

/// Member and escrow after a deposit attempt: unchanged when it is refused.
pub open spec fn deposit_state(
    group: GroupAccount,
    member: MemberAccount,
    escrow: EscrowAccount,
    amount: u64,
    transfer: TransferOutcome,
) -> (MemberAccount, EscrowAccount) {
    if deposit_error(group, member, transfer) is Some {
        (member, escrow)
    } else {
        (paid_member(member, amount), credited(escrow, amount))
    }
}

/// The checks made before any tokens move: the group must be active and the
/// member must not have paid yet.
pub fn check_deposit(group: &GroupAccount, member: &MemberAccount) -> (r: Result<(), CustomError>)
    ensures
        !group.is_active ==> r == Err::<(), CustomError>(CustomError::InactiveGroup),
        group.is_active && member.has_paid ==> r == Err::<(), CustomError>(CustomError::AlreadyPaid),
        group.is_active && !member.has_paid ==> r is Ok,
{
    if !group.is_active {
        return Err(CustomError::InactiveGroup);
    }
    if member.has_paid {
        return Err(CustomError::AlreadyPaid);
    }
    Ok(())
}

/// Records `member`'s one deposit of `amount` into the group's escrow, given
/// the ledger's answer to the transfer of `amount` from the member into the
/// escrow's holding. Any amount is accepted as the member's whole share. On
/// a refusal nothing changes.
pub fn deposit_funds(
    group: &GroupAccount,
    member: &mut MemberAccount,
    escrow: &mut EscrowAccount,
    amount: u64,
    transfer: TransferOutcome,
) -> (r: Result<(), CustomError>)
    requires
        deposit_admitted(*group, *old(member), *old(escrow), amount, transfer),
    ensures
        match deposit_error(*group, *old(member), transfer) {
            None => r is Ok,
            Some(e) => r == Err::<(), CustomError>(e),
        },
        (*final(member), *final(escrow)) == deposit_state(
            *group,
            *old(member),
            *old(escrow),
            amount,
            transfer,
        ),
{
    check_deposit(group, member)?;
    transfer_result(transfer)?;
    member.contributed = amount;
    member.has_paid = true;
    escrow.total_held = escrow.total_held + amount;
    Ok(())
}

/// What a member's record counts toward the escrow: its contribution once
/// it has paid, nothing before.
pub open spec fn paid_share(member: MemberAccount) -> int {
    if member.has_paid {
        member.contributed as int
    } else {
        0
    }
}

/// Sum of `contributed` over the members that have paid.
pub open spec fn paid_total(members: Seq<MemberAccount>) -> int
    decreases members.len(),
{
    if members.len() == 0 {
        0
    } else {
        paid_total(members.drop_last()) + paid_share(members.last())
    }
}

/// Sum of `contributed` over all members.
pub open spec fn contributed_total(members: Seq<MemberAccount>) -> int
    decreases members.len(),
{
    if members.len() == 0 {
        0
    } else {
        contributed_total(members.drop_last()) + members.last().contributed
    }
}

/// Members that have not paid have contributed nothing.
pub open spec fn unpaid_hold_nothing(members: Seq<MemberAccount>) -> bool {
    forall|k: int| 0 <= k < members.len() && !(#[trigger] members[k]).has_paid ==> members[k].contributed == 0
}

/// One deposit attempt: the index of the member in the group's list, the
/// amount, and the ledger's answer to the transfer.
pub type DepositStep = (int, u64, TransferOutcome);

/// Whether `deposit_funds` admits the attempt: a deposit that would be
/// accepted must leave the escrow's balance within `u64`.
pub open spec fn deposit_admitted(
    group: GroupAccount,
    member: MemberAccount,
    escrow: EscrowAccount,
    amount: u64,
    transfer: TransferOutcome,
) -> bool {
    deposit_error(group, member, transfer) is None ==> escrow.total_held + amount <= u64::MAX
}

/// The members and escrow of `group` after the deposit attempts `steps`, in
/// order. A step that names no member, or that `deposit_funds` does not
/// admit, is never made and changes nothing.
pub open spec fn run_deposits(
    group: GroupAccount,
    members: Seq<MemberAccount>,
    escrow: EscrowAccount,
    steps: Seq<DepositStep>,
) -> (Seq<MemberAccount>, EscrowAccount)
    decreases steps.len(),
{
    if steps.len() == 0 {
        (members, escrow)
    } else {
        let (ms, e) = run_deposits(group, members, escrow, steps.drop_last());
        let (i, amount, transfer) = steps.last();
        if 0 <= i < ms.len() && deposit_admitted(group, ms[i], e, amount, transfer) {
            let (m, e1) = deposit_state(group, ms[i], e, amount, transfer);
            (ms.update(i, m), e1)
        } else {
            (ms, e)
        }
    }
}

/// Once a deposit has been accepted, a second deposit on the same member
/// record is refused as already paid, whatever its amount and the ledger's
/// answer, and changes nothing; this holds while the group is active.
pub proof fn lemma_second_deposit_refused(
    group: GroupAccount,
    member: MemberAccount,
    escrow: EscrowAccount,
    amount: u64,
    transfer: TransferOutcome,
    second_amount: u64,
    second_transfer: TransferOutcome,
)
    requires
        deposit_error(group, member, transfer) is None,
    ensures
        ({
            let (m, e) = deposit_state(group, member, escrow, amount, transfer);
            &&& deposit_error(group, m, second_transfer) == Some(CustomError::AlreadyPaid)
            &&& deposit_state(group, m, e, second_amount, second_transfer) == (m, e)
        }),
{
}

proof fn lemma_paid_total_update(members: Seq<MemberAccount>, i: int, m: MemberAccount)
    requires
        0 <= i < members.len(),
    ensures
        paid_total(members.update(i, m)) == paid_total(members) - paid_share(members[i])
            + paid_share(m),
        contributed_total(members.update(i, m)) == contributed_total(members)
            - members[i].contributed + m.contributed,
    decreases members.len(),
{
    let u = members.update(i, m);
    if i == members.len() - 1 {
        assert(u.drop_last() =~= members.drop_last());
    } else {
        lemma_paid_total_update(members.drop_last(), i, m);
        assert(u.drop_last() =~= members.drop_last().update(i, m));
    }
}

proof fn lemma_run_deposits_balanced(
    group: GroupAccount,
    members: Seq<MemberAccount>,
    escrow: EscrowAccount,
    steps: Seq<DepositStep>,
)
    requires
        escrow.total_held == paid_total(members),
    ensures
        ({
            let (ms, e) = run_deposits(group, members, escrow, steps);
            &&& e.total_held == paid_total(ms)
            &&& ms.len() == members.len()
            &&& (unpaid_hold_nothing(members) && escrow.total_held == contributed_total(members))
                ==> (unpaid_hold_nothing(ms) && e.total_held == contributed_total(ms))
        }),
    decreases steps.len(),
{
    if steps.len() > 0 {
        let prev = steps.drop_last();
        lemma_run_deposits_balanced(group, members, escrow, prev);
        let (ms, e) = run_deposits(group, members, escrow, prev);
        let (i, amount, transfer) = steps.last();
        if 0 <= i < ms.len() && deposit_admitted(group, ms[i], e, amount, transfer) {
            let (m, e1) = deposit_state(group, ms[i], e, amount, transfer);
            lemma_paid_total_update(ms, i, m);
            if unpaid_hold_nothing(members) && escrow.total_held == contributed_total(members) {
                let u = ms.update(i, m);
                assert forall|k: int| 0 <= k < u.len() && !(#[trigger] u[k]).has_paid implies u[k].contributed == 0 by {
                    if k != i {
                        assert(u[k] == ms[k]);
                    }
                }
            }
        }
    }
}

/// For every sequence of deposit attempts on a group, the escrow holds
/// exactly the sum of `contributed` over the members that have paid, if it
/// did before.
pub proof fn lemma_escrow_matches_paid_members(
    group: GroupAccount,
    members: Seq<MemberAccount>,
    escrow: EscrowAccount,
    steps: Seq<DepositStep>,
)
    requires
        escrow.total_held == paid_total(members),
    ensures
        ({
            let (ms, e) = run_deposits(group, members, escrow, steps);
            e.total_held == paid_total(ms)
        }),
{
    lemma_run_deposits_balanced(group, members, escrow, steps);
}

/// For every sequence of deposit attempts on a group whose members were
/// freshly invited and whose escrow starts empty, the sum of all amounts
/// recorded on the members equals the escrow's balance.
pub proof fn lemma_recorded_deposits_match_escrow(
    group: GroupAccount,
    members: Seq<MemberAccount>,
    escrow: EscrowAccount,
    steps: Seq<DepositStep>,
)
    requires
        forall|k: int| 0 <= k < members.len() ==> !(#[trigger] members[k]).has_paid && members[k].contributed == 0,
        escrow.total_held == 0,
    ensures
        ({
            let (ms, e) = run_deposits(group, members, escrow, steps);
            e.total_held == contributed_total(ms)
        }),
{
    lemma_fresh_members_total(members);
    lemma_run_deposits_balanced(group, members, escrow, steps);
}

proof fn lemma_fresh_members_total(members: Seq<MemberAccount>)
    requires
        forall|k: int| 0 <= k < members.len() ==> !(#[trigger] members[k]).has_paid && members[k].contributed == 0,
    ensures
        paid_total(members) == 0,
        contributed_total(members) == 0,
    decreases members.len(),
{
    if members.len() > 0 {
        let d = members.drop_last();
        assert forall|k: int| 0 <= k < d.len() implies !(#[trigger] d[k]).has_paid && d[k].contributed == 0 by {
            assert(d[k] == members[k]);
        }
        lemma_fresh_members_total(d);
    }
}

} // verus!
