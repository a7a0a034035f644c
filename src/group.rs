use vstd::prelude::*;
use vstd::string::StringSliceAdditionalSpecFns;
use crate::state::{Key, GroupAccount, MemberAccount, CustomError};

verus! {

/// Bytes that a group record reserves for its data.
pub const GROUP_SPACE: usize = 128;

/// Bytes of a group record besides the name's own: owner (32), the name's
/// length prefix (4), total cost (8), due time (8), member count (1) and the
/// active flag (1).
pub const GROUP_FIXED_BYTES: usize = 54;

/// Longest group name, in UTF-8 bytes, that fits in a group record.
pub const MAX_GROUP_NAME_LEN: usize = 74;

/// Whether a name of `name` fits in the space reserved for a group record.
pub open spec fn name_fits(name: Seq<char>) -> bool {
    GROUP_FIXED_BYTES + vstd::utf8::encode_utf8(name).len() <= GROUP_SPACE
}

/// Tests whether `name` fits in a group record.
pub fn group_name_fits(name: &String) -> (r: bool)
    ensures
        r == name_fits(name@),
{
    let s: &str = name.as_str();
    let b: &[u8] = s.as_bytes();
    assert(b@ == vstd::utf8::encode_utf8(name@));
    b.len() <= MAX_GROUP_NAME_LEN
}

/// Opens a group owned by `owner`: no members counted yet, active. Neither
/// the cost nor the due time is checked; only a name too long for the
/// record is refused.
pub fn create_group(owner: Key, group_name: String, total_cost: u64, subscription_due: i64) -> (r:
    Result<GroupAccount, CustomError>)
    ensures
        name_fits(group_name@) <==> r is Ok,
        !name_fits(group_name@) ==> r == Err::<GroupAccount, CustomError>(
            CustomError::AllocationError,
        ),
        r matches Ok(g) ==> g.owner == owner && g.group_name@ == group_name@ && g.total_cost
            == total_cost && g.subscription_due == subscription_due && g.member_count == 0
            && g.is_active,
{
    if !group_name_fits(&group_name) {
        return Err(CustomError::AllocationError);
    }
    Ok(
        GroupAccount {
            owner,
            group_name,
            total_cost,
            subscription_due,
            member_count: 0,
            is_active: true,
        },
    )
}

/// Registers `member_authority` in the group at address `group`, with
/// nothing contributed yet. The group's member count is left as it is, and
/// the same authority may be invited more than once.
pub fn invite_member(group: Key, member_authority: Key) -> (r: MemberAccount)
    ensures
        r.group == group,
        r.member == member_authority,
        r.contributed == 0,
        !r.has_paid,
{
    MemberAccount { group, member: member_authority, contributed: 0, has_paid: false }
}

} // verus!
