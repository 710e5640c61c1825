//! What the weakened multisig's instructions do to the member list, stated
//! over membership: who is a member before and after.
use super::instructions::{credited_slot, expiry, governance_applied, ExecuteProposal};
use super::state::{Multisig, ProposalType, MAX_OWNERS};
use crate::key::Pubkey;
use crate::num::signed;
use vstd::prelude::*;

verus! {

/// A member's approval is credited to a slot in use that holds that member.
pub proof fn law_approval_credits_own_slot(ms: Multisig, owner: Pubkey)
    requires
        ms.spec_is_member(owner),
    ensures
        0 <= credited_slot(ms, owner) < ms.active_len(),
        ms.members[credited_slot(ms, owner)].pubkey == owner,
{
    ms.lemma_member_index(owner);
}

/// Adding a member (unchecked) makes it a member and keeps every earlier
/// member, one more slot in use.
pub proof fn law_weak_add_member_effect(
    ctx: ExecuteProposal,
    new: Multisig,
    new_member: Pubkey,
    role: super::state::MemberRole,
)
    requires
        !ctx.panics(),
        ctx.proposal.proposal_type == (ProposalType::AddMember { new_member, role }),
        governance_applied(
            ctx.multisig_account,
            new,
            ctx.proposal.proposal_type,
            ctx.proposal.proposal_id,
        ),
    ensures
        new.owner_count == ctx.multisig_account.owner_count + 1,
        new.spec_is_member(new_member),
        forall|k: Pubkey|
            #![trigger new.spec_is_member(k)]
            new.spec_is_member(k) <==> (ctx.multisig_account.spec_is_member(k) || k
                == new_member),
{
    let old = ctx.multisig_account;
    let n = old.owner_count as int;
    assert(new.members[n].pubkey == new_member);
    assert forall|k: Pubkey| #![trigger new.spec_is_member(k)]
        new.spec_is_member(k) <==> (old.spec_is_member(k) || k == new_member) by {
        if new.spec_is_member(k) {
            let i = choose|i: int| 0 <= i < new.active_len() && new.members[i].pubkey == k;
            if i < n {
                assert(old.members[i] == new.members[i]);
            }
        }
        if old.spec_is_member(k) {
            let i = choose|i: int| 0 <= i < old.active_len() && old.members[i].pubkey == k;
            assert(old.members[i] == new.members[i]);
        }
    }
}

/// Removing a member (unchecked) leaves one slot fewer in use; every other
/// member stays and no one joins. Removing an address that is not a member
/// changes no member.
pub proof fn law_weak_remove_member_effect(ctx: ExecuteProposal, new: Multisig, member: Pubkey)
    requires
        !ctx.panics(),
        ctx.proposal.proposal_type == (ProposalType::RemoveMember { member_to_remove: member }),
        governance_applied(
            ctx.multisig_account,
            new,
            ctx.proposal.proposal_type,
            ctx.proposal.proposal_id,
        ),
    ensures
        ctx.multisig_account.spec_is_member(member) ==> new.owner_count
            == ctx.multisig_account.owner_count - 1,
        !ctx.multisig_account.spec_is_member(member) ==> new.members
            == ctx.multisig_account.members && new.owner_count
            == ctx.multisig_account.owner_count,
        forall|k: Pubkey|
            #![trigger new.spec_is_member(k)]
            k != member ==> (new.spec_is_member(k) <==> ctx.multisig_account.spec_is_member(k)),
{
    let old = ctx.multisig_account;
    old.lemma_member_index(member);
    if old.spec_is_member(member) {
        let idx = old.spec_member_index(member)->0;
        let last = old.owner_count - 1;
        assert(old.owner_count <= MAX_OWNERS);
        assert forall|k: Pubkey| #![trigger new.spec_is_member(k)]
            k != member implies (new.spec_is_member(k) <==> old.spec_is_member(k)) by {
            if new.spec_is_member(k) {
                let i = choose|i: int| 0 <= i < new.active_len() && new.members[i].pubkey == k;
                if i == idx {
                    assert(new.members[idx] == old.members[last]);
                } else {
                    assert(new.members[i] == old.members[i]);
                }
            }
            if old.spec_is_member(k) {
                let j = choose|j: int| 0 <= j < old.active_len() && old.members[j].pubkey == k;
                if j == last {
                    assert(idx != last);
                    assert(new.members[idx] == old.members[last]);
                    assert(new.spec_is_member(k));
                } else {
                    assert(j != idx);
                    assert(new.members[j] == old.members[j]);
                    assert(new.spec_is_member(k));
                }
            }
        }
    }
}

/// A proposal created at `now` expires seven days after its timelock ends.
pub proof fn law_weak_expiry_is_a_week_after_timelock(now: i64, timelock_seconds: u64)
    ensures
        expiry(now, timelock_seconds) == now + signed(timelock_seconds) + 7 * 24 * 60 * 60,
{
}

} // verus!
