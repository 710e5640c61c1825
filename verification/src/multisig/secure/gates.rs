//! Exactly who may do what, and when, in the hardened multisig: for each
//! instruction, the inputs on which it succeeds, written out field by field.
use super::instructions::{
    expiry, governance_applied, ApproveProposal, ApproveTransferProposal, CancelProposal, CreateProposal,
    CreateTransferProposal, ExecuteProposal, ExecuteTransferProposal,
};
use super::state::{
    slot_approved, Member, MemberRole, Multisig, Proposal, ProposalStatus, ProposalType, MAX_OWNERS,
    MAX_TIMELOCK,
};
use super::laws::law_execution_keeps_invariant;
use crate::key::Pubkey;
use crate::num::{fits_i64, signed};
use vstd::prelude::*;

verus! {

/// Whether `key` is a member whose role lets it execute: Admin or Executor.
pub open spec fn executes(ms: Multisig, key: Pubkey) -> bool {
    ms.spec_role(key) == Some(MemberRole::Admin) || ms.spec_role(key) == Some(MemberRole::Executor)
}

/// Whether `now` lies in the window in which a proposal created at
/// `created_at` and expiring at `expires_at` may execute: the timelock has
/// run out and the expiry has not passed (both ends included).
pub open spec fn in_window(created_at: i64, timelock_seconds: u64, expires_at: i64, now: i64) -> bool {
    created_at + signed(timelock_seconds) <= now && now <= expires_at
}

/// A governance proposal executes exactly when the rent account is its
/// proposer, the multisig is not paused, the executor is an Admin or an
/// Executor member, the proposal belongs to the multisig and is active, it
/// holds at least `threshold` (and at most `owner_count`) approvals, `now`
/// lies between the end of its timelock and its expiry, and its action can
/// be applied: an added member is new, not the default address and fits
/// below `MAX_OWNERS` (whatever its role); a removed member is a member
/// other than the creator, leaving at least one member and enough for the
/// threshold; a new threshold lies between 1 and the member count; a new
/// timelock is at most `MAX_TIMELOCK`.
pub proof fn law_execute_succeeds_exactly(ctx: ExecuteProposal, now: i64)
    ensures
        ctx.error(now) is None <==> {
            let ms = ctx.multisig_account;
            let p = ctx.proposal;
            &&& ctx.proposer == p.proposer
            &&& !ms.paused
            &&& executes(ms, ctx.executor)
            &&& p.multisig == ctx.multisig_account_key
            &&& p.status == ProposalStatus::Active
            &&& ms.threshold <= p.approval_count <= ms.owner_count
            &&& in_window(p.created_at, ms.timelock_seconds, p.expires_at, now)
            &&& match p.proposal_type {
                ProposalType::AddMember { new_member, role: _ } => !ms.spec_is_member(new_member)
                    && ms.owner_count < MAX_OWNERS && !new_member.is_zero(),
                ProposalType::RemoveMember { member_to_remove } => ms.spec_is_member(
                    member_to_remove,
                ) && member_to_remove != ms.creator && ms.owner_count > 1 && 1 <= ms.threshold
                    <= ms.owner_count - 1,
                ProposalType::ChangeThreshold { new_threshold } => 1 <= new_threshold
                    <= ms.owner_count,
                ProposalType::ChangeTimelock { new_timelock } => new_timelock <= MAX_TIMELOCK,
            }
        },
{
}

/// Executing a proposal to add a member gives the same answer whatever role
/// the new member is to have.
pub proof fn law_execute_ignores_added_role(
    ctx: ExecuteProposal,
    now: i64,
    new_member: Pubkey,
    role: MemberRole,
    other_role: MemberRole,
)
    ensures
        (ExecuteProposal {
            proposal: Proposal {
                proposal_type: ProposalType::AddMember { new_member, role },
                ..ctx.proposal
            },
            ..ctx
        }).error(now) == (ExecuteProposal {
            proposal: Proposal {
                proposal_type: ProposalType::AddMember { new_member, role: other_role },
                ..ctx.proposal
            },
            ..ctx
        }).error(now),
{
}

/// A member may approve whatever its role: an approval succeeds exactly
/// when the multisig is not paused, the proposal belongs to it and is
/// active, the approver is a member whose slot has not approved yet, and the
/// count stays within the member count.
pub proof fn law_approve_succeeds_exactly(ctx: ApproveProposal)
    ensures
        ctx.error() is None <==> {
            let ms = ctx.multisig_account;
            let p = ctx.proposal;
            &&& !ms.paused
            &&& p.multisig == ctx.multisig_account_key
            &&& ms.spec_is_member(ctx.owner)
            &&& p.status == ProposalStatus::Active
            &&& !slot_approved(p.approval_bitmap, ms.spec_member_index(ctx.owner)->0)
            &&& p.approval_count + 1 <= ms.owner_count
        },
{
}

/// The same for transfer proposals: any member, whatever its role, may
/// approve once.
pub proof fn law_approve_transfer_succeeds_exactly(ctx: ApproveTransferProposal)
    ensures
        ctx.error() is None <==> {
            let ms = ctx.multisig_account;
            let p = ctx.transfer_proposal;
            &&& !ms.paused
            &&& p.multisig == ctx.multisig_account_key
            &&& ms.spec_is_member(ctx.owner)
            &&& p.status == ProposalStatus::Active
            &&& !slot_approved(p.approval_bitmap, ms.spec_member_index(ctx.owner)->0)
            &&& p.approval_count + 1 <= ms.owner_count
        },
{
}

/// Whether `key` is a member whose role lets it propose: Admin or Proposer.
pub open spec fn proposes(ms: Multisig, key: Pubkey) -> bool {
    ms.spec_role(key) == Some(MemberRole::Admin) || ms.spec_role(key) == Some(MemberRole::Proposer)
}

/// Whether the proposal counter and the expiry of a proposal created at
/// `now` stay in range.
pub open spec fn numbering_fits(ms: Multisig, now: i64) -> bool {
    &&& ms.proposal_count < u64::MAX
    &&& fits_i64(now + signed(ms.timelock_seconds))
    &&& fits_i64(now + signed(ms.timelock_seconds) + 7 * 24 * 60 * 60)
}

/// A governance proposal is created exactly when the multisig is not
/// paused, the proposer is an Admin or Proposer member, the numbering fits,
/// and its content is acceptable: to add a member, the proposer is the
/// creator and the new member is not the proposer, not yet a member and not
/// the default address, with room below `MAX_OWNERS` (whatever role is
/// asked); to remove a member, the proposer is the creator and the member is
/// one other than the creator, leaving at least one member and enough for
/// the threshold; a new threshold lies between 1 and the member count; a new
/// timelock, proposed by the creator, is at most `MAX_TIMELOCK`.
pub proof fn law_propose_succeeds_exactly(ctx: CreateProposal, pt: ProposalType, now: i64)
    ensures
        ctx.error(pt, now) is None <==> {
            let ms = ctx.multisig_account;
            let who = ctx.proposer;
            &&& !ms.paused
            &&& proposes(ms, who)
            &&& numbering_fits(ms, now)
            &&& match pt {
                ProposalType::AddMember { new_member, role: _ } => who == ms.creator && new_member
                    != who && !ms.spec_is_member(new_member) && !new_member.is_zero()
                    && ms.owner_count < MAX_OWNERS,
                ProposalType::RemoveMember { member_to_remove } => who == ms.creator
                    && ms.spec_is_member(member_to_remove) && member_to_remove != ms.creator
                    && ms.owner_count > 1 && ms.threshold <= ms.owner_count - 1,
                ProposalType::ChangeThreshold { new_threshold } => 1 <= new_threshold
                    <= ms.owner_count,
                ProposalType::ChangeTimelock { new_timelock } => who == ms.creator && new_timelock
                    <= MAX_TIMELOCK,
            }
        },
{
    ctx.multisig_account.lemma_member_index(ctx.proposer);
}

/// A transfer proposal is created exactly when the multisig is not paused,
/// the proposer is an Admin or Proposer member, the recipient is not the
/// default address, the amount is not zero, and the numbering fits.
pub proof fn law_propose_transfer_succeeds_exactly(
    ctx: CreateTransferProposal,
    amount: u64,
    recipient: Pubkey,
    now: i64,
)
    ensures
        ctx.error(amount, recipient, now) is None <==> {
            let ms = ctx.multisig_account;
            &&& !ms.paused
            &&& proposes(ms, ctx.proposer)
            &&& !recipient.is_zero()
            &&& amount > 0
            &&& numbering_fits(ms, now)
        },
{
    ctx.multisig_account.lemma_member_index(ctx.proposer);
}

/// A proposal is cancelled exactly when the rent account is its proposer,
/// it belongs to the multisig, the multisig is not paused, the proposal is
/// active, and the canceller is its proposer or the creator.
pub proof fn law_cancel_succeeds_exactly(ctx: CancelProposal)
    ensures
        ctx.error() is None <==> {
            let p = ctx.proposal;
            &&& ctx.proposer == p.proposer
            &&& p.multisig == ctx.multisig_account_key
            &&& !ctx.multisig_account.paused
            &&& p.status == ProposalStatus::Active
            &&& (ctx.canceller == p.proposer || ctx.canceller == ctx.multisig_account.creator)
        },
{
}

/// Proposing to add a member gives the same answer whatever role the new
/// member is to have.
pub proof fn law_propose_ignores_added_role(
    ctx: CreateProposal,
    new_member: Pubkey,
    role: MemberRole,
    other_role: MemberRole,
    now: i64,
)
    ensures
        ctx.error(ProposalType::AddMember { new_member, role }, now) == ctx.error(
            ProposalType::AddMember { new_member, role: other_role },
            now,
        ),
{
}

/// A transfer executes exactly when the rent account is its proposer, the
/// multisig is not paused, the executor is an Admin or an Executor member,
/// the proposal is active with at least `threshold` approvals, `now` lies
/// anywhere between the end of its timelock and its expiry, the recipient is
/// the recorded one and owned by the system program, and the vault holds the
/// amount.
pub proof fn law_transfer_succeeds_exactly(ctx: ExecuteTransferProposal, now: i64)
    ensures
        ctx.error(now) is None <==> {
            let ms = ctx.multisig_account;
            let p = ctx.transfer_proposal;
            &&& ctx.proposer == p.proposer
            &&& !ms.paused
            &&& executes(ms, ctx.executor)
            &&& p.status == ProposalStatus::Active
            &&& p.approval_count >= ms.threshold
            &&& in_window(p.created_at, ms.timelock_seconds, p.expires_at, now)
            &&& ctx.recipient_owner.is_zero()
            &&& ctx.recipient == p.recipient
            &&& ctx.vault_lamports >= p.amount
        },
{
}

/// In a well-formed multisig, the member in slot `i` (one in use) has the
/// role held in that slot.
pub proof fn lemma_role_at(ms: Multisig, i: int)
    requires
        ms.wf(),
        0 <= i < ms.owner_count,
    ensures
        ms.spec_is_member(ms.members[i].pubkey),
        ms.spec_role(ms.members[i].pubkey) == Some(ms.members[i].role),
{
    let k = ms.members[i].pubkey;
    ms.lemma_member_index(k);
    assert(ms.spec_is_member(k));
    let j = ms.spec_member_index(k)->0;
    if j < i {
        assert(ms.members[j].pubkey != ms.members[i].pubkey);
    }
}

/// In a well-formed multisig every member holds some slot in use.
pub proof fn lemma_member_slot(ms: Multisig, k: Pubkey) -> (i: int)
    requires
        ms.wf(),
        ms.spec_is_member(k),
    ensures
        0 <= i < ms.owner_count,
        ms.members[i].pubkey == k,
{
    choose|i: int| 0 <= i < ms.active_len() && ms.members[i].pubkey == k
}

/// Executing a proposal to add `new_member` with `role` makes it a member
/// with that role, one more member in all; every earlier member stays, with
/// its role, and no one else joins. Threshold, timelock, creator and pause
/// are unchanged.
pub proof fn law_add_member_effect(
    ctx: ExecuteProposal,
    now: i64,
    new: Multisig,
    new_member: Pubkey,
    role: MemberRole,
)
    requires
        ctx.multisig_account.wf(),
        ctx.proposal.proposal_type == (ProposalType::AddMember { new_member, role }),
        ctx.error(now) is None,
        governance_applied(
            ctx.multisig_account,
            new,
            ctx.proposal.proposal_type,
            ctx.proposal.proposal_id,
        ),
    ensures
        new.spec_role(new_member) == Some(role),
        new.owner_count == ctx.multisig_account.owner_count + 1,
        forall|k: Pubkey|
            #![trigger new.spec_is_member(k)]
            new.spec_is_member(k) <==> (ctx.multisig_account.spec_is_member(k) || k
                == new_member),
        forall|k: Pubkey|
            #![trigger ctx.multisig_account.spec_role(k)]
            ctx.multisig_account.spec_is_member(k) ==> new.spec_role(k)
                == ctx.multisig_account.spec_role(k),
        new.threshold == ctx.multisig_account.threshold,
        new.timelock_seconds == ctx.multisig_account.timelock_seconds,
        new.creator == ctx.multisig_account.creator,
        new.paused == ctx.multisig_account.paused,
{
    let old = ctx.multisig_account;
    law_execution_keeps_invariant(ctx, now, new);
    let n = old.owner_count as int;
    assert(new.members[n] == (Member { pubkey: new_member, role }));
    lemma_role_at(new, n);
    assert forall|k: Pubkey| #![trigger new.spec_is_member(k)]
        new.spec_is_member(k) <==> (old.spec_is_member(k) || k == new_member) by {
        if new.spec_is_member(k) {
            let i = lemma_member_slot(new, k);
            if i < n {
                assert(old.members[i] == new.members[i]);
            }
        }
        if old.spec_is_member(k) {
            let i = lemma_member_slot(old, k);
            assert(old.members[i] == new.members[i]);
        }
    }
    assert forall|k: Pubkey| #![trigger old.spec_role(k)]
        old.spec_is_member(k) implies new.spec_role(k) == old.spec_role(k) by {
        let i = lemma_member_slot(old, k);
        assert(old.members[i] == new.members[i]);
        lemma_role_at(old, i);
        lemma_role_at(new, i);
    }
}

/// Executing a proposal to remove `member` takes it out, one member fewer in
/// all; every other member stays, with its role, and no one joins.
/// Threshold, timelock, creator and pause are unchanged.
pub proof fn law_remove_member_effect(ctx: ExecuteProposal, now: i64, new: Multisig, member: Pubkey)
    requires
        ctx.multisig_account.wf(),
        ctx.proposal.proposal_type == (ProposalType::RemoveMember { member_to_remove: member }),
        ctx.error(now) is None,
        governance_applied(
            ctx.multisig_account,
            new,
            ctx.proposal.proposal_type,
            ctx.proposal.proposal_id,
        ),
    ensures
        !new.spec_is_member(member),
        new.owner_count == ctx.multisig_account.owner_count - 1,
        forall|k: Pubkey|
            #![trigger new.spec_is_member(k)]
            new.spec_is_member(k) <==> (ctx.multisig_account.spec_is_member(k) && k != member),
        forall|k: Pubkey|
            #![trigger new.spec_role(k)]
            new.spec_is_member(k) ==> new.spec_role(k) == ctx.multisig_account.spec_role(k),
        new.threshold == ctx.multisig_account.threshold,
        new.timelock_seconds == ctx.multisig_account.timelock_seconds,
        new.creator == ctx.multisig_account.creator,
        new.paused == ctx.multisig_account.paused,
{
    let old = ctx.multisig_account;
    law_execution_keeps_invariant(ctx, now, new);
    old.lemma_member_index(member);
    let idx = old.spec_member_index(member)->0;
    let n = old.owner_count as int;
    assert forall|k: Pubkey| #![trigger new.spec_is_member(k)]
        new.spec_is_member(k) <==> (old.spec_is_member(k) && k != member) by {
        if new.spec_is_member(k) {
            let i = lemma_member_slot(new, k);
            let oi = if i < idx { i } else { i + 1 };
            assert(new.members[i] == old.members[oi]);
            assert(old.members[oi].pubkey != old.members[idx].pubkey);
        }
        if old.spec_is_member(k) && k != member {
            let j = lemma_member_slot(old, k);
            assert(j != idx);
            let nj = if j < idx { j } else { j - 1 };
            assert(new.members[nj] == old.members[j]);
            assert(new.spec_is_member(k));
        }
    }
    assert(!new.spec_is_member(member));
    assert forall|k: Pubkey| #![trigger new.spec_role(k)]
        new.spec_is_member(k) implies new.spec_role(k) == old.spec_role(k) by {
        let i = lemma_member_slot(new, k);
        let oi = if i < idx { i } else { i + 1 };
        assert(new.members[i] == old.members[oi]);
        lemma_role_at(new, i);
        lemma_role_at(old, oi);
    }
}

/// Executing a proposal to change the threshold or the timelock sets that
/// value to the one proposed and leaves the members, their roles and the
/// other setting unchanged.
pub proof fn law_setting_change_effect(ctx: ExecuteProposal, now: i64, new: Multisig)
    requires
        ctx.error(now) is None,
        governance_applied(
            ctx.multisig_account,
            new,
            ctx.proposal.proposal_type,
            ctx.proposal.proposal_id,
        ),
    ensures
        match ctx.proposal.proposal_type {
            ProposalType::ChangeThreshold { new_threshold } => new.threshold == new_threshold
                && new.timelock_seconds == ctx.multisig_account.timelock_seconds,
            ProposalType::ChangeTimelock { new_timelock } => new.timelock_seconds == new_timelock
                && new.threshold == ctx.multisig_account.threshold,
            _ => true,
        },
        match ctx.proposal.proposal_type {
            ProposalType::ChangeThreshold { .. } | ProposalType::ChangeTimelock { .. } => {
                &&& new.owner_count == ctx.multisig_account.owner_count
                &&& new.members == ctx.multisig_account.members
                &&& forall|k: Pubkey| #[trigger] new.spec_role(k) == ctx.multisig_account.spec_role(k)
            },
            _ => true,
        },
{
}

/// A proposal created at `now` expires seven days after its timelock ends:
/// it can be executed for a week once the timelock has passed.
pub proof fn law_expiry_is_a_week_after_timelock(now: i64, timelock_seconds: u64)
    ensures
        expiry(now, timelock_seconds) == now + signed(timelock_seconds) + 7 * 24 * 60 * 60,
        timelock_seconds <= MAX_TIMELOCK ==> expiry(now, timelock_seconds) == now
            + timelock_seconds + 604_800,
{
}

} // verus!
