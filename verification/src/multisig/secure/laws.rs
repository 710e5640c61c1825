//! Properties of the hardened multisig that span its instructions.
use super::errors::MultisigError;
use super::instructions::{
    governance_applied, lemma_add_keeps_wf, lemma_remove_keeps_wf, toggled, ApproveProposal, ApproveTransferProposal, CancelProposal, CreateProposal,
    CreateTransferProposal, ExecuteProposal, ExecuteTransferProposal,
};
use super::state::{
    approvals_consistent, timelock_end, MemberRole, Multisig, Proposal, ProposalStatus,
    ProposalType, TransferProposal, MAX_OWNERS,
};
use crate::approvals::lemma_set_bit;
use crate::key::Pubkey;
use vstd::prelude::*;

verus! {

/// While the multisig is paused, proposing, approving, executing and
/// cancelling are all refused with `MultisigPaused` (once the accounts passed
/// are consistent with each other). Only toggling the pause stays available.
pub proof fn law_pause_blocks_operations(
    create: CreateProposal,
    pt: ProposalType,
    create_transfer: CreateTransferProposal,
    amount: u64,
    recipient: Pubkey,
    approve: ApproveProposal,
    approve_transfer: ApproveTransferProposal,
    execute: ExecuteProposal,
    execute_transfer: ExecuteTransferProposal,
    cancel: CancelProposal,
    now: i64,
)
    ensures
        create.multisig_account.paused ==> create.error(pt, now) == Some(
            MultisigError::MultisigPaused,
        ),
        create_transfer.multisig_account.paused ==> create_transfer.error(amount, recipient, now)
            == Some(MultisigError::MultisigPaused),
        approve.multisig_account.paused ==> approve.error() == Some(MultisigError::MultisigPaused),
        approve_transfer.multisig_account.paused && approve_transfer.transfer_proposal.multisig
            == approve_transfer.multisig_account_key ==> approve_transfer.error() == Some(
            MultisigError::MultisigPaused,
        ),
        execute.multisig_account.paused && execute.proposer == execute.proposal.proposer
            ==> execute.error(now) == Some(MultisigError::MultisigPaused),
        execute_transfer.multisig_account.paused && execute_transfer.transfer_proposal.proposer
            == execute_transfer.proposer ==> execute_transfer.error(now) == Some(
            MultisigError::MultisigPaused,
        ),
        cancel.multisig_account.paused && cancel.proposer == cancel.proposal.proposer
            && cancel.proposal.multisig == cancel.multisig_account_key ==> cancel.error() == Some(
            MultisigError::MultisigPaused,
        ),
{
}

/// Toggling the pause twice gives back the multisig as it was.
pub proof fn law_toggle_pause_twice(ms: Multisig)
    ensures
        toggled(toggled(ms)) == ms,
{
}

/// A member's approval counts once: after `approve_proposal` has recorded an
/// approval, the same member approving again is refused with
/// `AlreadyApproved`. The same holds of transfer proposals.
pub proof fn law_approval_counts_once(ctx: ApproveProposal, tctx: ApproveTransferProposal)
    ensures
        ctx.error() is None ==> (ApproveProposal {
            proposal: Proposal {
                approval_bitmap: ctx.proposal.approval_bitmap | (1u64 << (ctx.owner_index() as u64)),
                approval_count: (ctx.proposal.approval_count + 1) as u8,
                ..ctx.proposal
            },
            ..ctx
        }).error() == Some(MultisigError::AlreadyApproved),
        tctx.error() is None ==> (ApproveTransferProposal {
            transfer_proposal: TransferProposal {
                approval_bitmap: tctx.transfer_proposal.approval_bitmap | (1u64 << (
                tctx.owner_index() as u64)),
                approval_count: (tctx.transfer_proposal.approval_count + 1) as u8,
                ..tctx.transfer_proposal
            },
            ..tctx
        }).error() == Some(MultisigError::AlreadyApproved),
{
    if ctx.error() is None {
        ctx.multisig_account.lemma_member_index(ctx.owner);
        let i = ctx.owner_index() as u64;
        lemma_set_bit(ctx.proposal.approval_bitmap, i, i);
    }
    if tctx.error() is None {
        tctx.multisig_account.lemma_member_index(tctx.owner);
        let i = tctx.owner_index() as u64;
        lemma_set_bit(tctx.transfer_proposal.approval_bitmap, i, i);
    }
}

/// A governance proposal executes only when the account that receives its
/// rent is its proposer, the multisig is not paused, the executor is an Admin or Executor member, the proposal belongs to the
/// multisig and is active, it has at least `threshold` approvals, its
/// timelock has passed and it has not expired.
pub proof fn law_execution_gate(ctx: ExecuteProposal, now: i64)
    requires
        ctx.error(now) is None,
    ensures
        ctx.proposer == ctx.proposal.proposer,
        !ctx.multisig_account.paused,
        ctx.multisig_account.spec_role(ctx.executor) == Some(MemberRole::Admin)
            || ctx.multisig_account.spec_role(ctx.executor) == Some(MemberRole::Executor),
        ctx.proposal.multisig == ctx.multisig_account_key,
        ctx.proposal.status == ProposalStatus::Active,
        ctx.proposal.approval_count >= ctx.multisig_account.threshold,
        now >= timelock_end(ctx.proposal.created_at, ctx.multisig_account.timelock_seconds),
        now <= ctx.proposal.expires_at,
{
}

/// A transfer executes only when the proposer account matches, the
/// multisig is not paused, the executor is an Admin or Executor member, the
/// proposal is active with at least `threshold` approvals, its timelock has
/// passed, it has not expired, the recipient is the recorded, system-owned
/// one and the vault holds the amount.
pub proof fn law_transfer_gate(ctx: ExecuteTransferProposal, now: i64)
    requires
        ctx.error(now) is None,
    ensures
        ctx.transfer_proposal.proposer == ctx.proposer,
        !ctx.multisig_account.paused,
        ctx.multisig_account.spec_role(ctx.executor) == Some(MemberRole::Admin)
            || ctx.multisig_account.spec_role(ctx.executor) == Some(MemberRole::Executor),
        ctx.transfer_proposal.status == ProposalStatus::Active,
        ctx.transfer_proposal.approval_count >= ctx.multisig_account.threshold,
        now >= timelock_end(
            ctx.transfer_proposal.created_at,
            ctx.multisig_account.timelock_seconds,
        ),
        now <= ctx.transfer_proposal.expires_at,
        ctx.recipient_owner.is_zero(),
        ctx.recipient == ctx.transfer_proposal.recipient,
        ctx.vault_lamports >= ctx.transfer_proposal.amount,
{
}

/// Every successful execution of a governance proposal keeps the multisig's
/// invariant, whatever the proposal does: after adding a member, removing
/// one, changing the threshold or changing the timelock, the multisig still
/// has between one and `MAX_OWNERS` members in compact slots with no address
/// twice and none the default address, the creator is still Admin in the
/// first slot, and `1 <= threshold <= owner_count` still holds.
pub proof fn law_execution_keeps_invariant(ctx: ExecuteProposal, now: i64, new: Multisig)
    requires
        ctx.multisig_account.wf(),
        ctx.error(now) is None,
        governance_applied(
            ctx.multisig_account,
            new,
            ctx.proposal.proposal_type,
            ctx.proposal.proposal_id,
        ),
    ensures
        new.wf(),
{
    let old = ctx.multisig_account;
    let mid = Multisig { last_executed_proposal: old.last_executed_proposal, ..new };
    match ctx.proposal.proposal_type {
        ProposalType::AddMember { new_member, role } => {
            lemma_add_keeps_wf(old, mid, new_member, role);
        },
        ProposalType::RemoveMember { member_to_remove } => {
            old.lemma_member_index(member_to_remove);
            let idx = old.spec_member_index(member_to_remove)->0;
            lemma_remove_keeps_wf(old, mid, member_to_remove, idx);
        },
        _ => {},
    }
}

/// The account that receives a closed proposal's rent is always the
/// proposer who paid for it: executing or cancelling a governance proposal,
/// and executing a transfer proposal, succeed only with that account.
pub proof fn law_rent_returns_to_proposer(
    execute: ExecuteProposal,
    cancel: CancelProposal,
    execute_transfer: ExecuteTransferProposal,
    now: i64,
)
    ensures
        execute.error(now) is None ==> execute.proposer == execute.proposal.proposer,
        cancel.error() is None ==> cancel.proposer == cancel.proposal.proposer,
        execute_transfer.error(now) is None ==> execute_transfer.proposer
            == execute_transfer.transfer_proposal.proposer,
        execute.proposer != execute.proposal.proposer ==> execute.error(now) == Some(
            MultisigError::NotProposer,
        ),
        cancel.proposer != cancel.proposal.proposer ==> cancel.error() == Some(
            MultisigError::NotProposer,
        ),
{
}

/// A proposal that is no longer active (executed or cancelled) can be
/// neither approved, executed nor cancelled again.
pub proof fn law_finished_proposal_is_final(
    approve: ApproveProposal,
    execute: ExecuteProposal,
    cancel: CancelProposal,
    approve_transfer: ApproveTransferProposal,
    execute_transfer: ExecuteTransferProposal,
    now: i64,
)
    requires
        approve.proposal.status != ProposalStatus::Active,
        execute.proposal.status != ProposalStatus::Active,
        cancel.proposal.status != ProposalStatus::Active,
        approve_transfer.transfer_proposal.status != ProposalStatus::Active,
        execute_transfer.transfer_proposal.status != ProposalStatus::Active,
    ensures
        approve.error() is Some,
        execute.error(now) is Some,
        cancel.error() is Some,
        approve_transfer.error() is Some,
        execute_transfer.error(now) is Some,
{
}

/// Only Admin and Proposer members may propose; only the creator may
/// propose to add or remove members or to change the timelock.
pub proof fn law_proposal_rights(ctx: CreateProposal, pt: ProposalType, now: i64)
    requires
        ctx.error(pt, now) is None,
    ensures
        ctx.multisig_account.spec_role(ctx.proposer) == Some(MemberRole::Admin)
            || ctx.multisig_account.spec_role(ctx.proposer) == Some(MemberRole::Proposer),
        match pt {
            ProposalType::ChangeThreshold { .. } => true,
            _ => ctx.proposer == ctx.multisig_account.creator,
        },
{
}

/// In a well-formed multisig the creator is always a member, in the first
/// slot, with the Admin role; since every instruction keeps the multisig
/// well-formed, the creator can never be removed.
pub proof fn law_creator_stays_admin(ms: Multisig)
    requires
        ms.wf(),
    ensures
        ms.spec_is_member(ms.creator),
        ms.spec_member_index(ms.creator) == Some(0int),
        ms.spec_role(ms.creator) == Some(MemberRole::Admin),
        ms.spec_is_admin(ms.creator),
{
    assert(ms.members[0].pubkey == ms.creator);
    ms.lemma_member_index(ms.creator);
}

/// Proposals created by the program count each approving slot once, so no
/// proposal ever records more than `MAX_OWNERS` approvals.
pub proof fn law_approvals_bounded(bitmap: u64, approval_count: u8)
    requires
        approvals_consistent(bitmap, approval_count),
    ensures
        approval_count <= MAX_OWNERS,
{
    crate::approvals::lemma_count_bound(bitmap, MAX_OWNERS as nat);
}

} // verus!
