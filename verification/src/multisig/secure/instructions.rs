//! Instructions of the hardened multisig. Each instruction reads the accounts
//! it is given and either fails, leaving them unchanged, or updates them.
//! Account creation, closing and lamport transfers that follow a successful
//! instruction are carried out by the caller.
use super::errors::MultisigError;
use super::state::{
    approvals_consistent, approve_overflows, lemma_approve_consistent, slot_approved, timelock_end, Member,
    MemberRole, Multisig, Proposal, ProposalStatus, ProposalType, TransferProposal,
    DEFAULT_EXPIRY_PERIOD, MAX_OWNERS, MAX_TIMELOCK,
};
use crate::key::Pubkey;
use crate::num::{fits_i64, lemma_as_i64, signed};
use vstd::prelude::*;

verus! {

/// Expiry of a proposal created at `now`: creation time, plus the timelock
/// read as an `i64`, plus the grace period.
pub open spec fn expiry(now: i64, timelock_seconds: u64) -> int {
    now + signed(timelock_seconds) + DEFAULT_EXPIRY_PERIOD
}

/// Whether the expiry of a proposal created at `now` can be computed without
/// overflow, in the order the program adds.
pub open spec fn expiry_fits(now: i64, timelock_seconds: u64) -> bool {
    fits_i64(now + signed(timelock_seconds)) && fits_i64(expiry(now, timelock_seconds))
}

/// Computes the expiry of a proposal created at `now`, or `None` on overflow.
fn compute_expiry(now: i64, timelock_seconds: u64) -> (r: Option<i64>)
    ensures
        match r {
            Some(t) => expiry_fits(now, timelock_seconds) && t == expiry(now, timelock_seconds),
            None => !expiry_fits(now, timelock_seconds),
        },
{
    proof {
        lemma_as_i64(timelock_seconds);
    }
    match now.checked_add(timelock_seconds as i64) {
        Some(t) => t.checked_add(DEFAULT_EXPIRY_PERIOD as i64),
        None => None,
    }
}

/// The multisig that `create_multisig` writes.
pub open spec fn is_initial_multisig(
    ms: Multisig,
    creator: Pubkey,
    vault: Pubkey,
    multisig_id: u64,
    threshold: u8,
    timelock_seconds: u64,
    bumps: CreateMultisigBumps,
) -> bool {
    &&& ms.multisig_id == multisig_id
    &&& ms.creator == creator
    &&& ms.threshold == threshold
    &&& ms.owner_count == 1
    &&& ms.members[0] == (Member { pubkey: creator, role: MemberRole::Admin })
    &&& forall|i: int| 1 <= i < MAX_OWNERS ==> ms.members[i].is_empty_slot()
    &&& ms.proposal_count == 0
    &&& ms.last_executed_proposal == 0
    &&& !ms.paused
    &&& ms.timelock_seconds == timelock_seconds
    &&& ms.vault == vault
    &&& ms.bump == bumps.multisig_account
    &&& ms.vault_bump == bumps.vault
}

/// Bump seeds of the accounts created by `create_multisig`.
#[derive(Clone, Copy, PartialEq, Eq, Debug)]
pub struct CreateMultisigBumps {
    pub multisig_account: u8,
    pub vault: u8,
}

/// Accounts of `create_multisig`: the creator (signer), the multisig account
/// being initialised and the vault address.
pub struct CreateMultisig {
    pub creator: Pubkey,
    pub multisig_account: Multisig,
    pub vault: Pubkey,
}

impl CreateMultisig {
    /// Initialises a multisig whose only member is the creator, as admin. The
    /// caller then funds the vault with the rent-exempt minimum.
    pub fn create_multisig(
        &mut self,
        multisig_id: u64,
        threshold: u8,
        timelock_seconds: u64,
        bumps: &CreateMultisigBumps,
    ) -> (r: Result<(), MultisigError>)
        ensures
            threshold < 1 ==> r == Err::<(), MultisigError>(MultisigError::InvalidThreshold),
            threshold > 1 ==> r == Err::<(), MultisigError>(MultisigError::ThresholdExceedsOwners),
            r is Ok <==> threshold == 1,
            r is Err ==> final(self).multisig_account == old(self).multisig_account,
            final(self).creator == old(self).creator,
            final(self).vault == old(self).vault,
            r is Ok ==> is_initial_multisig(
                final(self).multisig_account,
                old(self).creator,
                old(self).vault,
                multisig_id,
                threshold,
                timelock_seconds,
                *bumps,
            ),
            r is Ok && !old(self).creator.is_zero() ==> final(self).multisig_account.wf(),
    {
        if !(threshold >= 1) {
            return Err(MultisigError::InvalidThreshold);
        }
        if !(threshold <= 1) {
            return Err(MultisigError::ThresholdExceedsOwners);
        }
        let mut members = [Member::default();MAX_OWNERS];
        members[0] = Member { pubkey: self.creator, role: MemberRole::Admin };
        self.multisig_account = Multisig {
            multisig_id,
            creator: self.creator,
            threshold,
            owner_count: 1,
            members,
            proposal_count: 0,
            last_executed_proposal: 0,
            paused: false,
            timelock_seconds,
            vault: self.vault,
            bump: bumps.multisig_account,
            vault_bump: bumps.vault,
        };
        Ok(())
    }
}

/// Why a governance proposal of type `pt` by `proposer` is refused, if it is.
pub open spec fn proposal_type_error(ms: Multisig, proposer: Pubkey, pt: ProposalType) -> Option<
    MultisigError,
> {
    match pt {
        ProposalType::AddMember { new_member, role: _ } => {
            if !ms.spec_is_admin(proposer) {
                Some(MultisigError::OnlyAdmin)
            } else if new_member == proposer {
                Some(MultisigError::CannotAddSelf)
            } else if ms.spec_is_member(new_member) {
                Some(MultisigError::AlreadyMember)
            } else if new_member.is_zero() {
                Some(MultisigError::InvalidParameter)
            } else if ms.owner_count >= MAX_OWNERS {
                Some(MultisigError::MaxMembersReached)
            } else {
                None
            }
        },
        ProposalType::RemoveMember { member_to_remove } => {
            if !ms.spec_is_admin(proposer) {
                Some(MultisigError::OnlyAdmin)
            } else if !ms.spec_is_member(member_to_remove) {
                Some(MultisigError::NotAMember)
            } else if member_to_remove == ms.creator {
                Some(MultisigError::CannotRemoveCreator)
            } else if ms.owner_count <= 1 {
                Some(MultisigError::MinimumOneMember)
            } else if ms.threshold > ms.owner_count - 1 {
                Some(MultisigError::ThresholdExceedsOwners)
            } else {
                None
            }
        },
        ProposalType::ChangeThreshold { new_threshold } => {
            if new_threshold < 1 {
                Some(MultisigError::InvalidThreshold)
            } else if new_threshold > ms.owner_count {
                Some(MultisigError::ThresholdExceedsOwners)
            } else {
                None
            }
        },
        ProposalType::ChangeTimelock { new_timelock } => {
            if !ms.spec_is_admin(proposer) {
                Some(MultisigError::OnlyAdmin)
            } else if new_timelock > MAX_TIMELOCK {
                Some(MultisigError::InvalidParameter)
            } else {
                None
            }
        },
    }
}

/// Why a proposal by `proposer` is refused before its content is looked at:
/// pause, membership and role.
pub open spec fn proposer_error(ms: Multisig, proposer: Pubkey) -> Option<MultisigError> {
    if ms.paused {
        Some(MultisigError::MultisigPaused)
    } else if !ms.spec_is_member(proposer) {
        Some(MultisigError::NotAMember)
    } else if !ms.spec_can_propose(proposer) {
        Some(MultisigError::CannotPropose)
    } else {
        None
    }
}

/// Why numbering and dating a new proposal fails: the proposal counter or the
/// expiry would overflow.
pub open spec fn numbering_error(ms: Multisig, now: i64) -> Option<MultisigError> {
    if ms.proposal_count == u64::MAX {
        Some(MultisigError::Overflow)
    } else if !expiry_fits(now, ms.timelock_seconds) {
        Some(MultisigError::Overflow)
    } else {
        None
    }
}

/// Bump seed of the proposal account created by `create_proposal`.
#[derive(Clone, Copy, PartialEq, Eq, Debug)]
pub struct CreateProposalBumps {
    pub proposal: u8,
}

/// Accounts of `create_proposal`: the proposer (signer), the multisig and
/// its address, and the proposal account being initialised.
pub struct CreateProposal {
    pub proposer: Pubkey,
    pub multisig_account: Multisig,
    pub multisig_account_key: Pubkey,
    pub proposal: Proposal,
}

impl CreateProposal {
    /// Why `create_proposal` fails, if it does.
    pub open spec fn error(self, proposal_type: ProposalType, now: i64) -> Option<MultisigError> {
        match proposer_error(self.multisig_account, self.proposer) {
            Some(e) => Some(e),
            None => match proposal_type_error(self.multisig_account, self.proposer, proposal_type) {
                Some(e) => Some(e),
                None => numbering_error(self.multisig_account, now),
            },
        }
    }

    /// Creates a governance proposal numbered with the multisig's proposal
    /// counter, approved by its proposer, dated `now` (the cluster clock).
    pub fn create_proposal(
        &mut self,
        proposal_type: ProposalType,
        bumps: &CreateProposalBumps,
        now: i64,
    ) -> (r: Result<(), MultisigError>)
        ensures
            match old(self).error(proposal_type, now) {
                Some(e) => r == Err::<(), MultisigError>(e) && final(self).multisig_account
                    == old(self).multisig_account && final(self).proposal == old(self).proposal,
                None => r is Ok && final(self).multisig_account == (Multisig {
                    proposal_count: (old(self).multisig_account.proposal_count + 1) as u64,
                    ..old(self).multisig_account
                }) && final(self).proposal == (Proposal {
                    multisig: old(self).multisig_account_key,
                    proposal_id: old(self).multisig_account.proposal_count,
                    proposer: old(self).proposer,
                    proposal_type,
                    status: ProposalStatus::Active,
                    approval_bitmap: 1u64 << (old(self).multisig_account.spec_member_index(
                        old(self).proposer,
                    )->0 as u64),
                    approval_count: 1,
                    created_at: now,
                    expires_at: expiry(now, old(self).multisig_account.timelock_seconds) as i64,
                    executed_at: 0,
                    bump: bumps.proposal,
                }),
            },
            final(self).proposer == old(self).proposer,
            final(self).multisig_account_key == old(self).multisig_account_key,
            r is Ok ==> approvals_consistent(final(self).proposal.approval_bitmap, final(self).proposal.approval_count),
            old(self).multisig_account.wf() ==> final(self).multisig_account.wf(),
    {
        let ms = &self.multisig_account;
        if ms.paused {
            return Err(MultisigError::MultisigPaused);
        }
        if !ms.is_member(&self.proposer) {
            return Err(MultisigError::NotAMember);
        }
        if !ms.can_propose(&self.proposer) {
            return Err(MultisigError::CannotPropose);
        }
        proof {
            ms.lemma_member_index(self.proposer);
        }
        let proposer_index = match ms.member_index(&self.proposer) {
            Some(i) => i,
            None => {
                return Err(MultisigError::NotAMember);
            },
        };
        match proposal_type {
            ProposalType::AddMember { new_member, role: _ } => {
                if !ms.is_admin(&self.proposer) {
                    return Err(MultisigError::OnlyAdmin);
                }
                if new_member.same(&self.proposer) {
                    return Err(MultisigError::CannotAddSelf);
                }
                if ms.is_member(&new_member) {
                    return Err(MultisigError::AlreadyMember);
                }
                if new_member.is_default() {
                    return Err(MultisigError::InvalidParameter);
                }
                if !((ms.owner_count as usize) < MAX_OWNERS) {
                    return Err(MultisigError::MaxMembersReached);
                }
            },
            ProposalType::RemoveMember { member_to_remove } => {
                if !ms.is_admin(&self.proposer) {
                    return Err(MultisigError::OnlyAdmin);
                }
                if !ms.is_member(&member_to_remove) {
                    return Err(MultisigError::NotAMember);
                }
                if member_to_remove.same(&ms.creator) {
                    return Err(MultisigError::CannotRemoveCreator);
                }
                if !(ms.owner_count > 1) {
                    return Err(MultisigError::MinimumOneMember);
                }
                let new_owner_count = ms.owner_count - 1;
                if !(ms.threshold <= new_owner_count) {
                    return Err(MultisigError::ThresholdExceedsOwners);
                }
            },
            ProposalType::ChangeThreshold { new_threshold } => {
                if !(new_threshold >= 1) {
                    return Err(MultisigError::InvalidThreshold);
                }
                if !(new_threshold <= ms.owner_count) {
                    return Err(MultisigError::ThresholdExceedsOwners);
                }
            },
            ProposalType::ChangeTimelock { new_timelock } => {
                if !ms.is_admin(&self.proposer) {
                    return Err(MultisigError::OnlyAdmin);
                }
                if !(new_timelock <= MAX_TIMELOCK) {
                    return Err(MultisigError::InvalidParameter);
                }
            },
        }
        let proposal_count = match ms.proposal_count.checked_add(1) {
            Some(c) => c,
            None => {
                return Err(MultisigError::Overflow);
            },
        };
        let proposal_id = proposal_count - 1;
        let mut approval_bitmap: u64 = 0;
        approval_bitmap = approval_bitmap | (1u64 << proposer_index);
        let expires_at = match compute_expiry(now, ms.timelock_seconds) {
            Some(t) => t,
            None => {
                return Err(MultisigError::Overflow);
            },
        };
        proof {
            let pi = proposer_index as u64;
            assert(0u64 | (1u64 << pi) == 1u64 << pi) by (bit_vector);
            assert(pi < 10 ==> (1u64 << pi) < 1024) by (bit_vector);
            crate::approvals::lemma_count_single(pi, MAX_OWNERS as nat);
        }
        self.multisig_account.proposal_count = proposal_count;
        self.proposal = Proposal {
            multisig: self.multisig_account_key,
            proposal_id,
            proposer: self.proposer,
            proposal_type,
            status: ProposalStatus::Active,
            approval_bitmap,
            approval_count: 1,
            created_at: now,
            expires_at,
            executed_at: 0,
            bump: bumps.proposal,
        };
        Ok(())
    }
}

/// Bump seed of the transfer proposal account created by
/// `create_transfer_proposal`.
#[derive(Clone, Copy, PartialEq, Eq, Debug)]
pub struct CreateTransferProposalBumps {
    pub transfer_proposal: u8,
}

/// Accounts of `create_transfer_proposal`: the proposer (signer), the
/// multisig and its address, and the transfer proposal being initialised.
pub struct CreateTransferProposal {
    pub proposer: Pubkey,
    pub multisig_account: Multisig,
    pub multisig_account_key: Pubkey,
    pub transfer_proposal: TransferProposal,
}

impl CreateTransferProposal {
    /// Why `create_transfer_proposal` fails, if it does.
    pub open spec fn error(self, amount: u64, recipient: Pubkey, now: i64) -> Option<
        MultisigError,
    > {
        match proposer_error(self.multisig_account, self.proposer) {
            Some(e) => Some(e),
            None => if recipient.is_zero() {
                Some(MultisigError::InvalidRecipient)
            } else if amount == 0 {
                Some(MultisigError::InvalidParameter)
            } else {
                numbering_error(self.multisig_account, now)
            },
        }
    }

    /// Creates a proposal to send `amount` lamports from the vault to
    /// `recipient`, numbered with the multisig's proposal counter, approved by
    /// its proposer, dated `now` (the cluster clock).
    pub fn create_transfer_proposal(
        &mut self,
        amount: u64,
        recipient: Pubkey,
        bumps: &CreateTransferProposalBumps,
        now: i64,
    ) -> (r: Result<(), MultisigError>)
        ensures
            match old(self).error(amount, recipient, now) {
                Some(e) => r == Err::<(), MultisigError>(e) && final(self).multisig_account
                    == old(self).multisig_account && final(self).transfer_proposal == old(
                    self,
                ).transfer_proposal,
                None => r is Ok && final(self).multisig_account == (Multisig {
                    proposal_count: (old(self).multisig_account.proposal_count + 1) as u64,
                    ..old(self).multisig_account
                }) && final(self).transfer_proposal == (TransferProposal {
                    multisig: old(self).multisig_account_key,
                    proposal_id: old(self).multisig_account.proposal_count,
                    proposer: old(self).proposer,
                    status: ProposalStatus::Active,
                    approval_bitmap: 1u64 << (old(self).multisig_account.spec_member_index(
                        old(self).proposer,
                    )->0 as u64),
                    approval_count: 1,
                    created_at: now,
                    expires_at: expiry(now, old(self).multisig_account.timelock_seconds) as i64,
                    executed_at: 0,
                    amount,
                    recipient,
                    bump: bumps.transfer_proposal,
                }),
            },
            final(self).proposer == old(self).proposer,
            final(self).multisig_account_key == old(self).multisig_account_key,
            r is Ok ==> approvals_consistent(
                final(self).transfer_proposal.approval_bitmap,
                final(self).transfer_proposal.approval_count,
            ),
            old(self).multisig_account.wf() ==> final(self).multisig_account.wf(),
    {
        let ms = &self.multisig_account;
        if ms.paused {
            return Err(MultisigError::MultisigPaused);
        }
        if !ms.is_member(&self.proposer) {
            return Err(MultisigError::NotAMember);
        }
        if !ms.can_propose(&self.proposer) {
            return Err(MultisigError::CannotPropose);
        }
        if recipient.is_default() {
            return Err(MultisigError::InvalidRecipient);
        }
        if !(amount > 0) {
            return Err(MultisigError::InvalidParameter);
        }
        proof {
            ms.lemma_member_index(self.proposer);
        }
        let proposer_index = match ms.member_index(&self.proposer) {
            Some(i) => i,
            None => {
                return Err(MultisigError::NotAMember);
            },
        };
        let proposal_count = match ms.proposal_count.checked_add(1) {
            Some(c) => c,
            None => {
                return Err(MultisigError::Overflow);
            },
        };
        let proposal_id = proposal_count - 1;
        let mut approval_bitmap: u64 = 0;
        approval_bitmap = approval_bitmap | (1u64 << proposer_index);
        let expires_at = match compute_expiry(now, ms.timelock_seconds) {
            Some(t) => t,
            None => {
                return Err(MultisigError::Overflow);
            },
        };
        proof {
            let pi = proposer_index as u64;
            assert(0u64 | (1u64 << pi) == 1u64 << pi) by (bit_vector);
            assert(pi < 10 ==> (1u64 << pi) < 1024) by (bit_vector);
            crate::approvals::lemma_count_single(pi, MAX_OWNERS as nat);
        }
        self.multisig_account.proposal_count = proposal_count;
        self.transfer_proposal = TransferProposal {
            multisig: self.multisig_account_key,
            proposal_id,
            proposer: self.proposer,
            status: ProposalStatus::Active,
            approval_bitmap,
            approval_count: 1,
            created_at: now,
            expires_at,
            executed_at: 0,
            amount,
            recipient,
            bump: bumps.transfer_proposal,
        };
        Ok(())
    }
}

/// Why an approval by `owner` of a proposal belonging to `proposal_multisig`,
/// with status `status` and approvals `bitmap`, is refused once the proposal's
/// link to the multisig has been confirmed.
pub open spec fn approver_error(
    ms: Multisig,
    owner: Pubkey,
    status: ProposalStatus,
    bitmap: u64,
) -> Option<MultisigError> {
    if !ms.spec_is_member(owner) {
        Some(MultisigError::NotAMember)
    } else if status != ProposalStatus::Active {
        Some(MultisigError::ProposalNotActive)
    } else if slot_approved(bitmap, ms.spec_member_index(owner)->0) {
        Some(MultisigError::AlreadyApproved)
    } else {
        None
    }
}

/// Accounts of `approve_proposal`: the approving member (signer), the
/// multisig and its address, and the proposal.
pub struct ApproveProposal {
    pub owner: Pubkey,
    pub multisig_account: Multisig,
    pub multisig_account_key: Pubkey,
    pub proposal: Proposal,
}

impl ApproveProposal {
    /// The approver's slot.
    pub open spec fn owner_index(self) -> int {
        self.multisig_account.spec_member_index(self.owner)->0
    }

    /// Why `approve_proposal` fails, if it does.
    pub open spec fn error(self) -> Option<MultisigError> {
        if self.multisig_account.paused {
            Some(MultisigError::MultisigPaused)
        } else if self.proposal.multisig != self.multisig_account_key {
            Some(MultisigError::NotAMember)
        } else {
            match approver_error(
                self.multisig_account,
                self.owner,
                self.proposal.status,
                self.proposal.approval_bitmap,
            ) {
                Some(e) => Some(e),
                None => if self.proposal.approval_count + 1 > self.multisig_account.owner_count {
                    Some(MultisigError::Overflow)
                } else {
                    None
                },
            }
        }
    }

    /// Whether recording the approval would overflow the approval counter
    /// (possible only on a proposal holding more than `u8::MAX` approvals).
    pub open spec fn overflows(self) -> bool {
        &&& !self.multisig_account.paused
        &&& self.proposal.multisig == self.multisig_account_key
        &&& self.multisig_account.spec_is_member(self.owner)
        &&& self.proposal.status == ProposalStatus::Active
        &&& approve_overflows(
            self.proposal.approval_bitmap,
            self.proposal.approval_count,
            self.owner_index(),
        )
    }

    /// Whether recording the approval would overflow (see `overflows`).
    pub fn would_overflow(&self) -> (r: bool)
        ensures
            r == self.overflows(),
    {
        if self.multisig_account.paused || !self.proposal.multisig.same(&self.multisig_account_key)
            || !self.proposal.is_active() {
            return false;
        }
        proof {
            self.multisig_account.lemma_member_index(self.owner);
        }
        match self.multisig_account.member_index(&self.owner) {
            None => false,
            Some(i) => i < MAX_OWNERS && !self.proposal.has_approved(i)
                && self.proposal.approval_count == u8::MAX,
        }
    }

    /// Records the signer's approval of an active proposal, once per member.
    pub fn approve_proposal(&mut self) -> (r: Result<(), MultisigError>)
        requires
            !old(self).overflows(),
        ensures
            match old(self).error() {
                Some(e) => r == Err::<(), MultisigError>(e) && final(self).proposal == old(
                    self,
                ).proposal,
                None => r is Ok && final(self).proposal == (Proposal {
                    approval_bitmap: old(self).proposal.approval_bitmap | (1u64 << (old(
                        self,
                    ).owner_index() as u64)),
                    approval_count: (old(self).proposal.approval_count + 1) as u8,
                    ..old(self).proposal
                }),
            },
            final(self).owner == old(self).owner,
            final(self).multisig_account == old(self).multisig_account,
            final(self).multisig_account_key == old(self).multisig_account_key,
            approvals_consistent(old(self).proposal.approval_bitmap, old(self).proposal.approval_count)
                ==> approvals_consistent(
                final(self).proposal.approval_bitmap,
                final(self).proposal.approval_count,
            ),
    {
        let ghost old_proposal = self.proposal;
        if self.multisig_account.paused {
            return Err(MultisigError::MultisigPaused);
        }
        if !self.proposal.multisig.same(&self.multisig_account_key) {
            return Err(MultisigError::NotAMember);
        }
        if !self.multisig_account.is_member(&self.owner) {
            return Err(MultisigError::NotAMember);
        }
        proof {
            self.multisig_account.lemma_member_index(self.owner);
        }
        let owner_index = match self.multisig_account.member_index(&self.owner) {
            Some(i) => i,
            None => {
                return Err(MultisigError::NotAMember);
            },
        };
        if !self.proposal.is_active() {
            return Err(MultisigError::ProposalNotActive);
        }
        if self.proposal.has_approved(owner_index) {
            return Err(MultisigError::AlreadyApproved);
        }
        if !(owner_index < MAX_OWNERS) {
            return Err(MultisigError::NotAMember);
        }
        let mut proposal = self.proposal;
        let success = proposal.approve(owner_index);
        if !success {
            return Err(MultisigError::AlreadyApproved);
        }
        if !(proposal.approval_count <= self.multisig_account.owner_count) {
            return Err(MultisigError::Overflow);
        }
        proof {
            if approvals_consistent(old_proposal.approval_bitmap, old_proposal.approval_count) {
                lemma_approve_consistent(
                    old_proposal.approval_bitmap,
                    old_proposal.approval_count,
                    owner_index as u64,
                );
            }
        }
        self.proposal = proposal;
        Ok(())
    }
}

/// Accounts of `approve_transfer_proposal`: the approving member (signer),
/// the multisig and its address, and the transfer proposal.
pub struct ApproveTransferProposal {
    pub owner: Pubkey,
    pub multisig_account: Multisig,
    pub multisig_account_key: Pubkey,
    pub transfer_proposal: TransferProposal,
}

impl ApproveTransferProposal {
    /// The approver's slot.
    pub open spec fn owner_index(self) -> int {
        self.multisig_account.spec_member_index(self.owner)->0
    }

    /// Why `approve_transfer_proposal` fails, if it does. The link between
    /// proposal and multisig is checked before anything else.
    pub open spec fn error(self) -> Option<MultisigError> {
        if self.transfer_proposal.multisig != self.multisig_account_key {
            Some(MultisigError::InvalidProposal)
        } else if self.multisig_account.paused {
            Some(MultisigError::MultisigPaused)
        } else {
            match approver_error(
                self.multisig_account,
                self.owner,
                self.transfer_proposal.status,
                self.transfer_proposal.approval_bitmap,
            ) {
                Some(e) => Some(e),
                None => if self.transfer_proposal.approval_count + 1
                    > self.multisig_account.owner_count {
                    Some(MultisigError::Overflow)
                } else {
                    None
                },
            }
        }
    }

    /// Whether recording the approval would overflow the approval counter.
    pub open spec fn overflows(self) -> bool {
        &&& self.transfer_proposal.multisig == self.multisig_account_key
        &&& !self.multisig_account.paused
        &&& self.multisig_account.spec_is_member(self.owner)
        &&& self.transfer_proposal.status == ProposalStatus::Active
        &&& approve_overflows(
            self.transfer_proposal.approval_bitmap,
            self.transfer_proposal.approval_count,
            self.owner_index(),
        )
    }

    /// Whether recording the approval would overflow (see `overflows`).
    pub fn would_overflow(&self) -> (r: bool)
        ensures
            r == self.overflows(),
    {
        if !self.transfer_proposal.multisig.same(&self.multisig_account_key)
            || self.multisig_account.paused || !self.transfer_proposal.is_active() {
            return false;
        }
        proof {
            self.multisig_account.lemma_member_index(self.owner);
        }
        match self.multisig_account.member_index(&self.owner) {
            None => false,
            Some(i) => i < MAX_OWNERS && !self.transfer_proposal.has_approved(i)
                && self.transfer_proposal.approval_count == u8::MAX,
        }
    }

    /// Records the signer's approval of an active transfer proposal, once per
    /// member.
    pub fn approve_transfer_proposal(&mut self) -> (r: Result<(), MultisigError>)
        requires
            !old(self).overflows(),
        ensures
            match old(self).error() {
                Some(e) => r == Err::<(), MultisigError>(e) && final(self).transfer_proposal == old(
                    self,
                ).transfer_proposal,
                None => r is Ok && final(self).transfer_proposal == (TransferProposal {
                    approval_bitmap: old(self).transfer_proposal.approval_bitmap | (1u64 << (old(
                        self,
                    ).owner_index() as u64)),
                    approval_count: (old(self).transfer_proposal.approval_count + 1) as u8,
                    ..old(self).transfer_proposal
                }),
            },
            final(self).owner == old(self).owner,
            final(self).multisig_account == old(self).multisig_account,
            final(self).multisig_account_key == old(self).multisig_account_key,
            approvals_consistent(
                old(self).transfer_proposal.approval_bitmap,
                old(self).transfer_proposal.approval_count,
            ) ==> approvals_consistent(
                final(self).transfer_proposal.approval_bitmap,
                final(self).transfer_proposal.approval_count,
            ),
    {
        let ghost old_proposal = self.transfer_proposal;
        if !self.transfer_proposal.multisig.same(&self.multisig_account_key) {
            return Err(MultisigError::InvalidProposal);
        }
        if self.multisig_account.paused {
            return Err(MultisigError::MultisigPaused);
        }
        if !self.multisig_account.is_member(&self.owner) {
            return Err(MultisigError::NotAMember);
        }
        proof {
            self.multisig_account.lemma_member_index(self.owner);
        }
        let owner_index = match self.multisig_account.member_index(&self.owner) {
            Some(i) => i,
            None => {
                return Err(MultisigError::NotAMember);
            },
        };
        if !self.transfer_proposal.is_active() {
            return Err(MultisigError::ProposalNotActive);
        }
        if self.transfer_proposal.has_approved(owner_index) {
            return Err(MultisigError::AlreadyApproved);
        }
        if !(owner_index < MAX_OWNERS) {
            return Err(MultisigError::Overflow);
        }
        let mut transfer_proposal = self.transfer_proposal;
        transfer_proposal.approve(owner_index);
        if !(transfer_proposal.approval_count <= self.multisig_account.owner_count) {
            return Err(MultisigError::Overflow);
        }
        proof {
            if approvals_consistent(old_proposal.approval_bitmap, old_proposal.approval_count) {
                lemma_approve_consistent(
                    old_proposal.approval_bitmap,
                    old_proposal.approval_count,
                    owner_index as u64,
                );
            }
        }
        self.transfer_proposal = transfer_proposal;
        Ok(())
    }
}

/// Accounts of `cancel_proposal`: the canceller (signer), the multisig and
/// its address, the proposal, and the proposer who receives the closed
/// account's rent.
pub struct CancelProposal {
    pub canceller: Pubkey,
    pub multisig_account: Multisig,
    pub multisig_account_key: Pubkey,
    pub proposal: Proposal,
    pub proposer: Pubkey,
}

impl CancelProposal {
    /// Why `cancel_proposal` fails, if it does: the account that receives the
    /// closed proposal's rent must be its proposer, the proposal must belong
    /// to the multisig, the multisig must not be paused, the proposal must be
    /// active, and the canceller must be its proposer or the creator.
    pub open spec fn error(self) -> Option<MultisigError> {
        if self.proposer != self.proposal.proposer {
            Some(MultisigError::NotProposer)
        } else if self.proposal.multisig != self.multisig_account_key {
            Some(MultisigError::NotAMember)
        } else if self.multisig_account.paused {
            Some(MultisigError::MultisigPaused)
        } else if self.proposal.status != ProposalStatus::Active {
            Some(MultisigError::ProposalNotActive)
        } else if self.canceller != self.proposal.proposer && self.canceller
            != self.multisig_account.creator {
            Some(MultisigError::NotProposer)
        } else {
            None
        }
    }

    /// Cancels an active proposal of a multisig that is not paused; only its
    /// proposer or the creator may. The caller then closes the proposal account
    /// to the proposer.
    pub fn cancel_proposal(&mut self) -> (r: Result<(), MultisigError>)
        ensures
            match old(self).error() {
                Some(e) => r == Err::<(), MultisigError>(e) && final(self).proposal == old(
                    self,
                ).proposal,
                None => r is Ok && final(self).proposal == (Proposal {
                    status: ProposalStatus::Cancelled,
                    ..old(self).proposal
                }),
            },
            final(self).canceller == old(self).canceller,
            final(self).multisig_account == old(self).multisig_account,
            final(self).multisig_account_key == old(self).multisig_account_key,
            final(self).proposer == old(self).proposer,
    {
        if !self.proposer.same(&self.proposal.proposer) {
            return Err(MultisigError::NotProposer);
        }
        if !self.proposal.multisig.same(&self.multisig_account_key) {
            return Err(MultisigError::NotAMember);
        }
        if self.multisig_account.paused {
            return Err(MultisigError::MultisigPaused);
        }
        if !self.proposal.is_active() {
            return Err(MultisigError::ProposalNotActive);
        }
        let is_proposer = self.canceller.same(&self.proposal.proposer);
        let is_creator = self.canceller.same(&self.multisig_account.creator);
        if !(is_proposer || is_creator) {
            return Err(MultisigError::NotProposer);
        }
        self.proposal.status = ProposalStatus::Cancelled;
        Ok(())
    }
}

/// `ms` with its pause switch flipped.
pub open spec fn toggled(ms: Multisig) -> Multisig {
    Multisig { paused: !ms.paused, ..ms }
}

/// Accounts of `toggle_pause`: the admin (signer) and the multisig.
pub struct TogglePause {
    pub admin: Pubkey,
    pub multisig_account: Multisig,
}

impl TogglePause {
    /// Flips the pause switch; only the creator may.
    pub fn toggle_pause(&mut self) -> (r: Result<(), MultisigError>)
        ensures
            r is Ok <==> old(self).multisig_account.spec_is_admin(old(self).admin),
            r is Err ==> r == Err::<(), MultisigError>(MultisigError::OnlyAdmin)
                && final(self).multisig_account == old(self).multisig_account,
            r is Ok ==> final(self).multisig_account == toggled(old(self).multisig_account),
            final(self).admin == old(self).admin,
            old(self).multisig_account.wf() ==> final(self).multisig_account.wf(),
    {
        if !self.multisig_account.is_admin(&self.admin) {
            return Err(MultisigError::OnlyAdmin);
        }
        self.multisig_account.paused = !self.multisig_account.paused;
        Ok(())
    }
}

/// `new` is `old` with the member in slot `idx` taken out: later members in
/// use move down one slot and the freed last slot is emptied.
pub open spec fn removed_at(old: Seq<Member>, new: Seq<Member>, idx: int, count: int) -> bool {
    &&& new.len() == old.len()
    &&& forall|k: int| 0 <= k < idx ==> new[k] == old[k]
    &&& forall|k: int| idx <= k < count - 1 ==> new[k] == old[k + 1]
    &&& new[count - 1].is_empty_slot()
    &&& forall|k: int| count <= k < old.len() ==> new[k] == old[k]
}

/// Why the governance action `pt` cannot be applied to `ms`, if it cannot.
pub open spec fn governance_error(ms: Multisig, pt: ProposalType) -> Option<MultisigError> {
    match pt {
        ProposalType::AddMember { new_member, role: _ } => {
            if ms.spec_is_member(new_member) {
                Some(MultisigError::AlreadyMember)
            } else if ms.owner_count >= MAX_OWNERS {
                Some(MultisigError::MaxMembersReached)
            } else if new_member.is_zero() {
                Some(MultisigError::InvalidParameter)
            } else {
                None
            }
        },
        ProposalType::RemoveMember { member_to_remove } => {
            if !ms.spec_is_member(member_to_remove) {
                Some(MultisigError::NotAMember)
            } else if member_to_remove == ms.creator {
                Some(MultisigError::CannotRemoveCreator)
            } else if ms.owner_count <= 1 {
                Some(MultisigError::MinimumOneMember)
            } else if !(1 <= ms.threshold <= ms.owner_count - 1) {
                Some(MultisigError::InvalidThreshold)
            } else {
                None
            }
        },
        ProposalType::ChangeThreshold { new_threshold } => {
            if new_threshold < 1 {
                Some(MultisigError::InvalidThreshold)
            } else if new_threshold > ms.owner_count {
                Some(MultisigError::ThresholdExceedsOwners)
            } else {
                None
            }
        },
        ProposalType::ChangeTimelock { new_timelock } => {
            if new_timelock > MAX_TIMELOCK {
                Some(MultisigError::InvalidParameter)
            } else {
                None
            }
        },
    }
}

/// `new` is `old` after applying the governance action `pt` and recording
/// `proposal_id` as the last executed proposal.
pub open spec fn governance_applied(old: Multisig, new: Multisig, pt: ProposalType, proposal_id: u64) -> bool {
    match pt {
        ProposalType::AddMember { new_member, role } => {
            &&& new == (Multisig {
                members: new.members,
                owner_count: (old.owner_count + 1) as u8,
                last_executed_proposal: proposal_id,
                ..old
            })
            &&& new.members@ == old.members@.update(
                old.owner_count as int,
                Member { pubkey: new_member, role },
            )
        },
        ProposalType::RemoveMember { member_to_remove } => {
            &&& new == (Multisig {
                members: new.members,
                owner_count: (old.owner_count - 1) as u8,
                last_executed_proposal: proposal_id,
                ..old
            })
            &&& removed_at(
                old.members@,
                new.members@,
                old.spec_member_index(member_to_remove)->0,
                old.owner_count as int,
            )
        },
        ProposalType::ChangeThreshold { new_threshold } => new == (Multisig {
            threshold: new_threshold,
            last_executed_proposal: proposal_id,
            ..old
        }),
        ProposalType::ChangeTimelock { new_timelock } => new == (Multisig {
            timelock_seconds: new_timelock,
            last_executed_proposal: proposal_id,
            ..old
        }),
    }
}

/// Accounts of `execute_proposal`: the executor (signer), the multisig and
/// its address, the proposal, and the proposer who receives the closed
/// account's rent.
pub struct ExecuteProposal {
    pub executor: Pubkey,
    pub multisig_account: Multisig,
    pub multisig_account_key: Pubkey,
    pub proposal: Proposal,
    pub proposer: Pubkey,
}

impl ExecuteProposal {
    /// Whether all checks before the timelock pass.
    pub open spec fn reaches_timelock(self) -> bool {
        &&& self.proposer == self.proposal.proposer
        &&& !self.multisig_account.paused
        &&& self.multisig_account.spec_can_execute(self.executor)
        &&& self.proposal.multisig == self.multisig_account_key
        &&& self.proposal.status == ProposalStatus::Active
        &&& self.proposal.approval_count >= self.multisig_account.threshold
        &&& self.proposal.approval_count <= self.multisig_account.owner_count
    }

    /// Why `execute_proposal` fails at `now`, if it does. The account that
    /// receives the closed proposal's rent must be the proposal's proposer,
    /// which is checked before anything else.
    pub open spec fn error(self, now: i64) -> Option<MultisigError> {
        let ms = self.multisig_account;
        let p = self.proposal;
        if self.proposer != p.proposer {
            Some(MultisigError::NotProposer)
        } else if ms.paused {
            Some(MultisigError::MultisigPaused)
        } else if !ms.spec_can_execute(self.executor) {
            Some(MultisigError::CannotExecute)
        } else if p.multisig != self.multisig_account_key {
            Some(MultisigError::NotAMember)
        } else if p.status != ProposalStatus::Active {
            Some(MultisigError::ProposalNotActive)
        } else if p.approval_count < ms.threshold {
            Some(MultisigError::InsufficientApprovals)
        } else if p.approval_count > ms.owner_count {
            Some(MultisigError::Overflow)
        } else if now < timelock_end(p.created_at, ms.timelock_seconds) {
            Some(MultisigError::TimelockNotPassed)
        } else if now > p.expires_at {
            Some(MultisigError::ProposalExpired)
        } else {
            governance_error(ms, p.proposal_type)
        }
    }

    /// Whether executing at `now` would overflow the timelock arithmetic, or
    /// index past the member array while removing a member (possible only
    /// with a member count above `MAX_OWNERS`).
    pub open spec fn panics(self, now: i64) -> bool {
        let ms = self.multisig_account;
        let p = self.proposal;
        &&& self.reaches_timelock()
        &&& !fits_i64(timelock_end(p.created_at, ms.timelock_seconds)) || (now >= timelock_end(
            p.created_at,
            ms.timelock_seconds,
        ) && now <= p.expires_at && match p.proposal_type {
            ProposalType::RemoveMember { member_to_remove } => ms.spec_is_member(member_to_remove)
                && member_to_remove != ms.creator && ms.owner_count > MAX_OWNERS,
            _ => false,
        })
    }

    /// Whether executing at `now` would abort (see `panics`).
    pub fn would_panic(&self, now: i64) -> (r: bool)
        ensures
            r == self.panics(now),
    {
        let ms = &self.multisig_account;
        let p = &self.proposal;
        if !self.proposer.same(&p.proposer) || ms.paused || !ms.can_execute(&self.executor)
            || !p.multisig.same(&self.multisig_account_key)
            || !p.is_active() || p.approval_count < ms.threshold || p.approval_count > ms.owner_count {
            return false;
        }
        proof {
            lemma_as_i64(ms.timelock_seconds);
        }
        match p.created_at.checked_add(ms.timelock_seconds as i64) {
            None => true,
            Some(end) => now >= end && now <= p.expires_at && match p.proposal_type {
                ProposalType::RemoveMember { member_to_remove } => ms.is_member(&member_to_remove)
                    && !member_to_remove.same(&ms.creator) && (ms.owner_count as usize) > MAX_OWNERS,
                _ => false,
            },
        }
    }

    /// Executes an approved governance proposal once its timelock has passed
    /// and before it expires; only Admin and Executor members may, and only
    /// with the proposal's proposer as the account that receives its rent. The
    /// caller then closes the proposal account to the proposer.
    pub fn execute_proposal(&mut self, now: i64) -> (r: Result<(), MultisigError>)
        requires
            !old(self).panics(now),
        ensures
            match old(self).error(now) {
                Some(e) => r == Err::<(), MultisigError>(e) && final(self).multisig_account
                    == old(self).multisig_account && final(self).proposal == old(self).proposal,
                None => r is Ok && governance_applied(
                    old(self).multisig_account,
                    final(self).multisig_account,
                    old(self).proposal.proposal_type,
                    old(self).proposal.proposal_id,
                ) && final(self).proposal == (Proposal {
                    status: ProposalStatus::Executed,
                    executed_at: now,
                    ..old(self).proposal
                }),
            },
            final(self).executor == old(self).executor,
            final(self).multisig_account_key == old(self).multisig_account_key,
            final(self).proposer == old(self).proposer,
            old(self).multisig_account.wf() ==> final(self).multisig_account.wf(),
    {
        let ghost old_ms = self.multisig_account;
        if !self.proposer.same(&self.proposal.proposer) {
            return Err(MultisigError::NotProposer);
        }
        if self.multisig_account.paused {
            return Err(MultisigError::MultisigPaused);
        }
        if !self.multisig_account.can_execute(&self.executor) {
            return Err(MultisigError::CannotExecute);
        }
        if !self.proposal.multisig.same(&self.multisig_account_key) {
            return Err(MultisigError::NotAMember);
        }
        if !self.proposal.is_active() {
            return Err(MultisigError::ProposalNotActive);
        }
        if !(self.proposal.approval_count >= self.multisig_account.threshold) {
            return Err(MultisigError::InsufficientApprovals);
        }
        if !(self.proposal.approval_count <= self.multisig_account.owner_count) {
            return Err(MultisigError::Overflow);
        }
        if !self.proposal.timelock_passed(now, self.multisig_account.timelock_seconds) {
            return Err(MultisigError::TimelockNotPassed);
        }
        if self.proposal.is_expired(now) {
            return Err(MultisigError::ProposalExpired);
        }
        let mut ms = self.multisig_account;
        match self.proposal.proposal_type {
            ProposalType::AddMember { new_member, role } => {
                if ms.is_member(&new_member) {
                    return Err(MultisigError::AlreadyMember);
                }
                if !((ms.owner_count as usize) < MAX_OWNERS) {
                    return Err(MultisigError::MaxMembersReached);
                }
                if new_member.is_default() {
                    return Err(MultisigError::InvalidParameter);
                }
                let new_index = ms.owner_count as usize;
                ms.members[new_index] = Member { pubkey: new_member, role };
                ms.owner_count = ms.owner_count + 1;
                proof {
                    lemma_add_keeps_wf(old_ms, ms, new_member, role);
                }
            },
            ProposalType::RemoveMember { member_to_remove } => {
                if !ms.is_member(&member_to_remove) {
                    return Err(MultisigError::NotAMember);
                }
                if member_to_remove.same(&ms.creator) {
                    return Err(MultisigError::CannotRemoveCreator);
                }
                if !(ms.owner_count > 1) {
                    return Err(MultisigError::MinimumOneMember);
                }
                proof {
                    ms.lemma_member_index(member_to_remove);
                }
                let owner_index = match ms.member_index(&member_to_remove) {
                    Some(i) => i,
                    None => {
                        return Err(MultisigError::NotAMember);
                    },
                };
                let owner_count = ms.owner_count as usize;
                let mut i = owner_index;
                while i < owner_count - 1
                    invariant
                        owner_index <= i <= owner_count - 1,
                        1 < owner_count <= MAX_OWNERS,
                        owner_count == old_ms.owner_count,
                        ms == (Multisig { members: ms.members, ..old_ms }),
                        forall|k: int| 0 <= k < owner_index ==> ms.members[k] == old_ms.members[k],
                        forall|k: int|
                            owner_index <= k < i ==> ms.members[k] == old_ms.members[k + 1],
                        forall|k: int| i <= k < MAX_OWNERS ==> ms.members[k] == old_ms.members[k],
                    decreases owner_count - 1 - i,
                {
                    ms.members[i] = ms.members[i + 1];
                    i = i + 1;
                }
                ms.members[owner_count - 1] = Member::default();
                ms.owner_count = ms.owner_count - 1;
                if !ms.is_valid_threshold() {
                    return Err(MultisigError::InvalidThreshold);
                }
                proof {
                    assert(removed_at(
                        old_ms.members@,
                        ms.members@,
                        owner_index as int,
                        owner_count as int,
                    ));
                    lemma_remove_keeps_wf(old_ms, ms, member_to_remove, owner_index as int);
                }
            },
            ProposalType::ChangeThreshold { new_threshold } => {
                if !(new_threshold >= 1) {
                    return Err(MultisigError::InvalidThreshold);
                }
                if !(new_threshold <= ms.owner_count) {
                    return Err(MultisigError::ThresholdExceedsOwners);
                }
                ms.threshold = new_threshold;
            },
            ProposalType::ChangeTimelock { new_timelock } => {
                if !(new_timelock <= MAX_TIMELOCK) {
                    return Err(MultisigError::InvalidParameter);
                }
                ms.timelock_seconds = new_timelock;
            },
        }
        ms.last_executed_proposal = self.proposal.proposal_id;
        self.multisig_account = ms;
        self.proposal.status = ProposalStatus::Executed;
        self.proposal.executed_at = now;
        Ok(())
    }
}

/// Adding a fresh, valid member to a well-formed multisig keeps it
/// well-formed.
pub proof fn lemma_add_keeps_wf(old: Multisig, new: Multisig, new_member: Pubkey, role: MemberRole)
    requires
        !old.spec_is_member(new_member),
        !new_member.is_zero(),
        old.owner_count < MAX_OWNERS,
        new == (Multisig { members: new.members, owner_count: (old.owner_count + 1) as u8, ..old }),
        new.members@ == old.members@.update(
            old.owner_count as int,
            Member { pubkey: new_member, role },
        ),
    ensures
        old.wf() ==> new.wf(),
{
    if old.wf() {
        assert forall|i: int, j: int| 0 <= i < j < new.owner_count implies new.members[i].pubkey
            != new.members[j].pubkey by {
            if j == old.owner_count {
                assert(old.members[i] == new.members[i]);
            } else {
                assert(old.members[i] == new.members[i]);
                assert(old.members[j] == new.members[j]);
            }
        }
        assert forall|i: int| new.owner_count <= i < MAX_OWNERS implies new.members[
            i
        ].is_empty_slot() by {
            assert(old.members[i] == new.members[i]);
        }
        assert(new.members[0] == old.members[0]);
        assert forall|i: int| 0 <= i < new.owner_count implies !(#[trigger] new.members[i]).pubkey.is_zero() by {
            if i < old.owner_count {
                assert(old.members[i] == new.members[i]);
            }
        }
    }
}

/// Removing a member other than the creator from a well-formed multisig, with
/// the threshold still reachable, keeps it well-formed.
pub proof fn lemma_remove_keeps_wf(old: Multisig, new: Multisig, member: Pubkey, idx: int)
    requires
        old.spec_member_index(member) == Some(idx),
        member != old.creator,
        1 < old.owner_count <= MAX_OWNERS,
        new == (Multisig { members: new.members, owner_count: (old.owner_count - 1) as u8, ..old }),
        removed_at(old.members@, new.members@, idx, old.owner_count as int),
        new.spec_is_valid_threshold(),
    ensures
        old.wf() ==> new.wf(),
{
    old.lemma_member_index(member);
    if old.wf() {
        assert(idx != 0);
        assert(new.members[0] == old.members[0]);
        assert forall|i: int, j: int| 0 <= i < j < new.owner_count implies new.members[i].pubkey
            != new.members[j].pubkey by {
            let oi = if i < idx {
                i
            } else {
                i + 1
            };
            let oj = if j < idx {
                j
            } else {
                j + 1
            };
            assert(new.members[i] == old.members[oi]);
            assert(new.members[j] == old.members[oj]);
        }
        assert forall|i: int| 0 <= i < new.owner_count implies !(#[trigger] new.members[i]).pubkey.is_zero() by {
            let oi = if i < idx {
                i
            } else {
                i + 1
            };
            assert(new.members[i] == old.members[oi]);
        }
        assert forall|i: int| new.owner_count <= i < MAX_OWNERS implies new.members[
            i
        ].is_empty_slot() by {
            if i >= old.owner_count {
                assert(new.members[i] == old.members[i]);
            }
        }
    }
}

/// Accounts of `execute_transfer_proposal`: the executor (signer), the
/// multisig and its address, the transfer proposal, the proposer who
/// receives the closed account's rent, the vault and its balance, and the
/// recipient with the program that owns it.
pub struct ExecuteTransferProposal {
    pub executor: Pubkey,
    pub multisig_account: Multisig,
    pub multisig_account_key: Pubkey,
    pub transfer_proposal: TransferProposal,
    pub proposer: Pubkey,
    pub vault: Pubkey,
    /// Lamports held by the vault.
    pub vault_lamports: u64,
    pub recipient: Pubkey,
    /// Program that owns the recipient account.
    pub recipient_owner: Pubkey,
}

impl ExecuteTransferProposal {
    /// Whether all checks before the timelock pass.
    pub open spec fn reaches_timelock(self) -> bool {
        &&& self.transfer_proposal.proposer == self.proposer
        &&& !self.multisig_account.paused
        &&& self.multisig_account.spec_can_execute(self.executor)
        &&& self.transfer_proposal.status == ProposalStatus::Active
        &&& self.transfer_proposal.approval_count >= self.multisig_account.threshold
    }

    /// Why `execute_transfer_proposal` fails at `now`, if it does. The
    /// proposer account is matched against the proposal before anything else.
    pub open spec fn error(self, now: i64) -> Option<MultisigError> {
        let ms = self.multisig_account;
        let p = self.transfer_proposal;
        if p.proposer != self.proposer {
            Some(MultisigError::NotProposer)
        } else if ms.paused {
            Some(MultisigError::MultisigPaused)
        } else if !ms.spec_can_execute(self.executor) {
            Some(MultisigError::CannotExecute)
        } else if p.status != ProposalStatus::Active {
            Some(MultisigError::ProposalNotActive)
        } else if p.approval_count < ms.threshold {
            Some(MultisigError::InsufficientApprovals)
        } else if now < timelock_end(p.created_at, ms.timelock_seconds) {
            Some(MultisigError::TimelockNotPassed)
        } else if now > p.expires_at {
            Some(MultisigError::ProposalExpired)
        } else if !self.recipient_owner.is_zero() {
            Some(MultisigError::InvalidRecipient)
        } else if p.recipient != self.recipient {
            Some(MultisigError::InvalidRecipient)
        } else if self.vault_lamports < p.amount {
            Some(MultisigError::InsufficientFunds)
        } else {
            None
        }
    }

    /// Whether executing would overflow the timelock arithmetic.
    pub open spec fn panics(self) -> bool {
        self.reaches_timelock() && !fits_i64(
            timelock_end(self.transfer_proposal.created_at, self.multisig_account.timelock_seconds),
        )
    }

    /// Whether executing would abort (see `panics`).
    pub fn would_panic(&self) -> (r: bool)
        ensures
            r == self.panics(),
    {
        let ms = &self.multisig_account;
        let p = &self.transfer_proposal;
        if !p.proposer.same(&self.proposer) || ms.paused || !ms.can_execute(&self.executor) || !p.is_active()
            || p.approval_count < ms.threshold {
            return false;
        }
        proof {
            lemma_as_i64(ms.timelock_seconds);
        }
        p.created_at.checked_add(ms.timelock_seconds as i64).is_none()
    }

    /// Executes an approved transfer proposal once its timelock has passed and
    /// before it expires, to the recorded recipient (a system-owned account),
    /// when the vault can pay; only Admin and Executor members may. On success
    /// the caller moves `transfer_proposal.amount` lamports from the vault to
    /// the recipient and closes the proposal account to the proposer.
    pub fn execute_transfer_proposal(&mut self, now: i64) -> (r: Result<(), MultisigError>)
        requires
            !old(self).panics(),
        ensures
            match old(self).error(now) {
                Some(e) => r == Err::<(), MultisigError>(e) && final(self).multisig_account
                    == old(self).multisig_account && final(self).transfer_proposal == old(
                    self,
                ).transfer_proposal,
                None => r is Ok && final(self).multisig_account == (Multisig {
                    last_executed_proposal: old(self).transfer_proposal.proposal_id,
                    ..old(self).multisig_account
                }) && final(self).transfer_proposal == (TransferProposal {
                    status: ProposalStatus::Executed,
                    executed_at: now,
                    ..old(self).transfer_proposal
                }),
            },
            final(self).executor == old(self).executor,
            final(self).multisig_account_key == old(self).multisig_account_key,
            final(self).proposer == old(self).proposer,
            final(self).vault == old(self).vault,
            final(self).vault_lamports == old(self).vault_lamports,
            final(self).recipient == old(self).recipient,
            final(self).recipient_owner == old(self).recipient_owner,
            old(self).multisig_account.wf() ==> final(self).multisig_account.wf(),
    {
        if !self.transfer_proposal.proposer.same(&self.proposer) {
            return Err(MultisigError::NotProposer);
        }
        if self.multisig_account.paused {
            return Err(MultisigError::MultisigPaused);
        }
        if !self.multisig_account.can_execute(&self.executor) {
            return Err(MultisigError::CannotExecute);
        }
        if !(self.transfer_proposal.status == ProposalStatus::Active) {
            return Err(MultisigError::ProposalNotActive);
        }
        if !(self.transfer_proposal.approval_count >= self.multisig_account.threshold) {
            return Err(MultisigError::InsufficientApprovals);
        }
        if !self.transfer_proposal.timelock_passed(now, self.multisig_account.timelock_seconds) {
            return Err(MultisigError::TimelockNotPassed);
        }
        if self.transfer_proposal.is_expired(now) {
            return Err(MultisigError::ProposalExpired);
        }
        if !self.recipient_owner.is_default() {
            return Err(MultisigError::InvalidRecipient);
        }
        if !self.transfer_proposal.recipient.same(&self.recipient) {
            return Err(MultisigError::InvalidRecipient);
        }
        let vault_balance = self.vault_lamports;
        if !(vault_balance >= self.transfer_proposal.amount) {
            return Err(MultisigError::InsufficientFunds);
        }
        self.transfer_proposal.status = ProposalStatus::Executed;
        self.transfer_proposal.executed_at = now;
        self.multisig_account.last_executed_proposal = self.transfer_proposal.proposal_id;
        Ok(())
    }
}

} // verus!
