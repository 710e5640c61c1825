//! Instructions of the weakened multisig. None of them checks who signs,
//! whether the multisig is paused, or the state of the proposal: each
//! updates the accounts it is given and succeeds, unless its unchecked
//! arithmetic or array indexing would fail (the contracts exclude those
//! inputs). Account creation, closing and lamport transfers that follow are
//! carried out by the caller.
use super::errors::MultisigError;
use super::state::{
    approve_overflows, slot_approved, Member, MemberRole, Multisig, Proposal, ProposalStatus,
    ProposalType, TransferProposal, DEFAULT_EXPIRY_PERIOD, MAX_OWNERS,
};
use crate::approvals::has_bit;
use crate::key::Pubkey;
use crate::num::{fits_i64, lemma_as_i64, signed};
use vstd::prelude::*;

verus! {

/// Expiry of a proposal created at `now`: creation time, plus the timelock
/// read as an `i64`, plus the grace period.
pub open spec fn expiry(now: i64, timelock_seconds: u64) -> int {
    now + signed(timelock_seconds) + DEFAULT_EXPIRY_PERIOD
}

/// Whether the unchecked expiry sum stays within `i64`.
pub open spec fn expiry_fits(now: i64, timelock_seconds: u64) -> bool {
    fits_i64(now + signed(timelock_seconds)) && fits_i64(expiry(now, timelock_seconds))
}

/// The slot credited to `key`: its first slot in use, or slot 0 for an
/// address that is not a member.
pub open spec fn credited_slot(ms: Multisig, key: Pubkey) -> int {
    match ms.spec_member_index(key) {
        Some(i) => i,
        None => 0,
    }
}

fn credited_index(ms: &Multisig, key: &Pubkey) -> (r: usize)
    ensures
        r == credited_slot(*ms, *key),
        r < MAX_OWNERS,
{
    proof {
        ms.lemma_member_index(*key);
    }
    match ms.member_index(key) {
        Some(i) => i,
        None => 0,
    }
}

/// Whether numbering and dating a proposal created at `now` overflows: the
/// proposal counter is at the top of its range, or the expiry leaves the
/// `i64` range.
pub open spec fn numbering_overflows(ms: Multisig, now: i64) -> bool {
    ms.proposal_count == u64::MAX || !expiry_fits(now, ms.timelock_seconds)
}

/// Whether numbering and dating a proposal created at `now` overflows.
fn numbering_would_overflow(ms: &Multisig, now: i64) -> (r: bool)
    ensures
        r == numbering_overflows(*ms, now),
{
    if ms.proposal_count == u64::MAX {
        return true;
    }
    proof {
        lemma_as_i64(ms.timelock_seconds);
    }
    match now.checked_add(ms.timelock_seconds as i64) {
        None => true,
        Some(t) => t.checked_add(DEFAULT_EXPIRY_PERIOD as i64).is_none(),
    }
}

/// Whether recording an approval for `owner` overflows the approval counter.
fn approval_would_overflow(ms: &Multisig, owner: &Pubkey, bitmap: u64, approval_count: u8) -> (r: bool)
    ensures
        r == approve_overflows(bitmap, approval_count, credited_slot(*ms, *owner)),
{
    let i = credited_index(ms, owner);
    let marked = (bitmap & (1u64 << i)) != 0;
    proof {
        assert(marked == has_bit(bitmap, i as u64));
    }
    !marked && approval_count == u8::MAX
}

/// Bump seeds of the accounts created by `create_multisig`.
#[derive(Clone, Copy, PartialEq, Eq, Debug)]
pub struct CreateMultisigBumps {
    pub multisig_account: u8,
    pub vault: u8,
}

/// Accounts of `create_multisig`: the creator (signer), the multisig account
/// being initialised and the vault address.
pub struct CreateMultisig {
    pub creator: Pubkey,
    pub multisig_account: Multisig,
    pub vault: Pubkey,
}

impl CreateMultisig {
    /// Initialises a multisig whose only member is the creator, as admin,
    /// storing the threshold and timelock as given, whatever they are.
    pub fn create_multisig(
        &mut self,
        multisig_id: u64,
        threshold: u8,
        timelock_seconds: u64,
        bumps: &CreateMultisigBumps,
    ) -> (r: Result<(), MultisigError>)
        ensures
            r is Ok,
            final(self).creator == old(self).creator,
            final(self).vault == old(self).vault,
            final(self).multisig_account.multisig_id == multisig_id,
            final(self).multisig_account.creator == old(self).creator,
            final(self).multisig_account.threshold == threshold,
            final(self).multisig_account.owner_count == 1,
            final(self).multisig_account.members[0] == (Member {
                pubkey: old(self).creator,
                role: MemberRole::Admin,
            }),
            forall|i: int|
                1 <= i < MAX_OWNERS ==> final(self).multisig_account.members[i].is_empty_slot(),
            final(self).multisig_account.proposal_count == 0,
            final(self).multisig_account.last_executed_proposal == 0,
            !final(self).multisig_account.paused,
            final(self).multisig_account.timelock_seconds == timelock_seconds,
            final(self).multisig_account.vault == old(self).vault,
            final(self).multisig_account.bump == bumps.multisig_account,
            final(self).multisig_account.vault_bump == bumps.vault,
    {
        let mut members = [Member::default();MAX_OWNERS];
        members[0] = Member { pubkey: self.creator, role: MemberRole::Admin };
        self.multisig_account = Multisig {
            multisig_id,
            creator: self.creator,
            threshold,
            owner_count: 1,
            members,
            proposal_count: 0,
            last_executed_proposal: 0,
            paused: false,
            timelock_seconds,
            vault: self.vault,
            bump: bumps.multisig_account,
            vault_bump: bumps.vault,
        };
        Ok(())
    }
}

/// Bump seed of the proposal account created by `create_proposal`.
#[derive(Clone, Copy, PartialEq, Eq, Debug)]
pub struct CreateProposalBumps {
    pub proposal: u8,
}

/// Accounts of `create_proposal`: the proposer (signer), the multisig and
/// its address, and the proposal account being initialised.
pub struct CreateProposal {
    pub proposer: Pubkey,
    pub multisig_account: Multisig,
    pub multisig_account_key: Pubkey,
    pub proposal: Proposal,
}

impl CreateProposal {
    /// Whether `create_proposal` at `now` aborts (see `numbering_overflows`).
    pub fn would_panic(&self, now: i64) -> (r: bool)
        ensures
            r == numbering_overflows(self.multisig_account, now),
    {
        numbering_would_overflow(&self.multisig_account, now)
    }

    /// Creates a governance proposal from anyone, member or not, credited as
    /// an approval of the proposer's slot (slot 0 for a non-member).
    pub fn create_proposal(
        &mut self,
        proposal_type: ProposalType,
        bumps: &CreateProposalBumps,
        now: i64,
    ) -> (r: Result<(), MultisigError>)
        requires
            !numbering_overflows(old(self).multisig_account, now),
        ensures
            r is Ok,
            final(self).multisig_account == (Multisig {
                proposal_count: (old(self).multisig_account.proposal_count + 1) as u64,
                ..old(self).multisig_account
            }),
            final(self).proposal == (Proposal {
                multisig: old(self).multisig_account_key,
                proposal_id: old(self).multisig_account.proposal_count,
                proposer: old(self).proposer,
                proposal_type,
                status: ProposalStatus::Active,
                approval_bitmap: 1u64 << (credited_slot(
                    old(self).multisig_account,
                    old(self).proposer,
                ) as u64),
                approval_count: 1,
                created_at: now,
                expires_at: expiry(now, old(self).multisig_account.timelock_seconds) as i64,
                executed_at: 0,
                bump: bumps.proposal,
            }),
            final(self).proposer == old(self).proposer,
            final(self).multisig_account_key == old(self).multisig_account_key,
    {
        let proposer_index = credited_index(&self.multisig_account, &self.proposer);
        self.multisig_account.proposal_count = self.multisig_account.proposal_count + 1;
        let proposal_id = self.multisig_account.proposal_count - 1;
        let mut approval_bitmap: u64 = 0;
        approval_bitmap = approval_bitmap | (1u64 << proposer_index);
        proof {
            lemma_as_i64(self.multisig_account.timelock_seconds);
            let pi = proposer_index as u64;
            assert(0u64 | (1u64 << pi) == 1u64 << pi) by (bit_vector);
        }
        let expires_at = now + self.multisig_account.timelock_seconds as i64
            + DEFAULT_EXPIRY_PERIOD as i64;
        self.proposal = Proposal {
            multisig: self.multisig_account_key,
            proposal_id,
            proposer: self.proposer,
            proposal_type,
            status: ProposalStatus::Active,
            approval_bitmap,
            approval_count: 1,
            created_at: now,
            expires_at,
            executed_at: 0,
            bump: bumps.proposal,
        };
        Ok(())
    }
}

/// Bump seed of the transfer proposal account created by
/// `create_transfer_proposal`.
#[derive(Clone, Copy, PartialEq, Eq, Debug)]
pub struct CreateTransferProposalBumps {
    pub transfer_proposal: u8,
}

/// Accounts of `create_transfer_proposal`: the proposer (signer), the
/// multisig and its address, and the transfer proposal being initialised.
pub struct CreateTransferProposal {
    pub proposer: Pubkey,
    pub multisig_account: Multisig,
    pub multisig_account_key: Pubkey,
    pub transfer_proposal: TransferProposal,
}

impl CreateTransferProposal {
    /// Whether `create_transfer_proposal` at `now` aborts (see
    /// `numbering_overflows`).
    pub fn would_panic(&self, now: i64) -> (r: bool)
        ensures
            r == numbering_overflows(self.multisig_account, now),
    {
        numbering_would_overflow(&self.multisig_account, now)
    }

    /// Creates a transfer proposal from anyone, for any amount (zero too) and
    /// any recipient (the zero address too), credited as an approval of the
    /// proposer's slot (slot 0 for a non-member).
    pub fn create_transfer_proposal(
        &mut self,
        amount: u64,
        recipient: Pubkey,
        bumps: &CreateTransferProposalBumps,
        now: i64,
    ) -> (r: Result<(), MultisigError>)
        requires
            !numbering_overflows(old(self).multisig_account, now),
        ensures
            r is Ok,
            final(self).multisig_account == (Multisig {
                proposal_count: (old(self).multisig_account.proposal_count + 1) as u64,
                ..old(self).multisig_account
            }),
            final(self).transfer_proposal == (TransferProposal {
                multisig: old(self).multisig_account_key,
                proposal_id: old(self).multisig_account.proposal_count,
                proposer: old(self).proposer,
                status: ProposalStatus::Active,
                approval_bitmap: 1u64 << (credited_slot(
                    old(self).multisig_account,
                    old(self).proposer,
                ) as u64),
                approval_count: 1,
                created_at: now,
                expires_at: expiry(now, old(self).multisig_account.timelock_seconds) as i64,
                executed_at: 0,
                amount,
                recipient,
                bump: bumps.transfer_proposal,
            }),
            final(self).proposer == old(self).proposer,
            final(self).multisig_account_key == old(self).multisig_account_key,
    {
        let proposer_index = credited_index(&self.multisig_account, &self.proposer);
        self.multisig_account.proposal_count = self.multisig_account.proposal_count + 1;
        let proposal_id = self.multisig_account.proposal_count - 1;
        let mut approval_bitmap: u64 = 0;
        approval_bitmap = approval_bitmap | (1u64 << proposer_index);
        proof {
            lemma_as_i64(self.multisig_account.timelock_seconds);
            let pi = proposer_index as u64;
            assert(0u64 | (1u64 << pi) == 1u64 << pi) by (bit_vector);
        }
        let expires_at = now + self.multisig_account.timelock_seconds as i64
            + DEFAULT_EXPIRY_PERIOD as i64;
        self.transfer_proposal = TransferProposal {
            multisig: self.multisig_account_key,
            proposal_id,
            proposer: self.proposer,
            status: ProposalStatus::Active,
            approval_bitmap,
            approval_count: 1,
            created_at: now,
            expires_at,
            executed_at: 0,
            amount,
            recipient,
            bump: bumps.transfer_proposal,
        };
        Ok(())
    }
}

/// Accounts of `approve_proposal`: the approver (signer), the multisig and
/// the proposal.
pub struct ApproveProposal {
    pub owner: Pubkey,
    pub multisig_account: Multisig,
    pub proposal: Proposal,
}

impl ApproveProposal {
    /// Whether recording the approval aborts on the approval counter.
    pub fn would_overflow(&self) -> (r: bool)
        ensures
            r == approve_overflows(
                self.proposal.approval_bitmap,
                self.proposal.approval_count,
                credited_slot(self.multisig_account, self.owner),
            ),
    {
        approval_would_overflow(&self.multisig_account, &self.owner, self.proposal.approval_bitmap, self.proposal.approval_count)
    }

    /// Records an approval for the signer's slot (slot 0 for a non-member),
    /// whatever the proposal's state or multisig; an approval already
    /// recorded for that slot changes nothing.
    pub fn approve_proposal(&mut self) -> (r: Result<(), MultisigError>)
        requires
            !approve_overflows(
                old(self).proposal.approval_bitmap,
                old(self).proposal.approval_count,
                credited_slot(old(self).multisig_account, old(self).owner),
            ),
        ensures
            r is Ok,
            slot_approved(
                old(self).proposal.approval_bitmap,
                credited_slot(old(self).multisig_account, old(self).owner),
            ) ==> final(self).proposal == old(self).proposal,
            !slot_approved(
                old(self).proposal.approval_bitmap,
                credited_slot(old(self).multisig_account, old(self).owner),
            ) ==> final(self).proposal == (Proposal {
                approval_bitmap: old(self).proposal.approval_bitmap | (1u64 << (credited_slot(
                    old(self).multisig_account,
                    old(self).owner,
                ) as u64)),
                approval_count: (old(self).proposal.approval_count + 1) as u8,
                ..old(self).proposal
            }),
            final(self).owner == old(self).owner,
            final(self).multisig_account == old(self).multisig_account,
    {
        let owner_index = credited_index(&self.multisig_account, &self.owner);
        let _success = self.proposal.approve(owner_index);
        Ok(())
    }
}

/// Accounts of `approve_transfer_proposal`: the approver (signer), the
/// multisig and the transfer proposal.
pub struct ApproveTransferProposal {
    pub owner: Pubkey,
    pub multisig_account: Multisig,
    pub transfer_proposal: TransferProposal,
}

impl ApproveTransferProposal {
    /// Whether recording the approval aborts on the approval counter.
    pub fn would_overflow(&self) -> (r: bool)
        ensures
            r == approve_overflows(
                self.transfer_proposal.approval_bitmap,
                self.transfer_proposal.approval_count,
                credited_slot(self.multisig_account, self.owner),
            ),
    {
        approval_would_overflow(
            &self.multisig_account,
            &self.owner,
            self.transfer_proposal.approval_bitmap,
            self.transfer_proposal.approval_count,
        )
    }

    /// Records an approval for the signer's slot (slot 0 for a non-member),
    /// whatever the proposal's state or multisig; an approval already
    /// recorded for that slot changes nothing.
    pub fn approve_transfer_proposal(&mut self) -> (r: Result<(), MultisigError>)
        requires
            !approve_overflows(
                old(self).transfer_proposal.approval_bitmap,
                old(self).transfer_proposal.approval_count,
                credited_slot(old(self).multisig_account, old(self).owner),
            ),
        ensures
            r is Ok,
            slot_approved(
                old(self).transfer_proposal.approval_bitmap,
                credited_slot(old(self).multisig_account, old(self).owner),
            ) ==> final(self).transfer_proposal == old(self).transfer_proposal,
            !slot_approved(
                old(self).transfer_proposal.approval_bitmap,
                credited_slot(old(self).multisig_account, old(self).owner),
            ) ==> final(self).transfer_proposal == (TransferProposal {
                approval_bitmap: old(self).transfer_proposal.approval_bitmap | (1u64 << (
                credited_slot(old(self).multisig_account, old(self).owner) as u64)),
                approval_count: (old(self).transfer_proposal.approval_count + 1) as u8,
                ..old(self).transfer_proposal
            }),
            final(self).owner == old(self).owner,
            final(self).multisig_account == old(self).multisig_account,
    {
        let owner_index = credited_index(&self.multisig_account, &self.owner);
        let _success = self.transfer_proposal.approve(owner_index);
        Ok(())
    }
}

/// Accounts of `execute_proposal`: the executor (signer, who also receives
/// the closed proposal's rent), the multisig and the proposal.
pub struct ExecuteProposal {
    pub executor: Pubkey,
    pub multisig_account: Multisig,
    pub proposal: Proposal,
}

/// `new` is `old` after the weakened execution of `pt`: members are added
/// in the next slot without any check, a removed member's slot takes the
/// last member in use (whose slot is then emptied), and thresholds and
/// timelocks are stored as given.
pub open spec fn governance_applied(old: Multisig, new: Multisig, pt: ProposalType, proposal_id: u64) -> bool {
    match pt {
        ProposalType::AddMember { new_member, role } => {
            &&& new == (Multisig {
                members: new.members,
                owner_count: (old.owner_count + 1) as u8,
                last_executed_proposal: proposal_id,
                ..old
            })
            &&& new.members@ == old.members@.update(
                old.owner_count as int,
                Member { pubkey: new_member, role },
            )
        },
        ProposalType::RemoveMember { member_to_remove } => match old.spec_member_index(
            member_to_remove,
        ) {
            Some(idx) => {
                let last = old.owner_count - 1;
                &&& new == (Multisig {
                    members: new.members,
                    owner_count: last as u8,
                    last_executed_proposal: proposal_id,
                    ..old
                })
                &&& new.members[last].is_empty_slot()
                &&& idx != last ==> new.members[idx] == old.members[last]
                &&& forall|k: int|
                    0 <= k < MAX_OWNERS && k != idx && k != last ==> new.members[k]
                        == old.members[k]
            },
            None => new == (Multisig { last_executed_proposal: proposal_id, ..old }),
        },
        ProposalType::ChangeThreshold { new_threshold } => new == (Multisig {
            threshold: new_threshold,
            last_executed_proposal: proposal_id,
            ..old
        }),
        ProposalType::ChangeTimelock { new_timelock } => new == (Multisig {
            timelock_seconds: new_timelock,
            last_executed_proposal: proposal_id,
            ..old
        }),
    }
}

impl ExecuteProposal {
    /// Whether executing would index past the member array: adding to a full
    /// member list, or removing from one whose count exceeds `MAX_OWNERS`.
    pub open spec fn panics(self) -> bool {
        let ms = self.multisig_account;
        match self.proposal.proposal_type {
            ProposalType::AddMember { .. } => ms.owner_count >= MAX_OWNERS,
            ProposalType::RemoveMember { member_to_remove } => ms.spec_is_member(member_to_remove)
                && ms.owner_count > MAX_OWNERS,
            _ => false,
        }
    }

    /// Whether executing aborts (see `panics`).
    pub fn would_panic(&self) -> (r: bool)
        ensures
            r == self.panics(),
    {
        let ms = &self.multisig_account;
        match self.proposal.proposal_type {
            ProposalType::AddMember { .. } => (ms.owner_count as usize) >= MAX_OWNERS,
            ProposalType::RemoveMember { member_to_remove } => ms.is_member(&member_to_remove)
                && (ms.owner_count as usize) > MAX_OWNERS,
            _ => false,
        }
    }

    /// Executes any proposal from any signer: paused or not, approved or not,
    /// active or not, before its timelock or after its expiry.
    pub fn execute_proposal(&mut self, now: i64) -> (r: Result<(), MultisigError>)
        requires
            !old(self).panics(),
        ensures
            r is Ok,
            governance_applied(
                old(self).multisig_account,
                final(self).multisig_account,
                old(self).proposal.proposal_type,
                old(self).proposal.proposal_id,
            ),
            final(self).proposal == (Proposal {
                status: ProposalStatus::Executed,
                executed_at: now,
                ..old(self).proposal
            }),
            final(self).executor == old(self).executor,
    {
        let ghost old_ms = self.multisig_account;
        match self.proposal.proposal_type {
            ProposalType::AddMember { new_member, role } => {
                let index = self.multisig_account.owner_count as usize;
                self.multisig_account.members[index] = Member { pubkey: new_member, role };
                self.multisig_account.owner_count = self.multisig_account.owner_count + 1;
            },
            ProposalType::RemoveMember { member_to_remove } => {
                proof {
                    self.multisig_account.lemma_member_index(member_to_remove);
                }
                if let Some(index) = self.multisig_account.member_index(&member_to_remove) {
                    let last_index = (self.multisig_account.owner_count - 1) as usize;
                    self.multisig_account.members[index] =
                    self.multisig_account.members[last_index];
                    self.multisig_account.members[last_index] = Member::default();
                    self.multisig_account.owner_count = self.multisig_account.owner_count - 1;
                }
            },
            ProposalType::ChangeThreshold { new_threshold } => {
                self.multisig_account.threshold = new_threshold;
            },
            ProposalType::ChangeTimelock { new_timelock } => {
                self.multisig_account.timelock_seconds = new_timelock;
            },
        }
        self.proposal.status = ProposalStatus::Executed;
        self.proposal.executed_at = now;
        self.multisig_account.last_executed_proposal = self.proposal.proposal_id;
        Ok(())
    }
}

/// Accounts of `execute_transfer_proposal`: the executor (signer, who also
/// receives the closed proposal's rent), the multisig, the transfer
/// proposal, the vault and the recipient.
pub struct ExecuteTransferProposal {
    pub executor: Pubkey,
    pub multisig_account: Multisig,
    pub transfer_proposal: TransferProposal,
    pub vault: Pubkey,
    pub recipient: Pubkey,
}

impl ExecuteTransferProposal {
    /// Executes any transfer proposal from any signer, to whatever recipient
    /// account is passed: paused or not, approved or not, active or not. The
    /// caller moves `transfer_proposal.amount` lamports from the vault to
    /// `recipient` (failing if the vault cannot pay) and closes the proposal
    /// account to the executor.
    pub fn execute_transfer_proposal(&mut self, now: i64) -> (r: Result<(), MultisigError>)
        ensures
            r is Ok,
            final(self).multisig_account == (Multisig {
                last_executed_proposal: old(self).transfer_proposal.proposal_id,
                ..old(self).multisig_account
            }),
            final(self).transfer_proposal == (TransferProposal {
                status: ProposalStatus::Executed,
                executed_at: now,
                ..old(self).transfer_proposal
            }),
            final(self).executor == old(self).executor,
            final(self).vault == old(self).vault,
            final(self).recipient == old(self).recipient,
    {
        self.transfer_proposal.status = ProposalStatus::Executed;
        self.transfer_proposal.executed_at = now;
        self.multisig_account.last_executed_proposal = self.transfer_proposal.proposal_id;
        Ok(())
    }
}

/// Accounts of `cancel_proposal`: the canceller (signer, who also receives
/// the closed proposal's rent), the multisig and the proposal.
pub struct CancelProposal {
    pub canceller: Pubkey,
    pub multisig_account: Multisig,
    pub proposal: Proposal,
}

impl CancelProposal {
    /// Cancels any proposal, whoever signs and whatever its state.
    pub fn cancel_proposal(&mut self) -> (r: Result<(), MultisigError>)
        ensures
            r is Ok,
            final(self).proposal == (Proposal {
                status: ProposalStatus::Cancelled,
                ..old(self).proposal
            }),
            final(self).canceller == old(self).canceller,
            final(self).multisig_account == old(self).multisig_account,
    {
        self.proposal.status = ProposalStatus::Cancelled;
        Ok(())
    }
}

/// Accounts of `toggle_pause`: the signer and the multisig.
pub struct TogglePause {
    pub admin: Pubkey,
    pub multisig_account: Multisig,
}

impl TogglePause {
    /// Flips the pause switch, whoever signs.
    pub fn toggle_pause(&mut self) -> (r: Result<(), MultisigError>)
        ensures
            r is Ok,
            final(self).multisig_account == (Multisig {
                paused: !old(self).multisig_account.paused,
                ..old(self).multisig_account
            }),
            final(self).admin == old(self).admin,
    {
        self.multisig_account.paused = !self.multisig_account.paused;
        Ok(())
    }
}

} // verus!
