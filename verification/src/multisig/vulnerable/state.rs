//! Accounts of the weakened multisig: members, the multisig itself and its
//! two kinds of proposals.
use crate::approvals::{count_bits, has_bit};
use crate::key::Pubkey;
use crate::num::{fits_i64, lemma_as_i64, signed};
use vstd::prelude::*;

verus! {

/// Maximum number of members in a multisig.
pub const MAX_OWNERS: usize = 10;

/// Grace period after the timelock during which a proposal may still be
/// executed (7 days, in seconds).
pub const DEFAULT_EXPIRY_PERIOD: u64 = 7 * 24 * 60 * 60;

/// What a member may do: Admin (everything), Proposer (propose and approve),
/// Executor (approve and execute).
#[derive(Clone, Copy, PartialEq, Eq, Debug, Structural)]
pub enum MemberRole {
    Admin,
    Proposer,
    Executor,
}

impl Default for MemberRole {
    fn default() -> (r: MemberRole)
        ensures
            r == MemberRole::Executor,
    {
        MemberRole::Executor
    }
}

/// A member of the multisig: an address and a role.
#[derive(Clone, Copy, PartialEq, Eq, Debug)]
pub struct Member {
    pub pubkey: Pubkey,
    pub role: MemberRole,
}

impl Member {
    /// The content of an unused member slot.
    pub open spec fn is_empty_slot(self) -> bool {
        self.pubkey.is_zero() && self.role == MemberRole::Executor
    }
}

impl Default for Member {
    fn default() -> (r: Member)
        ensures
            r.is_empty_slot(),
    {
        Member { pubkey: Pubkey::default_key(), role: MemberRole::Executor }
    }
}

/// The multisig wallet account.
#[derive(Clone, Copy, PartialEq, Eq, Debug)]
pub struct Multisig {
    pub multisig_id: u64,
    /// Creator of the multisig; cannot be removed.
    pub creator: Pubkey,
    /// Approvals required to execute a proposal.
    pub threshold: u8,
    /// Number of members in use (the first `owner_count` slots).
    pub owner_count: u8,
    pub members: [Member; MAX_OWNERS],
    /// Proposals ever created; the next proposal's id.
    pub proposal_count: u64,
    pub last_executed_proposal: u64,
    pub paused: bool,
    /// Seconds a proposal must wait after creation before execution.
    pub timelock_seconds: u64,
    pub vault: Pubkey,
    pub bump: u8,
    pub vault_bump: u8,
}

/// First index below `n` whose member holds `key`.
pub open spec fn first_index(members: Seq<Member>, key: Pubkey, n: int) -> Option<int>
    decreases n,
{
    if n <= 0 {
        None
    } else {
        match first_index(members, key, n - 1) {
            Some(i) => Some(i),
            None => if members[n - 1].pubkey == key {
                Some(n - 1)
            } else {
                None
            },
        }
    }
}

/// `first_index` finds the first slot holding the key, or reports that none does.
pub proof fn lemma_first_index(members: Seq<Member>, key: Pubkey, n: int)
    ensures
        match first_index(members, key, n) {
            Some(i) => 0 <= i < n && members[i].pubkey == key && forall|j: int|
                0 <= j < i ==> members[j].pubkey != key,
            None => forall|j: int| 0 <= j < n ==> members[j].pubkey != key,
        },
    decreases n,
{
    if n > 0 {
        lemma_first_index(members, key, n - 1);
    }
}

impl Multisig {
    /// Number of member slots in use, bounded by the array size.
    pub open spec fn active_len(self) -> int {
        if self.owner_count <= MAX_OWNERS {
            self.owner_count as int
        } else {
            MAX_OWNERS as int
        }
    }

    /// The members in use, in slot order.
    pub open spec fn active_members(self) -> Seq<Member> {
        self.members@.take(self.active_len())
    }

    pub open spec fn spec_is_member(self, key: Pubkey) -> bool {
        exists|i: int| 0 <= i < self.active_len() && self.members[i].pubkey == key
    }

    /// Slot of the first member in use holding `key`.
    pub open spec fn spec_member_index(self, key: Pubkey) -> Option<int> {
        first_index(self.members@, key, self.active_len())
    }

    /// Membership and `spec_member_index` agree.
    pub proof fn lemma_member_index(self, key: Pubkey)
        ensures
            self.spec_member_index(key) is Some <==> self.spec_is_member(key),
            match self.spec_member_index(key) {
                Some(i) => 0 <= i < self.active_len() && i < MAX_OWNERS && self.members[i].pubkey
                    == key && forall|j: int| 0 <= j < i ==> self.members[j].pubkey != key,
                None => true,
            },
    {
        lemma_first_index(self.members@, key, self.active_len());
    }

    /// Check if a pubkey is a member.
    pub fn is_member(&self, key: &Pubkey) -> (r: bool)
        ensures
            r == self.spec_is_member(*key),
    {
        let r = self.member_index(key).is_some();
        proof {
            self.lemma_member_index(*key);
        }
        r
    }

    /// Get the index of a member, `None` if not found.
    pub fn member_index(&self, key: &Pubkey) -> (r: Option<usize>)
        ensures
            match self.spec_member_index(*key) {
                Some(i) => r == Some(i as usize),
                None => r is None,
            },
    {
        let n: usize = if (self.owner_count as usize) < MAX_OWNERS {
            self.owner_count as usize
        } else {
            MAX_OWNERS
        };
        let mut i: usize = 0;
        while i < n
            invariant
                n == self.active_len(),
                i <= n,
                first_index(self.members@, *key, i as int) is None,
            decreases n - i,
        {
            if self.members[i].pubkey.same(key) {
                assert(first_index(self.members@, *key, i + 1) == Some(i as int));
                proof {
                    lemma_first_index(self.members@, *key, i as int);
                    lemma_first_after(self.members@, *key, i + 1, n as int);
                }
                return Some(i);
            }
            i = i + 1;
        }
        None
    }
}

/// A search that found a slot below `m` finds the same slot below any larger bound.
pub proof fn lemma_first_after(members: Seq<Member>, key: Pubkey, m: int, n: int)
    requires
        m <= n,
        first_index(members, key, m) is Some,
    ensures
        first_index(members, key, n) == first_index(members, key, m),
    decreases n - m,
{
    if m < n {
        lemma_first_after(members, key, m, n - 1);
    }
}

/// Lifecycle of a proposal.
#[derive(Clone, Copy, PartialEq, Eq, Debug, Structural)]
pub enum ProposalStatus {
    Active,
    Executed,
    Cancelled,
}

impl Default for ProposalStatus {
    fn default() -> (r: ProposalStatus)
        ensures
            r == ProposalStatus::Active,
    {
        ProposalStatus::Active
    }
}

/// Governance actions that a proposal may carry.
#[derive(Clone, Copy, PartialEq, Eq, Debug)]
pub enum ProposalType {
    AddMember { new_member: Pubkey, role: MemberRole },
    RemoveMember { member_to_remove: Pubkey },
    ChangeThreshold { new_threshold: u8 },
    ChangeTimelock { new_timelock: u64 },
}

/// Whether slot `owner_index` is marked in `bitmap`, as the proposals test it.
pub open spec fn slot_approved(bitmap: u64, owner_index: int) -> bool {
    0 <= owner_index < MAX_OWNERS && has_bit(bitmap, owner_index as u64)
}

/// Approval bookkeeping that proposals created by the program keep: only
/// slot bits are used and the count equals the number of marked slots.
pub open spec fn approvals_consistent(bitmap: u64, approval_count: u8) -> bool {
    &&& bitmap < 1024
    &&& approval_count == count_bits(bitmap, MAX_OWNERS as nat)
}

/// A governance proposal account.
#[derive(Clone, Copy, PartialEq, Eq, Debug)]
pub struct Proposal {
    pub multisig: Pubkey,
    pub proposal_id: u64,
    pub proposer: Pubkey,
    pub proposal_type: ProposalType,
    pub status: ProposalStatus,
    /// One bit per member slot that has approved.
    pub approval_bitmap: u64,
    pub approval_count: u8,
    pub created_at: i64,
    pub expires_at: i64,
    pub executed_at: i64,
    pub bump: u8,
}

/// A SOL transfer proposal account.
#[derive(Clone, Copy, PartialEq, Eq, Debug)]
pub struct TransferProposal {
    pub multisig: Pubkey,
    pub proposal_id: u64,
    pub proposer: Pubkey,
    pub status: ProposalStatus,
    /// One bit per member slot that has approved.
    pub approval_bitmap: u64,
    pub approval_count: u8,
    pub created_at: i64,
    pub expires_at: i64,
    pub executed_at: i64,
    /// Lamports to move from the vault.
    pub amount: u64,
    pub recipient: Pubkey,
    pub bump: u8,
}

/// Whether recording an approval for `owner_index` would push the count past
/// `u8::MAX`.
pub open spec fn approve_overflows(bitmap: u64, approval_count: u8, owner_index: int) -> bool {
    0 <= owner_index < MAX_OWNERS && !has_bit(bitmap, owner_index as u64) && approval_count
        == u8::MAX
}

/// End of the timelock: creation time plus the timelock read as an `i64`.
pub open spec fn timelock_end(created_at: i64, timelock_seconds: u64) -> int {
    created_at + signed(timelock_seconds)
}

/// Recording an approval for a fresh slot keeps the bookkeeping consistent.
pub proof fn lemma_approve_consistent(bitmap: u64, approval_count: u8, owner_index: u64)
    requires
        approvals_consistent(bitmap, approval_count),
        owner_index < MAX_OWNERS,
        !has_bit(bitmap, owner_index),
    ensures
        approval_count < u8::MAX,
        approvals_consistent(bitmap | (1u64 << owner_index), (approval_count + 1) as u8),
{
    crate::approvals::lemma_count_bound(bitmap, MAX_OWNERS as nat);
    crate::approvals::lemma_count_after_set(bitmap, owner_index, MAX_OWNERS as nat);
    assert(bitmap | (1u64 << owner_index) < 1024) by (bit_vector)
        requires
            bitmap < 1024,
            owner_index < 10,
    ;
}

impl Proposal {
    /// Check if the proposal has reached `threshold` approvals (status,
    /// timelock and expiry are not looked at).
    pub fn is_ready_to_execute(&self, threshold: u8) -> (r: bool)
        ensures
            r == (self.approval_count >= threshold),
    {
        self.approval_count >= threshold
    }

    /// Check if the member in slot `owner_index` has approved.
    pub fn has_approved(&self, owner_index: usize) -> (r: bool)
        ensures
            r == slot_approved(self.approval_bitmap, owner_index as int),
    {
        if owner_index >= MAX_OWNERS {
            return false;
        }
        (self.approval_bitmap & (1u64 << owner_index)) != 0
    }

    /// Record an approval from the member in slot `owner_index`; false, with
    /// nothing changed, when the slot is out of range or already approved.
    pub fn approve(&mut self, owner_index: usize) -> (r: bool)
        requires
            !approve_overflows(
                old(self).approval_bitmap,
                old(self).approval_count,
                owner_index as int,
            ),
        ensures
            r == (owner_index < MAX_OWNERS && !has_bit(
                old(self).approval_bitmap,
                owner_index as u64,
            )),
            r ==> *final(self) == (Proposal {
                approval_bitmap: old(self).approval_bitmap | (1u64 << owner_index),
                approval_count: (old(self).approval_count + 1) as u8,
                ..*old(self)
            }),
            !r ==> *final(self) == *old(self),
    {
        if owner_index >= MAX_OWNERS || self.has_approved(owner_index) {
            return false;
        }
        self.approval_bitmap = self.approval_bitmap | (1u64 << owner_index);
        self.approval_count = self.approval_count + 1;
        true
    }

    /// Check if the proposal is still active.
    pub fn is_active(&self) -> (r: bool)
        ensures
            r == (self.status == ProposalStatus::Active),
    {
        self.status == ProposalStatus::Active
    }

    /// Check if the proposal has expired at `current_timestamp`.
    pub fn is_expired(&self, current_timestamp: i64) -> (r: bool)
        ensures
            r == (current_timestamp > self.expires_at),
    {
        current_timestamp > self.expires_at
    }

    /// Check if the timelock has passed at `current_timestamp`.
    pub fn timelock_passed(&self, current_timestamp: i64, timelock_seconds: u64) -> (r: bool)
        requires
            fits_i64(timelock_end(self.created_at, timelock_seconds)),
        ensures
            r == (current_timestamp >= timelock_end(self.created_at, timelock_seconds)),
    {
        proof {
            lemma_as_i64(timelock_seconds);
        }
        let timelock_end = self.created_at + timelock_seconds as i64;
        current_timestamp >= timelock_end
    }
}

impl TransferProposal {
    /// Check if the member in slot `owner_index` has approved.
    pub fn has_approved(&self, owner_index: usize) -> (r: bool)
        ensures
            r == slot_approved(self.approval_bitmap, owner_index as int),
    {
        if owner_index >= MAX_OWNERS {
            return false;
        }
        (self.approval_bitmap & (1u64 << owner_index)) != 0
    }

    /// Record an approval from the member in slot `owner_index`; false, with
    /// nothing changed, when the slot is out of range or already approved.
    pub fn approve(&mut self, owner_index: usize) -> (r: bool)
        requires
            !approve_overflows(
                old(self).approval_bitmap,
                old(self).approval_count,
                owner_index as int,
            ),
        ensures
            r == (owner_index < MAX_OWNERS && !has_bit(
                old(self).approval_bitmap,
                owner_index as u64,
            )),
            r ==> *final(self) == (TransferProposal {
                approval_bitmap: old(self).approval_bitmap | (1u64 << owner_index),
                approval_count: (old(self).approval_count + 1) as u8,
                ..*old(self)
            }),
            !r ==> *final(self) == *old(self),
    {
        if owner_index >= MAX_OWNERS || self.has_approved(owner_index) {
            return false;
        }
        self.approval_bitmap = self.approval_bitmap | (1u64 << owner_index);
        self.approval_count = self.approval_count + 1;
        true
    }

    /// Check if the proposal is still active.
    pub fn is_active(&self) -> (r: bool)
        ensures
            r == (self.status == ProposalStatus::Active),
    {
        self.status == ProposalStatus::Active
    }

    /// Check if the proposal has expired at `current_timestamp`.
    pub fn is_expired(&self, current_timestamp: i64) -> (r: bool)
        ensures
            r == (current_timestamp > self.expires_at),
    {
        current_timestamp > self.expires_at
    }

    /// Check if the timelock has passed at `current_timestamp`.
    pub fn timelock_passed(&self, current_timestamp: i64, timelock_seconds: u64) -> (r: bool)
        requires
            fits_i64(timelock_end(self.created_at, timelock_seconds)),
        ensures
            r == (current_timestamp >= timelock_end(self.created_at, timelock_seconds)),
    {
        proof {
            lemma_as_i64(timelock_seconds);
        }
        let timelock_end = self.created_at + timelock_seconds as i64;
        current_timestamp >= timelock_end
    }
}

} // verus!
