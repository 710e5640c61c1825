use soteria::key::Pubkey;
use soteria::multisig::secure::errors::MultisigError;
use soteria::multisig::secure::instructions::{
    ApproveProposal, ApproveTransferProposal, CancelProposal, CreateMultisig, CreateMultisigBumps,
    CreateProposal, CreateProposalBumps, CreateTransferProposal, CreateTransferProposalBumps,
    ExecuteProposal, ExecuteTransferProposal, TogglePause,
};
use soteria::multisig::secure::state::{
    Member, MemberRole, Multisig, Proposal, ProposalStatus, ProposalType, TransferProposal,
    DEFAULT_EXPIRY_PERIOD, MAX_OWNERS,
};

const LAMPORTS_PER_SOL: u64 = 1_000_000_000;

fn key(n: u8) -> Pubkey {
    let mut b = [0u8; 32];
    b[0] = n;
    b[31] = n.wrapping_mul(7).wrapping_add(1);
    Pubkey(b)
}

fn system_program() -> Pubkey {
    Pubkey([0u8; 32])
}

fn blank_multisig() -> Multisig {
    Multisig {
        multisig_id: 0,
        creator: Pubkey([0u8; 32]),
        threshold: 0,
        owner_count: 0,
        members: [Member::default(); MAX_OWNERS],
        proposal_count: 0,
        last_executed_proposal: 0,
        paused: false,
        timelock_seconds: 0,
        vault: Pubkey([0u8; 32]),
        bump: 0,
        vault_bump: 0,
    }
}

fn blank_proposal() -> Proposal {
    Proposal {
        multisig: Pubkey([0u8; 32]),
        proposal_id: 0,
        proposer: Pubkey([0u8; 32]),
        proposal_type: ProposalType::ChangeThreshold { new_threshold: 0 },
        status: ProposalStatus::Active,
        approval_bitmap: 0,
        approval_count: 0,
        created_at: 0,
        expires_at: 0,
        executed_at: 0,
        bump: 0,
    }
}

fn blank_transfer() -> TransferProposal {
    TransferProposal {
        multisig: Pubkey([0u8; 32]),
        proposal_id: 0,
        proposer: Pubkey([0u8; 32]),
        status: ProposalStatus::Active,
        approval_bitmap: 0,
        approval_count: 0,
        created_at: 0,
        expires_at: 0,
        executed_at: 0,
        amount: 0,
        recipient: Pubkey([0u8; 32]),
        bump: 0,
    }
}

/// The multisig as it stands on chain, its address, its vault and balance,
/// and the cluster clock.
struct Chain {
    ms: Multisig,
    ms_key: Pubkey,
    vault: Pubkey,
    vault_lamports: u64,
    now: i64,
}

fn advance_time(chain: &mut Chain, seconds: u64) {
    chain.now += seconds as i64;
}

fn create_basic_multisig(creator: Pubkey, multisig_id: u64, timelock_seconds: u64) -> Chain {
    let mut ctx = CreateMultisig { creator, multisig_account: blank_multisig(), vault: key(200) };
    let bumps = CreateMultisigBumps { multisig_account: 254, vault: 253 };
    ctx.create_multisig(multisig_id, 1, timelock_seconds, &bumps).expect("create_multisig failed");
    Chain { ms: ctx.multisig_account, ms_key: key(201), vault: key(200), vault_lamports: 0, now: 0 }
}

fn create_proposal(chain: &mut Chain, proposer: Pubkey, pt: ProposalType) -> Result<Proposal, MultisigError> {
    let mut ctx = CreateProposal {
        proposer,
        multisig_account: chain.ms,
        multisig_account_key: chain.ms_key,
        proposal: blank_proposal(),
    };
    ctx.create_proposal(pt, &CreateProposalBumps { proposal: 250 }, chain.now)?;
    chain.ms = ctx.multisig_account;
    Ok(ctx.proposal)
}

fn approve_proposal(chain: &mut Chain, owner: Pubkey, proposal: &mut Proposal) -> Result<(), MultisigError> {
    let mut ctx = ApproveProposal {
        owner,
        multisig_account: chain.ms,
        multisig_account_key: chain.ms_key,
        proposal: *proposal,
    };
    ctx.approve_proposal()?;
    *proposal = ctx.proposal;
    Ok(())
}

fn execute_proposal(chain: &mut Chain, executor: Pubkey, proposal: &mut Proposal) -> Result<(), MultisigError> {
    let mut ctx = ExecuteProposal {
        executor,
        multisig_account: chain.ms,
        multisig_account_key: chain.ms_key,
        proposal: *proposal,
        proposer: proposal.proposer,
    };
    ctx.execute_proposal(chain.now)?;
    chain.ms = ctx.multisig_account;
    *proposal = ctx.proposal;
    Ok(())
}

fn create_transfer(
    chain: &mut Chain,
    proposer: Pubkey,
    amount: u64,
    recipient: Pubkey,
) -> Result<TransferProposal, MultisigError> {
    let mut ctx = CreateTransferProposal {
        proposer,
        multisig_account: chain.ms,
        multisig_account_key: chain.ms_key,
        transfer_proposal: blank_transfer(),
    };
    ctx.create_transfer_proposal(amount, recipient, &CreateTransferProposalBumps { transfer_proposal: 249 }, chain.now)?;
    chain.ms = ctx.multisig_account;
    Ok(ctx.transfer_proposal)
}

fn approve_transfer(chain: &mut Chain, owner: Pubkey, tp: &mut TransferProposal) -> Result<(), MultisigError> {
    let mut ctx = ApproveTransferProposal {
        owner,
        multisig_account: chain.ms,
        multisig_account_key: chain.ms_key,
        transfer_proposal: *tp,
    };
    ctx.approve_transfer_proposal()?;
    *tp = ctx.transfer_proposal;
    Ok(())
}

/// Executes a transfer proposal and, on success, moves the lamports as the
/// caller of the library does.
fn execute_transfer(
    chain: &mut Chain,
    executor: Pubkey,
    tp: &mut TransferProposal,
    proposer: Pubkey,
    recipient: Pubkey,
    recipient_lamports: &mut u64,
) -> Result<(), MultisigError> {
    let mut ctx = ExecuteTransferProposal {
        executor,
        multisig_account: chain.ms,
        multisig_account_key: chain.ms_key,
        transfer_proposal: *tp,
        proposer,
        vault: chain.vault,
        vault_lamports: chain.vault_lamports,
        recipient,
        recipient_owner: system_program(),
    };
    ctx.execute_transfer_proposal(chain.now)?;
    chain.ms = ctx.multisig_account;
    *tp = ctx.transfer_proposal;
    chain.vault_lamports -= tp.amount;
    *recipient_lamports += tp.amount;
    Ok(())
}

fn toggle_pause(chain: &mut Chain, admin: Pubkey) -> Result<(), MultisigError> {
    let mut ctx = TogglePause { admin, multisig_account: chain.ms };
    ctx.toggle_pause()?;
    chain.ms = ctx.multisig_account;
    Ok(())
}

fn add_member_to_multisig(
    chain: &mut Chain,
    admin: Pubkey,
    new_member: Pubkey,
    role: MemberRole,
    proposal_id: u64,
    timelock_seconds: u64,
) {
    let mut proposal = create_proposal(chain, admin, ProposalType::AddMember { new_member, role })
        .expect("add member proposal failed");
    assert_eq!(proposal.proposal_id, proposal_id);
    advance_time(chain, timelock_seconds + 2);
    execute_proposal(chain, admin, &mut proposal).expect("add member execution failed");
}

#[test]
fn test_create_multisig() {
    let alice = key(1);
    let chain = create_basic_multisig(alice, 1, 60);
    assert_eq!(chain.ms.creator, alice);
    assert_eq!(chain.ms.multisig_id, 1);
    assert_eq!(chain.ms.threshold, 1);
    assert_eq!(chain.ms.timelock_seconds, 60);
    assert_eq!(chain.ms.owner_count, 1);
    assert_eq!(chain.ms.members[0], Member { pubkey: alice, role: MemberRole::Admin });
    assert_eq!(chain.ms.vault, chain.vault);
    assert!(!chain.ms.paused);
}

#[test]
fn test_full_governance_flow() {
    let alice = key(1);
    let bob = key(2);
    let charlie = key(3);
    let timelock_seconds = 1u64;
    let mut chain = create_basic_multisig(alice, 1, timelock_seconds);

    add_member_to_multisig(&mut chain, alice, bob, MemberRole::Proposer, 0, timelock_seconds);
    assert_eq!(chain.ms.owner_count, 2);
    add_member_to_multisig(&mut chain, alice, charlie, MemberRole::Executor, 1, timelock_seconds);
    assert_eq!(chain.ms.owner_count, 3);

    let mut proposal_2 = create_proposal(&mut chain, alice, ProposalType::ChangeThreshold { new_threshold: 2 }).unwrap();
    assert_eq!(proposal_2.proposal_id, 2);
    advance_time(&mut chain, timelock_seconds + 1);
    execute_proposal(&mut chain, alice, &mut proposal_2).unwrap();
    assert_eq!(chain.ms.threshold, 2);

    let recipient = key(9);
    let mut recipient_lamports = LAMPORTS_PER_SOL;
    chain.vault_lamports += 5 * LAMPORTS_PER_SOL;
    let mut tp = create_transfer(&mut chain, bob, LAMPORTS_PER_SOL, recipient).unwrap();
    assert_eq!(tp.proposal_id, 3);
    assert_eq!(tp.approval_count, 1);
    advance_time(&mut chain, timelock_seconds + 1);
    approve_transfer(&mut chain, alice, &mut tp).unwrap();
    assert_eq!(tp.approval_count, 2);
    execute_transfer(&mut chain, alice, &mut tp, bob, recipient, &mut recipient_lamports).unwrap();
    assert_eq!(tp.status, ProposalStatus::Executed);
}

#[test]
fn test_transfer_proposal_flow() {
    let alice = key(1);
    let recipient = key(9);
    let timelock_seconds = 5u64;
    let mut chain = create_basic_multisig(alice, 1, timelock_seconds);

    chain.vault_lamports += 10 * LAMPORTS_PER_SOL;
    let vault_balance_before = chain.vault_lamports;
    let mut recipient_lamports = LAMPORTS_PER_SOL;
    let recipient_balance_before = recipient_lamports;

    let transfer_amount = LAMPORTS_PER_SOL;
    let mut tp = create_transfer(&mut chain, alice, transfer_amount, recipient).unwrap();
    assert_eq!(tp.proposal_id, 0);

    advance_time(&mut chain, timelock_seconds + 1);
    execute_transfer(&mut chain, alice, &mut tp, alice, recipient, &mut recipient_lamports).unwrap();

    assert_eq!(chain.vault_lamports, vault_balance_before - transfer_amount, "Vault should have sent 1 SOL");
    assert_eq!(recipient_lamports, recipient_balance_before + transfer_amount, "Recipient should have received 1 SOL");
    assert_eq!(tp.status, ProposalStatus::Executed, "Transfer proposal should be closed");
}

#[test]
fn test_remove_member() {
    let alice = key(1);
    let bob = key(2);
    let timelock_seconds = 5u64;
    let mut chain = create_basic_multisig(alice, 1, timelock_seconds);
    add_member_to_multisig(&mut chain, alice, bob, MemberRole::Proposer, 0, timelock_seconds);

    let mut proposal = create_proposal(&mut chain, alice, ProposalType::RemoveMember { member_to_remove: bob }).unwrap();
    assert_eq!(proposal.proposal_id, 1);
    advance_time(&mut chain, timelock_seconds + 1);
    execute_proposal(&mut chain, alice, &mut proposal).unwrap();
    assert_eq!(chain.ms.owner_count, 1);

    let charlie = key(3);
    let mut proposal_2 = create_proposal(
        &mut chain,
        alice,
        ProposalType::AddMember { new_member: charlie, role: MemberRole::Executor },
    )
    .unwrap();
    assert_eq!(proposal_2.proposal_id, 2);
    let error = approve_proposal(&mut chain, bob, &mut proposal_2).unwrap_err();
    assert_eq!(error, MultisigError::NotAMember, "Bob should not be able to approve");
}

#[test]
fn test_change_timelock() {
    let alice = key(1);
    let initial_timelock = 60u64;
    let mut chain = create_basic_multisig(alice, 1, initial_timelock);

    let new_timelock = 10u64;
    let mut proposal = create_proposal(&mut chain, alice, ProposalType::ChangeTimelock { new_timelock }).unwrap();
    assert_eq!(proposal.proposal_id, 0);
    advance_time(&mut chain, initial_timelock + 1);
    execute_proposal(&mut chain, alice, &mut proposal).unwrap();
    assert_eq!(chain.ms.timelock_seconds, new_timelock);

    chain.vault_lamports += 5 * LAMPORTS_PER_SOL;
    let recipient = key(9);
    let mut recipient_lamports = LAMPORTS_PER_SOL;
    let mut tp = create_transfer(&mut chain, alice, LAMPORTS_PER_SOL, recipient).unwrap();
    assert_eq!(tp.proposal_id, 1);
    advance_time(&mut chain, new_timelock + 1);
    execute_transfer(&mut chain, alice, &mut tp, alice, recipient, &mut recipient_lamports).unwrap();
}

#[test]
fn test_toggle_pause() {
    let alice = key(1);
    let mut chain = create_basic_multisig(alice, 1, 60);

    toggle_pause(&mut chain, alice).unwrap();
    assert!(chain.ms.paused);

    let bob = key(2);
    let error = create_proposal(&mut chain, alice, ProposalType::AddMember { new_member: bob, role: MemberRole::Proposer })
        .unwrap_err();
    assert_eq!(error, MultisigError::MultisigPaused, "Should fail with MultisigPaused");

    toggle_pause(&mut chain, alice).unwrap();
    assert!(!chain.ms.paused);

    let proposal = create_proposal(&mut chain, alice, ProposalType::AddMember { new_member: bob, role: MemberRole::Proposer })
        .unwrap();
    assert_eq!(proposal.proposal_id, 0);
}

#[test]
fn test_non_admin_cannot_pause() {
    let alice = key(1);
    let bob = key(2);
    let timelock = 5u64;
    let mut chain = create_basic_multisig(alice, 1, timelock);
    add_member_to_multisig(&mut chain, alice, bob, MemberRole::Proposer, 0, timelock);

    let error = toggle_pause(&mut chain, bob).unwrap_err();
    assert_eq!(error, MultisigError::OnlyAdmin, "Should fail with OnlyAdmin");
    assert!(!chain.ms.paused);
}

#[test]
fn test_timelock_enforcement() {
    let alice = key(1);
    let timelock_seconds = 60u64;
    let mut chain = create_basic_multisig(alice, 1, timelock_seconds);
    chain.vault_lamports += 5 * LAMPORTS_PER_SOL;
    let recipient = key(9);
    let mut recipient_lamports = LAMPORTS_PER_SOL;

    let mut tp = create_transfer(&mut chain, alice, LAMPORTS_PER_SOL, recipient).unwrap();
    let error = execute_transfer(&mut chain, alice, &mut tp, alice, recipient, &mut recipient_lamports).unwrap_err();
    assert_eq!(error, MultisigError::TimelockNotPassed, "Should fail with TimelockNotPassed");

    advance_time(&mut chain, timelock_seconds + 1);
    execute_transfer(&mut chain, alice, &mut tp, alice, recipient, &mut recipient_lamports).unwrap();
}

#[test]
fn test_threshold_enforcement() {
    let alice = key(1);
    let bob = key(2);
    let timelock = 5u64;
    let mut chain = create_basic_multisig(alice, 1, timelock);
    add_member_to_multisig(&mut chain, alice, bob, MemberRole::Proposer, 0, timelock);

    let mut proposal_1 = create_proposal(&mut chain, alice, ProposalType::ChangeThreshold { new_threshold: 2 }).unwrap();
    assert_eq!(proposal_1.proposal_id, 1);
    advance_time(&mut chain, timelock + 1);
    execute_proposal(&mut chain, alice, &mut proposal_1).unwrap();
    assert_eq!(chain.ms.threshold, 2);

    chain.vault_lamports += 5 * LAMPORTS_PER_SOL;
    let recipient = key(9);
    let mut recipient_lamports = LAMPORTS_PER_SOL;
    let mut tp = create_transfer(&mut chain, alice, LAMPORTS_PER_SOL, recipient).unwrap();
    assert_eq!(tp.proposal_id, 2);
    advance_time(&mut chain, timelock + 1);

    let error = execute_transfer(&mut chain, alice, &mut tp, alice, recipient, &mut recipient_lamports).unwrap_err();
    assert_eq!(error, MultisigError::InsufficientApprovals, "Should fail with InsufficientApprovals");

    approve_transfer(&mut chain, bob, &mut tp).unwrap();
    execute_transfer(&mut chain, alice, &mut tp, alice, recipient, &mut recipient_lamports).unwrap();
}

#[test]
fn test_double_approval_prevention() {
    let alice = key(1);
    let bob = key(2);
    let timelock = 5u64;
    let mut chain = create_basic_multisig(alice, 1, timelock);
    add_member_to_multisig(&mut chain, alice, bob, MemberRole::Proposer, 0, timelock);

    let charlie = key(3);
    let mut proposal = create_proposal(
        &mut chain,
        alice,
        ProposalType::AddMember { new_member: charlie, role: MemberRole::Executor },
    )
    .unwrap();
    assert_eq!(proposal.proposal_id, 1);
    let error = approve_proposal(&mut chain, alice, &mut proposal).unwrap_err();
    assert_eq!(error, MultisigError::AlreadyApproved, "Should fail with AlreadyApproved");
}

#[test]
fn test_role_based_access_control() {
    let alice = key(1);
    let bob = key(2);
    let charlie = key(3);
    let timelock = 5u64;
    let mut chain = create_basic_multisig(alice, 1, timelock);
    add_member_to_multisig(&mut chain, alice, bob, MemberRole::Proposer, 0, timelock);
    add_member_to_multisig(&mut chain, alice, charlie, MemberRole::Executor, 1, timelock);

    let dave = key(4);
    let error = create_proposal(&mut chain, charlie, ProposalType::AddMember { new_member: dave, role: MemberRole::Executor })
        .unwrap_err();
    assert_eq!(error, MultisigError::CannotPropose, "Executor should not be able to propose");

    chain.vault_lamports += 5 * LAMPORTS_PER_SOL;
    let recipient = key(9);
    let mut recipient_lamports = LAMPORTS_PER_SOL;
    let mut tp = create_transfer(&mut chain, alice, LAMPORTS_PER_SOL, recipient).unwrap();
    assert_eq!(tp.proposal_id, 2);
    advance_time(&mut chain, timelock + 1);

    let error = execute_transfer(&mut chain, bob, &mut tp, alice, recipient, &mut recipient_lamports).unwrap_err();
    assert_eq!(error, MultisigError::CannotExecute, "Proposer should not be able to execute");

    execute_transfer(&mut chain, charlie, &mut tp, alice, recipient, &mut recipient_lamports).unwrap();
}

#[test]
fn test_non_member_cannot_approve() {
    let alice = key(1);
    let bob = key(2);
    let outsider = key(5);
    let mut chain = create_basic_multisig(alice, 1, 5);

    let mut proposal = create_proposal(&mut chain, alice, ProposalType::AddMember { new_member: bob, role: MemberRole::Proposer })
        .unwrap();
    assert_eq!(proposal.proposal_id, 0);
    let error = approve_proposal(&mut chain, outsider, &mut proposal).unwrap_err();
    assert_eq!(error, MultisigError::NotAMember, "Non-member should not be able to approve");
}

#[test]
fn test_cannot_remove_creator() {
    let alice = key(1);
    let bob = key(2);
    let timelock = 5u64;
    let mut chain = create_basic_multisig(alice, 1, timelock);
    add_member_to_multisig(&mut chain, alice, bob, MemberRole::Proposer, 0, timelock);

    let error = create_proposal(&mut chain, alice, ProposalType::RemoveMember { member_to_remove: alice }).unwrap_err();
    assert_eq!(error, MultisigError::CannotRemoveCreator, "Expected CannotRemoveCreator error, got: {:?}", error);
    assert_eq!(error.code(), 6002);
}

#[test]
fn threshold_above_one_refused_at_creation() {
    let mut ctx = CreateMultisig { creator: key(1), multisig_account: blank_multisig(), vault: key(200) };
    let bumps = CreateMultisigBumps { multisig_account: 1, vault: 2 };
    assert_eq!(ctx.create_multisig(1, 2, 60, &bumps), Err(MultisigError::ThresholdExceedsOwners));
    assert_eq!(ctx.create_multisig(1, 0, 60, &bumps), Err(MultisigError::InvalidThreshold));
    assert_eq!(ctx.multisig_account, blank_multisig());
}

#[test]
fn proposal_expiry_and_numbering() {
    let alice = key(1);
    let mut chain = create_basic_multisig(alice, 7, 60);
    chain.now = 1_000;
    let p = create_proposal(&mut chain, alice, ProposalType::ChangeThreshold { new_threshold: 1 }).unwrap();
    assert_eq!(p.created_at, 1_000);
    assert_eq!(p.expires_at, 1_000 + 60 + DEFAULT_EXPIRY_PERIOD as i64);
    assert_eq!(p.approval_bitmap, 1);
    assert_eq!(p.approval_count, 1);
    assert_eq!(p.multisig, chain.ms_key);
    assert_eq!(chain.ms.proposal_count, 1);
}

#[test]
fn expired_proposal_cannot_execute() {
    let alice = key(1);
    let mut chain = create_basic_multisig(alice, 1, 5);
    let mut p = create_proposal(&mut chain, alice, ProposalType::ChangeTimelock { new_timelock: 30 }).unwrap();
    advance_time(&mut chain, 5 + DEFAULT_EXPIRY_PERIOD + 1);
    assert_eq!(execute_proposal(&mut chain, alice, &mut p), Err(MultisigError::ProposalExpired));
    assert_eq!(chain.ms.timelock_seconds, 5);
}

#[test]
fn executed_proposal_cannot_run_twice() {
    let alice = key(1);
    let mut chain = create_basic_multisig(alice, 1, 5);
    let mut p = create_proposal(&mut chain, alice, ProposalType::ChangeTimelock { new_timelock: 30 }).unwrap();
    advance_time(&mut chain, 6);
    execute_proposal(&mut chain, alice, &mut p).unwrap();
    assert_eq!(p.status, ProposalStatus::Executed);
    assert_eq!(p.executed_at, chain.now);
    assert_eq!(execute_proposal(&mut chain, alice, &mut p), Err(MultisigError::ProposalNotActive));
}

#[test]
fn cancel_by_proposer_or_creator_only() {
    let alice = key(1);
    let bob = key(2);
    let charlie = key(3);
    let mut chain = create_basic_multisig(alice, 1, 5);
    add_member_to_multisig(&mut chain, alice, bob, MemberRole::Proposer, 0, 5);
    add_member_to_multisig(&mut chain, alice, charlie, MemberRole::Executor, 1, 5);
    let p = create_proposal(&mut chain, bob, ProposalType::ChangeThreshold { new_threshold: 2 }).unwrap();

    let mut ctx = CancelProposal {
        canceller: charlie,
        multisig_account: chain.ms,
        multisig_account_key: chain.ms_key,
        proposal: p,
        proposer: bob,
    };
    assert_eq!(ctx.cancel_proposal(), Err(MultisigError::NotProposer));
    ctx.canceller = alice;
    assert_eq!(ctx.cancel_proposal(), Ok(()));
    assert_eq!(ctx.proposal.status, ProposalStatus::Cancelled);
    assert_eq!(ctx.cancel_proposal(), Err(MultisigError::ProposalNotActive));
}

#[test]
fn transfer_needs_funds_and_recorded_recipient() {
    let alice = key(1);
    let mut chain = create_basic_multisig(alice, 1, 5);
    let recipient = key(9);
    let mut recipient_lamports = 0u64;
    let mut tp = create_transfer(&mut chain, alice, 2 * LAMPORTS_PER_SOL, recipient).unwrap();
    advance_time(&mut chain, 6);
    chain.vault_lamports = LAMPORTS_PER_SOL;
    assert_eq!(
        execute_transfer(&mut chain, alice, &mut tp, alice, recipient, &mut recipient_lamports),
        Err(MultisigError::InsufficientFunds)
    );
    assert_eq!(
        execute_transfer(&mut chain, alice, &mut tp, alice, key(10), &mut recipient_lamports),
        Err(MultisigError::InvalidRecipient)
    );
    assert_eq!(
        create_transfer(&mut chain, alice, 0, recipient),
        Err(MultisigError::InvalidParameter)
    );
    assert_eq!(
        create_transfer(&mut chain, alice, 1, Pubkey([0u8; 32])),
        Err(MultisigError::InvalidRecipient)
    );
}

#[test]
fn add_member_checks() {
    let alice = key(1);
    let bob = key(2);
    let mut chain = create_basic_multisig(alice, 1, 5);
    assert_eq!(
        create_proposal(&mut chain, alice, ProposalType::AddMember { new_member: alice, role: MemberRole::Admin }),
        Err(MultisigError::CannotAddSelf)
    );
    assert_eq!(
        create_proposal(&mut chain, alice, ProposalType::AddMember { new_member: Pubkey([0u8; 32]), role: MemberRole::Admin }),
        Err(MultisigError::InvalidParameter)
    );
    add_member_to_multisig(&mut chain, alice, bob, MemberRole::Proposer, 0, 5);
    assert_eq!(
        create_proposal(&mut chain, alice, ProposalType::AddMember { new_member: bob, role: MemberRole::Admin }),
        Err(MultisigError::AlreadyMember)
    );
    assert_eq!(
        create_proposal(&mut chain, bob, ProposalType::AddMember { new_member: key(3), role: MemberRole::Admin }),
        Err(MultisigError::OnlyAdmin)
    );
    assert_eq!(
        create_proposal(&mut chain, alice, ProposalType::ChangeThreshold { new_threshold: 3 }),
        Err(MultisigError::ThresholdExceedsOwners)
    );
    assert_eq!(
        create_proposal(&mut chain, alice, ProposalType::ChangeTimelock { new_timelock: 172_801 }),
        Err(MultisigError::InvalidParameter)
    );
}

#[test]
fn membership_queries() {
    let alice = key(1);
    let bob = key(2);
    let mut chain = create_basic_multisig(alice, 1, 5);
    add_member_to_multisig(&mut chain, alice, bob, MemberRole::Executor, 0, 5);
    let ms = chain.ms;
    assert!(ms.is_member(&bob));
    assert_eq!(ms.member_index(&bob), Some(1));
    assert_eq!(ms.get_member(&bob), Some(&Member { pubkey: bob, role: MemberRole::Executor }));
    assert!(ms.can_execute(&bob));
    assert!(!ms.can_propose(&bob));
    assert!(ms.can_approve(&bob));
    assert!(ms.is_admin(&alice));
    assert!(!ms.is_member(&key(3)));
    assert_eq!(ms.member_index(&key(3)), None);
    assert!(ms.is_valid_threshold());
    assert_eq!(MultisigError::NotAMember.code(), 6000);
    assert_eq!(MultisigError::InvalidParameter.code(), 6024);
}

#[test]
fn member_limit_and_stale_proposals() {
    let alice = key(1);
    let mut chain = create_basic_multisig(alice, 1, 5);
    for n in 2..=10u8 {
        add_member_to_multisig(&mut chain, alice, key(n), MemberRole::Executor, (n - 2) as u64, 5);
    }
    assert_eq!(chain.ms.owner_count as usize, MAX_OWNERS);
    assert_eq!(
        create_proposal(&mut chain, alice, ProposalType::AddMember { new_member: key(11), role: MemberRole::Executor }),
        Err(MultisigError::MaxMembersReached)
    );

    // Two proposals to remove the same member: the second finds it gone.
    let mut first = create_proposal(&mut chain, alice, ProposalType::RemoveMember { member_to_remove: key(5) }).unwrap();
    let mut second = create_proposal(&mut chain, alice, ProposalType::RemoveMember { member_to_remove: key(5) }).unwrap();
    advance_time(&mut chain, 6);
    execute_proposal(&mut chain, alice, &mut first).unwrap();
    assert_eq!(chain.ms.owner_count, 9);
    assert!(!chain.ms.is_member(&key(5)));
    assert_eq!(execute_proposal(&mut chain, alice, &mut second), Err(MultisigError::NotAMember));
}

#[test]
fn removal_keeps_threshold_reachable() {
    let alice = key(1);
    let bob = key(2);
    let mut chain = create_basic_multisig(alice, 1, 5);
    add_member_to_multisig(&mut chain, alice, bob, MemberRole::Proposer, 0, 5);
    let mut p = create_proposal(&mut chain, alice, ProposalType::ChangeThreshold { new_threshold: 2 }).unwrap();
    advance_time(&mut chain, 6);
    execute_proposal(&mut chain, alice, &mut p).unwrap();
    assert_eq!(
        create_proposal(&mut chain, alice, ProposalType::RemoveMember { member_to_remove: bob }),
        Err(MultisigError::ThresholdExceedsOwners)
    );
}

#[test]
fn proposals_of_another_multisig_are_refused() {
    let alice = key(1);
    let mut chain = create_basic_multisig(alice, 1, 5);
    let tp = create_transfer(&mut chain, alice, 10, key(9)).unwrap();
    let mut ctx = ApproveTransferProposal {
        owner: alice,
        multisig_account: chain.ms,
        multisig_account_key: key(77),
        transfer_proposal: tp,
    };
    assert!(!ctx.would_overflow());
    assert_eq!(ctx.approve_transfer_proposal(), Err(MultisigError::InvalidProposal));
}

#[test]
fn proposal_counter_overflow_is_an_error() {
    let alice = key(1);
    let mut chain = create_basic_multisig(alice, 1, 5);
    chain.ms.proposal_count = u64::MAX;
    assert_eq!(
        create_proposal(&mut chain, alice, ProposalType::ChangeThreshold { new_threshold: 1 }),
        Err(MultisigError::Overflow)
    );
    chain.ms.proposal_count = 0;
    chain.now = i64::MAX - 10;
    assert_eq!(create_transfer(&mut chain, alice, 1, key(9)), Err(MultisigError::Overflow));
}

#[test]
fn abort_predicates() {
    let alice = key(1);
    let chain = create_basic_multisig(alice, 1, 5);
    let p = Proposal {
        multisig: chain.ms_key,
        proposer: alice,
        created_at: i64::MAX - 2,
        expires_at: i64::MAX,
        approval_count: 1,
        approval_bitmap: 1,
        ..blank_proposal()
    };
    let ctx = ExecuteProposal {
        executor: alice,
        multisig_account: chain.ms,
        multisig_account_key: chain.ms_key,
        proposal: p,
        proposer: alice,
    };
    assert!(ctx.would_panic(0));
    let ctx = ExecuteProposal { proposal: Proposal { created_at: 10, ..p }, ..ctx };
    assert!(!ctx.would_panic(20));
    let ctx = ExecuteProposal { executor: key(9), proposal: p, ..ctx };
    assert!(!ctx.would_panic(0));
}

#[test]
fn every_member_approves_once() {
    let alice = key(1);
    let mut chain = create_basic_multisig(alice, 1, 5);
    for n in 2..=10u8 {
        add_member_to_multisig(&mut chain, alice, key(n), MemberRole::Executor, (n - 2) as u64, 5);
    }
    let mut p = create_proposal(&mut chain, alice, ProposalType::ChangeTimelock { new_timelock: 7 }).unwrap();
    for n in 2..=10u8 {
        approve_proposal(&mut chain, key(n), &mut p).unwrap();
        assert!(p.has_approved((n - 1) as usize));
    }
    assert_eq!(p.approval_count, 10);
    assert_eq!(p.approval_bitmap, 0x3ff);
    for n in 1..=10u8 {
        assert_eq!(approve_proposal(&mut chain, key(n), &mut p), Err(MultisigError::AlreadyApproved));
    }
    assert_eq!(p.approval_count as usize, MAX_OWNERS);
}

#[test]
fn execute_requires_the_proposer_as_rent_recipient() {
    let alice = key(1);
    let mut chain = create_basic_multisig(alice, 1, 5);
    let p = create_proposal(&mut chain, alice, ProposalType::ChangeTimelock { new_timelock: 30 }).unwrap();
    advance_time(&mut chain, 6);
    let mut ctx = ExecuteProposal {
        executor: alice,
        multisig_account: chain.ms,
        multisig_account_key: chain.ms_key,
        proposal: p,
        proposer: key(9),
    };
    assert!(!ctx.would_panic(chain.now));
    assert_eq!(ctx.execute_proposal(chain.now), Err(MultisigError::NotProposer));
    assert_eq!(ctx.proposal, p);
    assert_eq!(ctx.multisig_account.timelock_seconds, 5);
    ctx.proposer = alice;
    assert_eq!(ctx.execute_proposal(chain.now), Ok(()));
    assert_eq!(ctx.multisig_account.timelock_seconds, 30);
}

#[test]
fn cancel_requires_the_proposer_as_rent_recipient() {
    let alice = key(1);
    let bob = key(2);
    let mut chain = create_basic_multisig(alice, 1, 5);
    add_member_to_multisig(&mut chain, alice, bob, MemberRole::Proposer, 0, 5);
    let p = create_proposal(&mut chain, bob, ProposalType::ChangeThreshold { new_threshold: 2 }).unwrap();
    let mut ctx = CancelProposal {
        canceller: bob,
        multisig_account: chain.ms,
        multisig_account_key: chain.ms_key,
        proposal: p,
        proposer: alice,
    };
    assert_eq!(ctx.cancel_proposal(), Err(MultisigError::NotProposer));
    assert_eq!(ctx.proposal.status, ProposalStatus::Active);
    ctx.proposer = bob;
    assert_eq!(ctx.cancel_proposal(), Ok(()));
    assert_eq!(ctx.proposal.status, ProposalStatus::Cancelled);
}

#[test]
fn cancel_is_blocked_while_paused() {
    let alice = key(1);
    let mut chain = create_basic_multisig(alice, 1, 5);
    let p = create_proposal(&mut chain, alice, ProposalType::ChangeTimelock { new_timelock: 30 }).unwrap();
    toggle_pause(&mut chain, alice).unwrap();
    let mut ctx = CancelProposal {
        canceller: alice,
        multisig_account: chain.ms,
        multisig_account_key: chain.ms_key,
        proposal: p,
        proposer: alice,
    };
    assert_eq!(ctx.cancel_proposal(), Err(MultisigError::MultisigPaused));
    assert_eq!(ctx.proposal.status, ProposalStatus::Active);
    toggle_pause(&mut chain, alice).unwrap();
    ctx.multisig_account = chain.ms;
    assert_eq!(ctx.cancel_proposal(), Ok(()));
    assert_eq!(ctx.proposal.status, ProposalStatus::Cancelled);
}

#[test]
fn executions_keep_the_member_list_valid() {
    let alice = key(1);
    let bob = key(2);
    let charlie = key(3);
    let mut chain = create_basic_multisig(alice, 1, 5);
    add_member_to_multisig(&mut chain, alice, bob, MemberRole::Proposer, 0, 5);
    add_member_to_multisig(&mut chain, alice, charlie, MemberRole::Executor, 1, 5);
    let check = |ms: &Multisig| {
        let n = ms.owner_count as usize;
        assert!(1 <= ms.threshold && ms.threshold <= ms.owner_count);
        assert_eq!(ms.members[0], Member { pubkey: alice, role: MemberRole::Admin });
        for i in 0..n {
            assert_ne!(ms.members[i].pubkey, Pubkey([0u8; 32]));
            for j in (i + 1)..n {
                assert_ne!(ms.members[i].pubkey, ms.members[j].pubkey);
            }
        }
        for i in n..MAX_OWNERS {
            assert_eq!(ms.members[i], Member::default());
        }
    };
    check(&chain.ms);
    let mut p = create_proposal(&mut chain, alice, ProposalType::RemoveMember { member_to_remove: bob }).unwrap();
    advance_time(&mut chain, 6);
    execute_proposal(&mut chain, alice, &mut p).unwrap();
    assert_eq!(chain.ms.owner_count, 2);
    assert_eq!(chain.ms.members[1].pubkey, charlie);
    check(&chain.ms);
    let mut p = create_proposal(&mut chain, alice, ProposalType::ChangeThreshold { new_threshold: 2 }).unwrap();
    advance_time(&mut chain, 6);
    execute_proposal(&mut chain, alice, &mut p).unwrap();
    assert_eq!(chain.ms.threshold, 2);
    check(&chain.ms);
}
