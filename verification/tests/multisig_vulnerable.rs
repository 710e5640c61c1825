use soteria::key::Pubkey;
use soteria::multisig::vulnerable::errors::MultisigError;
use soteria::multisig::vulnerable::instructions::{
    ApproveProposal, CancelProposal, CreateMultisig, CreateMultisigBumps, CreateProposal,
    CreateProposalBumps, CreateTransferProposal, CreateTransferProposalBumps, ExecuteProposal,
    ExecuteTransferProposal, TogglePause,
};
use soteria::multisig::vulnerable::state::{
    Member, MemberRole, Multisig, Proposal, ProposalStatus, ProposalType, TransferProposal, MAX_OWNERS,
};

fn key(n: u8) -> Pubkey {
    let mut b = [0u8; 32];
    b[0] = n;
    b[9] = 0xc3 ^ n;
    Pubkey(b)
}

fn blank_multisig() -> Multisig {
    Multisig {
        multisig_id: 0,
        creator: Pubkey([0u8; 32]),
        threshold: 0,
        owner_count: 0,
        members: [Member::default(); MAX_OWNERS],
        proposal_count: 0,
        last_executed_proposal: 0,
        paused: false,
        timelock_seconds: 0,
        vault: Pubkey([0u8; 32]),
        bump: 0,
        vault_bump: 0,
    }
}

fn blank_proposal() -> Proposal {
    Proposal {
        multisig: Pubkey([0u8; 32]),
        proposal_id: 0,
        proposer: Pubkey([0u8; 32]),
        proposal_type: ProposalType::ChangeThreshold { new_threshold: 0 },
        status: ProposalStatus::Active,
        approval_bitmap: 0,
        approval_count: 0,
        created_at: 0,
        expires_at: 0,
        executed_at: 0,
        bump: 0,
    }
}

fn new_multisig(creator: Pubkey, threshold: u8) -> Multisig {
    let mut ctx = CreateMultisig { creator, multisig_account: blank_multisig(), vault: key(200) };
    ctx.create_multisig(1, threshold, 60, &CreateMultisigBumps { multisig_account: 1, vault: 2 }).unwrap();
    ctx.multisig_account
}

fn propose(ms: &mut Multisig, proposer: Pubkey, pt: ProposalType) -> Proposal {
    let mut ctx = CreateProposal { proposer, multisig_account: *ms, multisig_account_key: key(201), proposal: blank_proposal() };
    ctx.create_proposal(pt, &CreateProposalBumps { proposal: 3 }, 0).unwrap();
    *ms = ctx.multisig_account;
    ctx.proposal
}

#[test]
fn any_threshold_is_stored() {
    let ms = new_multisig(key(1), 9);
    assert_eq!(ms.threshold, 9);
    assert_eq!(ms.owner_count, 1);
}

#[test]
fn outsider_proposal_is_credited_to_slot_zero() {
    let mut ms = new_multisig(key(1), 1);
    let p = propose(&mut ms, key(7), ProposalType::ChangeThreshold { new_threshold: 0 });
    assert_eq!(p.approval_bitmap, 1);
    assert_eq!(p.approval_count, 1);
    assert_eq!(ms.proposal_count, 1);
    let mut approve = ApproveProposal { owner: key(8), multisig_account: ms, proposal: p };
    assert_eq!(approve.approve_proposal(), Ok(()));
    assert_eq!(approve.proposal, p);
}

#[test]
fn anyone_executes_immediately() {
    let mut ms = new_multisig(key(1), 5);
    let p = propose(&mut ms, key(7), ProposalType::AddMember { new_member: key(7), role: MemberRole::Admin });
    let mut exec = ExecuteProposal { executor: key(9), multisig_account: ms, proposal: p };
    assert_eq!(exec.execute_proposal(0), Ok(()));
    assert_eq!(exec.multisig_account.owner_count, 2);
    assert_eq!(exec.multisig_account.members[1], Member { pubkey: key(7), role: MemberRole::Admin });
    assert_eq!(exec.proposal.status, ProposalStatus::Executed);
    assert!(exec.multisig_account.is_member(&key(7)));
}

#[test]
fn removal_moves_last_member_and_creator_can_go() {
    let mut ms = new_multisig(key(1), 1);
    for n in 2..5u8 {
        let p = propose(&mut ms, key(1), ProposalType::AddMember { new_member: key(n), role: MemberRole::Executor });
        let mut exec = ExecuteProposal { executor: key(1), multisig_account: ms, proposal: p };
        exec.execute_proposal(0).unwrap();
        ms = exec.multisig_account;
    }
    assert_eq!(ms.owner_count, 4);
    let p = propose(&mut ms, key(1), ProposalType::RemoveMember { member_to_remove: key(1) });
    let mut exec = ExecuteProposal { executor: key(3), multisig_account: ms, proposal: p };
    exec.execute_proposal(0).unwrap();
    let ms = exec.multisig_account;
    assert_eq!(ms.owner_count, 3);
    assert_eq!(ms.members[0].pubkey, key(4));
    assert_eq!(ms.members[3], Member::default());
    assert_eq!(ms.member_index(&key(1)), None);
}

#[test]
fn transfers_cancels_and_pause_need_no_rights() {
    let mut ms = new_multisig(key(1), 1);
    let mut ctx = CreateTransferProposal {
        proposer: key(5),
        multisig_account: ms,
        multisig_account_key: key(201),
        transfer_proposal: TransferProposal {
            multisig: Pubkey([0u8; 32]),
            proposal_id: 0,
            proposer: Pubkey([0u8; 32]),
            status: ProposalStatus::Active,
            approval_bitmap: 0,
            approval_count: 0,
            created_at: 0,
            expires_at: 0,
            executed_at: 0,
            amount: 0,
            recipient: Pubkey([0u8; 32]),
            bump: 0,
        },
    };
    ctx.create_transfer_proposal(0, Pubkey([0u8; 32]), &CreateTransferProposalBumps { transfer_proposal: 4 }, 10).unwrap();
    ms = ctx.multisig_account;
    let mut exec = ExecuteTransferProposal {
        executor: key(6),
        multisig_account: ms,
        transfer_proposal: ctx.transfer_proposal,
        vault: key(200),
        recipient: key(6),
    };
    assert_eq!(exec.execute_transfer_proposal(11), Ok(()));
    assert_eq!(exec.transfer_proposal.status, ProposalStatus::Executed);
    assert_eq!(exec.transfer_proposal.executed_at, 11);

    let p = propose(&mut ms, key(1), ProposalType::ChangeTimelock { new_timelock: 1 });
    let mut cancel = CancelProposal { canceller: key(9), multisig_account: ms, proposal: p };
    assert_eq!(cancel.cancel_proposal(), Ok(()));
    assert_eq!(cancel.proposal.status, ProposalStatus::Cancelled);

    let mut pause = TogglePause { admin: key(9), multisig_account: ms };
    assert_eq!(pause.toggle_pause(), Ok(()));
    assert!(pause.multisig_account.paused);
    assert_eq!(MultisigError::Overflow.code(), 6007);
}
