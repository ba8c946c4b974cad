use pledge::lifecycle::is_custody_intact;
use pledge::instructions::{
    create_pledge, edit_pledge, process_completion, process_expired, report_completion, Context,
    NoBumps,
};
use pledge::{
    CompletionReported, CreatePledge, CreatePledgeBumps, Disbursement, EditPledge, ErrorCode,
    ErrorKind, Payee, Penalty, Pledge, PledgeCompleted, PledgeCreated, PledgeEdited,
    PledgeForfeited, PledgeStatus, ProcessCompletion, ProcessExpired, ProgramConfig, Pubkey,
    ReportCompletion, Settlement, SettlementEvent, Vault,
};

const NOW: i64 = 1_700_000_000;
const DEADLINE: i64 = NOW + 7 * 86400;
const GRACE: i64 = 86400;

fn key(byte: u8) -> Pubkey {
    Pubkey::new_from_array([byte; 32])
}

fn owner() -> Pubkey {
    key(10)
}

fn address() -> Pubkey {
    key(20)
}

fn config() -> ProgramConfig {
    ProgramConfig {
        admin: key(1),
        treasury: key(2),
        charity: key(3),
        treasury_split_bps: 7000,
        partial_fee_bps: 100,
        edit_penalty_bps: 1000,
        grace_period_seconds: GRACE,
        paused: false,
        bump: 254,
    }
}

fn active(stake_amount: u64) -> Pledge {
    Pledge {
        user: owner(),
        mint: key(30),
        stake_amount,
        deadline: DEADLINE,
        status: PledgeStatus::Active,
        completion_percentage: None,
        reported_at: None,
        created_at: NOW,
        bump: 253,
        vault_bump: 252,
    }
}

fn reported(stake_amount: u64, completion_percentage: u8) -> Pledge {
    Pledge {
        status: PledgeStatus::Reported,
        completion_percentage: Some(completion_percentage),
        reported_at: Some(DEADLINE + 1),
        ..active(stake_amount)
    }
}

fn ended(status: PledgeStatus) -> Pledge {
    Pledge { status, completion_percentage: Some(50), ..active(900_000) }
}

fn emptied() -> Vault {
    Vault { amount: 0, closed: true }
}

fn expired(pledge: Pledge, config: ProgramConfig) -> ProcessExpired {
    ProcessExpired {
        config,
        pledge_key: address(),
        pledge,
        vault: Vault::holding(pledge.stake_amount),
    }
}

#[test]
fn create_locks_the_stake() {
    let mut accounts = CreatePledge {
        user: owner(),
        config: config(),
        pledge_key: address(),
        pledge: Pledge::default(),
        vault: Vault::default(),
        mint: key(30),
    };
    let event = accounts
        .create_pledge(1_000_000, DEADLINE, NOW, &CreatePledgeBumps { pledge: 253, vault: 252 })
        .unwrap();
    assert_eq!(
        event,
        PledgeCreated {
            pledge: address(),
            user: owner(),
            stake_amount: 1_000_000,
            deadline: DEADLINE
        }
    );
    assert_eq!(accounts.pledge, active(1_000_000));
    assert_eq!(accounts.vault, Vault { amount: 1_000_000, closed: false });
}

#[test]
fn create_rejects_bad_input_and_changes_nothing() {
    let blank = CreatePledge {
        user: owner(),
        config: config(),
        pledge_key: address(),
        pledge: Pledge::default(),
        vault: Vault::default(),
        mint: key(30),
    };
    let bumps = CreatePledgeBumps { pledge: 1, vault: 2 };

    let mut accounts = blank;
    assert_eq!(
        accounts.create_pledge(0, DEADLINE, NOW, &bumps),
        Err(ErrorCode::InvalidStakeAmount)
    );
    assert_eq!(accounts, blank);

    let mut accounts = blank;
    assert_eq!(accounts.create_pledge(1, NOW, NOW, &bumps), Err(ErrorCode::InvalidDeadline));
    assert_eq!(accounts, blank);

    let mut accounts = blank;
    assert_eq!(accounts.create_pledge(1, NOW - 1, NOW, &bumps), Err(ErrorCode::InvalidDeadline));
    assert_eq!(accounts, blank);

    let mut accounts = blank;
    assert!(accounts.create_pledge(1, NOW + 1, NOW, &bumps).is_ok());
}

#[test]
fn create_is_stopped_by_a_pause() {
    let before = CreatePledge {
        user: owner(),
        config: ProgramConfig { paused: true, ..config() },
        pledge_key: address(),
        pledge: Pledge::default(),
        vault: Vault::default(),
        mint: key(30),
    };
    let mut accounts = before;
    let result =
        accounts.create_pledge(0, NOW, NOW, &CreatePledgeBumps { pledge: 1, vault: 2 });
    assert_eq!(result, Err(ErrorCode::ProgramPaused));
    assert_eq!(accounts, before);
    assert_eq!(ErrorCode::ProgramPaused.kind(), Some(ErrorKind::StateViolation));
}

#[test]
fn create_through_the_entry_point() {
    let mut ctx = Context {
        accounts: CreatePledge {
            user: owner(),
            config: config(),
            pledge_key: address(),
            pledge: Pledge::default(),
            vault: Vault::default(),
            mint: key(30),
        },
        bumps: CreatePledgeBumps { pledge: 253, vault: 252 },
    };
    let event = create_pledge(&mut ctx, 1_000_000, DEADLINE, NOW).unwrap();
    assert_eq!(event.stake_amount, 1_000_000);
    assert_eq!(ctx.accounts.pledge, active(1_000_000));
    assert_eq!(ctx.accounts.vault.amount, 1_000_000);
}

#[test]
fn settle_at_full_completion() {
    let mut accounts = expired(active(1_000_000), config());
    let (amounts, event) = accounts.process_expired(100, DEADLINE + GRACE + 1).unwrap();
    assert_eq!(amounts.refund_amount, 1_000_000);
    assert_eq!(amounts.fee_amount, 0);
    assert_eq!(amounts.forfeited_amount, 0);
    assert_eq!(amounts.treasury_amount, 0);
    assert_eq!(amounts.charity_amount, 0);
    assert_eq!(accounts.pledge.status, PledgeStatus::Completed);
    assert_eq!(accounts.pledge.completion_percentage, Some(100));
    assert_eq!(accounts.vault, Vault { amount: 0, closed: true });
    assert_eq!(
        event,
        SettlementEvent::Completed(PledgeCompleted {
            pledge: address(),
            completion_percentage: 100,
            refund_amount: 1_000_000,
            fee_amount: 0,
        })
    );
}

#[test]
fn settle_at_half_completion() {
    let mut accounts = expired(active(1_000_000), config());
    let (amounts, event) = accounts.process_expired(50, DEADLINE + GRACE + 1).unwrap();
    assert_eq!(
        amounts,
        Settlement {
            refund_amount: 495_000,
            fee_amount: 5_000,
            forfeited_amount: 500_000,
            treasury_amount: 353_500,
            charity_amount: 151_500,
        }
    );
    assert_eq!(accounts.pledge.status, PledgeStatus::Completed);
    assert_eq!(accounts.vault, Vault { amount: 0, closed: true });
    assert_eq!(
        event,
        SettlementEvent::Completed(PledgeCompleted {
            pledge: address(),
            completion_percentage: 50,
            refund_amount: 495_000,
            fee_amount: 5_000,
        })
    );
}

#[test]
fn settle_at_no_completion() {
    let mut accounts = expired(active(1_000_000), config());
    let (amounts, event) = accounts.process_expired(0, DEADLINE + GRACE + 1).unwrap();
    assert_eq!(amounts.refund_amount, 0);
    assert_eq!(amounts.fee_amount, 0);
    assert_eq!(amounts.forfeited_amount, 1_000_000);
    assert_eq!(amounts.treasury_amount, 700_000);
    assert_eq!(amounts.charity_amount, 300_000);
    assert_eq!(accounts.pledge.status, PledgeStatus::Forfeited);
    assert_eq!(accounts.pledge.completion_percentage, Some(0));
    assert_eq!(accounts.vault, Vault { amount: 0, closed: true });
    assert_eq!(
        event,
        SettlementEvent::Forfeited(PledgeForfeited {
            pledge: address(),
            treasury_amount: 700_000,
            charity_amount: 300_000,
        })
    );
}

#[test]
fn edit_pays_the_penalty() {
    let mut accounts = EditPledge {
        user: owner(),
        config: config(),
        pledge_key: address(),
        pledge: active(1_000_000),
        vault: Vault::holding(1_000_000),
    };
    let (penalty, event) = accounts.edit_pledge(None, NOW + 10).unwrap();
    assert_eq!(
        penalty,
        Penalty { amount: 100_000, treasury_amount: 70_000, charity_amount: 30_000 }
    );
    assert_eq!(event, PledgeEdited { pledge: address(), penalty_paid: 100_000 });
    assert_eq!(accounts.pledge.stake_amount, 900_000);
    assert_eq!(accounts.pledge.deadline, DEADLINE);
    assert_eq!(accounts.vault, Vault { amount: 900_000, closed: false });
    assert_eq!(
        penalty.disbursements(),
        vec![
            Disbursement { payee: Payee::Treasury, amount: 70_000 },
            Disbursement { payee: Payee::Charity, amount: 30_000 },
        ]
    );
}

#[test]
fn expiry_before_the_grace_period_ends() {
    let before = expired(active(1_000_000), config());

    let mut accounts = before;
    let result = accounts.process_expired(50, DEADLINE + GRACE);
    assert_eq!(result, Err(ErrorCode::GracePeriodNotEnded));
    assert_eq!(ErrorCode::GracePeriodNotEnded.kind(), Some(ErrorKind::TimeViolation));
    assert_eq!(accounts, before);

    let mut accounts = before;
    assert_eq!(accounts.process_expired(50, DEADLINE - 5), Err(ErrorCode::GracePeriodNotEnded));
    assert_eq!(accounts, before);

    let mut accounts = before;
    assert!(accounts.process_expired(50, DEADLINE + GRACE + 1).is_ok());
}

#[test]
fn edit_sets_a_new_deadline() {
    let mut accounts = EditPledge {
        user: owner(),
        config: config(),
        pledge_key: address(),
        pledge: active(1_000_000),
        vault: Vault::holding(1_000_000),
    };
    accounts.edit_pledge(Some(DEADLINE + 100), NOW + 10).unwrap();
    assert_eq!(accounts.pledge.deadline, DEADLINE + 100);
    assert_eq!(accounts.pledge.stake_amount, 900_000);
    assert_eq!(accounts.pledge.user, owner());
    assert_eq!(accounts.pledge.created_at, NOW);
    // A second edit takes its penalty from what is left.
    let (penalty, _) = accounts.edit_pledge(Some(NOW + 12), NOW + 11).unwrap();
    assert_eq!(penalty.amount, 90_000);
    assert_eq!(accounts.pledge.stake_amount, 810_000);
    assert_eq!(accounts.vault.amount, 810_000);
    assert_eq!(accounts.pledge.deadline, NOW + 12);
}

#[test]
fn edit_rejections_in_their_order() {
    let before = EditPledge {
        user: owner(),
        config: config(),
        pledge_key: address(),
        pledge: active(1_000_000),
        vault: Vault::holding(1_000_000),
    };

    let mut accounts = EditPledge { user: key(11), ..before };
    assert_eq!(accounts.edit_pledge(None, NOW + 10), Err(ErrorCode::NotPledgeOwner));
    assert_eq!(accounts, EditPledge { user: key(11), ..before });

    let mut accounts = EditPledge { config: ProgramConfig { paused: true, ..config() }, ..before };
    assert_eq!(accounts.edit_pledge(None, NOW + 10), Err(ErrorCode::ProgramPaused));

    // Not the owner and paused: the caller is checked first.
    let mut accounts = EditPledge {
        user: key(11),
        config: ProgramConfig { paused: true, ..config() },
        ..before
    };
    assert_eq!(accounts.edit_pledge(None, NOW + 10), Err(ErrorCode::NotPledgeOwner));

    let mut accounts = before;
    assert_eq!(accounts.edit_pledge(None, DEADLINE), Err(ErrorCode::DeadlineAlreadyPassed));
    assert_eq!(accounts, before);

    let mut accounts = before;
    assert!(accounts.edit_pledge(None, DEADLINE - 1).is_ok());

    let mut accounts = before;
    assert_eq!(accounts.edit_pledge(Some(NOW + 10), NOW + 10), Err(ErrorCode::InvalidDeadline));
    assert_eq!(accounts, before);

    let mut accounts = EditPledge {
        pledge: active(u64::MAX),
        vault: Vault::holding(u64::MAX),
        ..before
    };
    assert_eq!(accounts.edit_pledge(None, NOW + 10), Err(ErrorCode::Overflow));
    assert_eq!(accounts.vault.amount, u64::MAX);

    let mut accounts =
        EditPledge { config: ProgramConfig { edit_penalty_bps: 20000, ..config() }, ..before };
    assert_eq!(accounts.edit_pledge(None, NOW + 10), Err(ErrorCode::Underflow));
    assert_eq!(accounts.pledge.stake_amount, 1_000_000);
}

#[test]
fn edit_of_a_reported_pledge_is_rejected() {
    let before = EditPledge {
        user: owner(),
        config: config(),
        pledge_key: address(),
        pledge: reported(1_000_000, 50),
        vault: Vault::holding(1_000_000),
    };
    let mut accounts = before;
    assert_eq!(accounts.edit_pledge(None, NOW + 10), Err(ErrorCode::PledgeNotActive));
    assert_eq!(accounts, before);
}

#[test]
fn report_inside_the_window() {
    let mut accounts = ReportCompletion {
        user: owner(),
        config: config(),
        pledge_key: address(),
        pledge: active(1_000_000),
    };
    let event = accounts.report_completion(80, DEADLINE).unwrap();
    assert_eq!(event, CompletionReported { pledge: address(), completion_percentage: 80 });
    assert_eq!(
        accounts.pledge,
        Pledge {
            status: PledgeStatus::Reported,
            completion_percentage: Some(80),
            reported_at: Some(DEADLINE),
            ..active(1_000_000)
        }
    );

    let mut at_the_end = ReportCompletion {
        user: owner(),
        config: config(),
        pledge_key: address(),
        pledge: active(1_000_000),
    };
    assert!(at_the_end.report_completion(0, DEADLINE + GRACE).is_ok());
    assert_eq!(at_the_end.pledge.reported_at, Some(DEADLINE + GRACE));
}

#[test]
fn report_is_not_stopped_by_a_pause() {
    let mut accounts = ReportCompletion {
        user: owner(),
        config: ProgramConfig { paused: true, ..config() },
        pledge_key: address(),
        pledge: active(1_000_000),
    };
    assert!(accounts.report_completion(100, DEADLINE + 1).is_ok());
    assert_eq!(accounts.pledge.status, PledgeStatus::Reported);
}

#[test]
fn report_rejections_in_their_order() {
    let before = ReportCompletion {
        user: owner(),
        config: config(),
        pledge_key: address(),
        pledge: active(1_000_000),
    };

    let mut accounts = ReportCompletion { user: key(11), ..before };
    assert_eq!(accounts.report_completion(101, NOW), Err(ErrorCode::NotPledgeOwner));

    let mut accounts = before;
    assert_eq!(accounts.report_completion(101, NOW), Err(ErrorCode::InvalidCompletionPercentage));
    assert_eq!(accounts, before);

    let mut accounts = before;
    assert_eq!(accounts.report_completion(100, DEADLINE - 1), Err(ErrorCode::DeadlineNotPassed));
    assert_eq!(accounts, before);

    let mut accounts = before;
    assert_eq!(
        accounts.report_completion(100, DEADLINE + GRACE + 1),
        Err(ErrorCode::GracePeriodEnded)
    );
    assert_eq!(accounts, before);

    let mut accounts = ReportCompletion {
        config: ProgramConfig { grace_period_seconds: i64::MAX, ..config() },
        ..before
    };
    assert_eq!(accounts.report_completion(100, DEADLINE), Err(ErrorCode::Overflow));

    let mut accounts =
        ReportCompletion { config: ProgramConfig { grace_period_seconds: -1, ..config() }, ..before };
    assert_eq!(accounts.report_completion(100, DEADLINE), Err(ErrorCode::GracePeriodEnded));
}

#[test]
fn completion_settles_at_the_reported_percentage() {
    let mut accounts = ProcessCompletion {
        config: config(),
        pledge_key: address(),
        pledge: reported(1_000_000, 75),
        vault: Vault::holding(1_000_000),
    };
    let (amounts, event) = accounts.process_completion().unwrap();
    assert_eq!(amounts.refund_amount, 742_500);
    assert_eq!(amounts.fee_amount, 7_500);
    assert_eq!(amounts.forfeited_amount, 250_000);
    assert_eq!(amounts.treasury_amount, 180_250);
    assert_eq!(amounts.charity_amount, 77_250);
    assert_eq!(
        event,
        SettlementEvent::Completed(PledgeCompleted {
            pledge: address(),
            completion_percentage: 75,
            refund_amount: 742_500,
            fee_amount: 7_500,
        })
    );
    assert_eq!(accounts.pledge.status, PledgeStatus::Completed);
    assert_eq!(accounts.pledge.completion_percentage, Some(75));
    assert_eq!(accounts.pledge.reported_at, Some(DEADLINE + 1));
    assert_eq!(accounts.vault, emptied());
}

#[test]
fn completion_of_a_report_of_nothing_forfeits() {
    let mut accounts = ProcessCompletion {
        config: ProgramConfig { paused: true, ..config() },
        pledge_key: address(),
        pledge: reported(1_000_000, 0),
        vault: Vault::holding(1_000_000),
    };
    let (amounts, event) = accounts.process_completion().unwrap();
    assert_eq!(amounts.refund_amount, 0);
    assert_eq!(
        event,
        SettlementEvent::Forfeited(PledgeForfeited {
            pledge: address(),
            treasury_amount: 700_000,
            charity_amount: 300_000,
        })
    );
    assert_eq!(accounts.pledge.status, PledgeStatus::Forfeited);
    assert_eq!(accounts.vault, emptied());
}

#[test]
fn completion_needs_a_reported_pledge() {
    let before = ProcessCompletion {
        config: config(),
        pledge_key: address(),
        pledge: active(1_000_000),
        vault: Vault::holding(1_000_000),
    };
    let mut accounts = before;
    assert_eq!(accounts.process_completion(), Err(ErrorCode::PledgeNotReported));
    assert_eq!(accounts, before);

    let without_percentage = ProcessCompletion {
        pledge: Pledge { completion_percentage: None, ..reported(1_000_000, 0) },
        ..before
    };
    let mut accounts = without_percentage;
    assert_eq!(accounts.process_completion(), Err(ErrorCode::InvalidCompletionPercentage));
    assert_eq!(accounts, without_percentage);
}

#[test]
fn expiry_rejections_in_their_order() {
    let before = expired(active(1_000_000), config());

    let mut accounts = before;
    assert_eq!(
        accounts.process_expired(101, DEADLINE + GRACE + 1),
        Err(ErrorCode::InvalidCompletionPercentage)
    );
    assert_eq!(accounts, before);

    // Too early and out of range: the time is checked first.
    let mut accounts = before;
    assert_eq!(accounts.process_expired(101, DEADLINE), Err(ErrorCode::GracePeriodNotEnded));

    let mut accounts = expired(reported(1_000_000, 50), config());
    assert_eq!(
        accounts.process_expired(50, DEADLINE + GRACE + 1),
        Err(ErrorCode::PledgeNotActive)
    );

    let mut accounts =
        expired(active(1_000_000), ProgramConfig { grace_period_seconds: i64::MAX, ..config() });
    assert_eq!(accounts.process_expired(50, i64::MAX), Err(ErrorCode::Overflow));

    let mut accounts = expired(active(u64::MAX), config());
    assert_eq!(accounts.process_expired(50, DEADLINE + GRACE + 1), Err(ErrorCode::Overflow));
    assert_eq!(accounts.vault.amount, u64::MAX);
    assert_eq!(accounts.pledge.status, PledgeStatus::Active);
}

#[test]
fn expiry_is_not_stopped_by_a_pause() {
    let mut accounts = expired(active(1_000_000), ProgramConfig { paused: true, ..config() });
    assert!(accounts.process_expired(100, DEADLINE + GRACE + 1).is_ok());
    assert_eq!(accounts.vault, emptied());
}

#[test]
fn an_ended_pledge_rejects_every_call() {
    for status in [PledgeStatus::Completed, PledgeStatus::Forfeited, PledgeStatus::Cancelled] {
        // Whoever calls, and whether or not the program is paused.
        for caller in [owner(), key(11)] {
            let edit = EditPledge {
                user: caller,
                config: ProgramConfig { paused: caller != owner(), ..config() },
                pledge_key: address(),
                pledge: ended(status),
                vault: emptied(),
            };
            let mut accounts = edit;
            let error = accounts.edit_pledge(Some(DEADLINE + 1), NOW + 10).unwrap_err();
            assert_eq!(error, ErrorCode::PledgeNotActive);
            assert_eq!(error.kind(), Some(ErrorKind::StateViolation));
            assert_eq!(accounts, edit);

            let report = ReportCompletion {
                user: caller,
                config: config(),
                pledge_key: address(),
                pledge: ended(status),
            };
            let mut accounts = report;
            let error = accounts.report_completion(50, DEADLINE + 1).unwrap_err();
            assert_eq!(error, ErrorCode::PledgeNotActive);
            assert_eq!(error.kind(), Some(ErrorKind::StateViolation));
            assert_eq!(accounts, report);
        }

        let completion = ProcessCompletion {
            config: config(),
            pledge_key: address(),
            pledge: ended(status),
            vault: emptied(),
        };
        let mut accounts = completion;
        let error = accounts.process_completion().unwrap_err();
        assert_eq!(error, ErrorCode::PledgeNotReported);
        assert_eq!(error.kind(), Some(ErrorKind::StateViolation));
        assert_eq!(accounts, completion);

        let expiry = ProcessExpired {
            config: config(),
            pledge_key: address(),
            pledge: ended(status),
            vault: emptied(),
        };
        let mut accounts = expiry;
        let error = accounts.process_expired(50, DEADLINE + GRACE + 1).unwrap_err();
        assert_eq!(error, ErrorCode::PledgeNotActive);
        assert_eq!(error.kind(), Some(ErrorKind::StateViolation));
        assert_eq!(accounts, expiry);
    }
}

#[test]
fn a_settled_pledge_cannot_be_settled_again() {
    let mut accounts = expired(active(1_000_000), config());
    accounts.process_expired(50, DEADLINE + GRACE + 1).unwrap();
    let after = accounts;
    assert_eq!(
        accounts.process_expired(50, DEADLINE + GRACE + 2),
        Err(ErrorCode::PledgeNotActive)
    );
    assert_eq!(accounts, after);
}

#[test]
fn a_full_life_pays_out_the_stake() {
    let stake = 1_000_003;
    let mut paid = 0u64;

    let mut create = Context {
        accounts: CreatePledge {
            user: owner(),
            config: config(),
            pledge_key: address(),
            pledge: Pledge::default(),
            vault: Vault::default(),
            mint: key(30),
        },
        bumps: CreatePledgeBumps { pledge: 253, vault: 252 },
    };
    create_pledge(&mut create, stake, DEADLINE, NOW).unwrap();
    let (mut pledge, mut vault) = (create.accounts.pledge, create.accounts.vault);

    for round in 1..=3 {
        let mut edit = Context {
            accounts: EditPledge { user: owner(), config: config(), pledge_key: address(), pledge, vault },
            bumps: NoBumps {},
        };
        let (penalty, _) = edit_pledge(&mut edit, None, NOW + round).unwrap();
        for transfer in penalty.disbursements() {
            paid += transfer.amount;
        }
        pledge = edit.accounts.pledge;
        vault = edit.accounts.vault;
        assert_eq!(vault.amount, pledge.stake_amount);
        assert_eq!(paid + vault.amount, stake);
    }

    let mut report = Context {
        accounts: ReportCompletion { user: owner(), config: config(), pledge_key: address(), pledge },
        bumps: NoBumps {},
    };
    report_completion(&mut report, 37, DEADLINE + 5).unwrap();
    pledge = report.accounts.pledge;

    let mut settle = Context {
        accounts: ProcessCompletion { config: config(), pledge_key: address(), pledge, vault },
        bumps: NoBumps {},
    };
    let (amounts, _) = process_completion(&mut settle).unwrap();
    for transfer in amounts.disbursements() {
        paid += transfer.amount;
    }
    assert_eq!(paid, stake);
    assert_eq!(settle.accounts.vault, emptied());
    assert_eq!(settle.accounts.pledge.status, PledgeStatus::Completed);
    assert_eq!(settle.accounts.pledge.user, owner());
    assert_eq!(settle.accounts.pledge.created_at, NOW);
}

#[test]
fn expiry_through_the_entry_point() {
    let mut ctx = Context { accounts: expired(active(1_000_000), config()), bumps: NoBumps {} };
    let (amounts, _) = process_expired(&mut ctx, 0, DEADLINE + GRACE + 1).unwrap();
    assert_eq!(amounts.treasury_amount + amounts.charity_amount, 1_000_000);
    assert_eq!(ctx.accounts.pledge.status, PledgeStatus::Forfeited);
}

#[test]
fn custody_is_withdrawn_from_and_closed() {
    let mut vault = Vault::holding(10);
    vault.withdraw(4);
    assert_eq!(vault, Vault { amount: 6, closed: false });
    vault.withdraw(6);
    vault.close();
    assert_eq!(vault, Vault { amount: 0, closed: true });
    assert!(PledgeStatus::Active.is_live());
    assert!(PledgeStatus::Reported.is_live());
    assert!(!PledgeStatus::Completed.is_live());
    assert!(!PledgeStatus::Forfeited.is_live());
    assert!(!PledgeStatus::Cancelled.is_live());
    assert_eq!(PledgeStatus::default(), PledgeStatus::Active);
}

#[test]
fn signer_seeds_identify_the_pledge() {
    let pledge = Pledge { created_at: 0x0102_0304_0506_0708, ..active(1_000_000) };
    assert_eq!(
        pledge.signer_seeds(),
        vec![
            b"pledge".to_vec(),
            vec![10u8; 32],
            vec![8, 7, 6, 5, 4, 3, 2, 1],
            vec![253],
        ]
    );
    let early = Pledge { created_at: -2, ..active(1) };
    assert_eq!(early.signer_seeds()[2], (-2i64).to_le_bytes().to_vec());
    // An edit changes neither owner nor time of creation, so the seeds stay.
    let mut accounts = EditPledge {
        user: owner(),
        config: config(),
        pledge_key: address(),
        pledge,
        vault: Vault::holding(1_000_000),
    };
    accounts.edit_pledge(Some(DEADLINE + 1), NOW + 1).unwrap();
    assert_eq!(accounts.pledge.signer_seeds(), pledge.signer_seeds());
}

#[test]
fn custody_matches_the_pledge_or_not() {
    assert!(is_custody_intact(&active(5), &Vault::holding(5)));
    assert!(is_custody_intact(&reported(5, 50), &Vault::holding(5)));
    assert!(!is_custody_intact(&active(5), &Vault::holding(6)));
    assert!(!is_custody_intact(&active(5), &Vault::holding(4)));
    assert!(!is_custody_intact(&active(0), &emptied()));
    assert!(is_custody_intact(&ended(PledgeStatus::Completed), &emptied()));
    assert!(is_custody_intact(&ended(PledgeStatus::Forfeited), &emptied()));
    assert!(!is_custody_intact(&ended(PledgeStatus::Completed), &Vault::holding(0)));
    assert!(!is_custody_intact(&ended(PledgeStatus::Forfeited), &Vault { amount: 1, closed: true }));
}
