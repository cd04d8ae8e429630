use polymarket_cli::address::Address;
use polymarket_cli::approval::{
    build_approval_targets, token_list, usdc_e_address, usdc_native_address, ApprovalError,
    ApprovalTarget, ContractConfig, Token,
};
use polymarket_cli::orchestrator::{
    Action, ApprovalOutcome, ApprovalRecord, Event, Orchestrator, Phase, Reading, ReadingValue,
    Stage,
};
use polymarket_cli::units::TokenUnits;

fn addr(text: &str) -> Address {
    Address::parse(text).unwrap()
}

fn polygon() -> Option<ContractConfig> {
    ContractConfig::new(
        addr("0x4bFb41d5B3570DeFd03C39a9A4D8dE6Bd8B8982E"),
        addr("0x2791Bca1f2de4661ED88A30C99A7a9449Aa84174"),
        addr("0x4D97DCd97eC945f40cF65F87097ACe5EA0476045"),
        None,
    )
}

fn polygon_neg_risk() -> Option<ContractConfig> {
    ContractConfig::new(
        addr("0xC5d563A36AE78145C45a50134d48A1215220f80a"),
        addr("0x2791Bca1f2de4661ED88A30C99A7a9449Aa84174"),
        addr("0x4D97DCd97eC945f40cF65F87097ACe5EA0476045"),
        Some(addr("0xd91E80cF2E7be2e162c6513ceD06f1dD0dA35296")),
    )
}

fn ctf() -> Address {
    addr("0x4D97DCd97eC945f40cF65F87097ACe5EA0476045")
}

#[test]
fn test_build_approval_targets_polygon() {
    let targets = build_approval_targets(polygon(), polygon_neg_risk());
    assert!(targets.is_ok());
    let targets = targets.unwrap();
    assert!(targets.len() >= 2);
    assert_eq!(targets[0].name, "CTF Exchange");
    assert_eq!(targets[1].name, "Neg Risk CTF Exchange");
}

#[test]
fn test_build_approval_targets_has_neg_risk_adapter() {
    let targets = build_approval_targets(polygon(), polygon_neg_risk()).unwrap();
    let has_adapter = targets.iter().any(|t| t.name == "Neg Risk Adapter");
    assert!(has_adapter, "Expected Neg Risk Adapter in approval targets for Polygon");
}

#[test]
fn test_build_approval_targets_addresses_non_zero() {
    let targets = build_approval_targets(polygon(), polygon_neg_risk()).unwrap();
    for target in &targets {
        assert_ne!(
            target.address,
            Address::new([0u8; 20]),
            "{} should have a non-zero address",
            target.name
        );
        assert!(!target.address.is_zero());
    }
}

#[test]
fn targets_come_in_the_fixed_order() {
    let targets = build_approval_targets(polygon(), polygon_neg_risk()).unwrap();
    assert_eq!(
        targets,
        vec![
            ApprovalTarget {
                name: "CTF Exchange",
                address: addr("0x4bFb41d5B3570DeFd03C39a9A4D8dE6Bd8B8982E")
            },
            ApprovalTarget {
                name: "Neg Risk CTF Exchange",
                address: addr("0xC5d563A36AE78145C45a50134d48A1215220f80a")
            },
            ApprovalTarget {
                name: "Neg Risk Adapter",
                address: addr("0xd91E80cF2E7be2e162c6513ceD06f1dD0dA35296")
            },
        ]
    );
}

#[test]
fn without_an_adapter_there_are_two_targets() {
    let targets = build_approval_targets(polygon(), polygon()).unwrap();
    assert_eq!(targets.len(), 2);
    assert_eq!(targets[0].name, "CTF Exchange");
    assert_eq!(targets[1].name, "Neg Risk CTF Exchange");
    assert_eq!(targets[0].address, targets[1].address);
}

#[test]
fn missing_deployments_are_errors() {
    assert_eq!(build_approval_targets(None, polygon_neg_risk()), Err(ApprovalError::MissingConfig));
    assert_eq!(build_approval_targets(None, None), Err(ApprovalError::MissingConfig));
    assert_eq!(build_approval_targets(polygon(), None), Err(ApprovalError::MissingNegRiskConfig));
}

#[test]
fn configurations_refuse_the_zero_address() {
    let zero = Address::new([0u8; 20]);
    let a = addr("0x4bFb41d5B3570DeFd03C39a9A4D8dE6Bd8B8982E");
    assert!(ContractConfig::new(zero, a, a, None).is_none());
    assert!(ContractConfig::new(a, zero, a, None).is_none());
    assert!(ContractConfig::new(a, a, zero, None).is_none());
    assert!(ContractConfig::new(a, a, a, Some(zero)).is_none());
    let c = ContractConfig::new(a, a, ctf(), Some(a)).unwrap();
    assert_eq!(c.exchange(), a);
    assert_eq!(c.collateral(), a);
    assert_eq!(c.conditional_tokens(), ctf());
    assert_eq!(c.neg_risk_adapter(), Some(a));
}

#[test]
fn test_token_list_has_two_entries() {
    let tokens = token_list();
    assert_eq!(tokens.len(), 2);
    assert_eq!(tokens[0].name, "USDC.e");
    assert_eq!(tokens[1].name, "USDC (Native)");
}

#[test]
fn test_token_list_addresses_are_correct() {
    let tokens = token_list();
    assert_eq!(tokens[0].address, usdc_e_address());
    assert_eq!(tokens[1].address, usdc_native_address());
}

#[test]
fn token_addresses_are_the_polygon_contracts() {
    assert_eq!(usdc_e_address(), addr("0x2791Bca1f2de4661ED88A30C99A7a9449Aa84174"));
    assert_eq!(usdc_native_address(), addr("0x3c499c542cEF5E3811e1192ce70d8cC03d5c3359"));
}

fn three_targets() -> Vec<ApprovalTarget> {
    build_approval_targets(polygon(), polygon_neg_risk()).unwrap()
}

fn answer(action: &Action, fail: bool) -> Event {
    match action {
        Action::QueryAllowance { .. } => {
            if fail {
                Event::Allowance(Err("rpc down".to_string()))
            } else {
                Event::Allowance(Ok(TokenUnits::from_u64(5)))
            }
        }
        Action::QueryApprovedForAll { .. } => {
            if fail {
                Event::ApprovedForAll(Err("rpc down".to_string()))
            } else {
                Event::ApprovedForAll(Ok(true))
            }
        }
        Action::Cooldown => Event::CooledDown,
        Action::Approve { .. } | Action::SetApprovalForAll { .. } => {
            if fail {
                Event::Submitted(Err("reverted".to_string()))
            } else {
                Event::Submitted(Ok("0xabc".to_string()))
            }
        }
    }
}

fn run(orchestrator: &mut Orchestrator, fail_every: usize) -> Vec<Action> {
    let mut actions = Vec::new();
    while let Some(action) = orchestrator.next_action() {
        let fail = fail_every > 0 && actions.len() % fail_every == 0;
        let event = answer(&action, fail);
        actions.push(action);
        assert_eq!(orchestrator.record(event), Ok(()));
        assert!(actions.len() <= 1000);
    }
    actions
}

#[test]
fn dry_run_returns_the_targets_and_asks_nothing() {
    let orchestrator = Orchestrator::new(three_targets(), token_list(), ctf(), true);
    assert_eq!(orchestrator.next_action(), None);
    assert!(orchestrator.is_done());
    assert_eq!(orchestrator.phase(), Phase::Done);
    assert_eq!(orchestrator.targets().len(), 3);
    assert_eq!(orchestrator.targets(), &three_targets());
    assert!(orchestrator.outcomes().is_empty());
    assert!(orchestrator.checked().is_empty());
    assert!(orchestrator.verified().is_empty());
}

#[test]
fn a_run_without_targets_is_over_at_once() {
    let orchestrator = Orchestrator::new(vec![], token_list(), ctf(), false);
    assert_eq!(orchestrator.next_action(), None);
    assert_eq!(orchestrator.stage(), Stage::Done);
}

#[test]
fn a_full_run_walks_the_three_phases_in_order() {
    let targets = three_targets();
    let tokens = token_list();
    let mut orchestrator = Orchestrator::new(targets.clone(), tokens.clone(), ctf(), false);
    assert_eq!(orchestrator.phase(), Phase::Checking);
    assert_eq!(orchestrator.stage(), Stage::CheckAllowance { target: 0, token: 0 });
    let actions = run(&mut orchestrator, 0);
    assert!(orchestrator.is_done());

    let mut expected = Vec::new();
    for target in &targets {
        for token in &tokens {
            expected.push(Action::QueryAllowance { token: token.address, spender: target.address });
        }
        expected.push(Action::QueryApprovedForAll { contract: ctf(), operator: target.address });
    }
    for target in &targets {
        expected.push(Action::Cooldown);
        for token in &tokens {
            expected.push(Action::Approve {
                token: token.address,
                spender: target.address,
                amount: TokenUnits::max(),
            });
            expected.push(Action::Cooldown);
        }
        expected.push(Action::Cooldown);
        expected.push(Action::SetApprovalForAll {
            contract: ctf(),
            operator: target.address,
            approved: true,
        });
    }
    expected.push(Action::Cooldown);
    for target in &targets {
        for token in &tokens {
            expected.push(Action::QueryAllowance { token: token.address, spender: target.address });
        }
        expected.push(Action::QueryApprovedForAll { contract: ctf(), operator: target.address });
    }
    assert_eq!(actions.len(), 40);
    assert_eq!(actions, expected);

    assert_eq!(orchestrator.checked().len(), 9);
    assert_eq!(orchestrator.outcomes().len(), 9);
    assert_eq!(orchestrator.verified().len(), 9);
    assert_eq!(
        orchestrator.checked()[0],
        Reading {
            target: 0,
            token: Some(0),
            value: ReadingValue::Allowance(TokenUnits::from_u64(5))
        }
    );
    assert_eq!(
        orchestrator.checked()[2],
        Reading { target: 0, token: None, value: ReadingValue::ApprovedForAll(true) }
    );
    assert_eq!(
        orchestrator.outcomes()[5],
        ApprovalRecord {
            target: 1,
            token: None,
            outcome: ApprovalOutcome::Success("0xabc".to_string())
        }
    );
    assert_eq!(orchestrator.verified()[8].target, 2);
    assert_eq!(orchestrator.verified()[8].token, None);
}

#[test]
fn failures_are_filed_and_the_run_goes_on() {
    let mut clean = Orchestrator::new(three_targets(), token_list(), ctf(), false);
    let mut faulty = Orchestrator::new(three_targets(), token_list(), ctf(), false);
    let clean_actions = run(&mut clean, 0);
    let faulty_actions = run(&mut faulty, 1);
    assert_eq!(clean_actions, faulty_actions);
    assert_eq!(faulty.outcomes().len(), 9);
    for record in faulty.outcomes() {
        assert_eq!(record.outcome, ApprovalOutcome::Failed("reverted".to_string()));
    }
    for reading in faulty.checked() {
        assert_eq!(reading.value, ReadingValue::Unavailable("rpc down".to_string()));
    }
    assert_eq!(faulty.verified().len(), 9);
    let mut targets = Vec::new();
    let mut tokens = Vec::new();
    for record in faulty.outcomes() {
        targets.push(record.target);
        tokens.push(record.token);
    }
    assert_eq!(targets, vec![0, 0, 0, 1, 1, 1, 2, 2, 2]);
    assert_eq!(
        tokens,
        vec![Some(0), Some(1), None, Some(0), Some(1), None, Some(0), Some(1), None]
    );
}

#[test]
fn every_submission_stands_between_cooldowns() {
    let mut orchestrator = Orchestrator::new(three_targets(), token_list(), ctf(), false);
    let actions = run(&mut orchestrator, 3);
    for (i, action) in actions.iter().enumerate() {
        if matches!(action, Action::Approve { .. } | Action::SetApprovalForAll { .. }) {
            assert_eq!(actions[i - 1], Action::Cooldown);
            assert_eq!(actions[i + 1], Action::Cooldown);
        }
    }
}

#[test]
fn a_run_without_tokens_still_approves_the_multi_token_contract() {
    let targets = three_targets();
    let mut orchestrator = Orchestrator::new(targets.clone(), vec![], ctf(), false);
    assert_eq!(orchestrator.stage(), Stage::CheckApproval { target: 0 });
    let actions = run(&mut orchestrator, 0);
    assert_eq!(actions.len(), 3 + 3 * 3 + 1 + 3);
    assert_eq!(actions[3], Action::Cooldown);
    assert_eq!(actions[4], Action::Cooldown);
    assert_eq!(
        actions[5],
        Action::SetApprovalForAll { contract: ctf(), operator: targets[0].address, approved: true }
    );
    assert_eq!(orchestrator.outcomes().len(), 3);
}

#[test]
fn events_of_the_wrong_kind_are_refused() {
    let one = vec![Token { name: "USDC.e", address: usdc_e_address() }];
    let mut orchestrator = Orchestrator::new(three_targets(), one, ctf(), false);
    assert_eq!(orchestrator.record(Event::CooledDown), Err(ApprovalError::UnexpectedEvent));
    assert_eq!(
        orchestrator.record(Event::Submitted(Ok("0x1".to_string()))),
        Err(ApprovalError::UnexpectedEvent)
    );
    assert_eq!(
        orchestrator.record(Event::ApprovedForAll(Ok(true))),
        Err(ApprovalError::UnexpectedEvent)
    );
    assert_eq!(orchestrator.stage(), Stage::CheckAllowance { target: 0, token: 0 });
    assert!(orchestrator.checked().is_empty());
    assert_eq!(orchestrator.record(Event::Allowance(Ok(TokenUnits::from_u64(1)))), Ok(()));
    assert_eq!(orchestrator.stage(), Stage::CheckApproval { target: 0 });
    assert_eq!(orchestrator.tokens().len(), 1);

    let mut done = Orchestrator::new(three_targets(), token_list(), ctf(), true);
    assert_eq!(done.record(Event::CooledDown), Err(ApprovalError::UnexpectedEvent));
    assert!(done.is_done());
}
