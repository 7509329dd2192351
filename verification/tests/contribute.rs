use zakat_pool::{
    AttestAccount, BucketSet, Category, ContextKind, ContributeFlow, ContributeStage, Error,
    HostAction, HostEvent, ZakatPool,
};

fn buckets(fuqara: i128, masakin: i128, riqab: i128) -> BucketSet {
    BucketSet { fuqara, masakin, riqab }
}

/// Feeds the answers in order and collects every action asked for.
fn drive(amount: i128, answers: &[HostEvent]) -> (ContributeFlow, Vec<HostAction>) {
    let (mut flow, first) = ZakatPool::contribute(amount);
    let mut actions = vec![first];
    for ev in answers {
        if let Some(a) = flow.step(*ev) {
            actions.push(a);
        }
    }
    (flow, actions)
}

fn answers(paused: Option<bool>, approved: bool, stored: Option<BucketSet>, held: i128) -> Vec<HostEvent> {
    vec![
        HostEvent::Authorized,
        HostEvent::PausedFlag(paused),
        HostEvent::AssetApproval(approved),
        HostEvent::Transferred,
        HostEvent::Credited,
        HostEvent::Published,
        HostEvent::Audited(stored, held),
    ]
}

#[test]
fn authorization_is_asked_first() {
    let (flow, first) = ZakatPool::contribute(1_000);
    assert_eq!(first, HostAction::RequireAuth);
    assert_eq!(flow.stage, ContributeStage::AwaitAuth);
    assert_eq!(flow.action(), HostAction::RequireAuth);
}

#[test]
fn accepted_contribution_moves_books_and_audits() {
    let (flow, actions) = drive(1_000, &answers(None, true, Some(buckets(1_000, 0, 0)), 1_000));
    assert_eq!(
        actions,
        vec![
            HostAction::RequireAuth,
            HostAction::ReadPaused,
            HostAction::CheckApproval,
            HostAction::Transfer(1_000),
            HostAction::CreditBucket(Category::Fuqara, 1_000),
            HostAction::Publish(1_000, BucketSet::default()),
            HostAction::Audit,
            HostAction::Return(Ok(())),
        ]
    );
    assert_eq!(flow.stage, ContributeStage::Finished(Ok(())));
}

#[test]
fn zero_amount_is_refused_before_anything_else() {
    let (flow, actions) = drive(0, &answers(None, true, None, 0));
    assert_eq!(actions, vec![HostAction::RequireAuth, HostAction::Return(Err(Error::InvalidAmount))]);
    assert_eq!(flow.stage, ContributeStage::Finished(Err(Error::InvalidAmount)));
}

#[test]
fn negative_amount_is_refused() {
    let (_, actions) = drive(-1_000, &answers(None, true, None, 0));
    assert_eq!(actions.last(), Some(&HostAction::Return(Err(Error::InvalidAmount))));
    assert!(!actions.iter().any(|a| matches!(a, HostAction::Transfer(_))));
}

#[test]
fn paused_pool_refuses() {
    let (_, actions) = drive(5, &answers(Some(true), true, None, 0));
    assert_eq!(
        actions,
        vec![HostAction::RequireAuth, HostAction::ReadPaused, HostAction::Return(Err(Error::Paused))]
    );
}

#[test]
fn explicit_unpaused_flag_lets_the_contribution_through() {
    let (_, actions) = drive(5, &answers(Some(false), true, Some(buckets(5, 0, 0)), 5));
    assert_eq!(actions.last(), Some(&HostAction::Return(Ok(()))));
}

#[test]
fn unapproved_asset_refused() {
    let (_, actions) = drive(5, &answers(None, false, None, 0));
    assert_eq!(
        actions,
        vec![
            HostAction::RequireAuth,
            HostAction::ReadPaused,
            HostAction::CheckApproval,
            HostAction::Return(Err(Error::AssetNotApproved)),
        ]
    );
}

#[test]
fn insolvent_books_trap() {
    let (flow, actions) = drive(1_000, &answers(None, true, Some(buckets(1_000, 0, 1)), 1_000));
    assert_eq!(actions.last(), Some(&HostAction::Trap(Error::Insolvent)));
    assert_eq!(flow.stage, ContributeStage::Aborted(Error::Insolvent));
}

#[test]
fn overflowing_books_trap() {
    let (_, actions) = drive(1, &answers(None, true, Some(buckets(i128::MAX, 1, 0)), i128::MAX));
    assert_eq!(actions.last(), Some(&HostAction::Trap(Error::Overflow)));
}

#[test]
fn out_of_order_answer_changes_nothing() {
    let (mut flow, _) = ZakatPool::contribute(10);
    let before = flow;
    assert_eq!(flow.step(HostEvent::Transferred), None);
    assert_eq!(flow, before);
    assert_eq!(flow.step(HostEvent::Authorized), Some(HostAction::ReadPaused));
    assert_eq!(flow.step(HostEvent::AssetApproval(true)), None);
    assert_eq!(flow.stage, ContributeStage::AwaitPaused);
}

#[test]
fn finished_flow_ignores_further_answers() {
    let (mut flow, _) = drive(0, &[HostEvent::Authorized]);
    assert_eq!(flow.step(HostEvent::Authorized), None);
    assert_eq!(flow.action(), HostAction::Return(Err(Error::InvalidAmount)));
}

#[test]
fn contribution_then_balance_reads_amount() {
    // The pool credits the asset's buckets with the credit the flow asks for,
    // after which the fuqara balance reads the contributed amount.
    let (_, actions) = drive(1_000, &answers(None, true, Some(buckets(1_000, 0, 0)), 1_000));
    let stored = match actions[4] {
        HostAction::CreditBucket(c, a) => ZakatPool::credit(None, c, a).unwrap(),
        _ => panic!("expected a credit"),
    };
    assert_eq!(ZakatPool::bucket_balance(&Some(stored), Category::Fuqara), 1_000);
}

#[test]
fn account_signs_only_contract_calls() {
    assert_eq!(AttestAccount::check_auth_contexts(&vec![]), Ok(()));
    assert_eq!(
        AttestAccount::check_auth_contexts(&vec![ContextKind::Contract, ContextKind::Contract]),
        Ok(())
    );
    assert_eq!(
        AttestAccount::check_auth_contexts(&vec![ContextKind::Contract, ContextKind::CreateContractHostFn]),
        Err(Error::NotInitialized)
    );
    assert_eq!(
        AttestAccount::check_auth_contexts(&vec![ContextKind::CreateContractWithCtorHostFn]),
        Err(Error::NotInitialized)
    );
}
