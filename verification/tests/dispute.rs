use router::enums::{DisputeStage, DisputeStatus};
use router::errors::WebhooksFlowError;
use router::metrics::DisputeValidationFailureCounter;
use router::utils::{
    validate_dispute_stage, validate_dispute_stage_and_dispute_status, validate_dispute_status,
    DisputeState,
};

const STAGES: [DisputeStage; 3] =
    [DisputeStage::PreDispute, DisputeStage::Dispute, DisputeStage::PreArbitration];

const STATUSES: [DisputeStatus; 7] = [
    DisputeStatus::DisputeOpened,
    DisputeStatus::DisputeExpired,
    DisputeStatus::DisputeAccepted,
    DisputeStatus::DisputeCancelled,
    DisputeStatus::DisputeChallenged,
    DisputeStatus::DisputeWon,
    DisputeStatus::DisputeLost,
];

fn check(
    from: (DisputeStage, DisputeStatus),
    to: (DisputeStage, DisputeStatus),
) -> Result<(), WebhooksFlowError> {
    let mut counter = DisputeValidationFailureCounter::new();
    validate_dispute_stage_and_dispute_status(from.0, from.1, to.0, to.1, &mut counter)
}

#[test]
fn opened_pre_dispute_may_be_accepted() {
    assert_eq!(
        check(
            (DisputeStage::PreDispute, DisputeStatus::DisputeOpened),
            (DisputeStage::PreDispute, DisputeStatus::DisputeAccepted)
        ),
        Ok(())
    );
}

#[test]
fn challenged_may_be_won_but_not_expire() {
    assert_eq!(
        check(
            (DisputeStage::Dispute, DisputeStatus::DisputeChallenged),
            (DisputeStage::Dispute, DisputeStatus::DisputeWon)
        ),
        Ok(())
    );
    assert_eq!(
        check(
            (DisputeStage::Dispute, DisputeStatus::DisputeChallenged),
            (DisputeStage::Dispute, DisputeStatus::DisputeExpired)
        ),
        Err(WebhooksFlowError::DisputeWebhookValidationFailed)
    );
}

#[test]
fn expired_may_repeat() {
    assert_eq!(
        check(
            (DisputeStage::Dispute, DisputeStatus::DisputeExpired),
            (DisputeStage::Dispute, DisputeStatus::DisputeExpired)
        ),
        Ok(())
    );
}

#[test]
fn dispute_never_returns_to_pre_dispute() {
    for from in STATUSES {
        for to in STATUSES {
            assert_eq!(
                check((DisputeStage::Dispute, from), (DisputeStage::PreDispute, to)),
                Err(WebhooksFlowError::DisputeWebhookValidationFailed)
            );
            assert_eq!(
                check((DisputeStage::PreArbitration, from), (DisputeStage::PreDispute, to)),
                Err(WebhooksFlowError::DisputeWebhookValidationFailed)
            );
            assert_eq!(
                check((DisputeStage::PreArbitration, from), (DisputeStage::Dispute, to)),
                Err(WebhooksFlowError::DisputeWebhookValidationFailed)
            );
        }
    }
}

#[test]
fn stage_advance_takes_any_status() {
    for from in STATUSES {
        for to in STATUSES {
            assert_eq!(check((DisputeStage::PreDispute, from), (DisputeStage::Dispute, to)), Ok(()));
            assert_eq!(
                check((DisputeStage::Dispute, from), (DisputeStage::PreArbitration, to)),
                Ok(())
            );
        }
    }
}

#[test]
fn stage_table() {
    let allowed = [[true, true, true], [false, true, true], [false, false, true]];
    for (i, from) in STAGES.iter().enumerate() {
        for (j, to) in STAGES.iter().enumerate() {
            assert_eq!(validate_dispute_stage(from, to), allowed[i][j]);
        }
    }
}

#[test]
fn status_table() {
    for (i, from) in STATUSES.iter().enumerate() {
        for (j, to) in STATUSES.iter().enumerate() {
            let expected = i == 0 || i == j || (i == 4 && (j == 5 || j == 6));
            assert_eq!(validate_dispute_status(*from, *to), expected);
        }
    }
}

#[test]
fn failures_are_counted_on_the_counter_given() {
    let mut first = DisputeValidationFailureCounter::new();
    let mut second = DisputeValidationFailureCounter::new();
    let bad = validate_dispute_stage_and_dispute_status(
        DisputeStage::Dispute,
        DisputeStatus::DisputeWon,
        DisputeStage::Dispute,
        DisputeStatus::DisputeLost,
        &mut first,
    );
    assert!(bad.is_err());
    let good = validate_dispute_stage_and_dispute_status(
        DisputeStage::Dispute,
        DisputeStatus::DisputeWon,
        DisputeStage::Dispute,
        DisputeStatus::DisputeWon,
        &mut first,
    );
    assert!(good.is_ok());
    assert_eq!(first.count(), 1);
    assert_eq!(second.count(), 0);
    second.add(u64::MAX);
    second.add(5);
    assert_eq!(second.count(), u64::MAX);
}

#[test]
fn rejected_delivery_leaves_the_state() {
    let mut counter = DisputeValidationFailureCounter::new();
    let mut state = DisputeState::initial();
    assert_eq!(
        state,
        DisputeState { stage: DisputeStage::PreDispute, status: DisputeStatus::DisputeOpened }
    );
    let challenged =
        DisputeState { stage: DisputeStage::Dispute, status: DisputeStatus::DisputeChallenged };
    assert_eq!(state.apply(challenged, &mut counter), Ok(()));
    assert_eq!(state, challenged);
    let stale =
        DisputeState { stage: DisputeStage::PreDispute, status: DisputeStatus::DisputeOpened };
    assert_eq!(
        state.apply(stale, &mut counter),
        Err(WebhooksFlowError::DisputeWebhookValidationFailed)
    );
    assert_eq!(state, challenged);
    let expired =
        DisputeState { stage: DisputeStage::Dispute, status: DisputeStatus::DisputeExpired };
    assert!(state.apply(expired, &mut counter).is_err());
    assert_eq!(state, challenged);
    let won = DisputeState { stage: DisputeStage::Dispute, status: DisputeStatus::DisputeWon };
    assert_eq!(state.apply(won, &mut counter), Ok(()));
    assert_eq!(state.apply(won, &mut counter), Ok(()));
    assert_eq!(state, won);
    assert_eq!(counter.count(), 2);
}
