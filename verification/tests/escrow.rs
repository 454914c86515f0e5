use escrow_payment::account::ErrorCode;
use escrow_payment::account::Identity;
use escrow_payment::account::PaymentAgreement;
use escrow_payment::instructions::ApprovePaymentAgreement;
use escrow_payment::instructions::CancelPaymentAgreement;
use escrow_payment::instructions::CreatePaymentAgreement;
use escrow_payment::instructions::WithdrawExpiredFunds;
use escrow_payment::instructions::approve_payment_agreement;
use escrow_payment::instructions::cancel_payment_agreement;
use escrow_payment::instructions::create_payment_agreement;
use escrow_payment::instructions::referee_intervene_cancel_payment_agreement;
use escrow_payment::instructions::referee_intervene_complete_payment_agreement;
use escrow_payment::instructions::withdraw_expired_funds;

const PAYER: Identity = Identity { key: 1 };
const RECEIVER: Identity = Identity { key: 2 };
const REFEREE: Identity = Identity { key: 3 };
const STRANGER: Identity = Identity { key: 9 };

fn blank_record() -> PaymentAgreement {
    PaymentAgreement {
        name: String::new(),
        payer: Identity { key: 0 },
        receiver: Identity { key: 0 },
        referee: None,
        amount: 0,
        expiration_timestamp: None,
        payer_approved: false,
        receiver_approved: false,
        payer_requested_cancel: false,
        receiver_requested_cancel: false,
        is_completed: false,
        is_cancelled: false,
        is_referee_intervened: false,
    }
}

fn fresh_create_ctx(balance: u64, referee: Option<Identity>) -> CreatePaymentAgreement {
    CreatePaymentAgreement {
        payment_agreement: blank_record(),
        escrow_lamports: 0,
        payer: PAYER,
        payer_lamports: balance,
        referee,
    }
}

/// Creates the standard agreement of the scenarios: payer 1, balance 1500,
/// receiver 2, amount 1000.
fn created(
    referee: Option<Identity>,
    expiration: Option<i64>,
    now: i64,
) -> CreatePaymentAgreement {
    let mut ctx = fresh_create_ctx(1500, referee);
    let r = create_payment_agreement(&mut ctx, "rent".to_string(), RECEIVER, 1000, expiration, now);
    assert_eq!(r, Ok(()));
    ctx
}

fn approve_ctx(created: &CreatePaymentAgreement, signer: Identity) -> ApprovePaymentAgreement {
    ApprovePaymentAgreement {
        payment_agreement: created.payment_agreement.clone(),
        escrow_lamports: created.escrow_lamports,
        signer,
        payer: PAYER,
        receiver: RECEIVER,
        receiver_lamports: 200,
    }
}

fn cancel_ctx(created: &CreatePaymentAgreement, signer: Identity) -> CancelPaymentAgreement {
    CancelPaymentAgreement {
        payment_agreement: created.payment_agreement.clone(),
        escrow_lamports: created.escrow_lamports,
        signer,
        payer: PAYER,
        payer_lamports: created.payer_lamports,
    }
}

fn withdraw_ctx(created: &CreatePaymentAgreement) -> WithdrawExpiredFunds {
    WithdrawExpiredFunds {
        payment_agreement: created.payment_agreement.clone(),
        escrow_lamports: created.escrow_lamports,
        payer: PAYER,
        payer_lamports: created.payer_lamports,
        closed: false,
    }
}

#[test]
fn scenario_create_rent() {
    let ctx = created(None, None, 0);
    let a = &ctx.payment_agreement;
    assert_eq!(a.name, "rent");
    assert_eq!(a.payer, PAYER);
    assert_eq!(a.receiver, RECEIVER);
    assert_eq!(a.referee, None);
    assert_eq!(a.amount, 1000);
    assert_eq!(a.expiration_timestamp, None);
    assert!(!a.payer_approved && !a.receiver_approved);
    assert!(!a.payer_requested_cancel && !a.receiver_requested_cancel);
    assert!(!a.is_completed && !a.is_cancelled && !a.is_referee_intervened);
    assert_eq!(ctx.payer_lamports, 500);
    assert_eq!(ctx.escrow_lamports, 1000);
}

#[test]
fn scenario_mutual_approval() {
    let ctx = created(None, None, 0);
    let mut actx = approve_ctx(&ctx, PAYER);

    assert_eq!(approve_payment_agreement(&mut actx), Ok(()));
    assert!(actx.payment_agreement.payer_approved);
    assert!(!actx.payment_agreement.is_completed);
    assert_eq!(actx.receiver_lamports, 200);

    actx.signer = RECEIVER;
    assert_eq!(approve_payment_agreement(&mut actx), Ok(()));
    assert!(actx.payment_agreement.is_completed);
    assert!(!actx.payment_agreement.is_cancelled);
    assert!(!actx.payment_agreement.is_referee_intervened);
    assert_eq!(actx.receiver_lamports, 1200);
    assert_eq!(actx.escrow_lamports, 0);

    // every further call on the record is rejected as already completed
    actx.signer = PAYER;
    assert_eq!(
        approve_payment_agreement(&mut actx),
        Err(ErrorCode::AgreementAlreadyCompleted)
    );
    let mut cctx = CancelPaymentAgreement {
        payment_agreement: actx.payment_agreement.clone(),
        escrow_lamports: actx.escrow_lamports,
        signer: RECEIVER,
        payer: PAYER,
        payer_lamports: 500,
    };
    assert_eq!(
        cancel_payment_agreement(&mut cctx),
        Err(ErrorCode::AgreementAlreadyCompleted)
    );
    assert!(!cctx.payment_agreement.payer_requested_cancel);
    assert!(!cctx.payment_agreement.receiver_requested_cancel);
    assert_eq!(cctx.payer_lamports, 500);
}

#[test]
fn scenario_mutual_cancellation() {
    let ctx = created(None, None, 0);
    let mut cctx = cancel_ctx(&ctx, PAYER);

    assert_eq!(cancel_payment_agreement(&mut cctx), Ok(()));
    assert!(cctx.payment_agreement.payer_requested_cancel);
    assert!(!cctx.payment_agreement.is_cancelled);
    assert_eq!(cctx.payer_lamports, 500);

    cctx.signer = RECEIVER;
    assert_eq!(cancel_payment_agreement(&mut cctx), Ok(()));
    assert!(cctx.payment_agreement.is_cancelled);
    assert!(!cctx.payment_agreement.is_completed);
    // full refund of the amount to the payer
    assert_eq!(cctx.payer_lamports, 1500);
    assert_eq!(cctx.escrow_lamports, 0);

    cctx.signer = PAYER;
    assert_eq!(
        cancel_payment_agreement(&mut cctx),
        Err(ErrorCode::AgreementAlreadyCancelled)
    );
}

#[test]
fn scenario_referee_completion() {
    let ctx = created(Some(REFEREE), None, 0);
    let mut actx = approve_ctx(&ctx, PAYER);

    // a prior approval flag makes no difference to the override
    assert_eq!(approve_payment_agreement(&mut actx), Ok(()));
    assert!(actx.payment_agreement.payer_approved);

    actx.signer = REFEREE;
    assert_eq!(referee_intervene_complete_payment_agreement(&mut actx), Ok(()));
    assert!(actx.payment_agreement.is_completed);
    assert!(actx.payment_agreement.is_referee_intervened);
    assert_eq!(actx.receiver_lamports, 1200);
    assert_eq!(actx.escrow_lamports, 0);

    // the override is final
    assert_eq!(
        referee_intervene_complete_payment_agreement(&mut actx),
        Err(ErrorCode::AgreementAlreadyCompleted)
    );
}

#[test]
fn scenario_expiry_reclaim() {
    let ctx = created(None, Some(100), 0);
    let mut wctx = withdraw_ctx(&ctx);

    // exactly at the expiration is still too early
    assert_eq!(
        withdraw_expired_funds(&mut wctx, 100),
        Err(ErrorCode::PaymentAgreementNotExpired)
    );
    assert_eq!(wctx.payer_lamports, 500);
    assert!(!wctx.closed);

    // strictly after it the payer is refunded and the record is closed
    assert_eq!(withdraw_expired_funds(&mut wctx, 101), Ok(()));
    assert_eq!(wctx.payer_lamports, 1500);
    assert_eq!(wctx.escrow_lamports, 0);
    assert!(wctx.closed);
}

#[test]
fn scenario_self_payment_rejected() {
    let mut ctx = fresh_create_ctx(1500, None);
    let r = create_payment_agreement(&mut ctx, "rent".to_string(), PAYER, 1000, None, 0);
    assert_eq!(r, Err(ErrorCode::PayerCannotBeReceiver));
    // no balance change, nothing stored
    assert_eq!(ctx.payer_lamports, 1500);
    assert_eq!(ctx.escrow_lamports, 0);
    assert_eq!(ctx.payment_agreement.amount, 0);
}

#[test]
fn approval_is_idempotent_per_role() {
    let ctx = created(None, None, 0);
    let mut once = approve_ctx(&ctx, PAYER);
    assert_eq!(approve_payment_agreement(&mut once), Ok(()));
    let mut twice = once.clone();
    assert_eq!(approve_payment_agreement(&mut twice), Ok(()));
    assert_eq!(twice.payment_agreement.payer_approved, once.payment_agreement.payer_approved);
    assert_eq!(twice.payment_agreement.receiver_approved, once.payment_agreement.receiver_approved);
    assert_eq!(twice.payment_agreement.is_completed, once.payment_agreement.is_completed);
    assert_eq!(twice.escrow_lamports, once.escrow_lamports);
    assert_eq!(twice.receiver_lamports, once.receiver_lamports);
}

#[test]
fn approval_commutes() {
    let ctx = created(None, None, 0);

    let mut payer_first = approve_ctx(&ctx, PAYER);
    assert_eq!(approve_payment_agreement(&mut payer_first), Ok(()));
    payer_first.signer = RECEIVER;
    assert_eq!(approve_payment_agreement(&mut payer_first), Ok(()));

    let mut receiver_first = approve_ctx(&ctx, RECEIVER);
    assert_eq!(approve_payment_agreement(&mut receiver_first), Ok(()));
    receiver_first.signer = PAYER;
    assert_eq!(approve_payment_agreement(&mut receiver_first), Ok(()));

    assert!(payer_first.payment_agreement.is_completed);
    assert!(receiver_first.payment_agreement.is_completed);
    assert_eq!(payer_first.escrow_lamports, receiver_first.escrow_lamports);
    assert_eq!(payer_first.receiver_lamports, receiver_first.receiver_lamports);
    assert_eq!(payer_first.receiver_lamports, 1200);
}

#[test]
fn cancellation_is_idempotent_per_role() {
    let ctx = created(None, None, 0);
    let mut once = cancel_ctx(&ctx, RECEIVER);
    assert_eq!(cancel_payment_agreement(&mut once), Ok(()));
    let mut twice = once.clone();
    assert_eq!(cancel_payment_agreement(&mut twice), Ok(()));
    assert_eq!(
        twice.payment_agreement.receiver_requested_cancel,
        once.payment_agreement.receiver_requested_cancel
    );
    assert_eq!(twice.payment_agreement.is_cancelled, once.payment_agreement.is_cancelled);
    assert_eq!(twice.escrow_lamports, once.escrow_lamports);
    assert_eq!(twice.payer_lamports, once.payer_lamports);
}

#[test]
fn cancellation_commutes() {
    let ctx = created(None, None, 0);

    let mut payer_first = cancel_ctx(&ctx, PAYER);
    assert_eq!(cancel_payment_agreement(&mut payer_first), Ok(()));
    payer_first.signer = RECEIVER;
    assert_eq!(cancel_payment_agreement(&mut payer_first), Ok(()));

    let mut receiver_first = cancel_ctx(&ctx, RECEIVER);
    assert_eq!(cancel_payment_agreement(&mut receiver_first), Ok(()));
    receiver_first.signer = PAYER;
    assert_eq!(cancel_payment_agreement(&mut receiver_first), Ok(()));

    assert!(payer_first.payment_agreement.is_cancelled);
    assert!(receiver_first.payment_agreement.is_cancelled);
    assert_eq!(payer_first.payer_lamports, receiver_first.payer_lamports);
    assert_eq!(payer_first.payer_lamports, 1500);
}

#[test]
fn referee_cancellation_refunds_payer() {
    let ctx = created(Some(REFEREE), None, 0);
    let mut cctx = cancel_ctx(&ctx, REFEREE);
    assert_eq!(referee_intervene_cancel_payment_agreement(&mut cctx), Ok(()));
    assert!(cctx.payment_agreement.is_cancelled);
    assert!(cctx.payment_agreement.is_referee_intervened);
    assert_eq!(cctx.payer_lamports, 1500);
    assert_eq!(cctx.escrow_lamports, 0);
}

#[test]
fn referee_override_needs_a_referee() {
    let ctx = created(None, None, 0);
    let mut actx = approve_ctx(&ctx, REFEREE);
    assert_eq!(
        referee_intervene_complete_payment_agreement(&mut actx),
        Err(ErrorCode::Unauthorized)
    );
    let mut cctx = cancel_ctx(&ctx, REFEREE);
    assert_eq!(
        referee_intervene_cancel_payment_agreement(&mut cctx),
        Err(ErrorCode::Unauthorized)
    );
    assert_eq!(cctx.payer_lamports, 500);
}

#[test]
fn referee_override_rejects_other_callers() {
    let ctx = created(Some(REFEREE), None, 0);
    // even the parties themselves cannot use the override path
    let mut actx = approve_ctx(&ctx, PAYER);
    assert_eq!(
        referee_intervene_complete_payment_agreement(&mut actx),
        Err(ErrorCode::Unauthorized)
    );
    let mut cctx = cancel_ctx(&ctx, RECEIVER);
    assert_eq!(
        referee_intervene_cancel_payment_agreement(&mut cctx),
        Err(ErrorCode::Unauthorized)
    );
}

#[test]
fn create_rejects_empty_name() {
    let mut ctx = fresh_create_ctx(1500, None);
    let r = create_payment_agreement(&mut ctx, String::new(), RECEIVER, 1000, None, 0);
    assert_eq!(r, Err(ErrorCode::InvalidName));
    assert_eq!(ctx.payer_lamports, 1500);
}

#[test]
fn create_name_length_bounds() {
    let mut ctx = fresh_create_ctx(1500, None);
    let r = create_payment_agreement(&mut ctx, "a".repeat(33), RECEIVER, 1000, None, 0);
    assert_eq!(r, Err(ErrorCode::InvalidName));

    let mut ctx = fresh_create_ctx(1500, None);
    let r = create_payment_agreement(&mut ctx, "a".repeat(32), RECEIVER, 1000, None, 0);
    assert_eq!(r, Ok(()));

    let mut ctx = fresh_create_ctx(1500, None);
    let r = create_payment_agreement(&mut ctx, "a".to_string(), RECEIVER, 1000, None, 0);
    assert_eq!(r, Ok(()));
}

#[test]
fn create_rejects_referee_equal_to_a_party() {
    let mut ctx = fresh_create_ctx(1500, Some(PAYER));
    let r = create_payment_agreement(&mut ctx, "rent".to_string(), RECEIVER, 1000, None, 0);
    assert_eq!(r, Err(ErrorCode::RefereeCannotBePayer));

    let mut ctx = fresh_create_ctx(1500, Some(RECEIVER));
    let r = create_payment_agreement(&mut ctx, "rent".to_string(), RECEIVER, 1000, None, 0);
    assert_eq!(r, Err(ErrorCode::RefereeCannotBeReceiver));
    assert_eq!(ctx.payer_lamports, 1500);
}

#[test]
fn create_rejects_past_or_present_expiration() {
    let mut ctx = fresh_create_ctx(1500, None);
    let r = create_payment_agreement(&mut ctx, "rent".to_string(), RECEIVER, 1000, Some(50), 50);
    assert_eq!(r, Err(ErrorCode::ExpirationMustBeInFuture));

    let mut ctx = fresh_create_ctx(1500, None);
    let r = create_payment_agreement(&mut ctx, "rent".to_string(), RECEIVER, 1000, Some(49), 50);
    assert_eq!(r, Err(ErrorCode::ExpirationMustBeInFuture));

    let mut ctx = fresh_create_ctx(1500, None);
    let r = create_payment_agreement(&mut ctx, "rent".to_string(), RECEIVER, 1000, Some(51), 50);
    assert_eq!(r, Ok(()));
}

#[test]
fn create_rejects_insufficient_funds() {
    let mut ctx = fresh_create_ctx(999, None);
    let r = create_payment_agreement(&mut ctx, "rent".to_string(), RECEIVER, 1000, None, 0);
    assert_eq!(r, Err(ErrorCode::InsufficientFunds));
    assert_eq!(ctx.payer_lamports, 999);
    assert_eq!(ctx.escrow_lamports, 0);

    // a balance exactly equal to the amount is enough
    let mut ctx = fresh_create_ctx(1000, None);
    let r = create_payment_agreement(&mut ctx, "rent".to_string(), RECEIVER, 1000, None, 0);
    assert_eq!(r, Ok(()));
    assert_eq!(ctx.payer_lamports, 0);
}

#[test]
fn approve_guards_identities() {
    let ctx = created(None, None, 0);

    let mut actx = approve_ctx(&ctx, STRANGER);
    assert_eq!(approve_payment_agreement(&mut actx), Err(ErrorCode::Unauthorized));

    let mut actx = approve_ctx(&ctx, PAYER);
    actx.payer = STRANGER;
    assert_eq!(approve_payment_agreement(&mut actx), Err(ErrorCode::InvalidPayer));

    let mut actx = approve_ctx(&ctx, PAYER);
    actx.receiver = STRANGER;
    assert_eq!(approve_payment_agreement(&mut actx), Err(ErrorCode::InvalidReceiver));
    assert!(!actx.payment_agreement.payer_approved);
}

#[test]
fn cancel_guards_identities() {
    let ctx = created(None, None, 0);

    let mut cctx = cancel_ctx(&ctx, STRANGER);
    assert_eq!(cancel_payment_agreement(&mut cctx), Err(ErrorCode::Unauthorized));

    let mut cctx = cancel_ctx(&ctx, RECEIVER);
    cctx.payer = STRANGER;
    assert_eq!(cancel_payment_agreement(&mut cctx), Err(ErrorCode::InvalidPayer));
    assert!(!cctx.payment_agreement.receiver_requested_cancel);
}

#[test]
fn approve_rejected_after_cancellation() {
    let ctx = created(None, None, 0);
    let mut cctx = cancel_ctx(&ctx, PAYER);
    assert_eq!(cancel_payment_agreement(&mut cctx), Ok(()));
    cctx.signer = RECEIVER;
    assert_eq!(cancel_payment_agreement(&mut cctx), Ok(()));
    assert!(cctx.payment_agreement.is_cancelled);

    let mut actx = ApprovePaymentAgreement {
        payment_agreement: cctx.payment_agreement.clone(),
        escrow_lamports: cctx.escrow_lamports,
        signer: PAYER,
        payer: PAYER,
        receiver: RECEIVER,
        receiver_lamports: 200,
    };
    assert_eq!(
        approve_payment_agreement(&mut actx),
        Err(ErrorCode::AgreementAlreadyCancelled)
    );
    assert!(!actx.payment_agreement.payer_approved);
    assert_eq!(actx.receiver_lamports, 200);
}

#[test]
fn withdraw_guards() {
    let ctx = created(None, Some(100), 0);

    let mut wctx = withdraw_ctx(&ctx);
    wctx.payer = STRANGER;
    assert_eq!(withdraw_expired_funds(&mut wctx, 200), Err(ErrorCode::Unauthorized));

    // no expiration set: the agreement never expires
    let ctx_no_exp = created(None, None, 0);
    let mut wctx = withdraw_ctx(&ctx_no_exp);
    assert_eq!(
        withdraw_expired_funds(&mut wctx, i64::MAX),
        Err(ErrorCode::PaymentAgreementNotExpired)
    );
    assert!(!wctx.closed);
}

#[test]
fn withdraw_rejected_on_terminal_record() {
    let ctx = created(None, Some(100), 0);
    let mut actx = approve_ctx(&ctx, PAYER);
    assert_eq!(approve_payment_agreement(&mut actx), Ok(()));
    actx.signer = RECEIVER;
    assert_eq!(approve_payment_agreement(&mut actx), Ok(()));
    assert!(actx.payment_agreement.is_completed);

    let mut wctx = WithdrawExpiredFunds {
        payment_agreement: actx.payment_agreement.clone(),
        escrow_lamports: actx.escrow_lamports,
        payer: PAYER,
        payer_lamports: 500,
        closed: false,
    };
    assert_eq!(
        withdraw_expired_funds(&mut wctx, 200),
        Err(ErrorCode::AgreementAlreadyCompleted)
    );
    assert_eq!(wctx.payer_lamports, 500);
}

#[test]
fn error_messages() {
    assert_eq!(
        ErrorCode::PaymentAgreementNotExpired.message(),
        "Payment agreement has not expired yet."
    );
    assert_eq!(
        ErrorCode::InvalidName.message(),
        "Invalid name. Name must be between 1 and 32 characters."
    );
    assert_eq!(ErrorCode::Unauthorized.message(), "Unauthorized action.");
}

#[test]
fn amount_zero_agreement_resolves() {
    let mut ctx = fresh_create_ctx(0, None);
    let r = create_payment_agreement(&mut ctx, "rent".to_string(), RECEIVER, 0, None, 0);
    assert_eq!(r, Ok(()));
    assert_eq!(ctx.escrow_lamports, 0);

    let mut actx = approve_ctx(&ctx, PAYER);
    assert_eq!(approve_payment_agreement(&mut actx), Ok(()));
    actx.signer = RECEIVER;
    assert_eq!(approve_payment_agreement(&mut actx), Ok(()));
    assert!(actx.payment_agreement.is_completed);
    assert_eq!(actx.receiver_lamports, 200);
}
