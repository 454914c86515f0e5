//! The laws of the agreement state machine, proved over the same spec
//! functions the transition contracts use.

use vstd::prelude::*;

use crate::account::ErrorCode;
use crate::account::PaymentAgreement;
use crate::instructions::ApprovePaymentAgreement;
use crate::instructions::CancelPaymentAgreement;
use crate::instructions::WithdrawExpiredFunds;
use crate::instructions::approve_error;
use crate::instructions::approve_step;
use crate::instructions::cancel_error;
use crate::instructions::cancel_step;
use crate::instructions::referee_cancel_apply;
use crate::instructions::referee_cancel_error;
use crate::instructions::referee_cancel_step;
use crate::instructions::referee_complete_apply;
use crate::instructions::referee_complete_error;
use crate::instructions::referee_complete_step;
use crate::instructions::withdraw_error;
use crate::instructions::withdraw_step;

verus! {

/// A well-formed agreement is never both completed and cancelled. Creation
/// stores a well-formed record and every transition ensures the record it
/// leaves behind is well-formed again, so this holds of every agreement the
/// library ever produces.
pub proof fn lemma_terminal_exclusive(a: PaymentAgreement)
    requires
        a.wf(),
    ensures
        !(a.is_completed && a.is_cancelled),
{
}

/// Once an agreement is terminal, an approval changes nothing: the call is
/// rejected, and when the caller and the claimed identities are the right
/// ones, it is rejected precisely as already completed or already cancelled.
pub proof fn lemma_terminal_frozen_approve(ctx: ApprovePaymentAgreement)
    requires
        !ctx.payment_agreement.is_open(),
    ensures
        approve_step(ctx) == ctx,
        approve_error(ctx) is Some,
        ((ctx.signer == ctx.payment_agreement.payer || ctx.signer == ctx.payment_agreement.receiver)
            && ctx.payer == ctx.payment_agreement.payer
            && ctx.receiver == ctx.payment_agreement.receiver) ==> (approve_error(ctx)
            == Some(ErrorCode::AgreementAlreadyCompleted) || approve_error(ctx)
            == Some(ErrorCode::AgreementAlreadyCancelled)),
{
}

/// Once an agreement is terminal, a cancellation request changes nothing,
/// with the same error discipline as for approval.
pub proof fn lemma_terminal_frozen_cancel(ctx: CancelPaymentAgreement)
    requires
        !ctx.payment_agreement.is_open(),
    ensures
        cancel_step(ctx) == ctx,
        cancel_error(ctx) is Some,
        ((ctx.signer == ctx.payment_agreement.payer || ctx.signer == ctx.payment_agreement.receiver)
            && ctx.payer == ctx.payment_agreement.payer) ==> (cancel_error(ctx)
            == Some(ErrorCode::AgreementAlreadyCompleted) || cancel_error(ctx)
            == Some(ErrorCode::AgreementAlreadyCancelled)),
{
}

/// Once an agreement is terminal, even the referee can no longer complete
/// it: a referee decision is final and cannot be overridden in turn.
pub proof fn lemma_terminal_frozen_referee_complete(ctx: ApprovePaymentAgreement)
    requires
        !ctx.payment_agreement.is_open(),
    ensures
        referee_complete_step(ctx) == ctx,
        referee_complete_error(ctx) is Some,
        (ctx.payment_agreement.referee == Some(ctx.signer)
            && ctx.payer == ctx.payment_agreement.payer
            && ctx.receiver == ctx.payment_agreement.receiver) ==> (referee_complete_error(ctx)
            == Some(ErrorCode::AgreementAlreadyCompleted) || referee_complete_error(ctx)
            == Some(ErrorCode::AgreementAlreadyCancelled)),
{
}

/// Once an agreement is terminal, even the referee can no longer cancel it.
pub proof fn lemma_terminal_frozen_referee_cancel(ctx: CancelPaymentAgreement)
    requires
        !ctx.payment_agreement.is_open(),
    ensures
        referee_cancel_step(ctx) == ctx,
        referee_cancel_error(ctx) is Some,
        (ctx.payment_agreement.referee == Some(ctx.signer)
            && ctx.payer == ctx.payment_agreement.payer) ==> (referee_cancel_error(ctx)
            == Some(ErrorCode::AgreementAlreadyCompleted) || referee_cancel_error(ctx)
            == Some(ErrorCode::AgreementAlreadyCancelled)),
{
}

/// Once an agreement is terminal, reclaim changes nothing either.
pub proof fn lemma_terminal_frozen_withdraw(ctx: WithdrawExpiredFunds, now: i64)
    requires
        !ctx.payment_agreement.is_open(),
    ensures
        withdraw_step(ctx, now) == ctx,
        withdraw_error(ctx, now) is Some,
        (ctx.payer == ctx.payment_agreement.payer
            && (ctx.payment_agreement.expiration_timestamp matches Some(t) && now > t)) ==> (
        withdraw_error(ctx, now) == Some(ErrorCode::AgreementAlreadyCompleted) || withdraw_error(
            ctx,
            now,
        ) == Some(ErrorCode::AgreementAlreadyCancelled)),
{
}

/// Approving twice from the same role leaves exactly the state one approval
/// leaves: the repeated call either finds its flag already set or finds the
/// agreement already completed.
pub proof fn lemma_approve_idempotent(ctx: ApprovePaymentAgreement)
    ensures
        approve_step(approve_step(ctx)) == approve_step(ctx),
{
}

/// Requesting cancellation twice from the same role leaves exactly the state
/// one request leaves.
pub proof fn lemma_cancel_idempotent(ctx: CancelPaymentAgreement)
    ensures
        cancel_step(cancel_step(ctx)) == cancel_step(ctx),
{
}

/// Approval from both roles, in either order, ends in the same state: the
/// agreement is completed and the full amount has moved from custody to the
/// receiver, exactly once.
pub proof fn lemma_mutual_approval_commutes(ctx: ApprovePaymentAgreement)
    requires
        ctx.wf(),
        ctx.payment_agreement.is_open(),
        ctx.payer == ctx.payment_agreement.payer,
        ctx.receiver == ctx.payment_agreement.receiver,
        ctx.receiver_lamports + ctx.payment_agreement.amount <= u64::MAX,
    ensures
        ({
            let pr = approve_step(approve_step(ctx.with_signer(ctx.payer)).with_signer(ctx.receiver));
            let rp = approve_step(approve_step(ctx.with_signer(ctx.receiver)).with_signer(ctx.payer));
            &&& pr.payment_agreement == rp.payment_agreement
            &&& pr.escrow_lamports == rp.escrow_lamports
            &&& pr.receiver_lamports == rp.receiver_lamports
            &&& pr.payment_agreement.is_completed
            &&& pr.receiver_lamports == ctx.receiver_lamports + ctx.payment_agreement.amount
            &&& pr.escrow_lamports == 0
        }),
{
}

/// Cancellation is symmetric to approval with the payer as the refund
/// target: requests from both roles, in either order, end in the same state,
/// with the agreement cancelled and the full amount returned from custody to
/// the payer, exactly once.
pub proof fn lemma_mutual_cancellation_commutes(ctx: CancelPaymentAgreement)
    requires
        ctx.wf(),
        ctx.payment_agreement.is_open(),
        ctx.payer == ctx.payment_agreement.payer,
        ctx.payer_lamports + ctx.payment_agreement.amount <= u64::MAX,
    ensures
        ({
            let pr = cancel_step(
                cancel_step(ctx.with_signer(ctx.payer)).with_signer(ctx.payment_agreement.receiver),
            );
            let rp = cancel_step(
                cancel_step(ctx.with_signer(ctx.payment_agreement.receiver)).with_signer(ctx.payer),
            );
            &&& pr.payment_agreement == rp.payment_agreement
            &&& pr.escrow_lamports == rp.escrow_lamports
            &&& pr.payer_lamports == rp.payer_lamports
            &&& pr.payment_agreement.is_cancelled
            &&& pr.payer_lamports == ctx.payer_lamports + ctx.payment_agreement.amount
            &&& pr.escrow_lamports == 0
        }),
{
}

/// A referee completion succeeds exactly when a referee was set, the caller
/// is that referee, the claimed identities match the record, and the
/// agreement is still open — whatever the approval and cancellation-request
/// flags hold. When it succeeds, one call completes the agreement, records
/// the intervention, and makes the state terminal.
pub proof fn lemma_referee_complete_authority(ctx: ApprovePaymentAgreement)
    ensures
        referee_complete_error(ctx) is None <==> {
            &&& ctx.payment_agreement.referee == Some(ctx.signer)
            &&& ctx.payer == ctx.payment_agreement.payer
            &&& ctx.receiver == ctx.payment_agreement.receiver
            &&& ctx.payment_agreement.is_open()
        },
        referee_complete_error(ctx) is None ==> ({
            let c = referee_complete_apply(ctx);
            &&& c.payment_agreement.is_completed
            &&& c.payment_agreement.is_referee_intervened
            &&& !c.payment_agreement.is_open()
        }),
{
}

/// A referee cancellation succeeds exactly when a referee was set, the
/// caller is that referee, the claimed payer matches the record, and the
/// agreement is still open; one call cancels the agreement, records the
/// intervention, and makes the state terminal.
pub proof fn lemma_referee_cancel_authority(ctx: CancelPaymentAgreement)
    ensures
        referee_cancel_error(ctx) is None <==> {
            &&& ctx.payment_agreement.referee == Some(ctx.signer)
            &&& ctx.payer == ctx.payment_agreement.payer
            &&& ctx.payment_agreement.is_open()
        },
        referee_cancel_error(ctx) is None ==> ({
            let c = referee_cancel_apply(ctx);
            &&& c.payment_agreement.is_cancelled
            &&& c.payment_agreement.is_referee_intervened
            &&& !c.payment_agreement.is_open()
        }),
{
}

/// Reclaim succeeds exactly when the caller is the payer, an expiration was
/// set, the current time is strictly past it, and the agreement is still
/// open. In particular a call with no expiration set, or at or before the
/// expiration, fails as not expired.
pub proof fn lemma_reclaim_window(ctx: WithdrawExpiredFunds, now: i64)
    ensures
        withdraw_error(ctx, now) is None <==> {
            &&& ctx.payer == ctx.payment_agreement.payer
            &&& (ctx.payment_agreement.expiration_timestamp matches Some(t) && now > t)
            &&& ctx.payment_agreement.is_open()
        },
        (ctx.payer == ctx.payment_agreement.payer
            && (ctx.payment_agreement.expiration_timestamp matches Some(t) && now <= t))
            ==> withdraw_error(ctx, now) == Some(ErrorCode::PaymentAgreementNotExpired),
        (ctx.payer == ctx.payment_agreement.payer
            && ctx.payment_agreement.expiration_timestamp is None) ==> withdraw_error(ctx, now)
            == Some(ErrorCode::PaymentAgreementNotExpired),
{
}

/// No approval path creates or destroys funds: what custody and the receiver
/// hold together is the same before and after, whether the call is accepted,
/// completes the agreement, or is rejected.
pub proof fn lemma_approval_paths_conserve_funds(ctx: ApprovePaymentAgreement)
    requires
        ctx.wf(),
        ctx.receiver_lamports + ctx.payment_agreement.amount <= u64::MAX,
    ensures
        approve_step(ctx).escrow_lamports + approve_step(ctx).receiver_lamports
            == ctx.escrow_lamports + ctx.receiver_lamports,
        referee_complete_step(ctx).escrow_lamports + referee_complete_step(ctx).receiver_lamports
            == ctx.escrow_lamports + ctx.receiver_lamports,
{
}

/// No cancellation path creates or destroys funds: what custody and the payer
/// hold together is the same before and after.
pub proof fn lemma_cancellation_paths_conserve_funds(ctx: CancelPaymentAgreement)
    requires
        ctx.wf(),
        ctx.payer_lamports + ctx.payment_agreement.amount <= u64::MAX,
    ensures
        cancel_step(ctx).escrow_lamports + cancel_step(ctx).payer_lamports
            == ctx.escrow_lamports + ctx.payer_lamports,
        referee_cancel_step(ctx).escrow_lamports + referee_cancel_step(ctx).payer_lamports
            == ctx.escrow_lamports + ctx.payer_lamports,
{
}

/// Reclaim does not create or destroy funds either: the refund is exactly
/// what custody gives up.
pub proof fn lemma_reclaim_conserves_funds(ctx: WithdrawExpiredFunds, now: i64)
    requires
        ctx.wf(),
        !ctx.closed,
        ctx.payer_lamports + ctx.payment_agreement.amount <= u64::MAX,
    ensures
        withdraw_step(ctx, now).escrow_lamports + withdraw_step(ctx, now).payer_lamports
            == ctx.escrow_lamports + ctx.payer_lamports,
{
}

} // verus!
