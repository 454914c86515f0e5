//! The six transition functions of the agreement state machine.
//!
//! Each transition takes a context struct that mirrors the set of ledger
//! accounts the host hands to it: the stored agreement record, the custody
//! balance bound to it, the caller, and the balances the transition may move
//! funds to. The host is trusted only for what the context models: it looks
//! records up by (payer, name), serializes transitions per record, and applies
//! balance changes atomically. Everything the transition decides and changes
//! is stated here and verified.

use vstd::prelude::*;

use crate::account::ErrorCode;
use crate::account::Identity;
use crate::account::PaymentAgreement;

verus! {

/// The accounts involved in creating an agreement: the prospective payer
/// (the caller), the freshly allocated custody account, and the optional
/// referee the payer nominates.
#[derive(Clone, Debug)]
pub struct CreatePaymentAgreement {
    /// The record slot the host allocated for the new agreement; its prior
    /// content is overwritten in full on success.
    pub payment_agreement: PaymentAgreement,
    /// Balance of the custody account bound to the record; zero at allocation.
    pub escrow_lamports: u64,
    /// The caller, who becomes the agreement's payer.
    pub payer: Identity,
    /// The caller's available balance.
    pub payer_lamports: u64,
    /// The nominated referee, if any.
    pub referee: Option<Identity>,
}

/// Why a creation is rejected, or `None` when it goes through. The checks
/// apply in this order and the first failure wins. `now` is the current Unix
/// time the host's clock supplies.
pub open spec fn create_error(
    ctx: CreatePaymentAgreement,
    name: Seq<char>,
    receiver: Identity,
    amount: u64,
    expiration_timestamp: Option<i64>,
    now: i64,
) -> Option<ErrorCode> {
    if !(1 <= name.len() <= 32) {
        Some(ErrorCode::InvalidName)
    } else if ctx.payer == receiver {
        Some(ErrorCode::PayerCannotBeReceiver)
    } else if ctx.referee matches Some(f) && f == ctx.payer {
        Some(ErrorCode::RefereeCannotBePayer)
    } else if ctx.referee matches Some(f) && f == receiver {
        Some(ErrorCode::RefereeCannotBeReceiver)
    } else if expiration_timestamp matches Some(t) && t <= now {
        Some(ErrorCode::ExpirationMustBeInFuture)
    } else if ctx.payer_lamports < amount {
        Some(ErrorCode::InsufficientFunds)
    } else {
        None
    }
}

/// Creation: validates the name, the role distinctness, the expiration and
/// the caller's balance, then stores a fresh open agreement and moves the
/// amount from the caller into custody, atomically. On any rejection nothing
/// changes.
pub fn create_payment_agreement(
    ctx: &mut CreatePaymentAgreement,
    name: String,
    receiver: Identity,
    amount: u64,
    expiration_timestamp: Option<i64>,
    now: i64,
) -> (r: Result<(), ErrorCode>)
    requires
        // the host hands over a freshly allocated, empty custody account
        old(ctx).escrow_lamports == 0,
    ensures
        final(ctx).payer == old(ctx).payer,
        final(ctx).referee == old(ctx).referee,
        (match r {
            Ok(()) => {
                &&& create_error(*old(ctx), name@, receiver, amount, expiration_timestamp, now)
                    is None
                &&& final(ctx).payment_agreement.name == name
                &&& final(ctx).payment_agreement.payer == old(ctx).payer
                &&& final(ctx).payment_agreement.receiver == receiver
                &&& final(ctx).payment_agreement.referee == old(ctx).referee
                &&& final(ctx).payment_agreement.amount == amount
                &&& final(ctx).payment_agreement.expiration_timestamp == expiration_timestamp
                &&& !final(ctx).payment_agreement.payer_approved
                &&& !final(ctx).payment_agreement.receiver_approved
                &&& !final(ctx).payment_agreement.payer_requested_cancel
                &&& !final(ctx).payment_agreement.receiver_requested_cancel
                &&& final(ctx).payment_agreement.is_open()
                &&& !final(ctx).payment_agreement.is_referee_intervened
                &&& final(ctx).payment_agreement.wf()
                &&& final(ctx).payer_lamports == old(ctx).payer_lamports - amount
                &&& final(ctx).escrow_lamports == amount
            },
            Err(e) => {
                &&& create_error(*old(ctx), name@, receiver, amount, expiration_timestamp, now)
                    == Some(e)
                &&& *final(ctx) == *old(ctx)
            },
        }),
{
    let name_len = name.as_str().unicode_len();
    if name_len < 1 || name_len > 32 {
        return Err(ErrorCode::InvalidName);
    }

    if ctx.payer == receiver {
        return Err(ErrorCode::PayerCannotBeReceiver);
    }

    match ctx.referee {
        Some(f) => {
            if f == ctx.payer {
                return Err(ErrorCode::RefereeCannotBePayer);
            }
            if f == receiver {
                return Err(ErrorCode::RefereeCannotBeReceiver);
            }
        },
        None => {},
    }

    match expiration_timestamp {
        Some(t) => {
            if t <= now {
                return Err(ErrorCode::ExpirationMustBeInFuture);
            }
        },
        None => {},
    }

    if ctx.payer_lamports < amount {
        return Err(ErrorCode::InsufficientFunds);
    }

    ctx.payment_agreement = PaymentAgreement {
        name,
        payer: ctx.payer,
        receiver,
        referee: ctx.referee,
        amount,
        expiration_timestamp,
        payer_approved: false,
        receiver_approved: false,
        payer_requested_cancel: false,
        receiver_requested_cancel: false,
        is_completed: false,
        is_cancelled: false,
        is_referee_intervened: false,
    };

    ctx.payer_lamports = ctx.payer_lamports - amount;
    ctx.escrow_lamports = amount;

    Ok(())
}

/// The accounts involved in an approval (or a referee completion): the
/// agreement, its custody balance, the caller, and the claimed payer and
/// receiver identities that must match the stored record.
#[derive(Clone, Debug)]
pub struct ApprovePaymentAgreement {
    pub payment_agreement: PaymentAgreement,
    /// Balance of the custody account bound to the record.
    pub escrow_lamports: u64,
    /// The caller.
    pub signer: Identity,
    /// Claimed payer; checked against the stored record.
    pub payer: Identity,
    /// Claimed receiver; checked against the stored record, and credited on
    /// completion.
    pub receiver: Identity,
    /// The receiver's balance.
    pub receiver_lamports: u64,
}

impl ApprovePaymentAgreement {
    /// The custody invariant: while the agreement is open the custody account
    /// holds exactly `amount`; once terminal, the funds have left in full.
    pub open spec fn wf(self) -> bool {
        &&& self.payment_agreement.wf()
        &&& (if self.payment_agreement.is_open() {
            self.escrow_lamports == self.payment_agreement.amount
        } else {
            self.escrow_lamports == 0
        })
    }

    /// The same account set with another caller.
    pub open spec fn with_signer(self, s: Identity) -> ApprovePaymentAgreement {
        ApprovePaymentAgreement { signer: s, ..self }
    }
}

/// Why an approval is rejected, or `None` when it goes through. The guards
/// apply in this order and the first failure wins.
pub open spec fn approve_error(ctx: ApprovePaymentAgreement) -> Option<ErrorCode> {
    let a = ctx.payment_agreement;
    if ctx.signer != a.payer && ctx.signer != a.receiver {
        Some(ErrorCode::Unauthorized)
    } else if ctx.payer != a.payer {
        Some(ErrorCode::InvalidPayer)
    } else if ctx.receiver != a.receiver {
        Some(ErrorCode::InvalidReceiver)
    } else if a.is_completed {
        Some(ErrorCode::AgreementAlreadyCompleted)
    } else if a.is_cancelled {
        Some(ErrorCode::AgreementAlreadyCancelled)
    } else {
        None
    }
}

/// The record after one approval by `signer`: the caller's approval flag is
/// set, and if both parties have now approved, the agreement completes.
pub open spec fn agreement_after_approval(a: PaymentAgreement, signer: Identity) -> PaymentAgreement {
    let a1 = if signer == a.payer {
        PaymentAgreement { payer_approved: true, ..a }
    } else {
        PaymentAgreement { receiver_approved: true, ..a }
    };
    if a1.payer_approved && a1.receiver_approved {
        PaymentAgreement { is_completed: true, ..a1 }
    } else {
        a1
    }
}

/// The account set after an approval whose guards passed: the record is
/// updated, and when the approval completes the agreement, the full amount
/// moves from custody to the receiver.
pub open spec fn approve_apply(ctx: ApprovePaymentAgreement) -> ApprovePaymentAgreement {
    let a = agreement_after_approval(ctx.payment_agreement, ctx.signer);
    if a.is_completed {
        ApprovePaymentAgreement {
            payment_agreement: a,
            escrow_lamports: (ctx.escrow_lamports - ctx.payment_agreement.amount) as u64,
            receiver_lamports: (ctx.receiver_lamports + ctx.payment_agreement.amount) as u64,
            ..ctx
        }
    } else {
        ApprovePaymentAgreement { payment_agreement: a, ..ctx }
    }
}

/// The whole approval transition as a function on the account set: a rejected
/// call changes nothing.
pub open spec fn approve_step(ctx: ApprovePaymentAgreement) -> ApprovePaymentAgreement {
    if approve_error(ctx) is None {
        approve_apply(ctx)
    } else {
        ctx
    }
}

/// Approval: the caller must be the stored payer or receiver; the caller's
/// approval flag is set, and once both are set the agreement completes and
/// the full amount moves from custody to the receiver in the same call.
pub fn approve_payment_agreement(ctx: &mut ApprovePaymentAgreement) -> (r: Result<(), ErrorCode>)
    requires
        old(ctx).wf(),
        old(ctx).receiver_lamports + old(ctx).payment_agreement.amount <= u64::MAX,
    ensures
        *final(ctx) == approve_step(*old(ctx)),
        final(ctx).wf(),
        (match r {
            Ok(()) => approve_error(*old(ctx)) is None,
            Err(e) => approve_error(*old(ctx)) == Some(e),
        }),
{
    if ctx.signer != ctx.payment_agreement.payer && ctx.signer != ctx.payment_agreement.receiver {
        return Err(ErrorCode::Unauthorized);
    }
    if ctx.payer != ctx.payment_agreement.payer {
        return Err(ErrorCode::InvalidPayer);
    }
    if ctx.receiver != ctx.payment_agreement.receiver {
        return Err(ErrorCode::InvalidReceiver);
    }
    if ctx.payment_agreement.is_completed {
        return Err(ErrorCode::AgreementAlreadyCompleted);
    }
    if ctx.payment_agreement.is_cancelled {
        return Err(ErrorCode::AgreementAlreadyCancelled);
    }

    if ctx.signer == ctx.payment_agreement.payer {
        ctx.payment_agreement.payer_approved = true;
    } else {
        ctx.payment_agreement.receiver_approved = true;
    }

    if ctx.payment_agreement.payer_approved && ctx.payment_agreement.receiver_approved {
        ctx.payment_agreement.is_completed = true;
        let amount = ctx.payment_agreement.amount;
        ctx.escrow_lamports = ctx.escrow_lamports - amount;
        ctx.receiver_lamports = ctx.receiver_lamports + amount;
    }

    Ok(())
}

/// The accounts involved in a cancellation (or a referee cancellation): the
/// agreement, its custody balance, the caller, and the claimed payer, who is
/// refunded when the cancellation becomes final.
#[derive(Clone, Debug)]
pub struct CancelPaymentAgreement {
    pub payment_agreement: PaymentAgreement,
    /// Balance of the custody account bound to the record.
    pub escrow_lamports: u64,
    /// The caller.
    pub signer: Identity,
    /// Claimed payer; checked against the stored record, and refunded when
    /// the agreement is cancelled.
    pub payer: Identity,
    /// The payer's balance.
    pub payer_lamports: u64,
}

impl CancelPaymentAgreement {
    /// The custody invariant: while the agreement is open the custody account
    /// holds exactly `amount`; once terminal, the funds have left in full.
    pub open spec fn wf(self) -> bool {
        &&& self.payment_agreement.wf()
        &&& (if self.payment_agreement.is_open() {
            self.escrow_lamports == self.payment_agreement.amount
        } else {
            self.escrow_lamports == 0
        })
    }

    /// The same account set with another caller.
    pub open spec fn with_signer(self, s: Identity) -> CancelPaymentAgreement {
        CancelPaymentAgreement { signer: s, ..self }
    }
}

/// Why a cancellation request is rejected, or `None` when it goes through.
/// The guards apply in this order and the first failure wins.
pub open spec fn cancel_error(ctx: CancelPaymentAgreement) -> Option<ErrorCode> {
    let a = ctx.payment_agreement;
    if ctx.signer != a.payer && ctx.signer != a.receiver {
        Some(ErrorCode::Unauthorized)
    } else if ctx.payer != a.payer {
        Some(ErrorCode::InvalidPayer)
    } else if a.is_completed {
        Some(ErrorCode::AgreementAlreadyCompleted)
    } else if a.is_cancelled {
        Some(ErrorCode::AgreementAlreadyCancelled)
    } else {
        None
    }
}

/// The record after one cancellation request by `signer`: the caller's
/// request flag is set, and if both parties have now requested it, the
/// agreement is cancelled.
pub open spec fn agreement_after_cancel_request(
    a: PaymentAgreement,
    signer: Identity,
) -> PaymentAgreement {
    let a1 = if signer == a.payer {
        PaymentAgreement { payer_requested_cancel: true, ..a }
    } else {
        PaymentAgreement { receiver_requested_cancel: true, ..a }
    };
    if a1.payer_requested_cancel && a1.receiver_requested_cancel {
        PaymentAgreement { is_cancelled: true, ..a1 }
    } else {
        a1
    }
}

/// The account set after a cancellation request whose guards passed: the
/// record is updated, and when the request cancels the agreement, the full
/// amount returns from custody to the payer.
pub open spec fn cancel_apply(ctx: CancelPaymentAgreement) -> CancelPaymentAgreement {
    let a = agreement_after_cancel_request(ctx.payment_agreement, ctx.signer);
    if a.is_cancelled {
        CancelPaymentAgreement {
            payment_agreement: a,
            escrow_lamports: (ctx.escrow_lamports - ctx.payment_agreement.amount) as u64,
            payer_lamports: (ctx.payer_lamports + ctx.payment_agreement.amount) as u64,
            ..ctx
        }
    } else {
        CancelPaymentAgreement { payment_agreement: a, ..ctx }
    }
}

/// The whole cancellation transition as a function on the account set: a
/// rejected call changes nothing.
pub open spec fn cancel_step(ctx: CancelPaymentAgreement) -> CancelPaymentAgreement {
    if cancel_error(ctx) is None {
        cancel_apply(ctx)
    } else {
        ctx
    }
}

/// Cancellation, symmetric to approval with the payer as the refund target:
/// the caller must be the stored payer or receiver; the caller's request flag
/// is set, and once both are set the agreement is cancelled and the full
/// amount returns from custody to the payer in the same call.
pub fn cancel_payment_agreement(ctx: &mut CancelPaymentAgreement) -> (r: Result<(), ErrorCode>)
    requires
        old(ctx).wf(),
        old(ctx).payer_lamports + old(ctx).payment_agreement.amount <= u64::MAX,
    ensures
        *final(ctx) == cancel_step(*old(ctx)),
        final(ctx).wf(),
        (match r {
            Ok(()) => cancel_error(*old(ctx)) is None,
            Err(e) => cancel_error(*old(ctx)) == Some(e),
        }),
{
    if ctx.signer != ctx.payment_agreement.payer && ctx.signer != ctx.payment_agreement.receiver {
        return Err(ErrorCode::Unauthorized);
    }
    if ctx.payer != ctx.payment_agreement.payer {
        return Err(ErrorCode::InvalidPayer);
    }
    if ctx.payment_agreement.is_completed {
        return Err(ErrorCode::AgreementAlreadyCompleted);
    }
    if ctx.payment_agreement.is_cancelled {
        return Err(ErrorCode::AgreementAlreadyCancelled);
    }

    if ctx.signer == ctx.payment_agreement.payer {
        ctx.payment_agreement.payer_requested_cancel = true;
    } else {
        ctx.payment_agreement.receiver_requested_cancel = true;
    }

    if ctx.payment_agreement.payer_requested_cancel
        && ctx.payment_agreement.receiver_requested_cancel {
        ctx.payment_agreement.is_cancelled = true;
        let amount = ctx.payment_agreement.amount;
        ctx.escrow_lamports = ctx.escrow_lamports - amount;
        ctx.payer_lamports = ctx.payer_lamports + amount;
    }

    Ok(())
}

/// Why a referee completion is rejected, or `None` when it goes through. The
/// caller must be the stored referee; prior approval or cancellation-request
/// flags play no part.
pub open spec fn referee_complete_error(ctx: ApprovePaymentAgreement) -> Option<ErrorCode> {
    let a = ctx.payment_agreement;
    if !(match a.referee {
        Some(f) => f == ctx.signer,
        None => false,
    }) {
        Some(ErrorCode::Unauthorized)
    } else if ctx.payer != a.payer {
        Some(ErrorCode::InvalidPayer)
    } else if ctx.receiver != a.receiver {
        Some(ErrorCode::InvalidReceiver)
    } else if a.is_completed {
        Some(ErrorCode::AgreementAlreadyCompleted)
    } else if a.is_cancelled {
        Some(ErrorCode::AgreementAlreadyCancelled)
    } else {
        None
    }
}

/// The account set after a referee completion whose guards passed: the
/// agreement completes at once, the intervention is recorded, and the full
/// amount moves from custody to the receiver.
pub open spec fn referee_complete_apply(ctx: ApprovePaymentAgreement) -> ApprovePaymentAgreement {
    ApprovePaymentAgreement {
        payment_agreement: PaymentAgreement {
            is_completed: true,
            is_referee_intervened: true,
            ..ctx.payment_agreement
        },
        escrow_lamports: (ctx.escrow_lamports - ctx.payment_agreement.amount) as u64,
        receiver_lamports: (ctx.receiver_lamports + ctx.payment_agreement.amount) as u64,
        ..ctx
    }
}

/// The whole referee-completion transition as a function on the account set:
/// a rejected call changes nothing.
pub open spec fn referee_complete_step(ctx: ApprovePaymentAgreement) -> ApprovePaymentAgreement {
    if referee_complete_error(ctx) is None {
        referee_complete_apply(ctx)
    } else {
        ctx
    }
}

/// Referee override, completing: a single call by the stored referee makes
/// the agreement complete — bypassing mutual approval — records the
/// intervention, and moves the full amount from custody to the receiver.
pub fn referee_intervene_complete_payment_agreement(
    ctx: &mut ApprovePaymentAgreement,
) -> (r: Result<(), ErrorCode>)
    requires
        old(ctx).wf(),
        old(ctx).receiver_lamports + old(ctx).payment_agreement.amount <= u64::MAX,
    ensures
        *final(ctx) == referee_complete_step(*old(ctx)),
        final(ctx).wf(),
        (match r {
            Ok(()) => referee_complete_error(*old(ctx)) is None,
            Err(e) => referee_complete_error(*old(ctx)) == Some(e),
        }),
{
    let authorized = match ctx.payment_agreement.referee {
        Some(f) => f == ctx.signer,
        None => false,
    };
    if !authorized {
        return Err(ErrorCode::Unauthorized);
    }
    if ctx.payer != ctx.payment_agreement.payer {
        return Err(ErrorCode::InvalidPayer);
    }
    if ctx.receiver != ctx.payment_agreement.receiver {
        return Err(ErrorCode::InvalidReceiver);
    }
    if ctx.payment_agreement.is_completed {
        return Err(ErrorCode::AgreementAlreadyCompleted);
    }
    if ctx.payment_agreement.is_cancelled {
        return Err(ErrorCode::AgreementAlreadyCancelled);
    }

    ctx.payment_agreement.is_completed = true;
    ctx.payment_agreement.is_referee_intervened = true;
    let amount = ctx.payment_agreement.amount;
    ctx.escrow_lamports = ctx.escrow_lamports - amount;
    ctx.receiver_lamports = ctx.receiver_lamports + amount;

    Ok(())
}

/// Why a referee cancellation is rejected, or `None` when it goes through.
pub open spec fn referee_cancel_error(ctx: CancelPaymentAgreement) -> Option<ErrorCode> {
    let a = ctx.payment_agreement;
    if !(match a.referee {
        Some(f) => f == ctx.signer,
        None => false,
    }) {
        Some(ErrorCode::Unauthorized)
    } else if ctx.payer != a.payer {
        Some(ErrorCode::InvalidPayer)
    } else if a.is_completed {
        Some(ErrorCode::AgreementAlreadyCompleted)
    } else if a.is_cancelled {
        Some(ErrorCode::AgreementAlreadyCancelled)
    } else {
        None
    }
}

/// The account set after a referee cancellation whose guards passed: the
/// agreement is cancelled at once, the intervention is recorded, and the full
/// amount returns from custody to the payer.
pub open spec fn referee_cancel_apply(ctx: CancelPaymentAgreement) -> CancelPaymentAgreement {
    CancelPaymentAgreement {
        payment_agreement: PaymentAgreement {
            is_cancelled: true,
            is_referee_intervened: true,
            ..ctx.payment_agreement
        },
        escrow_lamports: (ctx.escrow_lamports - ctx.payment_agreement.amount) as u64,
        payer_lamports: (ctx.payer_lamports + ctx.payment_agreement.amount) as u64,
        ..ctx
    }
}

/// The whole referee-cancellation transition as a function on the account
/// set: a rejected call changes nothing.
pub open spec fn referee_cancel_step(ctx: CancelPaymentAgreement) -> CancelPaymentAgreement {
    if referee_cancel_error(ctx) is None {
        referee_cancel_apply(ctx)
    } else {
        ctx
    }
}

/// Referee override, cancelling: a single call by the stored referee cancels
/// the agreement — bypassing the mutual request pair — records the
/// intervention, and returns the full amount from custody to the payer.
pub fn referee_intervene_cancel_payment_agreement(
    ctx: &mut CancelPaymentAgreement,
) -> (r: Result<(), ErrorCode>)
    requires
        old(ctx).wf(),
        old(ctx).payer_lamports + old(ctx).payment_agreement.amount <= u64::MAX,
    ensures
        *final(ctx) == referee_cancel_step(*old(ctx)),
        final(ctx).wf(),
        (match r {
            Ok(()) => referee_cancel_error(*old(ctx)) is None,
            Err(e) => referee_cancel_error(*old(ctx)) == Some(e),
        }),
{
    let authorized = match ctx.payment_agreement.referee {
        Some(f) => f == ctx.signer,
        None => false,
    };
    if !authorized {
        return Err(ErrorCode::Unauthorized);
    }
    if ctx.payer != ctx.payment_agreement.payer {
        return Err(ErrorCode::InvalidPayer);
    }
    if ctx.payment_agreement.is_completed {
        return Err(ErrorCode::AgreementAlreadyCompleted);
    }
    if ctx.payment_agreement.is_cancelled {
        return Err(ErrorCode::AgreementAlreadyCancelled);
    }

    ctx.payment_agreement.is_cancelled = true;
    ctx.payment_agreement.is_referee_intervened = true;
    let amount = ctx.payment_agreement.amount;
    ctx.escrow_lamports = ctx.escrow_lamports - amount;
    ctx.payer_lamports = ctx.payer_lamports + amount;

    Ok(())
}

/// The accounts involved in reclaiming an expired agreement: the agreement,
/// its custody balance, and the calling payer who takes the refund. Closing
/// the record is the terminal marker of this path: the host destroys the
/// record, so no later transition can reach it.
#[derive(Clone, Debug)]
pub struct WithdrawExpiredFunds {
    pub payment_agreement: PaymentAgreement,
    /// Balance of the custody account bound to the record.
    pub escrow_lamports: u64,
    /// The caller, claiming to be the payer; checked against the stored
    /// record, and refunded on success.
    pub payer: Identity,
    /// The caller's balance.
    pub payer_lamports: u64,
    /// Whether the record has been closed and its storage reclaimed. A
    /// closed record no longer exists on the host, so nothing can be called
    /// on it again.
    pub closed: bool,
}

impl WithdrawExpiredFunds {
    /// The custody invariant, extended to the closed state: an existing open
    /// agreement holds exactly `amount` in custody; once terminal or closed,
    /// the funds have left in full.
    pub open spec fn wf(self) -> bool {
        &&& self.payment_agreement.wf()
        &&& (if self.payment_agreement.is_open() && !self.closed {
            self.escrow_lamports == self.payment_agreement.amount
        } else {
            self.escrow_lamports == 0
        })
    }
}

/// Why a reclaim is rejected, or `None` when it goes through. Reclaim is
/// possible only strictly after a set expiration: with no expiration, or at
/// or before it, the agreement has not expired.
pub open spec fn withdraw_error(ctx: WithdrawExpiredFunds, now: i64) -> Option<ErrorCode> {
    let a = ctx.payment_agreement;
    if ctx.payer != a.payer {
        Some(ErrorCode::Unauthorized)
    } else if !(match a.expiration_timestamp {
        Some(t) => now > t,
        None => false,
    }) {
        Some(ErrorCode::PaymentAgreementNotExpired)
    } else if a.is_completed {
        Some(ErrorCode::AgreementAlreadyCompleted)
    } else if a.is_cancelled {
        Some(ErrorCode::AgreementAlreadyCancelled)
    } else {
        None
    }
}

/// The account set after a reclaim whose guards passed: the full amount
/// returns from custody to the payer and the record is closed. The record's
/// flags stay as they were; destruction itself is the terminal marker.
pub open spec fn withdraw_apply(ctx: WithdrawExpiredFunds) -> WithdrawExpiredFunds {
    WithdrawExpiredFunds {
        escrow_lamports: (ctx.escrow_lamports - ctx.payment_agreement.amount) as u64,
        payer_lamports: (ctx.payer_lamports + ctx.payment_agreement.amount) as u64,
        closed: true,
        ..ctx
    }
}

/// The whole reclaim transition as a function on the account set: a rejected
/// call changes nothing.
pub open spec fn withdraw_step(ctx: WithdrawExpiredFunds, now: i64) -> WithdrawExpiredFunds {
    if withdraw_error(ctx, now) is None {
        withdraw_apply(ctx)
    } else {
        ctx
    }
}

/// Expiry reclaim: strictly after a set expiration, and with no resolution
/// reached, the payer takes the full amount back and the record is closed.
/// `now` is the current Unix time the host's clock supplies.
pub fn withdraw_expired_funds(
    ctx: &mut WithdrawExpiredFunds,
    now: i64,
) -> (r: Result<(), ErrorCode>)
    requires
        old(ctx).wf(),
        !old(ctx).closed,
        old(ctx).payer_lamports + old(ctx).payment_agreement.amount <= u64::MAX,
    ensures
        *final(ctx) == withdraw_step(*old(ctx), now),
        final(ctx).wf(),
        (match r {
            Ok(()) => withdraw_error(*old(ctx), now) is None && final(ctx).closed,
            Err(e) => withdraw_error(*old(ctx), now) == Some(e),
        }),
{
    if ctx.payer != ctx.payment_agreement.payer {
        return Err(ErrorCode::Unauthorized);
    }
    let expired = match ctx.payment_agreement.expiration_timestamp {
        Some(t) => now > t,
        None => false,
    };
    if !expired {
        return Err(ErrorCode::PaymentAgreementNotExpired);
    }
    if ctx.payment_agreement.is_completed {
        return Err(ErrorCode::AgreementAlreadyCompleted);
    }
    if ctx.payment_agreement.is_cancelled {
        return Err(ErrorCode::AgreementAlreadyCancelled);
    }

    let amount = ctx.payment_agreement.amount;
    ctx.escrow_lamports = ctx.escrow_lamports - amount;
    ctx.payer_lamports = ctx.payer_lamports + amount;
    ctx.closed = true;

    Ok(())
}

} // verus!
