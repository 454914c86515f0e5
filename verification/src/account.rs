//! The escrow record, the identities it binds, and the error taxonomy.

use vstd::prelude::*;

verus! {

/// An account identity on the hosting ledger. The core logic only ever
/// compares identities for equality; the host's key material stands behind
/// this opaque numeric handle.
#[derive(Clone, Copy, PartialEq, Eq, Structural, Debug)]
pub struct Identity {
    pub key: u64,
}

/// One escrow agreement: the unit of custody. Exactly one custody balance is
/// bound to each agreement; `amount` is fixed at creation and only ever
/// disbursed in full.
#[derive(Clone, Debug)]
pub struct PaymentAgreement {
    /// Part of the addressing key together with `payer`; 1 to 32 characters.
    pub name: String,

    /// The identity that funded the agreement; owns the reclaim-on-expiry right.
    pub payer: Identity,
    /// The identity entitled to the funds on completion.
    pub receiver: Identity,
    /// Optional arbiter; absent means no override path exists.
    pub referee: Option<Identity>,

    /// The exact quantity held in custody for this agreement.
    pub amount: u64,

    /// Optional expiration (Unix timestamp); absent means the agreement never expires.
    pub expiration_timestamp: Option<i64>,

    /// Set only by the corresponding identity, only while the agreement is open.
    pub payer_approved: bool,
    pub receiver_approved: bool,

    /// Set only by the corresponding identity, only while the agreement is open.
    pub payer_requested_cancel: bool,
    pub receiver_requested_cancel: bool,

    /// Terminal flags; never both true.
    pub is_completed: bool,
    pub is_cancelled: bool,

    /// Audit flag: a terminal state was reached by referee override rather
    /// than mutual consent.
    pub is_referee_intervened: bool,
}

impl PaymentAgreement {
    /// An agreement still accepts transitions only while neither terminal
    /// flag is set.
    pub open spec fn is_open(self) -> bool {
        !self.is_completed && !self.is_cancelled
    }

    /// Well-formedness: every agreement the creation transition stores
    /// satisfies this, and every later transition preserves it.
    pub open spec fn wf(self) -> bool {
        &&& 1 <= self.name@.len() <= 32
        &&& self.payer != self.receiver
        &&& (match self.referee {
            Some(f) => f != self.payer && f != self.receiver,
            None => true,
        })
        &&& !(self.is_completed && self.is_cancelled)
    }
}

/// Why a transition was rejected. Every guard failure aborts the whole
/// transition with no state change and no fund movement.
#[derive(Clone, Copy, PartialEq, Eq, Structural, Debug)]
pub enum ErrorCode {
    /// The payment agreement is already completed.
    AgreementAlreadyCompleted,
    /// The payment agreement is already cancelled.
    AgreementAlreadyCancelled,
    /// Both parties must approve before completing the payment.
    BothPartiesMustApprove,
    /// Invalid name: the name must be between 1 and 32 characters.
    InvalidName,
    /// Insufficient funds to create the payment agreement.
    InsufficientFunds,
    /// Unauthorized action.
    Unauthorized,
    /// The payment agreement is not finalized yet.
    AgreementIsNotCompleted,
    /// The payer cannot be the same as the receiver.
    PayerCannotBeReceiver,
    /// Invalid payer account provided.
    InvalidPayer,
    /// Invalid receiver account provided.
    InvalidReceiver,
    /// The referee cannot be the same as the payer.
    RefereeCannotBePayer,
    /// The referee cannot be the same as the receiver.
    RefereeCannotBeReceiver,
    /// The expiration timestamp must be in the future.
    ExpirationMustBeInFuture,
    /// The payment agreement has not expired yet.
    PaymentAgreementNotExpired,
}

impl ErrorCode {
    /// The description of each rejection, as the host surfaces it to callers.
    pub fn message(&self) -> (r: &'static str)
        ensures
            r@ == self.spec_message(),
    {
        match self {
            ErrorCode::AgreementAlreadyCompleted => "The payment agreement is already completed.",
            ErrorCode::AgreementAlreadyCancelled => "The payment agreement is already cancelled.",
            ErrorCode::BothPartiesMustApprove => "Both parties must approve before completing the payment.",
            ErrorCode::InvalidName => "Invalid name. Name must be between 1 and 32 characters.",
            ErrorCode::InsufficientFunds => "Insufficient funds to create the payment agreement.",
            ErrorCode::Unauthorized => "Unauthorized action.",
            ErrorCode::AgreementIsNotCompleted => "The payment agreement is not finalized yet.",
            ErrorCode::PayerCannotBeReceiver => "Payer cannot be the same as receiver.",
            ErrorCode::InvalidPayer => "Invalid payer account provided.",
            ErrorCode::InvalidReceiver => "Invalid receiver account provided.",
            ErrorCode::RefereeCannotBePayer => "Referee cannot be the same as payer.",
            ErrorCode::RefereeCannotBeReceiver => "Referee cannot be the same as receiver.",
            ErrorCode::ExpirationMustBeInFuture => "Expiration timestamp must be in the future.",
            ErrorCode::PaymentAgreementNotExpired => "Payment agreement has not expired yet.",
        }
    }

    /// What `message` returns, for use in contracts.
    pub open spec fn spec_message(self) -> Seq<char> {
        match self {
            ErrorCode::AgreementAlreadyCompleted => "The payment agreement is already completed."@,
            ErrorCode::AgreementAlreadyCancelled => "The payment agreement is already cancelled."@,
            ErrorCode::BothPartiesMustApprove => "Both parties must approve before completing the payment."@,
            ErrorCode::InvalidName => "Invalid name. Name must be between 1 and 32 characters."@,
            ErrorCode::InsufficientFunds => "Insufficient funds to create the payment agreement."@,
            ErrorCode::Unauthorized => "Unauthorized action."@,
            ErrorCode::AgreementIsNotCompleted => "The payment agreement is not finalized yet."@,
            ErrorCode::PayerCannotBeReceiver => "Payer cannot be the same as receiver."@,
            ErrorCode::InvalidPayer => "Invalid payer account provided."@,
            ErrorCode::InvalidReceiver => "Invalid receiver account provided."@,
            ErrorCode::RefereeCannotBePayer => "Referee cannot be the same as payer."@,
            ErrorCode::RefereeCannotBeReceiver => "Referee cannot be the same as receiver."@,
            ErrorCode::ExpirationMustBeInFuture => "Expiration timestamp must be in the future."@,
            ErrorCode::PaymentAgreementNotExpired => "Payment agreement has not expired yet."@,
        }
    }
}

} // verus!
