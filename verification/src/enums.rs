use vstd::prelude::*;

verus! {

/// Canonical status of a payment attempt.
#[derive(Clone, Copy, Debug, PartialEq, Eq, Structural)]
pub enum AttemptStatus {
    Started,
    AuthenticationFailed,
    RouterDeclined,
    AuthenticationPending,
    AuthenticationSuccessful,
    Authorized,
    AuthorizationFailed,
    Charged,
    Authorizing,
    CodInitiated,
    Voided,
    VoidInitiated,
    CaptureInitiated,
    CaptureFailed,
    VoidFailed,
    AutoRefunded,
    PartialCharged,
    Unresolved,
    Pending,
    Failure,
    PaymentMethodAwaited,
    ConfirmationAwaited,
    DeviceDataCollectionPending,
}

impl Default for AttemptStatus {
    fn default() -> (status: Self)
        ensures
            status == AttemptStatus::Pending,
    {
        AttemptStatus::Pending
    }
}

/// Canonical status of a refund.
#[derive(Clone, Copy, Debug, PartialEq, Eq, Structural)]
pub enum RefundStatus {
    Failure,
    ManualReview,
    Pending,
    Success,
    TransactionFailure,
}

/// Stage axis of a dispute. A dispute only ever moves forward along
/// `PreDispute`, `Dispute`, `PreArbitration`.
#[derive(Clone, Copy, Debug, PartialEq, Eq, Structural)]
pub enum DisputeStage {
    PreDispute,
    Dispute,
    PreArbitration,
}

/// Status axis of a dispute.
#[derive(Clone, Copy, Debug, PartialEq, Eq, Structural)]
pub enum DisputeStatus {
    DisputeOpened,
    DisputeExpired,
    DisputeAccepted,
    DisputeCancelled,
    DisputeChallenged,
    DisputeWon,
    DisputeLost,
}

/// Currency of an amount, by its ISO 4217 code.
#[derive(Clone, Copy, Debug, PartialEq, Eq, Structural)]
pub enum Currency {
    EUR,
    GBP,
    ILS,
    USD,
}

/// Broad class of the payment instrument.
#[derive(Clone, Copy, Debug, PartialEq, Eq, Structural)]
pub enum PaymentMethod {
    Card,
    CardRedirect,
    PayLater,
    Wallet,
    BankRedirect,
    BankTransfer,
    Crypto,
    BankDebit,
    Reward,
    Upi,
    Voucher,
    GiftCard,
}

impl Default for PaymentMethod {
    fn default() -> (method: Self)
        ensures
            method == PaymentMethod::Card,
    {
        PaymentMethod::Card
    }
}

/// Whether the cardholder is to be authenticated.
#[derive(Clone, Copy, Debug, PartialEq, Eq, Structural)]
pub enum AuthenticationType {
    ThreeDs,
    NoThreeDs,
}

impl Default for AuthenticationType {
    fn default() -> (auth: Self)
        ensures
            auth == AuthenticationType::NoThreeDs,
    {
        AuthenticationType::NoThreeDs
    }
}

/// When the funds of an authorised payment are captured.
#[derive(Clone, Copy, Debug, PartialEq, Eq, Structural)]
pub enum CaptureMethod {
    Automatic,
    Manual,
    ManualMultiple,
    Scheduled,
}

/// What an incoming webhook reports, in the vocabulary shared by all
/// gateways.
#[derive(Clone, Copy, Debug, PartialEq, Eq, Structural)]
pub enum IncomingWebhookEvent {
    PaymentIntentFailure,
    PaymentIntentSuccess,
    PaymentIntentProcessing,
    PaymentActionRequired,
    EventNotSupported,
    RefundFailure,
    RefundSuccess,
    DisputeOpened,
    DisputeExpired,
    DisputeAccepted,
    DisputeCancelled,
    DisputeChallenged,
    DisputeWon,
    DisputeLost,
}

} // verus!
