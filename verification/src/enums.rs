//! Status and classification enums shared by the storage router, the
//! scheduler and the connector adapters.

use vstd::prelude::*;
use vstd::string::StringExecFns;

verus! {

/// Lifecycle status of a payment attempt.
#[derive(Clone, Copy, Debug, PartialEq, Eq, Structural, Hash)]
pub enum AttemptStatus {
    Started,
    AuthenticationFailed,
    RouterDeclined,
    AuthenticationPending,
    AuthenticationSuccessful,
    Authorized,
    AuthorizationFailed,
    Charged,
    Authorizing,
    CodInitiated,
    Voided,
    VoidInitiated,
    CaptureInitiated,
    CaptureFailed,
    VoidFailed,
    AutoRefunded,
    PartialCharged,
    Unresolved,
    Pending,
    Failure,
    PaymentMethodAwaited,
    ConfirmationAwaited,
    DeviceDataCollectionPending,
}

/// ISO 4217 currency of an amount.
#[derive(Clone, Copy, Debug, PartialEq, Eq, Structural, Hash)]
pub enum Currency {
    AED,
    AUD,
    BRL,
    CAD,
    CHF,
    CNY,
    CZK,
    DKK,
    EUR,
    GBP,
    HKD,
    INR,
    JPY,
    MXN,
    NOK,
    NZD,
    PLN,
    SEK,
    SGD,
    USD,
    ZAR,
}

/// Family of instrument used to pay.
#[derive(Clone, Copy, Debug, PartialEq, Eq, Structural, Hash)]
pub enum PaymentMethod {
    Card,
    CardRedirect,
    PayLater,
    Wallet,
    BankRedirect,
    BankTransfer,
    Crypto,
    BankDebit,
    Reward,
    Upi,
    Voucher,
    GiftCard,
}

/// Concrete instrument within a payment method family.
#[derive(Clone, Copy, Debug, PartialEq, Eq, Structural, Hash)]
pub enum PaymentMethodType {
    Ach,
    Affirm,
    AliPay,
    ApplePay,
    Bacs,
    Blik,
    Credit,
    CryptoCurrency,
    Debit,
    Eps,
    Giropay,
    GooglePay,
    Ideal,
    Klarna,
    Paypal,
    Sepa,
    Sofort,
    UpiCollect,
}

/// When the authorized amount is captured.
#[derive(Clone, Copy, Debug, PartialEq, Eq, Structural, Hash)]
pub enum CaptureMethod {
    Automatic,
    Manual,
    ManualMultiple,
    Scheduled,
}

/// Whether the payer is challenged during authorization.
#[derive(Clone, Copy, Debug, PartialEq, Eq, Structural, Hash)]
pub enum AuthenticationType {
    ThreeDs,
    NoThreeDs,
}

/// How the payer is taken through the payment.
#[derive(Clone, Copy, Debug, PartialEq, Eq, Structural, Hash)]
pub enum PaymentExperience {
    RedirectToUrl,
    InvokeSdkClient,
    DisplayQrCode,
    OneClick,
    LinkWallet,
    InvokePaymentApp,
    DisplayWaitScreen,
}

/// Canonical status of a refund.
#[derive(Clone, Copy, Debug, PartialEq, Eq, Structural, Hash)]
pub enum RefundStatus {
    Failure,
    ManualReview,
    Pending,
    Success,
    TransactionFailure,
}

/// Status of a stored mandate.
#[derive(Clone, Copy, Debug, PartialEq, Eq, Structural, Hash)]
pub enum MandateStatus {
    Active,
    Inactive,
    Pending,
    Revoked,
}

/// Per-tenant storage scheme: straight to the durable store, or
/// cache-first with asynchronous durable replication.
#[derive(Clone, Copy, Debug, PartialEq, Eq, Structural, Hash)]
pub enum MerchantStorageScheme {
    PostgresOnly,
    RedisKv,
}

/// Scheduler-owned lifecycle status of a task.
#[derive(Clone, Copy, Debug, PartialEq, Eq, Structural, Hash)]
pub enum ProcessTrackerStatus {
    Pending,
    ProcessStarted,
    Retry,
    Finish,
}

/// Status of a payment as a whole.
#[derive(Clone, Copy, Debug, PartialEq, Eq, Structural, Hash)]
pub enum IntentStatus {
    Succeeded,
    Failed,
    Cancelled,
    Processing,
    RequiresCustomerAction,
    RequiresMerchantAction,
    RequiresPaymentMethod,
    RequiresConfirmation,
    RequiresCapture,
}

/// A payment connector.
#[derive(Clone, Copy, Debug, PartialEq, Eq, Structural, Hash)]
pub enum Connector {
    Aci,
    Adyen,
    Authorizedotnet,
    Bluesnap,
    Braintree,
    Checkout,
    Cybersource,
    Klarna,
    Mollie,
    Paypal,
    Shift4,
    Square,
    Stax,
    Stripe,
    Worldpay,
}

impl Connector {
    /// The name by which the durable store knows the connector.
    pub open spec fn name(self) -> Seq<char> {
        match self {
            Connector::Aci => "aci"@,
            Connector::Adyen => "adyen"@,
            Connector::Authorizedotnet => "authorizedotnet"@,
            Connector::Bluesnap => "bluesnap"@,
            Connector::Braintree => "braintree"@,
            Connector::Checkout => "checkout"@,
            Connector::Cybersource => "cybersource"@,
            Connector::Klarna => "klarna"@,
            Connector::Mollie => "mollie"@,
            Connector::Paypal => "paypal"@,
            Connector::Shift4 => "shift4"@,
            Connector::Square => "square"@,
            Connector::Stax => "stax"@,
            Connector::Stripe => "stripe"@,
            Connector::Worldpay => "worldpay"@,
        }
    }

    /// The connector's name as a string.
    pub fn to_string(&self) -> (r: String)
        ensures
            r@ == self.name(),
    {
        String::from_str(
            match self {
                Connector::Aci => "aci",
                Connector::Adyen => "adyen",
                Connector::Authorizedotnet => "authorizedotnet",
                Connector::Bluesnap => "bluesnap",
                Connector::Braintree => "braintree",
                Connector::Checkout => "checkout",
                Connector::Cybersource => "cybersource",
                Connector::Klarna => "klarna",
                Connector::Mollie => "mollie",
                Connector::Paypal => "paypal",
                Connector::Shift4 => "shift4",
                Connector::Square => "square",
                Connector::Stax => "stax",
                Connector::Stripe => "stripe",
                Connector::Worldpay => "worldpay",
            },
        )
    }
}

/// What a webhook of a connector reports.
#[derive(Clone, Copy, Debug, PartialEq, Eq, Structural, Hash)]
pub enum IncomingWebhookEvent {
    PaymentIntentFailure,
    PaymentIntentSuccess,
    PaymentIntentProcessing,
    PaymentIntentPartiallyFunded,
    PaymentActionRequired,
    EventNotSupported,
    SourceChargeable,
    SourceTransactionCreated,
    RefundFailure,
    RefundSuccess,
    DisputeOpened,
    DisputeExpired,
    DisputeAccepted,
    DisputeCancelled,
    DisputeChallenged,
    DisputeWon,
    DisputeLost,
    EndpointVerification,
}

impl Default for PaymentMethod {
    fn default() -> (r: Self)
        ensures
            r == PaymentMethod::Card,
    {
        PaymentMethod::Card
    }
}

impl Default for AuthenticationType {
    fn default() -> (r: Self)
        ensures
            r == AuthenticationType::ThreeDs,
    {
        AuthenticationType::ThreeDs
    }
}

impl Default for AttemptStatus {
    fn default() -> (r: Self)
        ensures
            r == AttemptStatus::Pending,
    {
        AttemptStatus::Pending
    }
}

impl Default for MerchantStorageScheme {
    fn default() -> (r: Self)
        ensures
            r == MerchantStorageScheme::PostgresOnly,
    {
        MerchantStorageScheme::PostgresOnly
    }
}

} // verus!
