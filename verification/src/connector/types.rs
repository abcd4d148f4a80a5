//! What the switch hands to a connector adapter and gets back from it.

use crate::enums::{AttemptStatus, AuthenticationType, CaptureMethod, Currency, PaymentMethod};
use crate::enums;
use std::marker::PhantomData;
use vstd::prelude::*;
use vstd::string::StringExecFns;

verus! {

/// A text that must not leak: it cannot be printed, only looked at on
/// purpose.
#[derive(PartialEq)]
pub struct Secret {
    inner: String,
}

impl Secret {
    /// The text that the secret holds.
    pub closed spec fn exposed(self) -> String {
        self.inner
    }

    /// Wraps a text as a secret.
    pub fn new(secret: String) -> (r: Self)
        ensures
            r.exposed() == secret,
    {
        Secret { inner: secret }
    }

    /// Looks at the text without taking it out.
    pub fn peek(&self) -> (r: &String)
        ensures
            *r == self.exposed(),
    {
        &self.inner
    }

    /// Takes the text out.
    pub fn expose(self) -> (r: String)
        ensures
            r == self.exposed(),
    {
        self.inner
    }
}

impl Clone for Secret {
    fn clone(&self) -> (r: Self)
        ensures
            r == *self,
    {
        Secret { inner: self.inner.clone() }
    }
}

/// The number of a card.
#[derive(PartialEq)]
pub struct CardNumber {
    number: Secret,
}

impl CardNumber {
    /// The secret that holds the digits.
    pub closed spec fn digits(self) -> Secret {
        self.number
    }

    /// Wraps the digits of a card number.
    pub fn new(number: Secret) -> (r: Self)
        ensures
            r.digits() == number,
    {
        CardNumber { number }
    }

    /// Looks at the digits without taking them out.
    pub fn peek(&self) -> (r: &String)
        ensures
            *r == self.digits().exposed(),
    {
        self.number.peek()
    }
}

impl Clone for CardNumber {
    fn clone(&self) -> (r: Self)
        ensures
            r == *self,
    {
        CardNumber { number: self.number.clone() }
    }
}

/// A card as the payer gave it.
#[derive(PartialEq)]
pub struct Card {
    pub card_number: CardNumber,
    pub card_exp_month: Secret,
    pub card_exp_year: Secret,
    pub card_holder_name: Secret,
    pub card_cvc: Secret,
}

impl Clone for Card {
    fn clone(&self) -> (r: Self)
        ensures
            r == *self,
    {
        Card {
            card_number: self.card_number.clone(),
            card_exp_month: self.card_exp_month.clone(),
            card_exp_year: self.card_exp_year.clone(),
            card_holder_name: self.card_holder_name.clone(),
            card_cvc: self.card_cvc.clone(),
        }
    }
}

/// The length of a text in bytes, as the machine counts it.
pub open spec fn byte_len(text: Seq<char>) -> usize {
    vstd::utf8::encode_utf8(text).len() as usize
}

/// The year of expiry with its century: a year given in two bytes is taken
/// to lie in this century.
pub open spec fn four_digit_year(year: Seq<char>) -> Seq<char> {
    if byte_len(year) == 2 {
        "20"@ + year
    } else {
        year
    }
}

impl Card {
    /// The year of expiry of the card with its century.
    pub fn get_expiry_year_4_digit(&self) -> (r: Secret)
        ensures
            r.exposed()@ == four_digit_year(self.card_exp_year.exposed()@),
    {
        let year = self.card_exp_year.peek();
        if year.as_str().len() == 2 {
            let mut full = String::from_str("20");
            full.append(year.as_str());
            Secret::new(full)
        } else {
            Secret::new(year.clone())
        }
    }
}

/// The instrument a payment is made with. Only cards carry what an adapter
/// here reads.
#[derive(PartialEq)]
pub enum PaymentMethodData {
    Card(Card),
    BankDebit,
    Wallet,
    PayLater,
    BankRedirect,
    BankTransfer,
    Crypto,
    MandatePayment,
    Reward,
    Voucher,
    GiftCard,
    Upi,
}

impl Clone for PaymentMethodData {
    fn clone(&self) -> (r: Self)
        ensures
            r == *self,
    {
        match self {
            PaymentMethodData::Card(card) => PaymentMethodData::Card(card.clone()),
            PaymentMethodData::BankDebit => PaymentMethodData::BankDebit,
            PaymentMethodData::Wallet => PaymentMethodData::Wallet,
            PaymentMethodData::PayLater => PaymentMethodData::PayLater,
            PaymentMethodData::BankRedirect => PaymentMethodData::BankRedirect,
            PaymentMethodData::BankTransfer => PaymentMethodData::BankTransfer,
            PaymentMethodData::Crypto => PaymentMethodData::Crypto,
            PaymentMethodData::MandatePayment => PaymentMethodData::MandatePayment,
            PaymentMethodData::Reward => PaymentMethodData::Reward,
            PaymentMethodData::Voucher => PaymentMethodData::Voucher,
            PaymentMethodData::GiftCard => PaymentMethodData::GiftCard,
            PaymentMethodData::Upi => PaymentMethodData::Upi,
        }
    }
}

/// The credentials of a merchant with a connector.
#[derive(PartialEq)]
#[allow(inconsistent_fields)]
pub enum ConnectorAuthType {
    HeaderKey { api_key: Secret },
    BodyKey { api_key: Secret, key1: Secret },
    SignatureKey { api_key: Secret, key1: Secret, api_secret: Secret },
    MultiAuthKey { api_key: Secret, key1: Secret, api_secret: Secret, key2: Secret },
    NoKey,
}

/// Why an adapter could not do what it was asked.
#[derive(Debug, PartialEq)]
pub enum ConnectorError {
    NotImplemented(String),
    FailedToObtainAuthType,
    MissingRequiredField { field_name: &'static str },
    CaptureMethodNotSupported,
}

/// The error a connector reported, in the switch's own form.
#[derive(Debug, PartialEq)]
pub struct ErrorResponse {
    pub code: String,
    pub message: String,
    pub reason: Option<String>,
    pub status_code: u16,
}

impl Default for ErrorResponse {
    fn default() -> (r: Self)
        ensures
            r.code@ == "HE_00"@,
            r.message@ == "Something went wrong"@,
            r.reason is None,
            r.status_code == 500,
    {
        ErrorResponse {
            code: String::from_str("HE_00"),
            message: String::from_str("Something went wrong"),
            reason: None,
            status_code: 500,
        }
    }
}

/// How a connector names a payment.
#[derive(Debug, PartialEq)]
pub enum ResponseId {
    ConnectorTransactionId(String),
    EncodedData(String),
    NoResponseId,
}

/// What a connector answered to a request about a payment.
#[derive(Debug, PartialEq)]
pub enum PaymentsResponseData {
    TransactionResponse {
        resource_id: ResponseId,
        connector_metadata: Option<serde_json::Value>,
        network_txn_id: Option<String>,
        connector_response_reference_id: Option<String>,
    },
    TokenizationResponse { token: String },
}

/// What a connector answered to a request about a refund.
#[derive(Debug, PartialEq)]
pub struct RefundsResponseData {
    pub connector_refund_id: String,
    pub refund_status: enums::RefundStatus,
}

/// The flow in which a card is exchanged for a token.
pub struct PaymentMethodToken;

/// The flow in which a payment is authorized.
pub struct Authorize;

/// The flow in which a refund is asked for.
pub struct Execute;

/// The flow in which the status of a refund is asked for.
pub struct RSync;

/// The flow in which the source of a webhook is verified.
pub struct VerifyWebhookSource;

/// What a tokenization asks of a connector.
#[derive(PartialEq)]
pub struct PaymentMethodTokenizationData {
    pub payment_method_data: PaymentMethodData,
}

/// What an authorization asks of a connector.
#[derive(PartialEq)]
pub struct PaymentsAuthorizeData {
    pub payment_method_data: PaymentMethodData,
    pub amount: i64,
    pub currency: Currency,
    pub capture_method: Option<CaptureMethod>,
}

/// What a refund asks of a connector.
#[derive(Debug, PartialEq)]
pub struct RefundsData {
    pub refund_id: String,
    pub connector_transaction_id: String,
    pub refund_amount: i64,
    pub currency: Currency,
}

/// Everything an adapter is given for one call of a connector in the flow
/// `Flow`, and the place for what the connector answers.
pub struct RouterData<Flow, Request, Response> {
    pub flow: PhantomData<Flow>,
    pub merchant_id: String,
    pub connector: String,
    pub customer_id: Option<String>,
    pub payment_id: String,
    pub attempt_id: String,
    pub status: AttemptStatus,
    pub payment_method: PaymentMethod,
    pub connector_auth_type: ConnectorAuthType,
    pub description: Option<String>,
    pub return_url: Option<String>,
    pub payment_method_id: Option<String>,
    pub auth_type: AuthenticationType,
    pub connector_meta_data: Option<serde_json::Value>,
    pub amount_captured: Option<i64>,
    pub request: Request,
    pub response: Result<Response, ErrorResponse>,
    pub reference_id: Option<String>,
    pub payment_method_token: Option<String>,
    pub connector_customer: Option<String>,
    pub preprocessing_id: Option<String>,
    pub connector_request_reference_id: String,
    pub test_mode: Option<bool>,
    pub connector_api_version: Option<String>,
    pub connector_http_status_code: Option<u16>,
}

/// What a connector answered, with the data of the call it answers.
pub struct ResponseRouterData<Flow, R, Request, Response> {
    pub response: R,
    pub data: RouterData<Flow, Request, Response>,
    pub http_code: u16,
}

/// The data of a call that exchanges a card for a token.
pub type TokenizationRouterData = RouterData<
    PaymentMethodToken,
    PaymentMethodTokenizationData,
    PaymentsResponseData,
>;

/// The data of a call that authorizes a payment.
pub type PaymentsAuthorizeRouterData = RouterData<
    Authorize,
    PaymentsAuthorizeData,
    PaymentsResponseData,
>;

/// The data of a call about a refund.
pub type RefundsRouterData<Flow> = RouterData<Flow, RefundsData, RefundsResponseData>;

/// What a connector answered about a refund, with the data of the call.
pub type RefundsResponseRouterData<Flow, R> = ResponseRouterData<
    Flow,
    R,
    RefundsData,
    RefundsResponseData,
>;

/// Whether a payment is captured as soon as it is authorized.
pub open spec fn auto_capture(capture_method: Option<CaptureMethod>) -> Result<
    bool,
    ConnectorError,
> {
    match capture_method {
        Some(CaptureMethod::Automatic) | None => Ok(true),
        Some(CaptureMethod::Manual) => Ok(false),
        Some(_) => Err(ConnectorError::CaptureMethodNotSupported),
    }
}

impl PaymentsAuthorizeData {
    /// Whether the payment is captured as soon as it is authorized.
    pub fn is_auto_capture(&self) -> (r: Result<bool, ConnectorError>)
        ensures
            r == auto_capture(self.capture_method),
    {
        match self.capture_method {
            Some(CaptureMethod::Automatic) | None => Ok(true),
            Some(CaptureMethod::Manual) => Ok(false),
            Some(_) => Err(ConnectorError::CaptureMethodNotSupported),
        }
    }
}

/// The payment method token of a call, which some adapters cannot do
/// without.
pub fn get_payment_method_token<Flow, Request, Response>(
    item: &RouterData<Flow, Request, Response>,
) -> (r: Result<String, ConnectorError>)
    ensures
        r == match item.payment_method_token {
            Some(token) => Ok::<String, ConnectorError>(token),
            None => Err::<String, ConnectorError>(
                ConnectorError::MissingRequiredField { field_name: "payment_method_token" },
            ),
        },
{
    match &item.payment_method_token {
        Some(token) => Ok(token.clone()),
        None => Err(ConnectorError::MissingRequiredField { field_name: "payment_method_token" }),
    }
}

} // verus!
