//! Wire types of the Square connector and their mapping to the switch's
//! canonical statuses.

use crate::connector::types::{
    auto_capture, four_digit_year, get_payment_method_token, ConnectorAuthType, ConnectorError,
    Execute, PaymentMethodData, PaymentsAuthorizeRouterData, PaymentsResponseData, RSync,
    RefundsResponseData, RefundsResponseRouterData, RefundsRouterData, ResponseId,
    ResponseRouterData, RouterData, Secret, TokenizationRouterData, CardNumber,
};
use crate::enums;
use crate::enums::{AttemptStatus, Currency};
use crate::text::{parse_u16, parsed_u16};
use vstd::prelude::*;
use vstd::string::StringExecFns;

verus! {

/// An amount of money in minor units of `currency`.
#[derive(Debug, PartialEq)]
pub struct StaxPaymentsAmountData {
    pub amount: i64,
    pub currency: Currency,
}

/// Where a payment request came from, as reported to the connector.
#[derive(Debug, PartialEq)]
pub struct StaxPaymentsRequestExternalDetails {
    pub source: String,
    pub source_type: String,
}

/// Status of a payment as the connector reports it.
#[derive(Clone, Copy, Debug, PartialEq, Eq, Structural)]
pub enum SquarePaymentStatus {
    Completed,
    Failed,
    Approved,
    Canceled,
    Pending,
    Processing,
}

impl Default for SquarePaymentStatus {
    fn default() -> (r: Self)
        ensures
            r == SquarePaymentStatus::Processing,
    {
        SquarePaymentStatus::Processing
    }
}

impl SquarePaymentStatus {
    /// The canonical attempt status that this connector status stands for.
    pub open spec fn attempt_status(self) -> AttemptStatus {
        match self {
            SquarePaymentStatus::Completed => AttemptStatus::Charged,
            SquarePaymentStatus::Approved => AttemptStatus::Authorized,
            SquarePaymentStatus::Failed => AttemptStatus::Failure,
            SquarePaymentStatus::Canceled => AttemptStatus::Voided,
            SquarePaymentStatus::Processing | SquarePaymentStatus::Pending => {
                AttemptStatus::Authorizing
            },
        }
    }
}

impl From<SquarePaymentStatus> for AttemptStatus {
    fn from(item: SquarePaymentStatus) -> (r: Self) {
        match item {
            SquarePaymentStatus::Completed => AttemptStatus::Charged,
            SquarePaymentStatus::Approved => AttemptStatus::Authorized,
            SquarePaymentStatus::Failed => AttemptStatus::Failure,
            SquarePaymentStatus::Canceled => AttemptStatus::Voided,
            SquarePaymentStatus::Processing | SquarePaymentStatus::Pending => {
                AttemptStatus::Authorizing
            },
        }
    }
}

impl vstd::std_specs::convert::FromSpecImpl<SquarePaymentStatus> for AttemptStatus {
    open spec fn obeys_from_spec() -> bool {
        true
    }

    open spec fn from_spec(item: SquarePaymentStatus) -> Self {
        item.attempt_status()
    }
}

/// A payment as the connector describes it in a response.
#[derive(Debug, PartialEq)]
pub struct SquarePaymentsResponseDetails {
    pub status: SquarePaymentStatus,
    pub id: String,
    pub amount_money: StaxPaymentsAmountData,
}

/// Response to a payment request.
#[derive(Debug, PartialEq)]
pub struct SquarePaymentsResponse {
    pub payment: SquarePaymentsResponseDetails,
}

/// Status of a refund as the connector reports it.
#[derive(Clone, Copy, Debug, PartialEq, Eq, Structural)]
pub enum RefundStatus {
    Completed,
    Failed,
    Pending,
    Processing,
}

impl Default for RefundStatus {
    fn default() -> (r: Self)
        ensures
            r == RefundStatus::Processing,
    {
        RefundStatus::Processing
    }
}

impl RefundStatus {
    /// The canonical refund status that this connector status stands for.
    pub open spec fn refund_status(self) -> enums::RefundStatus {
        match self {
            RefundStatus::Completed => enums::RefundStatus::Success,
            RefundStatus::Failed => enums::RefundStatus::Failure,
            RefundStatus::Processing | RefundStatus::Pending => enums::RefundStatus::Pending,
        }
    }
}

impl From<RefundStatus> for enums::RefundStatus {
    fn from(item: RefundStatus) -> (r: Self) {
        match item {
            RefundStatus::Completed => enums::RefundStatus::Success,
            RefundStatus::Failed => enums::RefundStatus::Failure,
            RefundStatus::Processing | RefundStatus::Pending => enums::RefundStatus::Pending,
        }
    }
}

impl vstd::std_specs::convert::FromSpecImpl<RefundStatus> for enums::RefundStatus {
    open spec fn obeys_from_spec() -> bool {
        true
    }

    open spec fn from_spec(item: RefundStatus) -> Self {
        item.refund_status()
    }
}

/// A refund as the connector describes it in a response.
#[derive(Debug, PartialEq)]
pub struct SquareRefundResponseDetails {
    pub status: RefundStatus,
    pub id: String,
}

/// Response to a refund request.
#[derive(Debug, PartialEq)]
pub struct RefundResponse {
    pub refund: SquareRefundResponseDetails,
}

/// Error body of the connector.
#[derive(Debug, PartialEq)]
pub struct SquareErrorResponse {
    pub status_code: u16,
    pub code: String,
    pub message: String,
    pub reason: Option<String>,
}

impl Default for SquareErrorResponse {
    fn default() -> (r: Self)
        ensures
            r.status_code == 0,
            r.code@ == Seq::<char>::empty(),
            r.message@ == Seq::<char>::empty(),
            r.reason is None,
    {
        SquareErrorResponse {
            status_code: 0,
            code: String::new(),
            message: String::new(),
            reason: None,
        }
    }
}

/// A card as the connector wants it for tokenization.
#[derive(PartialEq)]
pub struct SquareCardData {
    pub cvv: Secret,
    pub exp_month: u16,
    pub exp_year: u16,
    pub number: CardNumber,
}

/// What the connector is sent to exchange a card for a token.
#[derive(PartialEq)]
pub struct SquareTokenizeData {
    pub client_id: Secret,
    pub session_id: Secret,
    pub card_data: SquareCardData,
}

/// Request for a token.
#[derive(PartialEq)]
pub enum SquareTokenRequest {
    Card(SquareTokenizeData),
}

/// The client identifier that the credentials carry: the second key of a
/// pair of keys, and the empty text for any other kind of credentials.
pub open spec fn client_id_of(auth: ConnectorAuthType) -> Seq<char> {
    match auth {
        ConnectorAuthType::BodyKey { key1, .. } => key1.exposed()@,
        _ => Seq::empty(),
    }
}

/// Whether the month and the year of expiry of a card can be read as
/// numbers. Trivially so for anything that is no card.
pub open spec fn expiry_readable(data: PaymentMethodData) -> bool {
    data matches PaymentMethodData::Card(card) ==> {
        &&& parsed_u16(four_digit_year(card.card_exp_year.exposed()@)) is Some
        &&& parsed_u16(card.card_exp_month.exposed()@) is Some
    }
}

impl SquareTokenRequest {
    /// Whether `try_from` can be called on `item`.
    pub fn expiry_is_readable(item: &TokenizationRouterData) -> (r: bool)
        ensures
            r == expiry_readable(item.request.payment_method_data),
    {
        match &item.request.payment_method_data {
            PaymentMethodData::Card(card) => {
                let year = card.get_expiry_year_4_digit();
                parse_u16(year.peek().as_str()).is_some() && parse_u16(
                    card.card_exp_month.peek().as_str(),
                ).is_some()
            },
            _ => true,
        }
    }

    /// The token request for a card; for any other instrument, the error
    /// that the instrument is not implemented.
    pub fn try_from(item: &TokenizationRouterData) -> (r: Result<Self, ConnectorError>)
        requires
            expiry_readable(item.request.payment_method_data),
        ensures
            match item.request.payment_method_data {
                PaymentMethodData::Card(card) => {
                    &&& r matches Ok(SquareTokenRequest::Card(data))
                    &&& data.client_id.exposed()@ == client_id_of(item.connector_auth_type)
                    &&& data.session_id.exposed()@ == "ADD_SESSION_ID_HERE"@
                    &&& Some(data.card_data.exp_year) == parsed_u16(
                        four_digit_year(card.card_exp_year.exposed()@),
                    )
                    &&& Some(data.card_data.exp_month) == parsed_u16(card.card_exp_month.exposed()@)
                    &&& data.card_data.number == card.card_number
                    &&& data.card_data.cvv == card.card_cvc
                },
                _ => r matches Err(ConnectorError::NotImplemented(what)) && what@
                    == "Payment Method"@,
            },
    {
        let client_id = match &item.connector_auth_type {
            ConnectorAuthType::BodyKey { key1, .. } => key1.clone(),
            _ => Secret::new(String::new()),
        };
        match item.request.payment_method_data.clone() {
            PaymentMethodData::Card(card_data) => {
                let year = card_data.get_expiry_year_4_digit();
                let exp_year = match parse_u16(year.peek().as_str()) {
                    Some(number) => number,
                    None => vstd::pervasive::unreached(),
                };
                let exp_month = match parse_u16(card_data.card_exp_month.peek().as_str()) {
                    Some(number) => number,
                    None => vstd::pervasive::unreached(),
                };
                let square_card_data = SquareTokenizeData {
                    client_id,
                    session_id: Secret::new(String::from_str("ADD_SESSION_ID_HERE")),
                    card_data: SquareCardData {
                        exp_year,
                        exp_month,
                        number: card_data.card_number,
                        cvv: card_data.card_cvc,
                    },
                };
                Ok(SquareTokenRequest::Card(square_card_data))
            },
            PaymentMethodData::BankDebit
            | PaymentMethodData::Wallet
            | PaymentMethodData::PayLater
            | PaymentMethodData::BankRedirect
            | PaymentMethodData::BankTransfer
            | PaymentMethodData::Crypto
            | PaymentMethodData::MandatePayment
            | PaymentMethodData::Reward
            | PaymentMethodData::Voucher
            | PaymentMethodData::GiftCard
            | PaymentMethodData::Upi => Err(
                ConnectorError::NotImplemented(String::from_str("Payment Method")),
            ),
        }
    }
}

/// Response to a token request.
#[derive(PartialEq)]
pub struct SquareTokenResponse {
    pub card_nonce: Secret,
}

impl<F, T> TryFrom<
    ResponseRouterData<F, SquareTokenResponse, T, PaymentsResponseData>,
> for RouterData<F, T, PaymentsResponseData> {
    type Error = ConnectorError;

    fn try_from(item: ResponseRouterData<F, SquareTokenResponse, T, PaymentsResponseData>) -> (r:
        Result<Self, ConnectorError>) {
        Ok(
            RouterData {
                response: Ok(
                    PaymentsResponseData::TokenizationResponse {
                        token: item.response.card_nonce.expose(),
                    },
                ),
                ..item.data
            },
        )
    }
}

impl<F, T> vstd::std_specs::convert::TryFromSpecImpl<
    ResponseRouterData<F, SquareTokenResponse, T, PaymentsResponseData>,
> for RouterData<F, T, PaymentsResponseData> {
    open spec fn obeys_try_from_spec() -> bool {
        true
    }

    /// The data of the call, with the token as the connector's answer.
    open spec fn try_from_spec(
        item: ResponseRouterData<F, SquareTokenResponse, T, PaymentsResponseData>,
    ) -> Result<Self, ConnectorError> {
        Ok(
            RouterData {
                response: Ok(
                    PaymentsResponseData::TokenizationResponse {
                        token: item.response.card_nonce.exposed(),
                    },
                ),
                ..item.data
            },
        )
    }
}

/// Request for a payment.
#[derive(PartialEq)]
pub struct SquarePaymentsRequest {
    pub amount_money: StaxPaymentsAmountData,
    pub idempotency_key: Secret,
    pub source_id: Secret,
    pub autocomplete: bool,
    pub external_details: StaxPaymentsRequestExternalDetails,
}

impl SquarePaymentsRequest {
    /// The payment request for a card payment that has a payment method
    /// token. The capture method decides first, then the instrument, then
    /// the token.
    pub fn try_from(item: &PaymentsAuthorizeRouterData) -> (r: Result<Self, ConnectorError>)
        ensures
            match (
                auto_capture(item.request.capture_method),
                item.request.payment_method_data,
                item.payment_method_token,
            ) {
                (Err(e), _, _) => r == Err::<Self, ConnectorError>(e),
                (Ok(autocomplete), PaymentMethodData::Card(_), Some(token)) => {
                    &&& r matches Ok(request)
                    &&& request.idempotency_key.exposed() == item.payment_id
                    &&& request.source_id.exposed() == token
                    &&& request.amount_money == (StaxPaymentsAmountData {
                        amount: item.request.amount,
                        currency: item.request.currency,
                    })
                    &&& request.autocomplete == autocomplete
                    &&& request.external_details.source@ == "Hyperswitch"@
                    &&& request.external_details.source_type@ == "Card"@
                },
                (
                    Ok(_),
                    PaymentMethodData::Card(_),
                    None,
                ) => r == Err::<Self, ConnectorError>(
                    ConnectorError::MissingRequiredField { field_name: "payment_method_token" },
                ),
                (Ok(_), _, _) => r matches Err(ConnectorError::NotImplemented(what)) && what@
                    == "Payment methods"@,
            },
    {
        let autocomplete = match item.request.is_auto_capture() {
            Ok(autocomplete) => autocomplete,
            Err(e) => {
                return Err(e);
            },
        };
        match item.request.payment_method_data.clone() {
            PaymentMethodData::Card(_) => {
                let token = match get_payment_method_token(item) {
                    Ok(token) => token,
                    Err(e) => {
                        return Err(e);
                    },
                };
                Ok(
                    SquarePaymentsRequest {
                        idempotency_key: Secret::new(item.payment_id.clone()),
                        source_id: Secret::new(token),
                        amount_money: StaxPaymentsAmountData {
                            amount: item.request.amount,
                            currency: item.request.currency,
                        },
                        autocomplete,
                        external_details: StaxPaymentsRequestExternalDetails {
                            source: String::from_str("Hyperswitch"),
                            source_type: String::from_str("Card"),
                        },
                    },
                )
            },
            _ => Err(ConnectorError::NotImplemented(String::from_str("Payment methods"))),
        }
    }
}

/// The credentials the connector wants.
#[derive(PartialEq)]
pub struct SquareAuthType {
    pub api_key: Secret,
}

impl SquareAuthType {
    /// The connector's credentials, from a pair of keys; no other kind of
    /// credentials will do.
    pub fn try_from(auth_type: &ConnectorAuthType) -> (r: Result<Self, ConnectorError>)
        ensures
            r == match *auth_type {
                ConnectorAuthType::BodyKey { api_key, .. } => Ok::<Self, ConnectorError>(
                    SquareAuthType { api_key },
                ),
                _ => Err::<Self, ConnectorError>(ConnectorError::FailedToObtainAuthType),
            },
    {
        match auth_type {
            ConnectorAuthType::BodyKey { api_key, .. } => Ok(
                SquareAuthType { api_key: api_key.clone() },
            ),
            _ => Err(ConnectorError::FailedToObtainAuthType),
        }
    }
}

impl<F, T> TryFrom<
    ResponseRouterData<F, SquarePaymentsResponse, T, PaymentsResponseData>,
> for RouterData<F, T, PaymentsResponseData> {
    type Error = ConnectorError;

    fn try_from(item: ResponseRouterData<F, SquarePaymentsResponse, T, PaymentsResponseData>) -> (r:
        Result<Self, ConnectorError>) {
        Ok(
            RouterData {
                status: AttemptStatus::from(item.response.payment.status),
                response: Ok(
                    PaymentsResponseData::TransactionResponse {
                        resource_id: ResponseId::ConnectorTransactionId(item.response.payment.id),
                        connector_metadata: None,
                        network_txn_id: None,
                        connector_response_reference_id: None,
                    },
                ),
                amount_captured: Some(item.response.payment.amount_money.amount),
                ..item.data
            },
        )
    }
}

impl<F, T> vstd::std_specs::convert::TryFromSpecImpl<
    ResponseRouterData<F, SquarePaymentsResponse, T, PaymentsResponseData>,
> for RouterData<F, T, PaymentsResponseData> {
    open spec fn obeys_try_from_spec() -> bool {
        true
    }

    /// The data of the call, with the canonical status of the payment, the
    /// connector's name for it, and the amount the connector reports.
    open spec fn try_from_spec(
        item: ResponseRouterData<F, SquarePaymentsResponse, T, PaymentsResponseData>,
    ) -> Result<Self, ConnectorError> {
        Ok(
            RouterData {
                status: item.response.payment.status.attempt_status(),
                response: Ok(
                    PaymentsResponseData::TransactionResponse {
                        resource_id: ResponseId::ConnectorTransactionId(item.response.payment.id),
                        connector_metadata: None,
                        network_txn_id: None,
                        connector_response_reference_id: None,
                    },
                ),
                amount_captured: Some(item.response.payment.amount_money.amount),
                ..item.data
            },
        )
    }
}

/// Request for a refund.
#[derive(PartialEq)]
pub struct SquareRefundRequest {
    pub amount_money: StaxPaymentsAmountData,
    pub idempotency_key: Secret,
    pub payment_id: Secret,
}

impl SquareRefundRequest {
    /// The refund request: the amount to refund, the refund's identifier as
    /// the idempotency key, and the connector's name for the payment.
    pub fn try_from<F>(item: &RefundsRouterData<F>) -> (r: Result<Self, ConnectorError>)
        ensures
            r matches Ok(request) && request.amount_money == (StaxPaymentsAmountData {
                amount: item.request.refund_amount,
                currency: item.request.currency,
            }) && request.idempotency_key.exposed() == item.request.refund_id
                && request.payment_id.exposed() == item.request.connector_transaction_id,
    {
        Ok(
            SquareRefundRequest {
                amount_money: StaxPaymentsAmountData {
                    amount: item.request.refund_amount,
                    currency: item.request.currency,
                },
                idempotency_key: Secret::new(item.request.refund_id.clone()),
                payment_id: Secret::new(item.request.connector_transaction_id.clone()),
            },
        )
    }
}

/// The connector's answer to a request for a refund, with the data of the
/// call.
pub type ExecuteResponse = RefundsResponseRouterData<Execute, RefundResponse>;

/// The connector's answer to a question about a refund, with the data of
/// the call.
pub type RSyncResponse = RefundsResponseRouterData<RSync, RefundResponse>;

/// The data of a refund call, with the connector's name for the refund and
/// the canonical status of the refund as the connector's answer.
pub open spec fn refund_answered<F>(
    item: RefundsResponseRouterData<F, RefundResponse>,
) -> RefundsRouterData<F> {
    RouterData {
        response: Ok(
            RefundsResponseData {
                connector_refund_id: item.response.refund.id,
                refund_status: item.response.refund.status.refund_status(),
            },
        ),
        ..item.data
    }
}

impl TryFrom<ExecuteResponse> for RefundsRouterData<Execute> {
    type Error = ConnectorError;

    fn try_from(item: ExecuteResponse) -> (r: Result<Self, ConnectorError>) {
        Ok(
            RouterData {
                response: Ok(
                    RefundsResponseData {
                        connector_refund_id: item.response.refund.id,
                        refund_status: enums::RefundStatus::from(item.response.refund.status),
                    },
                ),
                ..item.data
            },
        )
    }
}

impl vstd::std_specs::convert::TryFromSpecImpl<ExecuteResponse> for RefundsRouterData<Execute> {
    open spec fn obeys_try_from_spec() -> bool {
        true
    }

    open spec fn try_from_spec(item: ExecuteResponse) -> Result<Self, ConnectorError> {
        Ok(refund_answered(item))
    }
}

impl TryFrom<RSyncResponse> for RefundsRouterData<RSync> {
    type Error = ConnectorError;

    fn try_from(item: RSyncResponse) -> (r: Result<Self, ConnectorError>) {
        Ok(
            RouterData {
                response: Ok(
                    RefundsResponseData {
                        connector_refund_id: item.response.refund.id,
                        refund_status: enums::RefundStatus::from(item.response.refund.status),
                    },
                ),
                ..item.data
            },
        )
    }
}

impl vstd::std_specs::convert::TryFromSpecImpl<RSyncResponse> for RefundsRouterData<RSync> {
    open spec fn obeys_try_from_spec() -> bool {
        true
    }

    open spec fn try_from_spec(item: RSyncResponse) -> Result<Self, ConnectorError> {
        Ok(refund_answered(item))
    }
}

} // verus!
