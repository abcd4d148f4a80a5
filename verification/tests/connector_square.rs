use std::marker::PhantomData;
use switch_core::connector::square::{
    RefundResponse, RefundStatus, SquareAuthType, SquareErrorResponse, SquarePaymentStatus,
    SquarePaymentsRequest, SquarePaymentsResponse, SquarePaymentsResponseDetails,
    SquareRefundRequest, SquareRefundResponseDetails, SquareTokenRequest, SquareTokenResponse,
    StaxPaymentsAmountData,
};
use switch_core::connector::types::{
    Authorize, Card, CardNumber, ConnectorAuthType, ConnectorError, ErrorResponse, Execute,
    PaymentMethodData, PaymentMethodToken, PaymentMethodTokenizationData, PaymentsAuthorizeData,
    PaymentsResponseData, RSync, RefundsData, RefundsResponseData, RefundsResponseRouterData,
    RefundsRouterData, ResponseId, ResponseRouterData, RouterData, Secret,
};
use switch_core::enums;
use switch_core::enums::{AttemptStatus, AuthenticationType, CaptureMethod, Currency, PaymentMethod};

fn secret(text: &str) -> Secret {
    Secret::new(text.to_string())
}

fn body_key() -> ConnectorAuthType {
    ConnectorAuthType::BodyKey { api_key: secret("key"), key1: secret("client") }
}

fn card(month: &str, year: &str) -> PaymentMethodData {
    PaymentMethodData::Card(Card {
        card_number: CardNumber::new(secret("4111111111111111")),
        card_exp_month: secret(month),
        card_exp_year: secret(year),
        card_holder_name: secret("A Payer"),
        card_cvc: secret("123"),
    })
}

fn router_data<F, Req, Resp>(
    auth: ConnectorAuthType,
    request: Req,
    token: Option<&str>,
) -> RouterData<F, Req, Resp> {
    RouterData {
        flow: PhantomData,
        merchant_id: "T1".to_string(),
        connector: "square".to_string(),
        customer_id: None,
        payment_id: "X1".to_string(),
        attempt_id: "A1".to_string(),
        status: AttemptStatus::Started,
        payment_method: PaymentMethod::Card,
        connector_auth_type: auth,
        description: None,
        return_url: None,
        payment_method_id: None,
        auth_type: AuthenticationType::NoThreeDs,
        connector_meta_data: None,
        amount_captured: None,
        request,
        response: Err(ErrorResponse::default()),
        reference_id: None,
        payment_method_token: token.map(|t| t.to_string()),
        connector_customer: None,
        preprocessing_id: None,
        connector_request_reference_id: "ref".to_string(),
        test_mode: None,
        connector_api_version: None,
        connector_http_status_code: None,
    }
}

fn tokenization(
    auth: ConnectorAuthType,
    data: PaymentMethodData,
) -> switch_core::connector::types::TokenizationRouterData {
    router_data::<PaymentMethodToken, _, _>(
        auth,
        PaymentMethodTokenizationData { payment_method_data: data },
        None,
    )
}

fn authorization(
    data: PaymentMethodData,
    capture_method: Option<CaptureMethod>,
    token: Option<&str>,
) -> switch_core::connector::types::PaymentsAuthorizeRouterData {
    router_data::<Authorize, _, _>(
        body_key(),
        PaymentsAuthorizeData {
            payment_method_data: data,
            amount: 500,
            currency: Currency::USD,
            capture_method,
        },
        token,
    )
}

fn refund<F>() -> RefundsRouterData<F> {
    router_data::<F, _, _>(
        body_key(),
        RefundsData {
            refund_id: "R1".to_string(),
            connector_transaction_id: "CT1".to_string(),
            refund_amount: 120,
            currency: Currency::EUR,
        },
        None,
    )
}

#[test]
fn payment_statuses_map_to_attempt_statuses() {
    for (status, expected) in [
        (SquarePaymentStatus::Completed, AttemptStatus::Charged),
        (SquarePaymentStatus::Approved, AttemptStatus::Authorized),
        (SquarePaymentStatus::Failed, AttemptStatus::Failure),
        (SquarePaymentStatus::Canceled, AttemptStatus::Voided),
        (SquarePaymentStatus::Processing, AttemptStatus::Authorizing),
        (SquarePaymentStatus::Pending, AttemptStatus::Authorizing),
    ] {
        assert_eq!(AttemptStatus::from(status), expected);
    }
    assert_eq!(SquarePaymentStatus::default(), SquarePaymentStatus::Processing);
}

#[test]
fn refund_statuses_map_to_canonical_refund_statuses() {
    for (status, expected) in [
        (RefundStatus::Completed, enums::RefundStatus::Success),
        (RefundStatus::Failed, enums::RefundStatus::Failure),
        (RefundStatus::Processing, enums::RefundStatus::Pending),
        (RefundStatus::Pending, enums::RefundStatus::Pending),
    ] {
        assert_eq!(enums::RefundStatus::from(status), expected);
    }
    assert_eq!(RefundStatus::default(), RefundStatus::Processing);
}

#[test]
fn default_error_response_is_empty() {
    assert_eq!(
        SquareErrorResponse::default(),
        SquareErrorResponse {
            status_code: 0,
            code: String::new(),
            message: String::new(),
            reason: None,
        }
    );
}

#[test]
fn token_request_reads_the_card() {
    let item = tokenization(body_key(), card("03", "25"));
    assert!(SquareTokenRequest::expiry_is_readable(&item));
    match SquareTokenRequest::try_from(&item) {
        Ok(SquareTokenRequest::Card(data)) => {
            assert_eq!(data.client_id.peek(), "client");
            assert_eq!(data.session_id.peek(), "ADD_SESSION_ID_HERE");
            assert_eq!(data.card_data.exp_month, 3);
            assert_eq!(data.card_data.exp_year, 2025);
            assert_eq!(data.card_data.number.peek(), "4111111111111111");
            assert_eq!(data.card_data.cvv.peek(), "123");
        }
        Err(e) => panic!("expected a token request, got {:?}", e),
    }
}

#[test]
fn token_request_keeps_a_four_digit_year_and_has_no_client_without_a_key_pair() {
    let item = tokenization(
        ConnectorAuthType::HeaderKey { api_key: secret("key") },
        card("12", "2031"),
    );
    match SquareTokenRequest::try_from(&item) {
        Ok(SquareTokenRequest::Card(data)) => {
            assert_eq!(data.client_id.peek(), "");
            assert_eq!(data.card_data.exp_month, 12);
            assert_eq!(data.card_data.exp_year, 2031);
        }
        Err(e) => panic!("expected a token request, got {:?}", e),
    }
}

#[test]
fn unreadable_expiry_is_told_before_the_request_is_built() {
    for (month, year) in [("xx", "25"), ("03", "2o25"), ("", "25"), ("03", "99999"), ("3 ", "25")] {
        assert!(
            !SquareTokenRequest::expiry_is_readable(&tokenization(body_key(), card(month, year))),
        );
    }
    assert!(SquareTokenRequest::expiry_is_readable(&tokenization(body_key(), card("+3", "65535"))));
    assert!(
        SquareTokenRequest::expiry_is_readable(
            &tokenization(body_key(), PaymentMethodData::Wallet),
        ),
    );
}

#[test]
fn token_request_for_anything_but_a_card_is_not_implemented() {
    for data in [
        PaymentMethodData::BankDebit,
        PaymentMethodData::Wallet,
        PaymentMethodData::PayLater,
        PaymentMethodData::BankRedirect,
        PaymentMethodData::BankTransfer,
        PaymentMethodData::Crypto,
        PaymentMethodData::MandatePayment,
        PaymentMethodData::Reward,
        PaymentMethodData::Voucher,
        PaymentMethodData::GiftCard,
        PaymentMethodData::Upi,
    ] {
        match SquareTokenRequest::try_from(&tokenization(body_key(), data)) {
            Err(e) => assert_eq!(e, ConnectorError::NotImplemented("Payment Method".to_string())),
            Ok(_) => panic!("expected an error"),
        }
    }
}

#[test]
fn token_response_becomes_the_answer_of_the_call() {
    let item = ResponseRouterData {
        response: SquareTokenResponse { card_nonce: secret("nonce-1") },
        data: tokenization(body_key(), card("03", "25")),
        http_code: 200,
    };
    let data = RouterData::try_from(item).ok().unwrap();
    assert_eq!(
        data.response,
        Ok(PaymentsResponseData::TokenizationResponse { token: "nonce-1".to_string() })
    );
    assert_eq!(data.status, AttemptStatus::Started);
    assert_eq!(data.payment_id, "X1");
}

#[test]
fn payments_request_for_a_tokenized_card() {
    let request =
        SquarePaymentsRequest::try_from(
            &authorization(card("03", "25"), None, Some("tok")),
        ).ok().unwrap();
    assert_eq!(
        request.amount_money,
        StaxPaymentsAmountData { amount: 500, currency: Currency::USD },
    );
    assert_eq!(request.idempotency_key.peek(), "X1");
    assert_eq!(request.source_id.peek(), "tok");
    assert!(request.autocomplete);
    assert_eq!(request.external_details.source, "Hyperswitch");
    assert_eq!(request.external_details.source_type, "Card");
    let manual = SquarePaymentsRequest::try_from(&authorization(
        card("03", "25"),
        Some(CaptureMethod::Manual),
        Some("tok"),
    ))
    .ok()
    .unwrap();
    assert!(!manual.autocomplete);
}

#[test]
fn payments_request_errors() {
    let unsupported = SquarePaymentsRequest::try_from(&authorization(
        card("03", "25"),
        Some(CaptureMethod::Scheduled),
        Some("tok"),
    ));
    assert!(unsupported.err() == Some(ConnectorError::CaptureMethodNotSupported));
    let no_token = SquarePaymentsRequest::try_from(&authorization(card("03", "25"), None, None));
    assert!(
        no_token.err()
            == Some(ConnectorError::MissingRequiredField { field_name: "payment_method_token" })
    );
    let wallet = SquarePaymentsRequest::try_from(
        &authorization(PaymentMethodData::Wallet, None, None),
    );
    assert!(wallet.err() == Some(ConnectorError::NotImplemented("Payment methods".to_string())));
}

#[test]
fn auth_type_needs_a_key_pair() {
    let auth = SquareAuthType::try_from(&body_key()).ok().unwrap();
    assert_eq!(auth.api_key.peek(), "key");
    for other in [
        ConnectorAuthType::HeaderKey { api_key: secret("key") },
        ConnectorAuthType::NoKey,
        ConnectorAuthType::SignatureKey {
            api_key: secret("a"),
            key1: secret("b"),
            api_secret: secret("c"),
        },
    ] {
        assert!(
            SquareAuthType::try_from(&other).err() == Some(ConnectorError::FailedToObtainAuthType),
        );
    }
}

#[test]
fn payments_response_sets_status_identifier_and_captured_amount() {
    let item = ResponseRouterData {
        response: SquarePaymentsResponse {
            payment: SquarePaymentsResponseDetails {
                status: SquarePaymentStatus::Completed,
                id: "CT1".to_string(),
                amount_money: StaxPaymentsAmountData { amount: 450, currency: Currency::USD },
            },
        },
        data: authorization(card("03", "25"), None, Some("tok")),
        http_code: 200,
    };
    let data = RouterData::try_from(item).ok().unwrap();
    assert_eq!(data.status, AttemptStatus::Charged);
    assert_eq!(data.amount_captured, Some(450));
    assert_eq!(
        data.response,
        Ok(PaymentsResponseData::TransactionResponse {
            resource_id: ResponseId::ConnectorTransactionId("CT1".to_string()),
            connector_metadata: None,
            network_txn_id: None,
            connector_response_reference_id: None,
        })
    );
    assert_eq!(data.payment_method_token, Some("tok".to_string()));
}

#[test]
fn refund_request_names_the_payment_and_the_refund() {
    let request = SquareRefundRequest::try_from(&refund::<Execute>()).ok().unwrap();
    assert_eq!(
        request.amount_money,
        StaxPaymentsAmountData { amount: 120, currency: Currency::EUR },
    );
    assert_eq!(request.idempotency_key.peek(), "R1");
    assert_eq!(request.payment_id.peek(), "CT1");
}

#[test]
fn refund_responses_become_the_answer_of_the_call() {
    let execute: RefundsResponseRouterData<Execute, RefundResponse> = ResponseRouterData {
        response: RefundResponse {
            refund: SquareRefundResponseDetails {
                status: RefundStatus::Completed,
                id: "RF1".to_string(),
            },
        },
        data: refund::<Execute>(),
        http_code: 200,
    };
    let data = RefundsRouterData::<Execute>::try_from(execute).ok().unwrap();
    assert_eq!(
        data.response,
        Ok(RefundsResponseData {
            connector_refund_id: "RF1".to_string(),
            refund_status: enums::RefundStatus::Success
        })
    );
    let sync: RefundsResponseRouterData<RSync, RefundResponse> = ResponseRouterData {
        response: RefundResponse {
            refund: SquareRefundResponseDetails {
                status: RefundStatus::Pending,
                id: "RF2".to_string(),
            },
        },
        data: refund::<RSync>(),
        http_code: 200,
    };
    let data = RefundsRouterData::<RSync>::try_from(sync).ok().unwrap();
    assert_eq!(
        data.response,
        Ok(RefundsResponseData {
            connector_refund_id: "RF2".to_string(),
            refund_status: enums::RefundStatus::Pending
        })
    );
    assert_eq!(data.request.refund_id, "R1");
}
