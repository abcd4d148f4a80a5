use switch_core::connector::types::{ConnectorAuthType, Secret};
use switch_core::clock::Timestamp;
use switch_core::customers::{
    create_customer, delete_customer, existing_customer_instead, has_active_mandate,
    plan_deletions, redacted_address, redacted_customer, retrieve_customer, update_customer,
    AddressDetails, AddressUpdate, CreateCustomer, Customer, CustomerAnswer, CustomerAsk,
    CustomerDeleteResponse, CustomerPaymentMethod, CustomerRequest, CustomerStep, CustomerUpdate,
    DeleteAnswer, DeleteCustomer, DeleteRequest, DeleteStep, Encryptable, EncryptedAddress,
    EncryptedCustomer, Mandate, PaymentMethodDeletion, UpdateCustomer, REDACTED,
};
use switch_core::enums::{
    AttemptStatus, AuthenticationType, IncomingWebhookEvent, MandateStatus, PaymentMethod,
};
use switch_core::errors::{CustomersErrorResponse, StorageError};
use switch_core::text::parse_u16;
use switch_core::webhooks::{
    construct_webhook_router_data, default_webhook_config, event_from_name, is_event_enabled,
    lookup_webhook_event, make_webhook_config_key, read_webhook_config, ConnectorWebhookSecrets,
    StoredConfig, WebhookConfigAnswer, WebhookLookup, WebhookStep,
};

fn lookup(event: IncomingWebhookEvent) -> WebhookLookup {
    WebhookLookup::start("square".to_string(), "T1".to_string(), event).0
}

fn encrypted(text: &str, byte: u8) -> Encryptable {
    Encryptable { inner: Secret::new(text.to_string()), encrypted: vec![byte, byte] }
}

fn not_found() -> StorageError {
    StorageError::ValueNotFound("Value not found".to_string())
}

fn is_done_with(step: &DeleteStep, error: CustomersErrorResponse) -> bool {
    *step == DeleteStep::Done(Err(error))
}

#[test]
fn decimal_texts_are_read_as_numbers() {
    assert_eq!(parse_u16("0"), Some(0));
    assert_eq!(parse_u16("007"), Some(7));
    assert_eq!(parse_u16("+12"), Some(12));
    assert_eq!(parse_u16("65535"), Some(65535));
    assert_eq!(parse_u16("65536"), None);
    assert_eq!(parse_u16("99999999999"), None);
    assert_eq!(parse_u16(""), None);
    assert_eq!(parse_u16("+"), None);
    assert_eq!(parse_u16("-1"), None);
    assert_eq!(parse_u16("1_0"), None);
    assert_eq!(parse_u16(" 1"), None);
    assert_eq!(parse_u16("1 "), None);
    assert_eq!(parse_u16("١"), None);
    assert_eq!(parse_u16("++1"), None);
    for n in [1u16, 12, 255, 2025, 40000] {
        assert_eq!(parse_u16(&n.to_string()), n.to_string().parse::<u16>().ok());
    }
}

#[test]
fn default_webhook_events() {
    assert_eq!(
        default_webhook_config(),
        vec![
            IncomingWebhookEvent::PaymentIntentSuccess,
            IncomingWebhookEvent::PaymentIntentFailure,
            IncomingWebhookEvent::PaymentIntentProcessing,
            IncomingWebhookEvent::PaymentActionRequired,
            IncomingWebhookEvent::RefundSuccess,
        ]
    );
}

#[test]
fn events_are_named_in_lower_case_with_underscores() {
    for (name, event) in [
        ("payment_intent_failure", IncomingWebhookEvent::PaymentIntentFailure),
        ("payment_intent_success", IncomingWebhookEvent::PaymentIntentSuccess),
        ("payment_intent_processing", IncomingWebhookEvent::PaymentIntentProcessing),
        ("payment_intent_partially_funded", IncomingWebhookEvent::PaymentIntentPartiallyFunded),
        ("payment_action_required", IncomingWebhookEvent::PaymentActionRequired),
        ("event_not_supported", IncomingWebhookEvent::EventNotSupported),
        ("source_chargeable", IncomingWebhookEvent::SourceChargeable),
        ("source_transaction_created", IncomingWebhookEvent::SourceTransactionCreated),
        ("refund_failure", IncomingWebhookEvent::RefundFailure),
        ("refund_success", IncomingWebhookEvent::RefundSuccess),
        ("dispute_opened", IncomingWebhookEvent::DisputeOpened),
        ("dispute_expired", IncomingWebhookEvent::DisputeExpired),
        ("dispute_accepted", IncomingWebhookEvent::DisputeAccepted),
        ("dispute_cancelled", IncomingWebhookEvent::DisputeCancelled),
        ("dispute_challenged", IncomingWebhookEvent::DisputeChallenged),
        ("dispute_won", IncomingWebhookEvent::DisputeWon),
        ("dispute_lost", IncomingWebhookEvent::DisputeLost),
        ("endpoint_verification", IncomingWebhookEvent::EndpointVerification),
    ] {
        assert_eq!(event_from_name(name), Some(event));
    }
    for name in ["", "DisputeWon", "dispute_won ", "dispute", "refund-success"] {
        assert_eq!(event_from_name(name), None);
    }
}

#[test]
fn stored_configuration_is_read_from_its_names() {
    let names = |list: &[&str]| list.iter().map(|s| s.to_string()).collect::<Vec<String>>();
    assert_eq!(read_webhook_config(&Vec::new()), Some(Vec::new()));
    assert_eq!(
        read_webhook_config(&names(&["dispute_won", "refund_failure", "dispute_won"])),
        Some(vec![
            IncomingWebhookEvent::DisputeWon,
            IncomingWebhookEvent::RefundFailure,
            IncomingWebhookEvent::DisputeWon,
        ])
    );
    assert_eq!(read_webhook_config(&names(&["dispute_won", "nothing", "refund_failure"])), None);
    assert_eq!(read_webhook_config(&names(&["nothing"])), None);
}

#[test]
fn webhook_config_key_names_merchant_and_connector() {
    assert_eq!(make_webhook_config_key("T1", "square"), "whconf_T1_square");
}

#[test]
fn configured_events_are_united_with_the_default_ones() {
    let configured = vec![IncomingWebhookEvent::DisputeOpened];
    assert!(is_event_enabled(&configured, IncomingWebhookEvent::DisputeOpened));
    assert!(is_event_enabled(&configured, IncomingWebhookEvent::RefundSuccess));
    assert!(!is_event_enabled(&configured, IncomingWebhookEvent::RefundFailure));
    assert!(!is_event_enabled(&Vec::new(), IncomingWebhookEvent::DisputeOpened));
}

#[test]
fn webhook_lookup_asks_the_cache_first() {
    let (state, step) =
        WebhookLookup::start(
            "square".to_string(),
            "T1".to_string(),
            IncomingWebhookEvent::DisputeWon,
        );
    assert_eq!(step, WebhookStep::GetCached { key: "whconf_T1_square".to_string() });
    let (state, step) = lookup_webhook_event(
        state,
        WebhookConfigAnswer::Cached(Some(vec![IncomingWebhookEvent::DisputeWon])),
    );
    assert_eq!((state, step), (WebhookLookup::Finished, WebhookStep::Done(true)));
}

#[test]
fn webhook_lookup_falls_back_to_the_durable_store() {
    let (state, step) =
        lookup_webhook_event(
            lookup(IncomingWebhookEvent::DisputeWon),
            WebhookConfigAnswer::Cached(None),
        );
    assert_eq!(state, WebhookLookup::Stored { event: IncomingWebhookEvent::DisputeWon });
    assert_eq!(step, WebhookStep::FindStored { key: "whconf_T1_square".to_string() });
    let found = WebhookConfigAnswer::Stored(
        StoredConfig::Found(vec![IncomingWebhookEvent::DisputeWon]),
    );
    assert_eq!(
        lookup_webhook_event(
            WebhookLookup::Stored { event: IncomingWebhookEvent::DisputeWon },
            found,
        ),
        (WebhookLookup::Finished, WebhookStep::Done(true))
    );
    for (answer, event, expected) in [
        (StoredConfig::Missing, IncomingWebhookEvent::DisputeWon, false),
        (StoredConfig::Unreadable, IncomingWebhookEvent::DisputeWon, false),
        (StoredConfig::Missing, IncomingWebhookEvent::PaymentIntentSuccess, true),
        (StoredConfig::Unreadable, IncomingWebhookEvent::RefundSuccess, true),
        (StoredConfig::Found(Vec::new()), IncomingWebhookEvent::PaymentActionRequired, true),
    ] {
        assert_eq!(
            lookup_webhook_event(
                WebhookLookup::Stored { event },
                WebhookConfigAnswer::Stored(answer),
            ),
            (WebhookLookup::Finished, WebhookStep::Done(expected))
        );
    }
}

#[test]
fn webhook_router_data_holds_the_request_and_placeholders() {
    let data = construct_webhook_router_data(
        "T1",
        "square",
        ConnectorAuthType::HeaderKey { api_key: Secret::new("key".to_string()) },
        ConnectorWebhookSecrets { secret: vec![1, 2, 3], additional_secret: None },
        vec![("x-signature".to_string(), "abc".to_string())],
        vec![9, 8],
    );
    assert_eq!(data.merchant_id, "T1");
    assert_eq!(data.connector, "square");
    assert_eq!(data.payment_id, "irrelevant_payment_id_in_source_verification_flow");
    assert_eq!(data.attempt_id, "irrelevant_attempt_id_in_source_verification_flow");
    assert_eq!(
        data.connector_request_reference_id,
        "irrelevant_connector_request_reference_id_in_source_verification_flow"
    );
    assert_eq!(data.status, AttemptStatus::Pending);
    assert_eq!(data.payment_method, PaymentMethod::Card);
    assert_eq!(data.auth_type, AuthenticationType::ThreeDs);
    assert_eq!(data.request.webhook_body, vec![9, 8]);
    assert_eq!(data.request.webhook_headers, vec![("x-signature".to_string(), "abc".to_string())]);
    assert_eq!(data.request.merchant_secret.secret, vec![1, 2, 3]);
    let error = data.response.err().unwrap();
    assert_eq!(error.code, "HE_00");
    assert_eq!(error.message, "Something went wrong");
    assert_eq!(error.status_code, 500);
    assert_eq!(data.amount_captured, None);
    assert_eq!(data.customer_id, None);
    assert_eq!(data.connector_http_status_code, None);
}

#[test]
fn storage_errors_are_translated_for_customers() {
    assert_eq!(not_found().switch(), CustomersErrorResponse::CustomerNotFound);
    assert_eq!(StorageError::CustomerRedacted.switch(), CustomersErrorResponse::CustomerRedacted);
    assert_eq!(StorageError::KVError.switch(), CustomersErrorResponse::InternalServerError);
    assert_eq!(
        StorageError::DuplicateValue { entity: "customer", key: None }.switch(),
        CustomersErrorResponse::InternalServerError
    );
}

#[test]
fn existing_customer_is_fetched_instead_of_inserted() {
    assert_eq!(
        existing_customer_instead(&StorageError::DuplicateValue { entity: "customer", key: None }),
        Ok(()),
    );
    assert_eq!(
        existing_customer_instead(&StorageError::DatabaseConnectionError),
        Err(CustomersErrorResponse::InternalServerError)
    );
    assert_eq!(
        existing_customer_instead(&not_found()),
        Err(CustomersErrorResponse::InternalServerError),
    );
}

#[test]
fn active_mandate_is_detected() {
    let mandate = |status| Mandate { mandate_id: "m".to_string(), mandate_status: status };
    assert!(!has_active_mandate(&Vec::new()));
    assert!(
        !has_active_mandate(
            &vec![mandate(MandateStatus::Revoked), mandate(MandateStatus::Inactive)],
        ),
    );
    assert!(
        has_active_mandate(&vec![mandate(MandateStatus::Revoked), mandate(MandateStatus::Active)]),
    );
}

#[test]
fn cards_are_deleted_from_the_locker_first() {
    let plan = plan_deletions(vec![
        CustomerPaymentMethod {
            payment_method_id: "pm1".to_string(),
            payment_method: PaymentMethod::Card,
        },
        CustomerPaymentMethod {
            payment_method_id: "pm2".to_string(),
            payment_method: PaymentMethod::Wallet,
        },
    ]);
    assert_eq!(
        plan,
        vec![
            PaymentMethodDeletion { payment_method_id: "pm1".to_string(), from_locker: true },
            PaymentMethodDeletion { payment_method_id: "pm2".to_string(), from_locker: false },
        ]
    );
}

#[test]
fn redaction_overwrites_address_and_customer() {
    assert_eq!(REDACTED, "Redacted");
    let redacted = encrypted("Redacted", 1);
    let marker = || Some("Redacted".to_string());
    let value = || Some(encrypted("Redacted", 1));
    assert!(
        redacted_address(&redacted)
            == AddressUpdate::Update {
                city: marker(),
                country: None,
                line1: value(),
                line2: value(),
                line3: value(),
                state: value(),
                zip: value(),
                first_name: value(),
                last_name: value(),
                phone_number: value(),
                country_code: marker(),
            }
    );
    assert!(
        redacted_customer(&redacted, encrypted("Redacted", 2))
            == CustomerUpdate::Update {
                name: value(),
                email: Some(encrypted("Redacted", 2)),
                phone: value(),
                description: marker(),
                phone_country_code: marker(),
                metadata: None,
                connector_customer: None,
            }
    );
}

#[test]
fn customer_is_deleted_step_by_step() {
    let (state, step) = DeleteCustomer::start("C1".to_string());
    assert!(step == DeleteStep::Request(DeleteRequest::FindCustomer));
    let (state, step) = delete_customer(state, DeleteAnswer::CustomerFound(Ok(())));
    assert!(step == DeleteStep::Request(DeleteRequest::FindMandates));
    let (state, step) = delete_customer(
        state,
        DeleteAnswer::MandatesFound(Ok(vec![Mandate {
            mandate_id: "m1".to_string(),
            mandate_status: MandateStatus::Revoked,
        }])),
    );
    assert!(step == DeleteStep::Request(DeleteRequest::FindPaymentMethods));
    let (state, step) = delete_customer(
        state,
        DeleteAnswer::PaymentMethodsFound(Ok(vec![CustomerPaymentMethod {
            payment_method_id: "pm1".to_string(),
            payment_method: PaymentMethod::Card,
        }])),
    );
    assert!(
        step == DeleteStep::Request(DeleteRequest::DeletePaymentMethods {
            deletions: vec![PaymentMethodDeletion {
                payment_method_id: "pm1".to_string(),
                from_locker: true
            }]
        })
    );
    let (state, step) = delete_customer(state, DeleteAnswer::PaymentMethodsDeleted(Ok(())));
    assert!(step == DeleteStep::Request(DeleteRequest::EncryptMarker));
    let (state, step) =
        delete_customer(state, DeleteAnswer::MarkerEncrypted(Some(encrypted("Redacted", 1))));
    assert!(
        step == DeleteStep::Request(DeleteRequest::UpdateAddress {
            update: redacted_address(&encrypted("Redacted", 1))
        })
    );
    let (state, step) = delete_customer(state, DeleteAnswer::AddressUpdated(Err(not_found())));
    assert!(step == DeleteStep::Request(DeleteRequest::EncryptMarker));
    let (state, step) =
        delete_customer(state, DeleteAnswer::MarkerEncrypted(Some(encrypted("Redacted", 2))));
    assert!(
        step == DeleteStep::Request(DeleteRequest::UpdateCustomer {
            update: redacted_customer(&encrypted("Redacted", 1), encrypted("Redacted", 2))
        })
    );
    let (state, step) = delete_customer(state, DeleteAnswer::CustomerUpdated(Ok(())));
    assert!(state == DeleteCustomer::Finished);
    assert!(
        step == DeleteStep::Done(Ok(CustomerDeleteResponse {
            customer_id: "C1".to_string(),
            customer_deleted: true,
            address_deleted: true,
            payment_methods_deleted: true,
        }))
    );
}

#[test]
fn customer_with_an_active_mandate_is_not_deleted() {
    let state = DeleteCustomer::FindingMandates { customer_id: "C1".to_string() };
    let (state, step) = delete_customer(
        state,
        DeleteAnswer::MandatesFound(Ok(vec![Mandate {
            mandate_id: "m1".to_string(),
            mandate_status: MandateStatus::Active,
        }])),
    );
    assert!(state == DeleteCustomer::Finished);
    assert!(is_done_with(&step, CustomersErrorResponse::MandateActive));
}

#[test]
fn customer_deletion_failures() {
    let id = || "C1".to_string();
    let (_, step) = delete_customer(
        DeleteCustomer::FindingCustomer { customer_id: id() },
        DeleteAnswer::CustomerFound(Err(not_found())),
    );
    assert!(is_done_with(&step, CustomersErrorResponse::CustomerNotFound));
    let (_, step) = delete_customer(
        DeleteCustomer::FindingCustomer { customer_id: id() },
        DeleteAnswer::CustomerFound(Err(StorageError::CustomerRedacted)),
    );
    assert!(is_done_with(&step, CustomersErrorResponse::CustomerRedacted));
    let (_, step) = delete_customer(
        DeleteCustomer::FindingMandates { customer_id: id() },
        DeleteAnswer::MandatesFound(Err(StorageError::KVError)),
    );
    assert!(is_done_with(&step, CustomersErrorResponse::InternalServerError));
    let (state, step) = delete_customer(
        DeleteCustomer::FindingPaymentMethods { customer_id: id() },
        DeleteAnswer::PaymentMethodsFound(Err(not_found())),
    );
    assert!(state == DeleteCustomer::EncryptingMarker { customer_id: id() });
    assert!(step == DeleteStep::Request(DeleteRequest::EncryptMarker));
    let (_, step) = delete_customer(
        DeleteCustomer::FindingPaymentMethods { customer_id: id() },
        DeleteAnswer::PaymentMethodsFound(Err(StorageError::DatabaseConnectionError)),
    );
    assert!(is_done_with(&step, CustomersErrorResponse::InternalServerError));
    let (_, step) = delete_customer(
        DeleteCustomer::DeletingPaymentMethods { customer_id: id() },
        DeleteAnswer::PaymentMethodsDeleted(Err(CustomersErrorResponse::CustomerNotFound)),
    );
    assert!(is_done_with(&step, CustomersErrorResponse::CustomerNotFound));
    let (_, step) = delete_customer(
        DeleteCustomer::EncryptingMarker { customer_id: id() },
        DeleteAnswer::MarkerEncrypted(None),
    );
    assert!(is_done_with(&step, CustomersErrorResponse::InternalServerError));
    let (_, step) = delete_customer(
        DeleteCustomer::UpdatingAddress { customer_id: id(), redacted: encrypted("Redacted", 1) },
        DeleteAnswer::AddressUpdated(Err(StorageError::KVError)),
    );
    assert!(is_done_with(&step, CustomersErrorResponse::InternalServerError));
    let (_, step) = delete_customer(
        DeleteCustomer::UpdatingCustomer { customer_id: id() },
        DeleteAnswer::CustomerUpdated(Err(not_found())),
    );
    assert!(is_done_with(&step, CustomersErrorResponse::CustomerNotFound));
    let (_, step) =
        delete_customer(DeleteCustomer::Finished, DeleteAnswer::CustomerUpdated(Ok(())));
    assert!(is_done_with(&step, CustomersErrorResponse::InternalServerError));
    let (_, step) = delete_customer(
        DeleteCustomer::FindingCustomer { customer_id: id() },
        DeleteAnswer::CustomerUpdated(Ok(())),
    );
    assert!(is_done_with(&step, CustomersErrorResponse::InternalServerError));
}

fn request(address: bool) -> CustomerRequest {
    CustomerRequest {
        customer_id: "C1".to_string(),
        merchant_id: String::new(),
        name: Some(Secret::new("A Payer".to_string())),
        email: None,
        phone: Some(Secret::new("555".to_string())),
        description: Some("regular".to_string()),
        phone_country_code: Some("+1".to_string()),
        address: if address {
            Some(AddressDetails {
                city: Some("Berlin".to_string()),
                country: Some("DE".to_string()),
                line1: Some(Secret::new("Street 1".to_string())),
                line2: None,
                line3: None,
                zip: Some(Secret::new("10115".to_string())),
                state: None,
                first_name: None,
                last_name: None,
            })
        } else {
            None
        },
        metadata: None,
    }
}

fn encrypted_address() -> EncryptedAddress {
    EncryptedAddress {
        line1: Some(encrypted("Street 1", 1)),
        line2: None,
        line3: None,
        zip: Some(encrypted("10115", 2)),
        state: None,
        first_name: None,
        last_name: None,
        phone_number: Some(encrypted("555", 3)),
    }
}

fn encrypted_customer() -> EncryptedCustomer {
    EncryptedCustomer {
        name: Some(encrypted("A Payer", 4)),
        email: None,
        phone: Some(encrypted("555", 5)),
    }
}

fn stored_customer(created_at: i128) -> Customer {
    Customer {
        id: Some(9),
        customer_id: "C1".to_string(),
        merchant_id: "T1".to_string(),
        name: Some(encrypted("A Payer", 4)),
        email: None,
        phone: Some(encrypted("555", 5)),
        phone_country_code: Some("+1".to_string()),
        description: Some("regular".to_string()),
        created_at: Timestamp { nanos: created_at },
        metadata: None,
        connector_customer: None,
        modified_at: Timestamp { nanos: created_at },
    }
}

#[test]
fn customer_with_an_address_is_created_step_by_step() {
    let now = Timestamp { nanos: 50 };
    let (state, step) =
        CreateCustomer::start(request(true), "T1".to_string(), "add_1".to_string(), now);
    assert!(
        step == CustomerStep::Ask(CustomerAsk::EncryptAddress {
            address: request(true).address.unwrap(),
            phone: Some(Secret::new("555".to_string())),
        })
    );
    let (state, step) =
        create_customer(state, CustomerAnswer::AddressEncrypted(Some(encrypted_address())));
    match step {
        CustomerStep::Ask(CustomerAsk::InsertAddress { address }) => {
            assert_eq!(address.address_id, "add_1");
            assert_eq!(address.customer_id, "C1");
            assert_eq!(address.merchant_id, "T1");
            assert_eq!(address.city, Some("Berlin".to_string()));
            assert_eq!(address.country_code, Some("+1".to_string()));
            assert!(address.line1 == Some(encrypted("Street 1", 1)));
            assert!(address.phone_number == Some(encrypted("555", 3)));
            assert!(address.line2.is_none());
            assert_eq!(address.created_at, now);
            assert_eq!(address.id, None);
        }
        _ => panic!("expected the address to be inserted"),
    }
    let (state, step) = create_customer(state, CustomerAnswer::AddressWritten(Ok(())));
    assert!(
        step == CustomerStep::Ask(CustomerAsk::EncryptCustomer {
            name: Some(Secret::new("A Payer".to_string())),
            email: None,
            phone: Some(Secret::new("555".to_string())),
        })
    );
    let (state, step) =
        create_customer(state, CustomerAnswer::CustomerEncrypted(Some(encrypted_customer())));
    match step {
        CustomerStep::Ask(CustomerAsk::InsertCustomer { customer }) => {
            assert_eq!(customer.customer_id, "C1");
            assert_eq!(customer.merchant_id, "T1");
            assert!(customer.name == Some(encrypted("A Payer", 4)));
            assert_eq!(customer.description, Some("regular".to_string()));
            assert_eq!(customer.modified_at, now);
            assert_eq!(customer.id, None);
        }
        _ => panic!("expected the customer to be inserted"),
    }
    let (state, step) =
        create_customer(state, CustomerAnswer::CustomerWritten(Ok(stored_customer(50))));
    assert!(state == CreateCustomer::Finished);
    match step {
        CustomerStep::Done(Ok(response)) => {
            assert_eq!(response.customer_id, "C1");
            assert!(response.name == Some(Secret::new("A Payer".to_string())));
            assert!(response.email.is_none());
            assert!(response.address == request(true).address);
            assert_eq!(response.created_at, now);
        }
        _ => panic!("expected the customer"),
    }
}

#[test]
fn customer_creation_started_at_the_clock_asks_the_same() {
    let (state, step) =
        CreateCustomer::start_now(request(false), "T1".to_string(), "add_1".to_string());
    assert!(
        step == CustomerStep::Ask(CustomerAsk::EncryptCustomer {
            name: Some(Secret::new("A Payer".to_string())),
            email: None,
            phone: Some(Secret::new("555".to_string())),
        })
    );
    let (_, step) =
        create_customer(state, CustomerAnswer::CustomerEncrypted(Some(encrypted_customer())));
    match step {
        CustomerStep::Ask(CustomerAsk::InsertCustomer { customer }) => {
            assert!(customer.created_at.nanos > 1_600_000_000_000_000_000);
            assert_eq!(customer.created_at, customer.modified_at);
            assert_eq!(customer.merchant_id, "T1");
        }
        _ => panic!("expected the customer to be inserted"),
    }
}

#[test]
fn existing_customer_is_returned_in_the_place_of_a_new_one() {
    let now = Timestamp { nanos: 50 };
    let (state, step) =
        CreateCustomer::start(request(false), "T1".to_string(), "add_1".to_string(), now);
    assert!(matches!(step, CustomerStep::Ask(CustomerAsk::EncryptCustomer { .. })));
    let (state, _) =
        create_customer(state, CustomerAnswer::CustomerEncrypted(Some(encrypted_customer())));
    let (state, step) = create_customer(
        state,
        CustomerAnswer::CustomerWritten(Err(StorageError::DuplicateValue {
            entity: "customer",
            key: None,
        })),
    );
    assert!(
        step == CustomerStep::Ask(CustomerAsk::FindCustomer {
            customer_id: "C1".to_string(),
            merchant_id: "T1".to_string(),
        })
    );
    let (_, step) = create_customer(state, CustomerAnswer::CustomerFound(Ok(stored_customer(7))));
    match step {
        CustomerStep::Done(Ok(response)) => {
            assert_eq!(response.created_at, Timestamp { nanos: 7 });
            assert!(response.address.is_none());
        }
        _ => panic!("expected the existing customer"),
    }
}

#[test]
fn customer_creation_failures() {
    let now = Timestamp { nanos: 50 };
    let refused = |e| CustomerStep::Done(Err(e));
    let start = |address| CreateCustomer::start(
        request(address),
        "T1".to_string(),
        "a".to_string(),
        now,
    ).0;
    let (_, step) = create_customer(start(true), CustomerAnswer::AddressEncrypted(None));
    assert!(step == refused(CustomersErrorResponse::InternalServerError));
    let (state, _) =
        create_customer(start(true), CustomerAnswer::AddressEncrypted(Some(encrypted_address())));
    let (_, step) =
        create_customer(state, CustomerAnswer::AddressWritten(Err(StorageError::KVError)));
    assert!(step == refused(CustomersErrorResponse::InternalServerError));
    let (_, step) = create_customer(start(false), CustomerAnswer::CustomerEncrypted(None));
    assert!(step == refused(CustomersErrorResponse::InternalServerError));
    let (state, _) =
        create_customer(
            start(false),
            CustomerAnswer::CustomerEncrypted(Some(encrypted_customer())),
        );
    let (_, step) = create_customer(
        state,
        CustomerAnswer::CustomerWritten(Err(StorageError::DatabaseConnectionError)),
    );
    assert!(step == refused(CustomersErrorResponse::InternalServerError));
    let (_, step) = create_customer(
        CreateCustomer::FindingCustomer { data: request(false) },
        CustomerAnswer::CustomerFound(Err(StorageError::CustomerRedacted)),
    );
    assert!(step == refused(CustomersErrorResponse::CustomerRedacted));
    let (_, step) =
        create_customer(CreateCustomer::Finished, CustomerAnswer::AddressWritten(Ok(())));
    assert!(step == refused(CustomersErrorResponse::InternalServerError));
}

#[test]
fn customer_is_read() {
    match retrieve_customer(Ok(stored_customer(7))) {
        Ok(response) => {
            assert_eq!(response.customer_id, "C1");
            assert!(response.phone == Some(Secret::new("555".to_string())));
            assert!(response.address.is_none());
            assert_eq!(response.description, Some("regular".to_string()));
        }
        Err(e) => panic!("expected the customer, got {:?}", e),
    }
    assert!(
        retrieve_customer(Err(not_found())).err() == Some(CustomersErrorResponse::CustomerNotFound),
    );
}

#[test]
fn customer_with_an_address_is_updated_step_by_step() {
    let (state, step) = UpdateCustomer::start(request(true), "T1".to_string());
    assert!(
        step == CustomerStep::Ask(CustomerAsk::FindCustomer {
            customer_id: "C1".to_string(),
            merchant_id: "T1".to_string(),
        })
    );
    let (state, step) =
        update_customer(state, CustomerAnswer::CustomerFound(Ok(stored_customer(7))));
    assert!(matches!(step, CustomerStep::Ask(CustomerAsk::EncryptAddress { .. })));
    let (state, step) =
        update_customer(state, CustomerAnswer::AddressEncrypted(Some(encrypted_address())));
    assert!(
        step == CustomerStep::Ask(CustomerAsk::UpdateAddress {
            customer_id: "C1".to_string(),
            merchant_id: "T1".to_string(),
            update: AddressUpdate::Update {
                city: Some("Berlin".to_string()),
                country: Some("DE".to_string()),
                line1: Some(encrypted("Street 1", 1)),
                line2: None,
                line3: None,
                state: None,
                zip: Some(encrypted("10115", 2)),
                first_name: None,
                last_name: None,
                phone_number: Some(encrypted("555", 3)),
                country_code: Some("+1".to_string()),
            },
        })
    );
    let (state, step) = update_customer(state, CustomerAnswer::AddressWritten(Ok(())));
    assert!(matches!(step, CustomerStep::Ask(CustomerAsk::EncryptCustomer { .. })));
    let (state, step) =
        update_customer(state, CustomerAnswer::CustomerEncrypted(Some(encrypted_customer())));
    assert!(
        step == CustomerStep::Ask(CustomerAsk::UpdateCustomer {
            customer_id: "C1".to_string(),
            merchant_id: "T1".to_string(),
            update: CustomerUpdate::Update {
                name: Some(encrypted("A Payer", 4)),
                email: None,
                phone: Some(encrypted("555", 5)),
                description: Some("regular".to_string()),
                phone_country_code: Some("+1".to_string()),
                metadata: None,
                connector_customer: None,
            },
        })
    );
    let (state, step) =
        update_customer(state, CustomerAnswer::CustomerWritten(Ok(stored_customer(7))));
    assert!(state == UpdateCustomer::Finished);
    assert!(matches!(step, CustomerStep::Done(Ok(_))));
}

#[test]
fn customer_update_failures() {
    let refused = |e| CustomerStep::Done(Err(e));
    let start = || UpdateCustomer::start(request(false), "T1".to_string()).0;
    let (_, step) = update_customer(start(), CustomerAnswer::CustomerFound(Err(not_found())));
    assert!(step == refused(CustomersErrorResponse::CustomerNotFound));
    let (state, step) =
        update_customer(start(), CustomerAnswer::CustomerFound(Ok(stored_customer(7))));
    assert!(matches!(step, CustomerStep::Ask(CustomerAsk::EncryptCustomer { .. })));
    let (_, step) = update_customer(state, CustomerAnswer::CustomerEncrypted(None));
    assert!(step == refused(CustomersErrorResponse::InternalServerError));
    let (_, step) = update_customer(
        UpdateCustomer::UpdatingAddress { data: request(true) },
        CustomerAnswer::AddressWritten(Err(not_found())),
    );
    assert!(step == refused(CustomersErrorResponse::CustomerNotFound));
    let (_, step) = update_customer(
        UpdateCustomer::UpdatingCustomer { data: request(true) },
        CustomerAnswer::CustomerWritten(Err(StorageError::KVError)),
    );
    assert!(step == refused(CustomersErrorResponse::InternalServerError));
}
