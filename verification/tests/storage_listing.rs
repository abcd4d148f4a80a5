use switch_core::clock::Timestamp;
use switch_core::domain::{PaymentAttempt, PaymentAttemptNew, PaymentAttemptUpdate};
use switch_core::enums::{
    AttemptStatus, Connector, Currency, IntentStatus, MerchantStorageScheme, PaymentMethod,
};
use switch_core::errors::{DatabaseError, StorageError};
use switch_core::memory::backend::{matches_pattern, MemoryBackend};
use switch_core::reverse_lookup::ReverseLookupNew;
use switch_core::router::listing::{connector_strings, PaymentIntent, PaymentListFilters};
use switch_core::router::protocol::{StoreRequest, StoreResponse};
use switch_core::router::store::{KVRouterStore, RouterStore};

fn at(nanos: i128) -> Timestamp {
    Timestamp { nanos }
}

fn attempt(
    payment: &str,
    attempt: &str,
    connector: Option<&str>,
    currency: Option<Currency>,
    method: Option<PaymentMethod>,
) -> PaymentAttemptNew {
    PaymentAttemptNew {
        payment_id: payment.to_string(),
        merchant_id: "T1".to_string(),
        attempt_id: attempt.to_string(),
        status: AttemptStatus::Started,
        amount: 500,
        currency,
        save_to_locker: None,
        connector: connector.map(|c| c.to_string()),
        error_message: None,
        offer_amount: None,
        surcharge_amount: None,
        tax_amount: None,
        payment_method_id: None,
        payment_method: method,
        capture_method: None,
        capture_on: None,
        confirm: false,
        authentication_type: None,
        created_at: Some(at(1)),
        modified_at: Some(at(1)),
        last_synced: None,
        cancellation_reason: None,
        amount_to_capture: None,
        mandate_id: None,
        browser_info: None,
        payment_token: None,
        error_code: None,
        connector_metadata: None,
        payment_experience: None,
        payment_method_type: None,
        payment_method_data: None,
        business_sub_label: None,
        straight_through_algorithm: None,
        preprocessing_step_id: None,
        mandate_details: None,
        error_reason: None,
        connector_response_reference_id: None,
        multiple_capture_count: None,
        amount_capturable: 0,
    }
}

fn intent(payment: &str, active: &str, status: IntentStatus) -> PaymentIntent {
    PaymentIntent {
        payment_id: payment.to_string(),
        merchant_id: "T1".to_string(),
        status,
        active_attempt_id: active.to_string(),
    }
}

fn filled() -> KVRouterStore {
    let mut store = KVRouterStore::new(RouterStore::new(MemoryBackend::new()));
    for new in [
        attempt("X1", "A1", Some("square"), Some(Currency::USD), Some(PaymentMethod::Card)),
        attempt("X2", "A2", Some("stripe"), Some(Currency::EUR), Some(PaymentMethod::Wallet)),
        attempt("X3", "A3", Some("square"), Some(Currency::USD), None),
        attempt("X4", "A4", None, None, Some(PaymentMethod::Card)),
        attempt("X5", "A5", Some("adyen"), Some(Currency::GBP), Some(PaymentMethod::Card)),
    ] {
        store
            .insert_payment_attempt_at(new, MerchantStorageScheme::PostgresOnly, at(1), at(1))
            .unwrap();
    }
    store
}

fn ids(list: &[&str]) -> Vec<String> {
    list.iter().map(|s| s.to_string()).collect()
}

#[test]
fn connectors_are_named_in_lower_case() {
    assert_eq!(Connector::Square.to_string(), "square");
    assert_eq!(Connector::Authorizedotnet.to_string(), "authorizedotnet");
    assert_eq!(
        connector_strings(&vec![Connector::Stripe, Connector::Shift4]),
        vec!["stripe".to_string(), "shift4".to_string()]
    );
}

#[test]
fn attempts_are_counted_by_merchant_and_identifier() {
    let store = filled();
    let scheme = MerchantStorageScheme::RedisKv;
    let all = ids(&["A1", "A2", "A3", "A4", "A9"]);
    assert_eq!(
        store.get_total_count_of_filtered_payment_attempts("T1", &all, None, None, scheme),
        Ok(4)
    );
    assert_eq!(
        store.get_total_count_of_filtered_payment_attempts("T2", &all, None, None, scheme),
        Ok(0)
    );
    assert_eq!(
        store.get_total_count_of_filtered_payment_attempts("T1", &Vec::new(), None, None, scheme),
        Ok(0)
    );
}

#[test]
fn attempts_are_counted_by_connector_and_payment_method() {
    let store = filled();
    let scheme = MerchantStorageScheme::PostgresOnly;
    let all = ids(&["A1", "A2", "A3", "A4", "A5"]);
    assert_eq!(
        store.get_total_count_of_filtered_payment_attempts(
            "T1",
            &all,
            Some(vec![Connector::Square]),
            None,
            scheme
        ),
        Ok(2)
    );
    assert_eq!(
        store.get_total_count_of_filtered_payment_attempts(
            "T1",
            &all,
            Some(vec![Connector::Square, Connector::Adyen]),
            Some(vec![PaymentMethod::Card]),
            scheme
        ),
        Ok(2)
    );
    assert_eq!(
        store.get_total_count_of_filtered_payment_attempts(
            "T1",
            &all,
            None,
            Some(vec![PaymentMethod::Card]),
            scheme
        ),
        Ok(3)
    );
    assert_eq!(
        store.get_total_count_of_filtered_payment_attempts(
            "T1",
            &all,
            Some(Vec::new()),
            None,
            scheme,
        ),
        Ok(0)
    );
}

#[test]
fn count_fails_while_the_durable_store_is_unreachable() {
    let mut store = filled();
    store.backend().set_database_online(false);
    assert_eq!(
        store.get_total_count_of_filtered_payment_attempts(
            "T1",
            &ids(&["A1"]),
            None,
            None,
            MerchantStorageScheme::RedisKv
        ),
        Err(StorageError::DatabaseConnectionError)
    );
    assert_eq!(
        store.get_filters_for_payments(&Vec::new(), "T1", MerchantStorageScheme::RedisKv),
        Err(StorageError::DatabaseConnectionError)
    );
}

#[test]
fn filters_list_each_value_once_in_order_of_first_occurrence() {
    let store = filled();
    let intents = vec![
        intent("X5", "A5", IntentStatus::Succeeded),
        intent("X1", "A1", IntentStatus::Processing),
        intent("X3", "A3", IntentStatus::Succeeded),
        intent("X4", "A4", IntentStatus::Failed),
        intent("X9", "A9", IntentStatus::Processing),
    ];
    assert_eq!(
        store.get_filters_for_payments(&intents, "T1", MerchantStorageScheme::RedisKv),
        Ok(PaymentListFilters {
            connector: vec!["square".to_string(), "adyen".to_string()],
            currency: vec![Currency::USD, Currency::GBP],
            status: vec![IntentStatus::Succeeded, IntentStatus::Processing, IntentStatus::Failed],
            payment_method: vec![PaymentMethod::Card],
        })
    );
    assert_eq!(
        store.get_filters_for_payments(&Vec::new(), "T1", MerchantStorageScheme::PostgresOnly),
        Ok(PaymentListFilters {
            connector: Vec::new(),
            currency: Vec::new(),
            status: Vec::new(),
            payment_method: Vec::new(),
        })
    );
}

#[test]
fn field_patterns_match_by_prefix_or_exactly() {
    assert!(matches_pattern("pa_*", "pa_A1"));
    assert!(matches_pattern("pa_*", "pa_"));
    assert!(!matches_pattern("pa_*", "pi_A1"));
    assert!(!matches_pattern("pa_*", "pa"));
    assert!(matches_pattern("*", "anything"));
    assert!(matches_pattern("*", ""));
    assert!(matches_pattern("pa_A1", "pa_A1"));
    assert!(!matches_pattern("pa_A1", "pa_A12"));
    assert!(matches_pattern("", ""));
    assert!(!matches_pattern("", "x"));
}

#[test]
fn attempts_of_an_indexed_payment_are_scanned_from_the_cache() {
    let mut store = KVRouterStore::new(RouterStore::new(MemoryBackend::new()));
    let mut cached = Vec::new();
    for (payment, id) in [("X1", "A1"), ("X2", "A2"), ("X1", "A3")] {
        let created = store
            .insert_payment_attempt_at(
                attempt(payment, id, None, None, None),
                MerchantStorageScheme::RedisKv,
                at(1),
                at(1),
            )
            .unwrap();
        if payment == "X1" {
            cached.push(created);
        }
    }
    let answer = store.backend().perform(StoreRequest::InsertLookup {
        entry: ReverseLookupNew {
            lookup_id: "T1_X1".to_string(),
            pk_id: "T1_X1".to_string(),
            sk_id: "pa_A1".to_string(),
            source: "payment_attempt".to_string(),
        },
    });
    assert!(matches!(answer, StoreResponse::Lookup(Ok(_))));
    assert_eq!(
        store.find_attempts_by_merchant_id_payment_id("T1", "X1", MerchantStorageScheme::RedisKv),
        Ok(cached)
    );
    assert_eq!(
        store.find_attempts_by_merchant_id_payment_id(
            "T1",
            "X1",
            MerchantStorageScheme::PostgresOnly,
        ),
        Ok(Vec::new())
    );
}

#[test]
fn index_entries_are_never_overwritten() {
    let mut backend = MemoryBackend::new();
    let entry = |pk: &str| ReverseLookupNew {
        lookup_id: "T1_CT1".to_string(),
        pk_id: pk.to_string(),
        sk_id: "pa_A1".to_string(),
        source: "payment_attempt".to_string(),
    };
    assert!(matches!(
        backend.perform(StoreRequest::InsertLookup { entry: entry("T1_X1") }),
        StoreResponse::Lookup(Ok(_))
    ));
    assert_eq!(
        backend.perform(StoreRequest::InsertLookup { entry: entry("T1_X2") }),
        StoreResponse::Lookup(Err(DatabaseError::UniqueViolation))
    );
    assert_eq!(backend.lookup("T1_CT1").unwrap().pk_id, "T1_X1");
    assert!(backend.lookup("T1_CT2").is_none());
    assert!(backend.database_online());
    assert!(backend.cache_online());
}

fn replay_all(from: &mut KVRouterStore, into: &mut MemoryBackend, instants: &[i128]) {
    let mut position = 0;
    while let Some(intent) = from.backend().intent_at(position) {
        let _ = into.replay(intent, at(instants[position]));
        position += 1;
    }
    assert_eq!(position, instants.len());
}

#[test]
fn replayed_intents_leave_the_durable_store_as_direct_writes_would() {
    let update = |ct: &str| PaymentAttemptUpdate::ResponseUpdate {
        status: AttemptStatus::Authorized,
        connector: Some("square".to_string()),
        connector_transaction_id: Some(ct.to_string()),
        authentication_type: None,
        payment_method_id: None,
        mandate_id: None,
        connector_metadata: None,
        payment_token: None,
        error_code: None,
        error_message: None,
        error_reason: None,
        connector_response_reference_id: None,
        amount_capturable: Some(500),
    };
    let charge = || PaymentAttemptUpdate::StatusUpdate { status: AttemptStatus::Charged };
    let new = || attempt("X1", "A1", None, Some(Currency::USD), Some(PaymentMethod::Card));

    let mut cache_first = KVRouterStore::new(RouterStore::new(MemoryBackend::new()));
    let kv = MerchantStorageScheme::RedisKv;
    let created: PaymentAttempt =
        cache_first.insert_payment_attempt_at(new(), kv, at(10), at(10)).unwrap();
    assert!(cache_first.insert_payment_attempt_at(new(), kv, at(11), at(11)).is_err());
    let authorized = cache_first
        .update_payment_attempt_with_attempt_id_at(created.clone(), update("CT1"), kv, at(20))
        .unwrap();
    let charged = cache_first
        .update_payment_attempt_with_attempt_id_at(authorized.clone(), charge(), kv, at(30))
        .unwrap();
    assert_eq!(cache_first.backend().drain_len(), 3);
    assert!(cache_first.backend().rows().is_empty());

    let mut drained = MemoryBackend::new();
    replay_all(&mut cache_first, &mut drained, &[100, 200, 300]);

    let mut direct = RouterStore::new(MemoryBackend::new());
    let durable = MerchantStorageScheme::PostgresOnly;
    direct.insert_payment_attempt_at(new(), durable, at(100), at(100)).unwrap();
    direct
        .update_payment_attempt_with_attempt_id_at(created, update("CT1"), durable, at(200))
        .unwrap();
    direct
        .update_payment_attempt_with_attempt_id_at(authorized, charge(), durable, at(300))
        .unwrap();

    assert_eq!(drained.rows(), direct.backend().rows());
    let row = &drained.rows()[0];
    assert_eq!(row.status, AttemptStatus::Charged);
    assert_eq!(row.connector_transaction_id, Some("CT1".to_string()));
    assert_eq!(row.amount_capturable, 500);
    assert_eq!(row.modified_at, at(300));
    assert_eq!(row.id, 1);
    assert_eq!(row.status, charged.status);
    assert_eq!(row.connector_transaction_id, charged.connector_transaction_id);
}
