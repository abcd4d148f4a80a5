use switch_core::clock::Timestamp;
use switch_core::domain::{PaymentAttempt, PaymentAttemptNew, PaymentAttemptUpdate};
use switch_core::enums::{AttemptStatus, Currency, MerchantStorageScheme};
use switch_core::errors::StorageError;
use switch_core::kv::{DBOperation, Insertable, Updateable};
use switch_core::memory::backend::MemoryBackend;
use switch_core::router::store::{KVRouterStore, RouterStore};

fn at(nanos: i128) -> Timestamp {
    Timestamp { nanos }
}

fn new_attempt(merchant: &str, payment: &str, attempt: &str, amount: i64) -> PaymentAttemptNew {
    PaymentAttemptNew {
        payment_id: payment.to_string(),
        merchant_id: merchant.to_string(),
        attempt_id: attempt.to_string(),
        status: AttemptStatus::Started,
        amount,
        currency: Some(Currency::USD),
        save_to_locker: None,
        connector: None,
        error_message: None,
        offer_amount: None,
        surcharge_amount: None,
        tax_amount: None,
        payment_method_id: None,
        payment_method: None,
        capture_method: None,
        capture_on: None,
        confirm: false,
        authentication_type: None,
        created_at: Some(at(1_000)),
        modified_at: Some(at(1_000)),
        last_synced: None,
        cancellation_reason: None,
        amount_to_capture: None,
        mandate_id: None,
        browser_info: None,
        payment_token: None,
        error_code: None,
        connector_metadata: None,
        payment_experience: None,
        payment_method_type: None,
        payment_method_data: None,
        business_sub_label: None,
        straight_through_algorithm: None,
        preprocessing_step_id: None,
        mandate_details: None,
        error_reason: None,
        connector_response_reference_id: None,
        multiple_capture_count: None,
        amount_capturable: 0,
    }
}

fn store() -> KVRouterStore {
    KVRouterStore::new(RouterStore::new(MemoryBackend::new()))
}

fn authorized_with(connector_transaction_id: &str) -> PaymentAttemptUpdate {
    PaymentAttemptUpdate::ResponseUpdate {
        status: AttemptStatus::Authorized,
        connector: Some("square".to_string()),
        connector_transaction_id: Some(connector_transaction_id.to_string()),
        authentication_type: None,
        payment_method_id: None,
        mandate_id: None,
        connector_metadata: None,
        payment_token: None,
        error_code: None,
        error_message: None,
        error_reason: None,
        connector_response_reference_id: None,
        amount_capturable: None,
    }
}

fn insert_a1(store: &mut KVRouterStore) -> PaymentAttempt {
    store
        .insert_payment_attempt_at(
            new_attempt("T1", "X1", "A1", 500),
            MerchantStorageScheme::RedisKv,
            at(5),
            at(6),
        )
        .expect("the first insertion succeeds")
}

#[test]
fn cache_first_insert_returns_the_created_attempt() {
    let mut store = store();
    let created = insert_a1(&mut store);
    assert_eq!(created.status, AttemptStatus::Started);
    assert_eq!(created.amount, 500);
    assert_eq!(created.id, 0);
    assert_eq!(created.merchant_id, "T1");
    assert_eq!(created.payment_id, "X1");
    assert_eq!(created.attempt_id, "A1");
    assert_eq!(created.connector_transaction_id, None);
    assert_eq!(created.created_at, at(1_000));
    assert_eq!(created.modified_at, at(1_000));
    assert_eq!(store.backend().cached_attempt("T1_X1", "pa_A1"), Some(created));
}

#[test]
fn cache_first_insert_takes_clock_readings_where_no_creation_time_is_given() {
    let mut store = store();
    let mut new = new_attempt("T1", "X1", "A1", 500);
    new.created_at = None;
    let created = store
        .insert_payment_attempt_at(new, MerchantStorageScheme::RedisKv, at(5), at(6))
        .unwrap();
    assert_eq!(created.created_at, at(5));
    assert_eq!(created.modified_at, at(6));
}

#[test]
fn second_insert_of_the_same_attempt_is_a_duplicate_and_changes_nothing() {
    let mut store = store();
    let created = insert_a1(&mut store);
    let second = store.insert_payment_attempt_at(
        new_attempt("T1", "X1", "A1", 700),
        MerchantStorageScheme::RedisKv,
        at(7),
        at(8),
    );
    assert_eq!(
        second,
        Err(StorageError::DuplicateValue {
            entity: "payment attempt",
            key: Some("T1_X1".to_string()),
        })
    );
    let cached = store.backend().cached_attempt("T1_X1", "pa_A1").unwrap();
    assert_eq!(cached.amount, 500);
    assert_eq!(cached, created);
    assert_eq!(store.backend().drain_len(), 1);
}

#[test]
fn duplicate_is_permanent_and_not_retryable() {
    let mut store = store();
    insert_a1(&mut store);
    let error = store
        .insert_payment_attempt_at(
            new_attempt("T1", "X1", "A1", 700),
            MerchantStorageScheme::RedisKv,
            at(7),
            at(8),
        )
        .unwrap_err();
    assert!(error.is_db_unique_violation());
    assert!(!error.is_retryable());
    assert!(!error.is_db_not_found());
}

#[test]
fn same_attempt_identifier_under_another_payment_is_refused_by_the_index() {
    let mut store = store();
    insert_a1(&mut store);
    let second = store.insert_payment_attempt_at(
        new_attempt("T1", "X2", "A1", 700),
        MerchantStorageScheme::RedisKv,
        at(7),
        at(8),
    );
    assert_eq!(second, Err(StorageError::DuplicateValue { entity: "entity ", key: None }));
    assert!(store.backend().cached_attempt("T1_X2", "pa_A1").is_some());
    assert_eq!(store.backend().drain_len(), 1);
}

#[test]
fn cache_first_insert_writes_the_reverse_lookup_and_the_intent() {
    let mut store = store();
    insert_a1(&mut store);
    let lookup = store.backend().lookup("T1_A1").expect("the attempt is indexed");
    assert_eq!(lookup.lookup_id, "T1_A1");
    assert_eq!(lookup.pk_id, "T1_X1");
    assert_eq!(lookup.sk_id, "pa_A1");
    assert_eq!(lookup.source, "payment_attempt");
    assert_eq!(store.backend().drain_len(), 1);
    let intent = store.backend().intent_at(0).unwrap();
    assert_eq!(intent.operation(), "insert");
    assert_eq!(intent.table(), "payment_attempt");
    match intent.op {
        DBOperation::Insert { insertable: Insertable::PaymentAttempt(new) } => {
            assert_eq!(new.amount, 500);
            assert_eq!(new.attempt_id, "A1");
        }
        other => panic!("expected an insertion, got {:?}", other),
    }
    assert_eq!(store.backend().intent_at(1), None);
    assert!(store.backend().rows().is_empty());
}

#[test]
fn inserted_attempt_is_found_by_its_identifier() {
    let mut store = store();
    let created = insert_a1(&mut store);
    assert_eq!(
        store.find_payment_attempt_by_attempt_id_merchant_id(
            "A1",
            "T1",
            MerchantStorageScheme::RedisKv
        ),
        Ok(created.clone())
    );
    assert_eq!(
        store.find_payment_attempt_by_payment_id_merchant_id_attempt_id(
            "X1",
            "T1",
            "A1",
            MerchantStorageScheme::RedisKv
        ),
        Ok(created)
    );
}

#[test]
fn update_attaches_the_connector_transaction_id_and_makes_the_attempt_findable_by_it() {
    let mut store = store();
    let created = insert_a1(&mut store);
    let updated = store
        .update_payment_attempt_with_attempt_id_at(
            created,
            authorized_with("CT1"),
            MerchantStorageScheme::RedisKv,
            at(2_000),
        )
        .unwrap();
    assert_eq!(updated.status, AttemptStatus::Authorized);
    assert_eq!(updated.connector_transaction_id, Some("CT1".to_string()));
    assert_eq!(updated.connector, Some("square".to_string()));
    assert_eq!(updated.amount, 500);
    assert_eq!(updated.modified_at, at(2_000));
    assert_eq!(updated.created_at, at(1_000));
    let found = store
        .find_payment_attempt_by_merchant_id_connector_txn_id(
            "T1",
            "CT1",
            MerchantStorageScheme::RedisKv,
        )
        .unwrap();
    assert_eq!(found, updated);
    assert_eq!(found.status, AttemptStatus::Authorized);
    assert_eq!(
        store.find_payment_attempt_by_connector_transaction_id_payment_id_merchant_id(
            "CT1",
            "X1",
            "T1",
            MerchantStorageScheme::RedisKv
        ),
        Ok(updated.clone())
    );
    let lookup = store.backend().lookup("T1_CT1").unwrap();
    assert_eq!(lookup.pk_id, "T1_X1");
    assert_eq!(lookup.sk_id, "pa_A1");
    assert_eq!(store.backend().cached_attempt("T1_X1", "pa_A1"), Some(updated));
}

#[test]
fn update_intent_carries_the_pre_image_and_the_update() {
    let mut store = store();
    let created = insert_a1(&mut store);
    store
        .update_payment_attempt_with_attempt_id_at(
            created,
            authorized_with("CT1"),
            MerchantStorageScheme::RedisKv,
            at(2_000),
        )
        .unwrap();
    assert_eq!(store.backend().drain_len(), 2);
    let intent = store.backend().intent_at(1).unwrap();
    assert_eq!(intent.operation(), "update");
    match intent.op {
        DBOperation::Update { updatable: Updateable::PaymentAttemptUpdate(mems) } => {
            assert_eq!(mems.orig.status, AttemptStatus::Started);
            assert_eq!(mems.orig.connector_transaction_id, None);
            match mems.update_data {
                switch_core::storage::PaymentAttemptUpdate::ResponseUpdate {
                    status,
                    connector_transaction_id,
                    ..
                } => {
                    assert_eq!(status, AttemptStatus::Authorized);
                    assert_eq!(connector_transaction_id, Some("CT1".to_string()));
                }
                other => panic!("expected a response update, got {:?}", other),
            }
        }
        other => panic!("expected an update, got {:?}", other),
    }
}

#[test]
fn changed_identifier_gets_a_new_entry_and_the_old_one_stays() {
    let mut store = store();
    let created = insert_a1(&mut store);
    let first = store
        .update_payment_attempt_with_attempt_id_at(
            created,
            authorized_with("CT1"),
            MerchantStorageScheme::RedisKv,
            at(2_000),
        )
        .unwrap();
    let second = store
        .update_payment_attempt_with_attempt_id_at(
            first,
            authorized_with("CT2"),
            MerchantStorageScheme::RedisKv,
            at(3_000),
        )
        .unwrap();
    assert_eq!(second.connector_transaction_id, Some("CT2".to_string()));
    for id in ["T1_CT1", "T1_CT2"] {
        let lookup = store.backend().lookup(id).unwrap();
        assert_eq!(lookup.pk_id, "T1_X1");
        assert_eq!(lookup.sk_id, "pa_A1");
    }
    assert_eq!(
        store.find_payment_attempt_by_merchant_id_connector_txn_id(
            "T1",
            "CT1",
            MerchantStorageScheme::RedisKv
        ),
        Ok(second.clone())
    );
    assert_eq!(
        store.find_payment_attempt_by_merchant_id_connector_txn_id(
            "T1",
            "CT2",
            MerchantStorageScheme::RedisKv
        ),
        Ok(second)
    );
}

#[test]
fn unchanged_identifier_adds_no_entry() {
    let mut store = store();
    let created = insert_a1(&mut store);
    let first = store
        .update_payment_attempt_with_attempt_id_at(
            created,
            authorized_with("CT1"),
            MerchantStorageScheme::RedisKv,
            at(2_000),
        )
        .unwrap();
    let second = store.update_payment_attempt_with_attempt_id_at(
        first,
        authorized_with("CT1"),
        MerchantStorageScheme::RedisKv,
        at(3_000),
    );
    assert!(second.is_ok());
    assert_eq!(store.backend().drain_len(), 3);
}

#[test]
fn preprocessing_identifier_is_indexed() {
    let mut store = store();
    let created = insert_a1(&mut store);
    let updated = store
        .update_payment_attempt_with_attempt_id_at(
            created,
            PaymentAttemptUpdate::PreprocessingUpdate {
                status: AttemptStatus::AuthenticationPending,
                payment_method_id: None,
                connector_metadata: None,
                preprocessing_step_id: Some("PRE1".to_string()),
                connector_transaction_id: None,
                connector_response_reference_id: None,
            },
            MerchantStorageScheme::RedisKv,
            at(2_000),
        )
        .unwrap();
    assert_eq!(
        store.find_payment_attempt_by_preprocessing_id_merchant_id(
            "PRE1",
            "T1",
            MerchantStorageScheme::RedisKv
        ),
        Ok(updated)
    );
}

#[test]
fn evicted_attempt_is_read_from_the_durable_store() {
    let mut store = store();
    let cached = insert_a1(&mut store);
    let durable = store
        .insert_payment_attempt_at(
            new_attempt("T1", "X1", "A1", 500),
            MerchantStorageScheme::PostgresOnly,
            at(9),
            at(9),
        )
        .unwrap();
    assert_eq!(durable.id, 1);
    assert_eq!(
        store.find_payment_attempt_by_attempt_id_merchant_id(
            "A1",
            "T1",
            MerchantStorageScheme::RedisKv
        ),
        Ok(cached)
    );
    assert!(store.backend().evict("T1_X1", "pa_A1"));
    assert!(!store.backend().evict("T1_X1", "pa_A1"));
    assert_eq!(
        store.find_payment_attempt_by_attempt_id_merchant_id(
            "A1",
            "T1",
            MerchantStorageScheme::RedisKv
        ),
        Ok(durable)
    );
    assert_eq!(store.backend().cached_attempt("T1_X1", "pa_A1"), None);
}

#[test]
fn attempt_absent_everywhere_is_not_found() {
    let store = store();
    let missing = store.find_payment_attempt_by_attempt_id_merchant_id(
        "A9",
        "T1",
        MerchantStorageScheme::RedisKv,
    );
    assert_eq!(missing, Err(StorageError::ValueNotFound("Value not found".to_string())));
    assert!(missing.unwrap_err().is_db_not_found());
}

#[test]
fn durable_only_insert_numbers_the_row_and_rejects_a_second_one() {
    let mut store = store();
    let first = store
        .insert_payment_attempt_at(
            new_attempt("T1", "X1", "A1", 500),
            MerchantStorageScheme::PostgresOnly,
            at(9),
            at(9),
        )
        .unwrap();
    assert_eq!(first.id, 1);
    assert_eq!(store.backend().drain_len(), 0);
    assert_eq!(store.backend().cached_attempt("T1_X1", "pa_A1"), None);
    let second = store.insert_payment_attempt_at(
        new_attempt("T1", "X1", "A1", 700),
        MerchantStorageScheme::PostgresOnly,
        at(9),
        at(9),
    );
    assert_eq!(second, Err(StorageError::DuplicateValue { entity: "entity ", key: None }));
    assert_eq!(store.backend().rows().len(), 1);
}

#[test]
fn durable_only_update_of_a_missing_row_is_not_found() {
    let mut store = store();
    let created = insert_a1(&mut store);
    let result = store.update_payment_attempt_with_attempt_id_at(
        created,
        authorized_with("CT1"),
        MerchantStorageScheme::PostgresOnly,
        at(2_000),
    );
    assert_eq!(result, Err(StorageError::ValueNotFound("Value not found".to_string())));
}

#[test]
fn router_store_ignores_the_scheme() {
    let mut store = RouterStore::new(MemoryBackend::new());
    let created = store
        .insert_payment_attempt_at(
            new_attempt("T1", "X1", "A1", 500),
            MerchantStorageScheme::RedisKv,
            at(9),
            at(9),
        )
        .unwrap();
    assert_eq!(created.id, 1);
    assert_eq!(store.backend().cached_attempt("T1_X1", "pa_A1"), None);
    assert_eq!(
        store.find_payment_attempt_by_attempt_id_merchant_id(
            "A1",
            "T1",
            MerchantStorageScheme::RedisKv
        ),
        Ok(created)
    );
}

#[test]
fn unreachable_cache_is_reported_with_its_reason_and_is_retryable() {
    let mut store = store();
    store.backend().set_cache_online(false);
    let result = store.insert_payment_attempt_at(
        new_attempt("T1", "X1", "A1", 500),
        MerchantStorageScheme::RedisKv,
        at(5),
        at(6),
    );
    assert_eq!(result, Err(StorageError::RedisError("cache is not reachable".to_string())));
    assert!(result.unwrap_err().is_retryable());
    store.backend().set_cache_online(true);
    assert!(insert_a1(&mut store).amount == 500);
}

#[test]
fn unreachable_database_fails_the_insert_after_the_cache_took_it() {
    let mut store = store();
    store.backend().set_database_online(false);
    let result = store.insert_payment_attempt_at(
        new_attempt("T1", "X1", "A1", 500),
        MerchantStorageScheme::RedisKv,
        at(5),
        at(6),
    );
    assert_eq!(result, Err(StorageError::DatabaseConnectionError));
    assert!(store.backend().cached_attempt("T1_X1", "pa_A1").is_some());
    assert_eq!(store.backend().drain_len(), 0);
}

#[test]
fn last_successful_attempt_is_the_charged_one_modified_last() {
    let mut store = store();
    for (attempt, status, modified) in [
        ("A1", AttemptStatus::Charged, 10),
        ("A2", AttemptStatus::Charged, 30),
        ("A3", AttemptStatus::Failure, 40),
        ("A4", AttemptStatus::Charged, 20),
    ] {
        let mut new = new_attempt("T1", "X1", attempt, 500);
        new.status = status;
        new.modified_at = Some(at(modified));
        store
            .insert_payment_attempt_at(new, MerchantStorageScheme::PostgresOnly, at(1), at(1))
            .unwrap();
    }
    let last = store
        .find_payment_attempt_last_successful_attempt_by_payment_id_merchant_id(
            "X1",
            "T1",
            MerchantStorageScheme::RedisKv,
        )
        .unwrap();
    assert_eq!(last.attempt_id, "A2");
}

#[test]
fn attempts_of_a_payment_are_listed_from_the_durable_store_when_the_payment_is_not_indexed() {
    let mut store = store();
    for (payment, attempt) in [("X1", "A1"), ("X2", "A2"), ("X1", "A3")] {
        store
            .insert_payment_attempt_at(
                new_attempt("T1", payment, attempt, 500),
                MerchantStorageScheme::PostgresOnly,
                at(1),
                at(1),
            )
            .unwrap();
    }
    let listed = store
        .find_attempts_by_merchant_id_payment_id("T1", "X1", MerchantStorageScheme::RedisKv)
        .unwrap();
    let ids: Vec<&str> = listed.iter().map(|a| a.attempt_id.as_str()).collect();
    assert_eq!(ids, vec!["A1", "A3"]);
}

#[test]
fn update_with_the_system_clock_sets_the_time_of_modification() {
    let mut store = store();
    let created = insert_a1(&mut store);
    let updated = store
        .update_payment_attempt_with_attempt_id(
            created,
            authorized_with("CT1"),
            MerchantStorageScheme::RedisKv,
        )
        .unwrap();
    assert!(updated.modified_at.nanos > 1_600_000_000_000_000_000);
    assert_eq!(updated.created_at, at(1_000));
    assert_eq!(updated.status, AttemptStatus::Authorized);
}

#[test]
fn insert_with_the_system_clock_fills_the_timestamps() {
    let mut store = store();
    let mut new = new_attempt("T1", "X1", "A1", 500);
    new.created_at = None;
    let created = store.insert_payment_attempt(new, MerchantStorageScheme::RedisKv).unwrap();
    assert!(created.created_at.nanos > 1_600_000_000_000_000_000);
    assert!(created.modified_at.nanos > 1_600_000_000_000_000_000);
    assert_eq!(store.backend().cached_attempt("T1_X1", "pa_A1"), Some(created));
}
