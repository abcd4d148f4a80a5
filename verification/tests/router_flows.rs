use switch_core::clock::Timestamp;
use switch_core::convert::DataModelExt;
use switch_core::domain::{
    MandateAmountData, MandateDataType, PaymentAttempt, PaymentAttemptNew, PaymentAttemptUpdate,
};
use switch_core::enums::{AttemptStatus, Currency, MerchantStorageScheme};
use switch_core::errors::{
    cache_failure_to_data_error, diesel_error_to_data_error, CacheFailure, DatabaseError,
    RedisError, StorageError,
};
use switch_core::kv::{PartitionKey, TypedSql};
use switch_core::reverse_lookup::{
    make_attempt_field, make_attempt_lookup, make_lookup_key, make_partition_key, ReverseLookup,
};
use switch_core::router::find::{generate_hscan_pattern_for_attempt, FindAllFlow, FindFlow};
use switch_core::router::insert::InsertFlow;
use switch_core::router::protocol::{
    AttemptQuery, HsetnxReply, ListStep, Step, StoreRequest, StoreResponse,
};
use switch_core::router::update::{
    add_connector_txn_id_to_reverse_lookup, add_preprocessing_id_to_reverse_lookup,
    learned_identifier, UpdateFlow,
};
use switch_core::storage;

fn at(nanos: i128) -> Timestamp {
    Timestamp { nanos }
}

fn new_attempt() -> PaymentAttemptNew {
    PaymentAttemptNew {
        payment_id: "X1".to_string(),
        merchant_id: "T1".to_string(),
        attempt_id: "A1".to_string(),
        status: AttemptStatus::Started,
        amount: 500,
        currency: Some(Currency::USD),
        save_to_locker: Some(true),
        connector: Some("square".to_string()),
        error_message: None,
        offer_amount: Some(1),
        surcharge_amount: Some(2),
        tax_amount: Some(3),
        payment_method_id: None,
        payment_method: None,
        capture_method: None,
        capture_on: None,
        confirm: true,
        authentication_type: None,
        created_at: None,
        modified_at: None,
        last_synced: None,
        cancellation_reason: None,
        amount_to_capture: None,
        mandate_id: None,
        browser_info: Some(serde_json::Value::String("agent".to_string())),
        payment_token: None,
        error_code: None,
        connector_metadata: None,
        payment_experience: None,
        payment_method_type: None,
        payment_method_data: None,
        business_sub_label: None,
        straight_through_algorithm: None,
        preprocessing_step_id: None,
        mandate_details: Some(MandateDataType::MultiUse(Some(MandateAmountData {
            amount: 900,
            currency: Currency::USD,
            start_date: None,
            end_date: Some(at(77)),
            metadata: None,
        }))),
        error_reason: None,
        connector_response_reference_id: Some("ref-1".to_string()),
        multiple_capture_count: None,
        amount_capturable: 500,
    }
}

fn created() -> PaymentAttempt {
    PaymentAttempt::create_from(&new_attempt(), at(5), at(6))
}

fn lookup(pk: &str, sk: &str) -> ReverseLookup {
    ReverseLookup {
        lookup_id: "T1_A1".to_string(),
        sk_id: sk.to_string(),
        pk_id: pk.to_string(),
        source: "payment_attempt".to_string(),
    }
}

fn status_update() -> PaymentAttemptUpdate {
    PaymentAttemptUpdate::StatusUpdate { status: AttemptStatus::Charged }
}

#[test]
fn keys_are_joined_with_underscores() {
    assert_eq!(make_partition_key("T1", "X1"), "T1_X1");
    assert_eq!(make_attempt_field("A1"), "pa_A1");
    assert_eq!(make_lookup_key("T1", "CT1"), "T1_CT1");
    assert_eq!(make_partition_key("", ""), "_");
    let entry = make_attempt_lookup("T1_X1", "T1", "A1", "CT1");
    assert_eq!(entry.lookup_id, "T1_CT1");
    assert_eq!(entry.pk_id, "T1_X1");
    assert_eq!(entry.sk_id, "pa_A1");
    assert_eq!(entry.source, "payment_attempt");
}

#[test]
fn partition_is_named_by_merchant_and_payment() {
    assert_eq!(PartitionKey::of("T1", "X1").to_string(), "mid_T1_pid_X1");
    assert_eq!(PartitionKey::of("", "").to_string(), "mid__pid_");
}

#[test]
fn flows_started_at_the_clock_ask_what_flows_started_at_an_instant_ask() {
    let mut new = new_attempt();
    new.created_at = Some(at(5));
    let (flow, request) = InsertFlow::start_now(new.clone(), MerchantStorageScheme::RedisKv);
    let (at_instant, asked) =
        InsertFlow::start(new.clone(), MerchantStorageScheme::RedisKv, at(1), at(2));
    assert_eq!(flow, at_instant);
    assert_eq!(request, asked);
    new.created_at = None;
    match InsertFlow::start_now(new, MerchantStorageScheme::RedisKv).1 {
        StoreRequest::SetFieldIfAbsent { key, field, value } => {
            assert_eq!(key, "T1_X1");
            assert_eq!(field, "pa_A1");
            assert!(value.created_at.nanos > 1_600_000_000_000_000_000);
            assert!(value.modified_at.nanos > 1_600_000_000_000_000_000);
        }
        other => panic!("expected a conditional set, got {:?}", other),
    }
    match UpdateFlow::start_now(created(), status_update(), MerchantStorageScheme::RedisKv).1 {
        StoreRequest::SetField { key, field, value } => {
            assert_eq!(key, "T1_X1");
            assert_eq!(field, "pa_A1");
            assert_eq!(value.status, AttemptStatus::Charged);
            assert!(value.modified_at.nanos > 1_600_000_000_000_000_000);
            assert_eq!(value.created_at, at(5));
        }
        other => panic!("expected a set, got {:?}", other),
    }
}

#[test]
fn scan_pattern_is_the_kind_of_the_field_and_a_star() {
    assert_eq!(generate_hscan_pattern_for_attempt("pa_A1"), "pa_*");
    assert_eq!(generate_hscan_pattern_for_attempt("pa_A1_b"), "pa_*");
    assert_eq!(generate_hscan_pattern_for_attempt("plain"), "plain_*");
    assert_eq!(generate_hscan_pattern_for_attempt(""), "_*");
    assert_eq!(generate_hscan_pattern_for_attempt("_x"), "_*");
}

#[test]
fn created_attempt_copies_the_new_attempt() {
    let attempt = created();
    assert_eq!(attempt.id, 0);
    assert_eq!(attempt.connector, Some("square".to_string()));
    assert_eq!(attempt.connector_transaction_id, None);
    assert_eq!(attempt.connector_response_reference_id, None);
    assert_eq!(attempt.created_at, at(5));
    assert_eq!(attempt.modified_at, at(6));
    assert_eq!(attempt.tax_amount, Some(3));
    assert_eq!(attempt.browser_info, Some(serde_json::Value::String("agent".to_string())));
    assert_eq!(attempt.mandate_details, new_attempt().mandate_details);
    assert_eq!(attempt.amount_capturable, 500);
}

#[test]
fn conversions_to_the_storage_side_and_back_give_the_value_back() {
    let attempt = created();
    let row = attempt.clone().to_storage_model();
    assert_eq!(row.attempt_id, "A1");
    assert_eq!(row.amount, 500);
    assert_eq!(PaymentAttempt::from_storage_model(row), attempt);
    let new = new_attempt();
    assert_eq!(PaymentAttemptNew::from_storage_model(new.clone().to_storage_model()), new);
    let update = PaymentAttemptUpdate::ErrorUpdate {
        connector: Some("square".to_string()),
        status: AttemptStatus::Failure,
        error_code: Some(Some("E1".to_string())),
        error_message: Some(None),
        error_reason: None,
        amount_capturable: Some(0),
    };
    assert_eq!(PaymentAttemptUpdate::from_storage_model(update.clone().to_storage_model()), update);
    let mandate = MandateDataType::SingleUse(MandateAmountData {
        amount: 1,
        currency: Currency::EUR,
        start_date: Some(at(1)),
        end_date: None,
        metadata: Some(serde_json::Value::Bool(true)),
    });
    match mandate.clone().to_storage_model() {
        storage::MandateDataType::SingleUse(data) => {
            assert_eq!(data.amount, 1);
            assert_eq!(data.metadata, Some(serde_json::Value::Bool(true)));
        }
        other => panic!("expected single use, got {:?}", other),
    }
    assert_eq!(MandateDataType::from_storage_model(mandate.clone().to_storage_model()), mandate);
    assert_eq!(
        MandateDataType::from_storage_model(MandateDataType::MultiUse(None).to_storage_model()),
        MandateDataType::MultiUse(None)
    );
}

#[test]
fn changeset_sets_what_the_update_names_and_keeps_the_rest() {
    let row = created().to_storage_model();
    let update = storage::PaymentAttemptUpdate::ErrorUpdate {
        connector: None,
        status: AttemptStatus::Failure,
        error_code: Some(Some("E1".to_string())),
        error_message: Some(None),
        error_reason: None,
        amount_capturable: Some(0),
    };
    let mut with_message = row.clone();
    with_message.error_message = Some("old".to_string());
    with_message.error_reason = Some("why".to_string());
    let applied = update.apply_changeset(with_message, at(9));
    assert_eq!(applied.status, AttemptStatus::Failure);
    assert_eq!(applied.error_code, Some("E1".to_string()));
    assert_eq!(applied.error_message, None);
    assert_eq!(applied.error_reason, Some("why".to_string()));
    assert_eq!(applied.connector, Some("square".to_string()));
    assert_eq!(applied.amount_capturable, 0);
    assert_eq!(applied.amount, 500);
    assert_eq!(applied.modified_at, at(9));
    assert_eq!(applied.created_at, at(5));
    let counted = storage::PaymentAttemptUpdate::MultipleCaptureCountUpdate {
        multiple_capture_count: 2,
    }
        .apply_changeset(row, at(10));
    assert_eq!(counted.multiple_capture_count, Some(2));
    assert_eq!(counted.status, AttemptStatus::Started);
}

#[test]
fn durable_store_errors_map_to_the_canonical_kinds() {
    assert_eq!(
        diesel_error_to_data_error(&DatabaseError::DatabaseConnectionError),
        StorageError::DatabaseConnectionError
    );
    assert_eq!(
        diesel_error_to_data_error(&DatabaseError::NotFound),
        StorageError::ValueNotFound("Value not found".to_string())
    );
    assert_eq!(
        diesel_error_to_data_error(&DatabaseError::UniqueViolation),
        StorageError::DuplicateValue { entity: "entity ", key: None }
    );
    assert_eq!(
        diesel_error_to_data_error(&DatabaseError::NoFieldsToUpdate),
        StorageError::DatabaseError("No fields to update".to_string())
    );
    assert_eq!(
        diesel_error_to_data_error(&DatabaseError::QueryGenerationFailed),
        StorageError::DatabaseError("Query generation failed".to_string())
    );
    assert_eq!(
        diesel_error_to_data_error(&DatabaseError::Others),
        StorageError::DatabaseError("Others".to_string())
    );
    assert!(diesel_error_to_data_error(&DatabaseError::DatabaseConnectionError).is_retryable());
    assert!(!diesel_error_to_data_error(&DatabaseError::Others).is_retryable());
}

#[test]
fn cache_failures_map_to_the_canonical_kinds() {
    assert_eq!(
        cache_failure_to_data_error(CacheFailure::Unavailable("pool exhausted".to_string())),
        StorageError::RedisError("pool exhausted".to_string())
    );
    assert_eq!(
        cache_failure_to_data_error(CacheFailure::Operation(RedisError::SetHashFieldFailed)),
        StorageError::KVError
    );
    assert_eq!(
        cache_failure_to_data_error(CacheFailure::Operation(RedisError::JsonSerializationFailed)),
        StorageError::SerializationFailed
    );
    assert_eq!(
        cache_failure_to_data_error(CacheFailure::Operation(RedisError::JsonDeserializationFailed)),
        StorageError::DeserializationFailed
    );
    assert!(StorageError::KVError.is_retryable());
    assert!(!StorageError::SerializationFailed.is_retryable());
    assert!(!StorageError::DeserializationFailed.is_retryable());
    assert!(!StorageError::UnexpectedFlow.is_retryable());
}

#[test]
fn durable_only_insert_asks_the_durable_store_once() {
    let (flow, request) =
        InsertFlow::start(new_attempt(), MerchantStorageScheme::PostgresOnly, at(5), at(6));
    assert_eq!(flow, InsertFlow::RecordInsert);
    assert_eq!(
        request,
        StoreRequest::InsertRecord { new: new_attempt().to_storage_model(), now: at(5) }
    );
    let row = storage::PaymentAttempt::insert(new_attempt().to_storage_model(), 7, at(5));
    let (flow, step) = flow.resume(StoreResponse::Record(Ok(row.clone())));
    assert_eq!(flow, InsertFlow::Finished);
    assert_eq!(step, Step::Done(Ok(PaymentAttempt::from_storage_model(row))));
    let (_, step) = InsertFlow::RecordInsert
        .resume(StoreResponse::Record(Err(DatabaseError::DatabaseConnectionError)));
    assert_eq!(step, Step::Done(Err(StorageError::DatabaseConnectionError)));
}

#[test]
fn cache_first_insert_asks_cache_index_and_queue_in_turn() {
    let (flow, request) =
        InsertFlow::start(new_attempt(), MerchantStorageScheme::RedisKv, at(5), at(6));
    assert_eq!(
        request,
        StoreRequest::SetFieldIfAbsent {
            key: "T1_X1".to_string(),
            field: "pa_A1".to_string(),
            value: created(),
        }
    );
    let (flow, step) = flow.resume(StoreResponse::FieldSetIfAbsent(Ok(HsetnxReply::KeySet)));
    assert_eq!(
        step,
        Step::Request(StoreRequest::InsertLookup {
            entry: make_attempt_lookup("T1_X1", "T1", "A1", "A1")
        })
    );
    let (flow, step) = flow.resume(StoreResponse::Lookup(Ok(lookup("T1_X1", "pa_A1"))));
    assert_eq!(
        step,
        Step::Request(StoreRequest::AppendIntent {
            partition: PartitionKey::of("T1", "X1"),
            intent: TypedSql::insert(new_attempt().to_storage_model()),
        })
    );
    let (flow, step) = flow.resume(StoreResponse::IntentAppended(Ok(())));
    assert_eq!(flow, InsertFlow::Finished);
    assert_eq!(step, Step::Done(Ok(created())));
}

#[test]
fn cache_first_insert_failures() {
    let start = || InsertFlow::start(new_attempt(), MerchantStorageScheme::RedisKv, at(5), at(6)).0;
    let (flow, step) = start().resume(StoreResponse::FieldSetIfAbsent(Ok(HsetnxReply::KeyNotSet)));
    assert_eq!(flow, InsertFlow::Finished);
    assert_eq!(
        step,
        Step::Done(Err(StorageError::DuplicateValue {
            entity: "payment attempt",
            key: Some("T1_X1".to_string())
        }))
    );
    let (_, step) = start().resume(StoreResponse::FieldSetIfAbsent(Err(CacheFailure::Unavailable(
        "no connection".to_string(),
    ))));
    assert_eq!(step, Step::Done(Err(StorageError::RedisError("no connection".to_string()))));
    let (_, step) = start().resume(StoreResponse::FieldSetIfAbsent(Err(CacheFailure::Operation(
        RedisError::JsonSerializationFailed,
    ))));
    assert_eq!(step, Step::Done(Err(StorageError::SerializationFailed)));
    let (_, step) = start().resume(StoreResponse::FieldSetIfAbsent(Err(CacheFailure::Operation(
        RedisError::SetHashFieldFailed,
    ))));
    assert_eq!(step, Step::Done(Err(StorageError::KVError)));
    let (flow, _) = start().resume(StoreResponse::FieldSetIfAbsent(Ok(HsetnxReply::KeySet)));
    let (_, step) = flow.resume(StoreResponse::Lookup(Err(DatabaseError::UniqueViolation)));
    assert_eq!(
        step,
        Step::Done(Err(StorageError::DuplicateValue { entity: "entity ", key: None })),
    );
    let (flow, _) = start().resume(StoreResponse::FieldSetIfAbsent(Ok(HsetnxReply::KeySet)));
    let (flow, _) = flow.resume(StoreResponse::Lookup(Ok(lookup("T1_X1", "pa_A1"))));
    let (_, step) = flow.resume(StoreResponse::IntentAppended(Err(CacheFailure::Operation(
        RedisError::StreamAppendFailed,
    ))));
    assert_eq!(step, Step::Done(Err(StorageError::KVError)));
}

#[test]
fn answer_out_of_turn_is_an_unexpected_flow() {
    let (flow, _) = InsertFlow::start(new_attempt(), MerchantStorageScheme::RedisKv, at(5), at(6));
    let (flow, step) = flow.resume(StoreResponse::IntentAppended(Ok(())));
    assert_eq!(flow, InsertFlow::Finished);
    assert_eq!(step, Step::Done(Err(StorageError::UnexpectedFlow)));
    let (_, step) = InsertFlow::Finished.resume(StoreResponse::FieldSet(Ok(())));
    assert_eq!(step, Step::Done(Err(StorageError::UnexpectedFlow)));
    let (_, step) = UpdateFlow::Finished.resume(StoreResponse::FieldSet(Ok(())));
    assert_eq!(step, Step::Done(Err(StorageError::UnexpectedFlow)));
    let (_, step) = FindFlow::RecordFind.resume(StoreResponse::FieldSet(Ok(())));
    assert_eq!(step, Step::Done(Err(StorageError::UnexpectedFlow)));
    let (_, step) = FindAllFlow::CacheScan.resume(StoreResponse::FieldSet(Ok(())));
    assert_eq!(step, ListStep::Done(Err(StorageError::UnexpectedFlow)));
}

#[test]
fn identifier_is_learned_when_it_is_new_or_different() {
    let ct = |s: &str| Some(s.to_string());
    assert_eq!(learned_identifier(&None, &ct("CT1")), Some(&"CT1".to_string()));
    assert_eq!(learned_identifier(&ct("CT1"), &ct("CT2")), Some(&"CT2".to_string()));
    assert_eq!(learned_identifier(&ct("CT1"), &ct("CT1")), None);
    assert_eq!(learned_identifier(&ct("CT1"), &None), None);
    assert_eq!(learned_identifier(&None, &None), None);
}

#[test]
fn reverse_lookup_requests_name_the_identifier() {
    assert_eq!(
        add_connector_txn_id_to_reverse_lookup("T1_X1", "T1", "A1", "CT1"),
        StoreRequest::InsertLookup { entry: make_attempt_lookup("T1_X1", "T1", "A1", "CT1") }
    );
    assert_eq!(
        add_preprocessing_id_to_reverse_lookup("T1_X1", "T1", "A1", "PRE1"),
        StoreRequest::InsertLookup { entry: make_attempt_lookup("T1_X1", "T1", "A1", "PRE1") }
    );
}

#[test]
fn cache_first_update_without_new_identifiers_goes_to_the_queue() {
    let this = created();
    let (flow, request) =
        UpdateFlow::start(this.clone(), status_update(), MerchantStorageScheme::RedisKv, at(9));
    let mut updated = this.clone();
    updated.status = AttemptStatus::Charged;
    updated.modified_at = at(9);
    assert_eq!(
        request,
        StoreRequest::SetField {
            key: "T1_X1".to_string(),
            field: "pa_A1".to_string(),
            value: updated.clone()
        }
    );
    let (flow, step) = flow.resume(StoreResponse::FieldSet(Ok(())));
    assert_eq!(
        step,
        Step::Request(StoreRequest::AppendIntent {
            partition: PartitionKey::of("T1", "X1"),
            intent: TypedSql::update(
                this.to_storage_model(),
                status_update().to_storage_model()
            ),
        })
    );
    let (_, step) = flow.resume(StoreResponse::IntentAppended(Ok(())));
    assert_eq!(step, Step::Done(Ok(updated)));
}

#[test]
fn cache_first_update_indexes_both_identifiers() {
    let update = PaymentAttemptUpdate::PreprocessingUpdate {
        status: AttemptStatus::Pending,
        payment_method_id: None,
        connector_metadata: None,
        preprocessing_step_id: Some("PRE1".to_string()),
        connector_transaction_id: Some("CT1".to_string()),
        connector_response_reference_id: None,
    };
    let (flow, _) = UpdateFlow::start(created(), update, MerchantStorageScheme::RedisKv, at(9));
    let (flow, step) = flow.resume(StoreResponse::FieldSet(Ok(())));
    assert_eq!(
        step,
        Step::Request(add_connector_txn_id_to_reverse_lookup("T1_X1", "T1", "A1", "CT1")),
    );
    let (flow, step) = flow.resume(StoreResponse::Lookup(Ok(lookup("T1_X1", "pa_A1"))));
    assert_eq!(
        step,
        Step::Request(add_preprocessing_id_to_reverse_lookup("T1_X1", "T1", "A1", "PRE1")),
    );
    let (flow, step) = flow.resume(StoreResponse::Lookup(Ok(lookup("T1_X1", "pa_A1"))));
    assert!(matches!(step, Step::Request(StoreRequest::AppendIntent { .. })));
    let (flow, step) = flow.resume(StoreResponse::IntentAppended(Ok(())));
    assert_eq!(flow, UpdateFlow::Finished);
    assert!(matches!(step, Step::Done(Ok(_))));
}

#[test]
fn cache_first_update_failures() {
    let start =
        || UpdateFlow::start(created(), status_update(), MerchantStorageScheme::RedisKv, at(9)).0;
    let (_, step) = start().resume(StoreResponse::FieldSet(Err(CacheFailure::Operation(
        RedisError::JsonSerializationFailed,
    ))));
    assert_eq!(step, Step::Done(Err(StorageError::SerializationFailed)));
    let (_, step) = start().resume(StoreResponse::FieldSet(Err(CacheFailure::Operation(
        RedisError::SetHashFailed,
    ))));
    assert_eq!(step, Step::Done(Err(StorageError::KVError)));
    let (_, step) = start().resume(StoreResponse::FieldSet(Err(CacheFailure::Unavailable(
        "down".to_string(),
    ))));
    assert_eq!(step, Step::Done(Err(StorageError::RedisError("down".to_string()))));
    let (flow, _) = start().resume(StoreResponse::FieldSet(Ok(())));
    let (_, step) = flow.resume(StoreResponse::IntentAppended(Err(CacheFailure::Operation(
        RedisError::RedisConnectionError,
    ))));
    assert_eq!(step, Step::Done(Err(StorageError::KVError)));
}

#[test]
fn durable_only_update_asks_the_durable_store_once() {
    let (flow, request) =
        UpdateFlow::start(created(), status_update(), MerchantStorageScheme::PostgresOnly, at(9));
    assert_eq!(
        request,
        StoreRequest::UpdateRecord {
            this: created().to_storage_model(),
            update: status_update().to_storage_model(),
            now: at(9),
        }
    );
    let (_, step) = flow.resume(StoreResponse::Record(Err(DatabaseError::NotFound)));
    assert_eq!(step, Step::Done(Err(StorageError::ValueNotFound("Value not found".to_string()))));
}

fn by_attempt() -> AttemptQuery {
    AttemptQuery::AttemptIdMerchantId {
        attempt_id: "A1".to_string(),
        merchant_id: "T1".to_string(),
    }
}

#[test]
fn cache_first_find_resolves_the_identifier_then_reads_the_cache() {
    let (flow, request) = FindFlow::start(by_attempt(), MerchantStorageScheme::RedisKv);
    assert_eq!(request, StoreRequest::FindLookup { lookup_id: "T1_A1".to_string() });
    let (flow, step) = flow.resume(StoreResponse::Lookup(Ok(lookup("T1_X1", "pa_A1"))));
    assert_eq!(
        step,
        Step::Request(StoreRequest::GetField {
            key: "T1_X1".to_string(),
            field: "pa_A1".to_string()
        })
    );
    let (flow, step) = flow.resume(StoreResponse::Field(Ok(created())));
    assert_eq!(flow, FindFlow::Finished);
    assert_eq!(step, Step::Done(Ok(created())));
}

#[test]
fn cache_first_find_falls_through_on_a_miss() {
    let (flow, _) = FindFlow::start(by_attempt(), MerchantStorageScheme::RedisKv);
    let (flow, step) = flow.resume(StoreResponse::Lookup(Err(DatabaseError::NotFound)));
    assert_eq!(flow, FindFlow::RecordFind);
    assert_eq!(step, Step::Request(StoreRequest::FindRecord { query: by_attempt() }));
    let (flow, _) = FindFlow::start(by_attempt(), MerchantStorageScheme::RedisKv);
    let (flow, _) = flow.resume(StoreResponse::Lookup(Ok(lookup("T1_X1", "pa_A1"))));
    let (flow, step) =
        flow.resume(StoreResponse::Field(Err(CacheFailure::Operation(RedisError::NotFound))));
    assert_eq!(step, Step::Request(StoreRequest::FindRecord { query: by_attempt() }));
    let (_, step) = flow.resume(StoreResponse::Record(Err(DatabaseError::NotFound)));
    assert_eq!(step, Step::Done(Err(StorageError::ValueNotFound("Value not found".to_string()))));
}

#[test]
fn cache_first_find_reports_failures_that_are_no_miss() {
    let (flow, _) = FindFlow::start(by_attempt(), MerchantStorageScheme::RedisKv);
    let (_, step) = flow.resume(StoreResponse::Lookup(Err(DatabaseError::DatabaseConnectionError)));
    assert_eq!(step, Step::Done(Err(StorageError::DatabaseConnectionError)));
    let (flow, _) = FindFlow::start(by_attempt(), MerchantStorageScheme::RedisKv);
    let (flow, _) = flow.resume(StoreResponse::Lookup(Ok(lookup("T1_X1", "pa_A1"))));
    let (_, step) = flow.resume(StoreResponse::Field(Err(CacheFailure::Operation(
        RedisError::JsonDeserializationFailed,
    ))));
    assert_eq!(step, Step::Done(Err(StorageError::DeserializationFailed)));
    let (flow, _) = FindFlow::start(by_attempt(), MerchantStorageScheme::RedisKv);
    let (flow, _) = flow.resume(StoreResponse::Lookup(Ok(lookup("T1_X1", "pa_A1"))));
    let (_, step) = flow.resume(StoreResponse::Field(Err(CacheFailure::Operation(
        RedisError::GetHashFieldFailed,
    ))));
    assert_eq!(step, Step::Done(Err(StorageError::KVError)));
}

#[test]
fn queries_name_their_index_key() {
    let text = |s: &str| s.to_string();
    assert_eq!(
        AttemptQuery::ConnectorTransactionIdPaymentIdMerchantId {
            connector_transaction_id: text("CT1"),
            payment_id: text("X1"),
            merchant_id: text("T1"),
        }
        .index_key(),
        Some(text("T1_CT1"))
    );
    assert_eq!(
        AttemptQuery::MerchantIdConnectorTxnId {
            merchant_id: text("T1"),
            connector_txn_id: text("CT1"),
        }
            .index_key(),
        Some(text("T1_CT1"))
    );
    assert_eq!(
        AttemptQuery::PaymentIdMerchantIdAttemptId {
            payment_id: text("X1"),
            merchant_id: text("T1"),
            attempt_id: text("A1"),
        }
        .index_key(),
        Some(text("T1_A1"))
    );
    assert_eq!(
        AttemptQuery::PreprocessingIdMerchantId {
            preprocessing_id: text("PRE1"),
            merchant_id: text("T1"),
        }
            .index_key(),
        Some(text("T1_PRE1"))
    );
    let last = AttemptQuery::LastSuccessfulAttemptByPaymentIdMerchantId {
        payment_id: text("X1"),
        merchant_id: text("T1"),
    };
    assert_eq!(last.index_key(), None);
    let (flow, request) = FindFlow::start(last, MerchantStorageScheme::RedisKv);
    assert_eq!(flow, FindFlow::RecordFind);
    assert!(matches!(request, StoreRequest::FindRecord { .. }));
}

#[test]
fn cache_first_listing_scans_the_hash_of_the_payment() {
    let (flow, request) =
        FindAllFlow::start("T1".to_string(), "X1".to_string(), MerchantStorageScheme::RedisKv);
    assert_eq!(request, StoreRequest::FindLookup { lookup_id: "T1_X1".to_string() });
    let (flow, step) = flow.resume(StoreResponse::Lookup(Ok(lookup("T1_X1", "pa_A1"))));
    assert_eq!(
        step,
        ListStep::Request(StoreRequest::ScanFields {
            key: "T1_X1".to_string(),
            pattern: "pa_*".to_string()
        })
    );
    let (_, step) = flow.resume(StoreResponse::Fields(Ok(vec![created()])));
    assert_eq!(step, ListStep::Done(Ok(vec![created()])));
    let (_, step) = FindAllFlow::CacheScan
        .resume(StoreResponse::Fields(Err(CacheFailure::Operation(RedisError::UnknownResult))));
    assert_eq!(step, ListStep::Done(Err(StorageError::KVError)));
}

#[test]
fn durable_listing_converts_the_rows() {
    let (flow, request) =
        FindAllFlow::start("T1".to_string(), "X1".to_string(), MerchantStorageScheme::PostgresOnly);
    assert_eq!(
        request,
        StoreRequest::FindRecords { merchant_id: "T1".to_string(), payment_id: "X1".to_string() }
    );
    let rows = vec![created().to_storage_model(), created().to_storage_model()];
    let (_, step) = flow.resume(StoreResponse::Records(Ok(rows)));
    assert_eq!(step, ListStep::Done(Ok(vec![created(), created()])));
    let (_, step) =
        FindAllFlow::RecordsFind.resume(StoreResponse::Records(Err(DatabaseError::Others)));
    assert_eq!(step, ListStep::Done(Err(StorageError::DatabaseError("Others".to_string()))));
}
