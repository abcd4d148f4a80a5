//! Conversion between the domain side and the storage side of each record
//! type. The two sides hold the same information, so each conversion undoes
//! the other.

use crate::domain;
use crate::domain::{MandateAmountData, MandateDataType};
use crate::storage;
use vstd::prelude::*;

verus! {

/// A domain type with a counterpart in the durable store.
pub trait DataModelExt: Sized {
    type StorageModel;

    /// The storage-side value that stands for `self`.
    spec fn storage_model(self) -> Self::StorageModel;

    /// The domain-side value that `storage_model` stands for.
    spec fn domain_model(storage_model: Self::StorageModel) -> Self;

    fn to_storage_model(self) -> (r: Self::StorageModel)
        ensures
            r == self.storage_model(),
    ;

    fn from_storage_model(storage_model: Self::StorageModel) -> (r: Self)
        ensures
            r == Self::domain_model(storage_model),
    ;

    /// Converting to the storage side and back gives the value back.
    proof fn lemma_round_trip(self)
        ensures
            Self::domain_model(self.storage_model()) == self,
    ;

    /// Converting to the domain side and back gives the value back.
    proof fn lemma_round_trip_back(storage_model: Self::StorageModel)
        ensures
            Self::domain_model(storage_model).storage_model() == storage_model,
    ;
}

impl DataModelExt for MandateAmountData {
    type StorageModel = storage::MandateAmountData;

    open spec fn storage_model(self) -> storage::MandateAmountData {
        storage::MandateAmountData {
            amount: self.amount,
            currency: self.currency,
            start_date: self.start_date,
            end_date: self.end_date,
            metadata: self.metadata,
        }
    }

    open spec fn domain_model(storage_model: storage::MandateAmountData) -> Self {
        domain::MandateAmountData {
            amount: storage_model.amount,
            currency: storage_model.currency,
            start_date: storage_model.start_date,
            end_date: storage_model.end_date,
            metadata: storage_model.metadata,
        }
    }

    fn to_storage_model(self) -> (r: storage::MandateAmountData) {
        storage::MandateAmountData {
            amount: self.amount,
            currency: self.currency,
            start_date: self.start_date,
            end_date: self.end_date,
            metadata: self.metadata,
        }
    }

    fn from_storage_model(storage_model: storage::MandateAmountData) -> (r: Self) {
        domain::MandateAmountData {
            amount: storage_model.amount,
            currency: storage_model.currency,
            start_date: storage_model.start_date,
            end_date: storage_model.end_date,
            metadata: storage_model.metadata,
        }
    }

    proof fn lemma_round_trip(self) {
    }

    proof fn lemma_round_trip_back(storage_model: storage::MandateAmountData) {
    }
}

impl DataModelExt for MandateDataType {
    type StorageModel = storage::MandateDataType;

    open spec fn storage_model(self) -> storage::MandateDataType {
        match self {
            domain::MandateDataType::SingleUse(data) => storage::MandateDataType::SingleUse(
                data.storage_model(),
            ),
            domain::MandateDataType::MultiUse(None) => storage::MandateDataType::MultiUse(None),
            domain::MandateDataType::MultiUse(Some(data)) => storage::MandateDataType::MultiUse(
                Some(data.storage_model()),
            ),
        }
    }

    open spec fn domain_model(storage_model: storage::MandateDataType) -> Self {
        match storage_model {
            storage::MandateDataType::SingleUse(data) => domain::MandateDataType::SingleUse(
                MandateAmountData::domain_model(data),
            ),
            storage::MandateDataType::MultiUse(None) => domain::MandateDataType::MultiUse(None),
            storage::MandateDataType::MultiUse(Some(data)) => domain::MandateDataType::MultiUse(
                Some(MandateAmountData::domain_model(data)),
            ),
        }
    }

    fn to_storage_model(self) -> (r: storage::MandateDataType) {
        match self {
            domain::MandateDataType::SingleUse(data) => storage::MandateDataType::SingleUse(
                data.to_storage_model(),
            ),
            domain::MandateDataType::MultiUse(None) => storage::MandateDataType::MultiUse(None),
            domain::MandateDataType::MultiUse(Some(data)) => storage::MandateDataType::MultiUse(
                Some(data.to_storage_model()),
            ),
        }
    }

    fn from_storage_model(storage_model: storage::MandateDataType) -> (r: Self) {
        match storage_model {
            storage::MandateDataType::SingleUse(data) => domain::MandateDataType::SingleUse(
                MandateAmountData::from_storage_model(data),
            ),
            storage::MandateDataType::MultiUse(None) => domain::MandateDataType::MultiUse(None),
            storage::MandateDataType::MultiUse(Some(data)) => domain::MandateDataType::MultiUse(
                Some(MandateAmountData::from_storage_model(data)),
            ),
        }
    }

    proof fn lemma_round_trip(self) {
    }

    proof fn lemma_round_trip_back(storage_model: storage::MandateDataType) {
    }
}

impl MandateDataType {
    /// The storage-side value of optional mandate details.
    pub open spec fn storage_model_optional(details: Option<MandateDataType>) -> Option<
        storage::MandateDataType,
    > {
        match details {
            Some(data) => Some(data.storage_model()),
            None => None,
        }
    }

    /// The domain-side value of optional mandate details.
    pub open spec fn domain_model_optional(details: Option<storage::MandateDataType>) -> Option<
        MandateDataType,
    > {
        match details {
            Some(data) => Some(MandateDataType::domain_model(data)),
            None => None,
        }
    }

    /// Converts optional mandate details to the storage side.
    pub fn to_storage_model_optional(details: Option<MandateDataType>) -> (r: Option<
        storage::MandateDataType,
    >)
        ensures
            r == Self::storage_model_optional(details),
    {
        match details {
            Some(data) => Some(data.to_storage_model()),
            None => None,
        }
    }

    /// Converts optional mandate details to the domain side.
    pub fn from_storage_model_optional(details: Option<storage::MandateDataType>) -> (r: Option<
        MandateDataType,
    >)
        ensures
            r == Self::domain_model_optional(details),
    {
        match details {
            Some(data) => Some(MandateDataType::from_storage_model(data)),
            None => None,
        }
    }

    /// Converting optional mandate details to the storage side and back
    /// gives them back.
    pub proof fn lemma_round_trip_optional(details: Option<MandateDataType>)
        ensures
            Self::domain_model_optional(Self::storage_model_optional(details)) == details,
    {
    }

    /// Converting optional mandate details to the domain side and back
    /// gives them back.
    pub proof fn lemma_round_trip_back_optional(details: Option<storage::MandateDataType>)
        ensures
            Self::storage_model_optional(Self::domain_model_optional(details)) == details,
    {
    }
}

impl DataModelExt for domain::PaymentAttempt {
    type StorageModel = storage::PaymentAttempt;

    open spec fn storage_model(self) -> storage::PaymentAttempt {
        storage::PaymentAttempt {
            id: self.id,
            payment_id: self.payment_id,
            merchant_id: self.merchant_id,
            attempt_id: self.attempt_id,
            status: self.status,
            amount: self.amount,
            currency: self.currency,
            save_to_locker: self.save_to_locker,
            connector: self.connector,
            error_message: self.error_message,
            offer_amount: self.offer_amount,
            surcharge_amount: self.surcharge_amount,
            tax_amount: self.tax_amount,
            payment_method_id: self.payment_method_id,
            payment_method: self.payment_method,
            connector_transaction_id: self.connector_transaction_id,
            capture_method: self.capture_method,
            capture_on: self.capture_on,
            confirm: self.confirm,
            authentication_type: self.authentication_type,
            created_at: self.created_at,
            modified_at: self.modified_at,
            last_synced: self.last_synced,
            cancellation_reason: self.cancellation_reason,
            amount_to_capture: self.amount_to_capture,
            mandate_id: self.mandate_id,
            browser_info: self.browser_info,
            error_code: self.error_code,
            payment_token: self.payment_token,
            connector_metadata: self.connector_metadata,
            payment_experience: self.payment_experience,
            payment_method_type: self.payment_method_type,
            payment_method_data: self.payment_method_data,
            business_sub_label: self.business_sub_label,
            straight_through_algorithm: self.straight_through_algorithm,
            preprocessing_step_id: self.preprocessing_step_id,
            mandate_details: MandateDataType::storage_model_optional(self.mandate_details),
            error_reason: self.error_reason,
            multiple_capture_count: self.multiple_capture_count,
            connector_response_reference_id: self.connector_response_reference_id,
            amount_capturable: self.amount_capturable,
        }
    }

    open spec fn domain_model(storage_model: storage::PaymentAttempt) -> Self {
        domain::PaymentAttempt {
            id: storage_model.id,
            payment_id: storage_model.payment_id,
            merchant_id: storage_model.merchant_id,
            attempt_id: storage_model.attempt_id,
            status: storage_model.status,
            amount: storage_model.amount,
            currency: storage_model.currency,
            save_to_locker: storage_model.save_to_locker,
            connector: storage_model.connector,
            error_message: storage_model.error_message,
            offer_amount: storage_model.offer_amount,
            surcharge_amount: storage_model.surcharge_amount,
            tax_amount: storage_model.tax_amount,
            payment_method_id: storage_model.payment_method_id,
            payment_method: storage_model.payment_method,
            connector_transaction_id: storage_model.connector_transaction_id,
            capture_method: storage_model.capture_method,
            capture_on: storage_model.capture_on,
            confirm: storage_model.confirm,
            authentication_type: storage_model.authentication_type,
            created_at: storage_model.created_at,
            modified_at: storage_model.modified_at,
            last_synced: storage_model.last_synced,
            cancellation_reason: storage_model.cancellation_reason,
            amount_to_capture: storage_model.amount_to_capture,
            mandate_id: storage_model.mandate_id,
            browser_info: storage_model.browser_info,
            error_code: storage_model.error_code,
            payment_token: storage_model.payment_token,
            connector_metadata: storage_model.connector_metadata,
            payment_experience: storage_model.payment_experience,
            payment_method_type: storage_model.payment_method_type,
            payment_method_data: storage_model.payment_method_data,
            business_sub_label: storage_model.business_sub_label,
            straight_through_algorithm: storage_model.straight_through_algorithm,
            preprocessing_step_id: storage_model.preprocessing_step_id,
            mandate_details: MandateDataType::domain_model_optional(storage_model.mandate_details),
            error_reason: storage_model.error_reason,
            multiple_capture_count: storage_model.multiple_capture_count,
            connector_response_reference_id: storage_model.connector_response_reference_id,
            amount_capturable: storage_model.amount_capturable,
        }
    }

    fn to_storage_model(self) -> (r: storage::PaymentAttempt) {
        storage::PaymentAttempt {
            id: self.id,
            payment_id: self.payment_id,
            merchant_id: self.merchant_id,
            attempt_id: self.attempt_id,
            status: self.status,
            amount: self.amount,
            currency: self.currency,
            save_to_locker: self.save_to_locker,
            connector: self.connector,
            error_message: self.error_message,
            offer_amount: self.offer_amount,
            surcharge_amount: self.surcharge_amount,
            tax_amount: self.tax_amount,
            payment_method_id: self.payment_method_id,
            payment_method: self.payment_method,
            connector_transaction_id: self.connector_transaction_id,
            capture_method: self.capture_method,
            capture_on: self.capture_on,
            confirm: self.confirm,
            authentication_type: self.authentication_type,
            created_at: self.created_at,
            modified_at: self.modified_at,
            last_synced: self.last_synced,
            cancellation_reason: self.cancellation_reason,
            amount_to_capture: self.amount_to_capture,
            mandate_id: self.mandate_id,
            browser_info: self.browser_info,
            error_code: self.error_code,
            payment_token: self.payment_token,
            connector_metadata: self.connector_metadata,
            payment_experience: self.payment_experience,
            payment_method_type: self.payment_method_type,
            payment_method_data: self.payment_method_data,
            business_sub_label: self.business_sub_label,
            straight_through_algorithm: self.straight_through_algorithm,
            preprocessing_step_id: self.preprocessing_step_id,
            mandate_details: MandateDataType::to_storage_model_optional(self.mandate_details),
            error_reason: self.error_reason,
            multiple_capture_count: self.multiple_capture_count,
            connector_response_reference_id: self.connector_response_reference_id,
            amount_capturable: self.amount_capturable,
        }
    }

    fn from_storage_model(storage_model: storage::PaymentAttempt) -> (r: Self) {
        domain::PaymentAttempt {
            id: storage_model.id,
            payment_id: storage_model.payment_id,
            merchant_id: storage_model.merchant_id,
            attempt_id: storage_model.attempt_id,
            status: storage_model.status,
            amount: storage_model.amount,
            currency: storage_model.currency,
            save_to_locker: storage_model.save_to_locker,
            connector: storage_model.connector,
            error_message: storage_model.error_message,
            offer_amount: storage_model.offer_amount,
            surcharge_amount: storage_model.surcharge_amount,
            tax_amount: storage_model.tax_amount,
            payment_method_id: storage_model.payment_method_id,
            payment_method: storage_model.payment_method,
            connector_transaction_id: storage_model.connector_transaction_id,
            capture_method: storage_model.capture_method,
            capture_on: storage_model.capture_on,
            confirm: storage_model.confirm,
            authentication_type: storage_model.authentication_type,
            created_at: storage_model.created_at,
            modified_at: storage_model.modified_at,
            last_synced: storage_model.last_synced,
            cancellation_reason: storage_model.cancellation_reason,
            amount_to_capture: storage_model.amount_to_capture,
            mandate_id: storage_model.mandate_id,
            browser_info: storage_model.browser_info,
            error_code: storage_model.error_code,
            payment_token: storage_model.payment_token,
            connector_metadata: storage_model.connector_metadata,
            payment_experience: storage_model.payment_experience,
            payment_method_type: storage_model.payment_method_type,
            payment_method_data: storage_model.payment_method_data,
            business_sub_label: storage_model.business_sub_label,
            straight_through_algorithm: storage_model.straight_through_algorithm,
            preprocessing_step_id: storage_model.preprocessing_step_id,
            mandate_details: MandateDataType::from_storage_model_optional(
                storage_model.mandate_details,
            ),
            error_reason: storage_model.error_reason,
            multiple_capture_count: storage_model.multiple_capture_count,
            connector_response_reference_id: storage_model.connector_response_reference_id,
            amount_capturable: storage_model.amount_capturable,
        }
    }

    proof fn lemma_round_trip(self) {
        MandateDataType::lemma_round_trip_optional(self.mandate_details);
    }

    proof fn lemma_round_trip_back(storage_model: storage::PaymentAttempt) {
        MandateDataType::lemma_round_trip_back_optional(storage_model.mandate_details);
    }
}

impl DataModelExt for domain::PaymentAttemptNew {
    type StorageModel = storage::PaymentAttemptNew;

    open spec fn storage_model(self) -> storage::PaymentAttemptNew {
        storage::PaymentAttemptNew {
            payment_id: self.payment_id,
            merchant_id: self.merchant_id,
            attempt_id: self.attempt_id,
            status: self.status,
            amount: self.amount,
            currency: self.currency,
            save_to_locker: self.save_to_locker,
            connector: self.connector,
            error_message: self.error_message,
            offer_amount: self.offer_amount,
            surcharge_amount: self.surcharge_amount,
            tax_amount: self.tax_amount,
            payment_method_id: self.payment_method_id,
            payment_method: self.payment_method,
            capture_method: self.capture_method,
            capture_on: self.capture_on,
            confirm: self.confirm,
            authentication_type: self.authentication_type,
            created_at: self.created_at,
            modified_at: self.modified_at,
            last_synced: self.last_synced,
            cancellation_reason: self.cancellation_reason,
            amount_to_capture: self.amount_to_capture,
            mandate_id: self.mandate_id,
            browser_info: self.browser_info,
            payment_token: self.payment_token,
            error_code: self.error_code,
            connector_metadata: self.connector_metadata,
            payment_experience: self.payment_experience,
            payment_method_type: self.payment_method_type,
            payment_method_data: self.payment_method_data,
            business_sub_label: self.business_sub_label,
            straight_through_algorithm: self.straight_through_algorithm,
            preprocessing_step_id: self.preprocessing_step_id,
            mandate_details: MandateDataType::storage_model_optional(self.mandate_details),
            error_reason: self.error_reason,
            connector_response_reference_id: self.connector_response_reference_id,
            multiple_capture_count: self.multiple_capture_count,
            amount_capturable: self.amount_capturable,
        }
    }

    open spec fn domain_model(storage_model: storage::PaymentAttemptNew) -> Self {
        domain::PaymentAttemptNew {
            payment_id: storage_model.payment_id,
            merchant_id: storage_model.merchant_id,
            attempt_id: storage_model.attempt_id,
            status: storage_model.status,
            amount: storage_model.amount,
            currency: storage_model.currency,
            save_to_locker: storage_model.save_to_locker,
            connector: storage_model.connector,
            error_message: storage_model.error_message,
            offer_amount: storage_model.offer_amount,
            surcharge_amount: storage_model.surcharge_amount,
            tax_amount: storage_model.tax_amount,
            payment_method_id: storage_model.payment_method_id,
            payment_method: storage_model.payment_method,
            capture_method: storage_model.capture_method,
            capture_on: storage_model.capture_on,
            confirm: storage_model.confirm,
            authentication_type: storage_model.authentication_type,
            created_at: storage_model.created_at,
            modified_at: storage_model.modified_at,
            last_synced: storage_model.last_synced,
            cancellation_reason: storage_model.cancellation_reason,
            amount_to_capture: storage_model.amount_to_capture,
            mandate_id: storage_model.mandate_id,
            browser_info: storage_model.browser_info,
            payment_token: storage_model.payment_token,
            error_code: storage_model.error_code,
            connector_metadata: storage_model.connector_metadata,
            payment_experience: storage_model.payment_experience,
            payment_method_type: storage_model.payment_method_type,
            payment_method_data: storage_model.payment_method_data,
            business_sub_label: storage_model.business_sub_label,
            straight_through_algorithm: storage_model.straight_through_algorithm,
            preprocessing_step_id: storage_model.preprocessing_step_id,
            mandate_details: MandateDataType::domain_model_optional(storage_model.mandate_details),
            error_reason: storage_model.error_reason,
            connector_response_reference_id: storage_model.connector_response_reference_id,
            multiple_capture_count: storage_model.multiple_capture_count,
            amount_capturable: storage_model.amount_capturable,
        }
    }

    fn to_storage_model(self) -> (r: storage::PaymentAttemptNew) {
        storage::PaymentAttemptNew {
            payment_id: self.payment_id,
            merchant_id: self.merchant_id,
            attempt_id: self.attempt_id,
            status: self.status,
            amount: self.amount,
            currency: self.currency,
            save_to_locker: self.save_to_locker,
            connector: self.connector,
            error_message: self.error_message,
            offer_amount: self.offer_amount,
            surcharge_amount: self.surcharge_amount,
            tax_amount: self.tax_amount,
            payment_method_id: self.payment_method_id,
            payment_method: self.payment_method,
            capture_method: self.capture_method,
            capture_on: self.capture_on,
            confirm: self.confirm,
            authentication_type: self.authentication_type,
            created_at: self.created_at,
            modified_at: self.modified_at,
            last_synced: self.last_synced,
            cancellation_reason: self.cancellation_reason,
            amount_to_capture: self.amount_to_capture,
            mandate_id: self.mandate_id,
            browser_info: self.browser_info,
            payment_token: self.payment_token,
            error_code: self.error_code,
            connector_metadata: self.connector_metadata,
            payment_experience: self.payment_experience,
            payment_method_type: self.payment_method_type,
            payment_method_data: self.payment_method_data,
            business_sub_label: self.business_sub_label,
            straight_through_algorithm: self.straight_through_algorithm,
            preprocessing_step_id: self.preprocessing_step_id,
            mandate_details: MandateDataType::to_storage_model_optional(self.mandate_details),
            error_reason: self.error_reason,
            connector_response_reference_id: self.connector_response_reference_id,
            multiple_capture_count: self.multiple_capture_count,
            amount_capturable: self.amount_capturable,
        }
    }

    fn from_storage_model(storage_model: storage::PaymentAttemptNew) -> (r: Self) {
        domain::PaymentAttemptNew {
            payment_id: storage_model.payment_id,
            merchant_id: storage_model.merchant_id,
            attempt_id: storage_model.attempt_id,
            status: storage_model.status,
            amount: storage_model.amount,
            currency: storage_model.currency,
            save_to_locker: storage_model.save_to_locker,
            connector: storage_model.connector,
            error_message: storage_model.error_message,
            offer_amount: storage_model.offer_amount,
            surcharge_amount: storage_model.surcharge_amount,
            tax_amount: storage_model.tax_amount,
            payment_method_id: storage_model.payment_method_id,
            payment_method: storage_model.payment_method,
            capture_method: storage_model.capture_method,
            capture_on: storage_model.capture_on,
            confirm: storage_model.confirm,
            authentication_type: storage_model.authentication_type,
            created_at: storage_model.created_at,
            modified_at: storage_model.modified_at,
            last_synced: storage_model.last_synced,
            cancellation_reason: storage_model.cancellation_reason,
            amount_to_capture: storage_model.amount_to_capture,
            mandate_id: storage_model.mandate_id,
            browser_info: storage_model.browser_info,
            payment_token: storage_model.payment_token,
            error_code: storage_model.error_code,
            connector_metadata: storage_model.connector_metadata,
            payment_experience: storage_model.payment_experience,
            payment_method_type: storage_model.payment_method_type,
            payment_method_data: storage_model.payment_method_data,
            business_sub_label: storage_model.business_sub_label,
            straight_through_algorithm: storage_model.straight_through_algorithm,
            preprocessing_step_id: storage_model.preprocessing_step_id,
            mandate_details: MandateDataType::from_storage_model_optional(
                storage_model.mandate_details,
            ),
            error_reason: storage_model.error_reason,
            connector_response_reference_id: storage_model.connector_response_reference_id,
            multiple_capture_count: storage_model.multiple_capture_count,
            amount_capturable: storage_model.amount_capturable,
        }
    }

    proof fn lemma_round_trip(self) {
        MandateDataType::lemma_round_trip_optional(self.mandate_details);
    }

    proof fn lemma_round_trip_back(storage_model: storage::PaymentAttemptNew) {
        MandateDataType::lemma_round_trip_back_optional(storage_model.mandate_details);
    }
}

impl DataModelExt for domain::PaymentAttemptUpdate {
    type StorageModel = storage::PaymentAttemptUpdate;

    open spec fn storage_model(self) -> storage::PaymentAttemptUpdate {
        match self {
            domain::PaymentAttemptUpdate::Update {
                amount,
                currency,
                status,
                authentication_type,
                payment_method,
                payment_token,
                payment_method_data,
                payment_method_type,
                payment_experience,
                business_sub_label,
                amount_to_capture,
                capture_method,
            } => storage::PaymentAttemptUpdate::Update {
                amount,
                currency,
                status,
                authentication_type,
                payment_method,
                payment_token,
                payment_method_data,
                payment_method_type,
                payment_experience,
                business_sub_label,
                amount_to_capture,
                capture_method,
            },
            domain::PaymentAttemptUpdate::UpdateTrackers {
                payment_token,
                connector,
                straight_through_algorithm,
                amount_capturable,
            } => storage::PaymentAttemptUpdate::UpdateTrackers {
                payment_token,
                connector,
                straight_through_algorithm,
                amount_capturable,
            },
            domain::PaymentAttemptUpdate::AuthenticationTypeUpdate {
                authentication_type,
            } => storage::PaymentAttemptUpdate::AuthenticationTypeUpdate {
                authentication_type,
            },
            domain::PaymentAttemptUpdate::ConfirmUpdate {
                amount,
                currency,
                status,
                authentication_type,
                payment_method,
                browser_info,
                connector,
                payment_token,
                payment_method_data,
                payment_method_type,
                payment_experience,
                business_sub_label,
                straight_through_algorithm,
                error_code,
                error_message,
                amount_capturable,
            } => storage::PaymentAttemptUpdate::ConfirmUpdate {
                amount,
                currency,
                status,
                authentication_type,
                payment_method,
                browser_info,
                connector,
                payment_token,
                payment_method_data,
                payment_method_type,
                payment_experience,
                business_sub_label,
                straight_through_algorithm,
                error_code,
                error_message,
                amount_capturable,
            },
            domain::PaymentAttemptUpdate::VoidUpdate {
                status,
                cancellation_reason,
            } => storage::PaymentAttemptUpdate::VoidUpdate {
                status,
                cancellation_reason,
            },
            domain::PaymentAttemptUpdate::ResponseUpdate {
                status,
                connector,
                connector_transaction_id,
                authentication_type,
                payment_method_id,
                mandate_id,
                connector_metadata,
                payment_token,
                error_code,
                error_message,
                error_reason,
                connector_response_reference_id,
                amount_capturable,
            } => storage::PaymentAttemptUpdate::ResponseUpdate {
                status,
                connector,
                connector_transaction_id,
                authentication_type,
                payment_method_id,
                mandate_id,
                connector_metadata,
                payment_token,
                error_code,
                error_message,
                error_reason,
                connector_response_reference_id,
                amount_capturable,
            },
            domain::PaymentAttemptUpdate::UnresolvedResponseUpdate {
                status,
                connector,
                connector_transaction_id,
                payment_method_id,
                error_code,
                error_message,
                error_reason,
                connector_response_reference_id,
            } => storage::PaymentAttemptUpdate::UnresolvedResponseUpdate {
                status,
                connector,
                connector_transaction_id,
                payment_method_id,
                error_code,
                error_message,
                error_reason,
                connector_response_reference_id,
            },
            domain::PaymentAttemptUpdate::StatusUpdate {
                status,
            } => storage::PaymentAttemptUpdate::StatusUpdate {
                status,
            },
            domain::PaymentAttemptUpdate::ErrorUpdate {
                connector,
                status,
                error_code,
                error_message,
                error_reason,
                amount_capturable,
            } => storage::PaymentAttemptUpdate::ErrorUpdate {
                connector,
                status,
                error_code,
                error_message,
                error_reason,
                amount_capturable,
            },
            domain::PaymentAttemptUpdate::MultipleCaptureCountUpdate {
                multiple_capture_count,
            } => storage::PaymentAttemptUpdate::MultipleCaptureCountUpdate {
                multiple_capture_count,
            },
            domain::PaymentAttemptUpdate::PreprocessingUpdate {
                status,
                payment_method_id,
                connector_metadata,
                preprocessing_step_id,
                connector_transaction_id,
                connector_response_reference_id,
            } => storage::PaymentAttemptUpdate::PreprocessingUpdate {
                status,
                payment_method_id,
                connector_metadata,
                preprocessing_step_id,
                connector_transaction_id,
                connector_response_reference_id,
            },
            domain::PaymentAttemptUpdate::RejectUpdate {
                status,
                error_code,
                error_message,
            } => storage::PaymentAttemptUpdate::RejectUpdate {
                status,
                error_code,
                error_message,
            },
            domain::PaymentAttemptUpdate::AmountToCaptureUpdate {
                status,
                amount_capturable,
            } => storage::PaymentAttemptUpdate::AmountToCaptureUpdate {
                status,
                amount_capturable,
            },
        }
    }

    open spec fn domain_model(storage_model: storage::PaymentAttemptUpdate) -> Self {
        match storage_model {
            storage::PaymentAttemptUpdate::Update {
                amount,
                currency,
                status,
                authentication_type,
                payment_method,
                payment_token,
                payment_method_data,
                payment_method_type,
                payment_experience,
                business_sub_label,
                amount_to_capture,
                capture_method,
            } => domain::PaymentAttemptUpdate::Update {
                amount,
                currency,
                status,
                authentication_type,
                payment_method,
                payment_token,
                payment_method_data,
                payment_method_type,
                payment_experience,
                business_sub_label,
                amount_to_capture,
                capture_method,
            },
            storage::PaymentAttemptUpdate::UpdateTrackers {
                payment_token,
                connector,
                straight_through_algorithm,
                amount_capturable,
            } => domain::PaymentAttemptUpdate::UpdateTrackers {
                payment_token,
                connector,
                straight_through_algorithm,
                amount_capturable,
            },
            storage::PaymentAttemptUpdate::AuthenticationTypeUpdate {
                authentication_type,
            } => domain::PaymentAttemptUpdate::AuthenticationTypeUpdate {
                authentication_type,
            },
            storage::PaymentAttemptUpdate::ConfirmUpdate {
                amount,
                currency,
                status,
                authentication_type,
                payment_method,
                browser_info,
                connector,
                payment_token,
                payment_method_data,
                payment_method_type,
                payment_experience,
                business_sub_label,
                straight_through_algorithm,
                error_code,
                error_message,
                amount_capturable,
            } => domain::PaymentAttemptUpdate::ConfirmUpdate {
                amount,
                currency,
                status,
                authentication_type,
                payment_method,
                browser_info,
                connector,
                payment_token,
                payment_method_data,
                payment_method_type,
                payment_experience,
                business_sub_label,
                straight_through_algorithm,
                error_code,
                error_message,
                amount_capturable,
            },
            storage::PaymentAttemptUpdate::VoidUpdate {
                status,
                cancellation_reason,
            } => domain::PaymentAttemptUpdate::VoidUpdate {
                status,
                cancellation_reason,
            },
            storage::PaymentAttemptUpdate::ResponseUpdate {
                status,
                connector,
                connector_transaction_id,
                authentication_type,
                payment_method_id,
                mandate_id,
                connector_metadata,
                payment_token,
                error_code,
                error_message,
                error_reason,
                connector_response_reference_id,
                amount_capturable,
            } => domain::PaymentAttemptUpdate::ResponseUpdate {
                status,
                connector,
                connector_transaction_id,
                authentication_type,
                payment_method_id,
                mandate_id,
                connector_metadata,
                payment_token,
                error_code,
                error_message,
                error_reason,
                connector_response_reference_id,
                amount_capturable,
            },
            storage::PaymentAttemptUpdate::UnresolvedResponseUpdate {
                status,
                connector,
                connector_transaction_id,
                payment_method_id,
                error_code,
                error_message,
                error_reason,
                connector_response_reference_id,
            } => domain::PaymentAttemptUpdate::UnresolvedResponseUpdate {
                status,
                connector,
                connector_transaction_id,
                payment_method_id,
                error_code,
                error_message,
                error_reason,
                connector_response_reference_id,
            },
            storage::PaymentAttemptUpdate::StatusUpdate {
                status,
            } => domain::PaymentAttemptUpdate::StatusUpdate {
                status,
            },
            storage::PaymentAttemptUpdate::ErrorUpdate {
                connector,
                status,
                error_code,
                error_message,
                error_reason,
                amount_capturable,
            } => domain::PaymentAttemptUpdate::ErrorUpdate {
                connector,
                status,
                error_code,
                error_message,
                error_reason,
                amount_capturable,
            },
            storage::PaymentAttemptUpdate::MultipleCaptureCountUpdate {
                multiple_capture_count,
            } => domain::PaymentAttemptUpdate::MultipleCaptureCountUpdate {
                multiple_capture_count,
            },
            storage::PaymentAttemptUpdate::PreprocessingUpdate {
                status,
                payment_method_id,
                connector_metadata,
                preprocessing_step_id,
                connector_transaction_id,
                connector_response_reference_id,
            } => domain::PaymentAttemptUpdate::PreprocessingUpdate {
                status,
                payment_method_id,
                connector_metadata,
                preprocessing_step_id,
                connector_transaction_id,
                connector_response_reference_id,
            },
            storage::PaymentAttemptUpdate::RejectUpdate {
                status,
                error_code,
                error_message,
            } => domain::PaymentAttemptUpdate::RejectUpdate {
                status,
                error_code,
                error_message,
            },
            storage::PaymentAttemptUpdate::AmountToCaptureUpdate {
                status,
                amount_capturable,
            } => domain::PaymentAttemptUpdate::AmountToCaptureUpdate {
                status,
                amount_capturable,
            },
        }
    }

    fn to_storage_model(self) -> (r: storage::PaymentAttemptUpdate) {
        match self {
            domain::PaymentAttemptUpdate::Update {
                amount,
                currency,
                status,
                authentication_type,
                payment_method,
                payment_token,
                payment_method_data,
                payment_method_type,
                payment_experience,
                business_sub_label,
                amount_to_capture,
                capture_method,
            } => storage::PaymentAttemptUpdate::Update {
                amount,
                currency,
                status,
                authentication_type,
                payment_method,
                payment_token,
                payment_method_data,
                payment_method_type,
                payment_experience,
                business_sub_label,
                amount_to_capture,
                capture_method,
            },
            domain::PaymentAttemptUpdate::UpdateTrackers {
                payment_token,
                connector,
                straight_through_algorithm,
                amount_capturable,
            } => storage::PaymentAttemptUpdate::UpdateTrackers {
                payment_token,
                connector,
                straight_through_algorithm,
                amount_capturable,
            },
            domain::PaymentAttemptUpdate::AuthenticationTypeUpdate {
                authentication_type,
            } => storage::PaymentAttemptUpdate::AuthenticationTypeUpdate {
                authentication_type,
            },
            domain::PaymentAttemptUpdate::ConfirmUpdate {
                amount,
                currency,
                status,
                authentication_type,
                payment_method,
                browser_info,
                connector,
                payment_token,
                payment_method_data,
                payment_method_type,
                payment_experience,
                business_sub_label,
                straight_through_algorithm,
                error_code,
                error_message,
                amount_capturable,
            } => storage::PaymentAttemptUpdate::ConfirmUpdate {
                amount,
                currency,
                status,
                authentication_type,
                payment_method,
                browser_info,
                connector,
                payment_token,
                payment_method_data,
                payment_method_type,
                payment_experience,
                business_sub_label,
                straight_through_algorithm,
                error_code,
                error_message,
                amount_capturable,
            },
            domain::PaymentAttemptUpdate::VoidUpdate {
                status,
                cancellation_reason,
            } => storage::PaymentAttemptUpdate::VoidUpdate {
                status,
                cancellation_reason,
            },
            domain::PaymentAttemptUpdate::ResponseUpdate {
                status,
                connector,
                connector_transaction_id,
                authentication_type,
                payment_method_id,
                mandate_id,
                connector_metadata,
                payment_token,
                error_code,
                error_message,
                error_reason,
                connector_response_reference_id,
                amount_capturable,
            } => storage::PaymentAttemptUpdate::ResponseUpdate {
                status,
                connector,
                connector_transaction_id,
                authentication_type,
                payment_method_id,
                mandate_id,
                connector_metadata,
                payment_token,
                error_code,
                error_message,
                error_reason,
                connector_response_reference_id,
                amount_capturable,
            },
            domain::PaymentAttemptUpdate::UnresolvedResponseUpdate {
                status,
                connector,
                connector_transaction_id,
                payment_method_id,
                error_code,
                error_message,
                error_reason,
                connector_response_reference_id,
            } => storage::PaymentAttemptUpdate::UnresolvedResponseUpdate {
                status,
                connector,
                connector_transaction_id,
                payment_method_id,
                error_code,
                error_message,
                error_reason,
                connector_response_reference_id,
            },
            domain::PaymentAttemptUpdate::StatusUpdate {
                status,
            } => storage::PaymentAttemptUpdate::StatusUpdate {
                status,
            },
            domain::PaymentAttemptUpdate::ErrorUpdate {
                connector,
                status,
                error_code,
                error_message,
                error_reason,
                amount_capturable,
            } => storage::PaymentAttemptUpdate::ErrorUpdate {
                connector,
                status,
                error_code,
                error_message,
                error_reason,
                amount_capturable,
            },
            domain::PaymentAttemptUpdate::MultipleCaptureCountUpdate {
                multiple_capture_count,
            } => storage::PaymentAttemptUpdate::MultipleCaptureCountUpdate {
                multiple_capture_count,
            },
            domain::PaymentAttemptUpdate::PreprocessingUpdate {
                status,
                payment_method_id,
                connector_metadata,
                preprocessing_step_id,
                connector_transaction_id,
                connector_response_reference_id,
            } => storage::PaymentAttemptUpdate::PreprocessingUpdate {
                status,
                payment_method_id,
                connector_metadata,
                preprocessing_step_id,
                connector_transaction_id,
                connector_response_reference_id,
            },
            domain::PaymentAttemptUpdate::RejectUpdate {
                status,
                error_code,
                error_message,
            } => storage::PaymentAttemptUpdate::RejectUpdate {
                status,
                error_code,
                error_message,
            },
            domain::PaymentAttemptUpdate::AmountToCaptureUpdate {
                status,
                amount_capturable,
            } => storage::PaymentAttemptUpdate::AmountToCaptureUpdate {
                status,
                amount_capturable,
            },
        }
    }

    fn from_storage_model(storage_model: storage::PaymentAttemptUpdate) -> (r: Self) {
        match storage_model {
            storage::PaymentAttemptUpdate::Update {
                amount,
                currency,
                status,
                authentication_type,
                payment_method,
                payment_token,
                payment_method_data,
                payment_method_type,
                payment_experience,
                business_sub_label,
                amount_to_capture,
                capture_method,
            } => domain::PaymentAttemptUpdate::Update {
                amount,
                currency,
                status,
                authentication_type,
                payment_method,
                payment_token,
                payment_method_data,
                payment_method_type,
                payment_experience,
                business_sub_label,
                amount_to_capture,
                capture_method,
            },
            storage::PaymentAttemptUpdate::UpdateTrackers {
                payment_token,
                connector,
                straight_through_algorithm,
                amount_capturable,
            } => domain::PaymentAttemptUpdate::UpdateTrackers {
                payment_token,
                connector,
                straight_through_algorithm,
                amount_capturable,
            },
            storage::PaymentAttemptUpdate::AuthenticationTypeUpdate {
                authentication_type,
            } => domain::PaymentAttemptUpdate::AuthenticationTypeUpdate {
                authentication_type,
            },
            storage::PaymentAttemptUpdate::ConfirmUpdate {
                amount,
                currency,
                status,
                authentication_type,
                payment_method,
                browser_info,
                connector,
                payment_token,
                payment_method_data,
                payment_method_type,
                payment_experience,
                business_sub_label,
                straight_through_algorithm,
                error_code,
                error_message,
                amount_capturable,
            } => domain::PaymentAttemptUpdate::ConfirmUpdate {
                amount,
                currency,
                status,
                authentication_type,
                payment_method,
                browser_info,
                connector,
                payment_token,
                payment_method_data,
                payment_method_type,
                payment_experience,
                business_sub_label,
                straight_through_algorithm,
                error_code,
                error_message,
                amount_capturable,
            },
            storage::PaymentAttemptUpdate::VoidUpdate {
                status,
                cancellation_reason,
            } => domain::PaymentAttemptUpdate::VoidUpdate {
                status,
                cancellation_reason,
            },
            storage::PaymentAttemptUpdate::ResponseUpdate {
                status,
                connector,
                connector_transaction_id,
                authentication_type,
                payment_method_id,
                mandate_id,
                connector_metadata,
                payment_token,
                error_code,
                error_message,
                error_reason,
                connector_response_reference_id,
                amount_capturable,
            } => domain::PaymentAttemptUpdate::ResponseUpdate {
                status,
                connector,
                connector_transaction_id,
                authentication_type,
                payment_method_id,
                mandate_id,
                connector_metadata,
                payment_token,
                error_code,
                error_message,
                error_reason,
                connector_response_reference_id,
                amount_capturable,
            },
            storage::PaymentAttemptUpdate::UnresolvedResponseUpdate {
                status,
                connector,
                connector_transaction_id,
                payment_method_id,
                error_code,
                error_message,
                error_reason,
                connector_response_reference_id,
            } => domain::PaymentAttemptUpdate::UnresolvedResponseUpdate {
                status,
                connector,
                connector_transaction_id,
                payment_method_id,
                error_code,
                error_message,
                error_reason,
                connector_response_reference_id,
            },
            storage::PaymentAttemptUpdate::StatusUpdate {
                status,
            } => domain::PaymentAttemptUpdate::StatusUpdate {
                status,
            },
            storage::PaymentAttemptUpdate::ErrorUpdate {
                connector,
                status,
                error_code,
                error_message,
                error_reason,
                amount_capturable,
            } => domain::PaymentAttemptUpdate::ErrorUpdate {
                connector,
                status,
                error_code,
                error_message,
                error_reason,
                amount_capturable,
            },
            storage::PaymentAttemptUpdate::MultipleCaptureCountUpdate {
                multiple_capture_count,
            } => domain::PaymentAttemptUpdate::MultipleCaptureCountUpdate {
                multiple_capture_count,
            },
            storage::PaymentAttemptUpdate::PreprocessingUpdate {
                status,
                payment_method_id,
                connector_metadata,
                preprocessing_step_id,
                connector_transaction_id,
                connector_response_reference_id,
            } => domain::PaymentAttemptUpdate::PreprocessingUpdate {
                status,
                payment_method_id,
                connector_metadata,
                preprocessing_step_id,
                connector_transaction_id,
                connector_response_reference_id,
            },
            storage::PaymentAttemptUpdate::RejectUpdate {
                status,
                error_code,
                error_message,
            } => domain::PaymentAttemptUpdate::RejectUpdate {
                status,
                error_code,
                error_message,
            },
            storage::PaymentAttemptUpdate::AmountToCaptureUpdate {
                status,
                amount_capturable,
            } => domain::PaymentAttemptUpdate::AmountToCaptureUpdate {
                status,
                amount_capturable,
            },
        }
    }

    proof fn lemma_round_trip(self) {
    }

    proof fn lemma_round_trip_back(storage_model: storage::PaymentAttemptUpdate) {
    }
}

} // verus!
