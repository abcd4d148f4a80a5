//! Payment attempts as the rest of the system sees them.

use crate::clock::Timestamp;
use crate::enums::{
    AttemptStatus, AuthenticationType, CaptureMethod, Currency, PaymentExperience, PaymentMethod,
    PaymentMethodType,
};
use crate::json::clone_json;
use crate::text::{clone_nested_text, clone_text};
use vstd::prelude::*;

verus! {

/// Amount limits of a mandate.
#[derive(Debug, PartialEq)]
pub struct MandateAmountData {
    pub amount: i64,
    pub currency: Currency,
    pub start_date: Option<Timestamp>,
    pub end_date: Option<Timestamp>,
    pub metadata: Option<serde_json::Value>,
}

impl Clone for MandateAmountData {
    fn clone(&self) -> (r: Self)
        ensures
            r == *self,
    {
        MandateAmountData {
            amount: self.amount,
            currency: self.currency,
            start_date: self.start_date,
            end_date: self.end_date,
            metadata: clone_json(&self.metadata),
        }
    }
}
/// How often a mandate may be used.
#[derive(Debug, PartialEq)]
pub enum MandateDataType {
    SingleUse(MandateAmountData),
    MultiUse(Option<MandateAmountData>),
}

impl Clone for MandateDataType {
    fn clone(&self) -> (r: Self)
        ensures
            r == *self,
    {
        match self {
            MandateDataType::SingleUse(data) => MandateDataType::SingleUse(data.clone()),
            MandateDataType::MultiUse(data) => MandateDataType::MultiUse(clone_amount_data(data)),
        }
    }
}

/// Copies optional amount limits.
pub fn clone_amount_data(v: &Option<MandateAmountData>) -> (r: Option<MandateAmountData>)
    ensures
        r == *v,
{
    match v {
        Some(data) => Some(data.clone()),
        None => None,
    }
}

/// Copies optional mandate details.
pub fn clone_mandate(v: &Option<MandateDataType>) -> (r: Option<MandateDataType>)
    ensures
        r == *v,
{
    match v {
        Some(data) => Some(data.clone()),
        None => None,
    }
}


/// One attempt to pay for a payment. `(merchant_id, payment_id)` is the
/// partition it belongs to and `attempt_id` names it within the merchant.
#[derive(Debug, PartialEq)]
pub struct PaymentAttempt {
    pub id: i32,
    pub payment_id: String,
    pub merchant_id: String,
    pub attempt_id: String,
    pub status: AttemptStatus,
    pub amount: i64,
    pub currency: Option<Currency>,
    pub save_to_locker: Option<bool>,
    pub connector: Option<String>,
    pub error_message: Option<String>,
    pub offer_amount: Option<i64>,
    pub surcharge_amount: Option<i64>,
    pub tax_amount: Option<i64>,
    pub payment_method_id: Option<String>,
    pub payment_method: Option<PaymentMethod>,
    pub connector_transaction_id: Option<String>,
    pub capture_method: Option<CaptureMethod>,
    pub capture_on: Option<Timestamp>,
    pub confirm: bool,
    pub authentication_type: Option<AuthenticationType>,
    pub created_at: Timestamp,
    pub modified_at: Timestamp,
    pub last_synced: Option<Timestamp>,
    pub cancellation_reason: Option<String>,
    pub amount_to_capture: Option<i64>,
    pub mandate_id: Option<String>,
    pub browser_info: Option<serde_json::Value>,
    pub error_code: Option<String>,
    pub payment_token: Option<String>,
    pub connector_metadata: Option<serde_json::Value>,
    pub payment_experience: Option<PaymentExperience>,
    pub payment_method_type: Option<PaymentMethodType>,
    pub payment_method_data: Option<serde_json::Value>,
    pub business_sub_label: Option<String>,
    pub straight_through_algorithm: Option<serde_json::Value>,
    pub preprocessing_step_id: Option<String>,
    pub mandate_details: Option<MandateDataType>,
    pub error_reason: Option<String>,
    pub multiple_capture_count: Option<i16>,
    pub connector_response_reference_id: Option<String>,
    pub amount_capturable: i64,
}

impl Clone for PaymentAttempt {
    fn clone(&self) -> (r: Self)
        ensures
            r == *self,
    {
        PaymentAttempt {
            id: self.id,
            payment_id: self.payment_id.clone(),
            merchant_id: self.merchant_id.clone(),
            attempt_id: self.attempt_id.clone(),
            status: self.status,
            amount: self.amount,
            currency: self.currency,
            save_to_locker: self.save_to_locker,
            connector: clone_text(&self.connector),
            error_message: clone_text(&self.error_message),
            offer_amount: self.offer_amount,
            surcharge_amount: self.surcharge_amount,
            tax_amount: self.tax_amount,
            payment_method_id: clone_text(&self.payment_method_id),
            payment_method: self.payment_method,
            connector_transaction_id: clone_text(&self.connector_transaction_id),
            capture_method: self.capture_method,
            capture_on: self.capture_on,
            confirm: self.confirm,
            authentication_type: self.authentication_type,
            created_at: self.created_at,
            modified_at: self.modified_at,
            last_synced: self.last_synced,
            cancellation_reason: clone_text(&self.cancellation_reason),
            amount_to_capture: self.amount_to_capture,
            mandate_id: clone_text(&self.mandate_id),
            browser_info: clone_json(&self.browser_info),
            error_code: clone_text(&self.error_code),
            payment_token: clone_text(&self.payment_token),
            connector_metadata: clone_json(&self.connector_metadata),
            payment_experience: self.payment_experience,
            payment_method_type: self.payment_method_type,
            payment_method_data: clone_json(&self.payment_method_data),
            business_sub_label: clone_text(&self.business_sub_label),
            straight_through_algorithm: clone_json(&self.straight_through_algorithm),
            preprocessing_step_id: clone_text(&self.preprocessing_step_id),
            mandate_details: clone_mandate(&self.mandate_details),
            error_reason: clone_text(&self.error_reason),
            multiple_capture_count: self.multiple_capture_count,
            connector_response_reference_id: clone_text(&self.connector_response_reference_id),
            amount_capturable: self.amount_capturable,
        }
    }
}

/// What is known of an attempt when it is created.
#[derive(Debug, PartialEq)]
pub struct PaymentAttemptNew {
    pub payment_id: String,
    pub merchant_id: String,
    pub attempt_id: String,
    pub status: AttemptStatus,
    pub amount: i64,
    pub currency: Option<Currency>,
    pub save_to_locker: Option<bool>,
    pub connector: Option<String>,
    pub error_message: Option<String>,
    pub offer_amount: Option<i64>,
    pub surcharge_amount: Option<i64>,
    pub tax_amount: Option<i64>,
    pub payment_method_id: Option<String>,
    pub payment_method: Option<PaymentMethod>,
    pub capture_method: Option<CaptureMethod>,
    pub capture_on: Option<Timestamp>,
    pub confirm: bool,
    pub authentication_type: Option<AuthenticationType>,
    pub created_at: Option<Timestamp>,
    pub modified_at: Option<Timestamp>,
    pub last_synced: Option<Timestamp>,
    pub cancellation_reason: Option<String>,
    pub amount_to_capture: Option<i64>,
    pub mandate_id: Option<String>,
    pub browser_info: Option<serde_json::Value>,
    pub payment_token: Option<String>,
    pub error_code: Option<String>,
    pub connector_metadata: Option<serde_json::Value>,
    pub payment_experience: Option<PaymentExperience>,
    pub payment_method_type: Option<PaymentMethodType>,
    pub payment_method_data: Option<serde_json::Value>,
    pub business_sub_label: Option<String>,
    pub straight_through_algorithm: Option<serde_json::Value>,
    pub preprocessing_step_id: Option<String>,
    pub mandate_details: Option<MandateDataType>,
    pub error_reason: Option<String>,
    pub connector_response_reference_id: Option<String>,
    pub multiple_capture_count: Option<i16>,
    pub amount_capturable: i64,
}

impl Clone for PaymentAttemptNew {
    fn clone(&self) -> (r: Self)
        ensures
            r == *self,
    {
        PaymentAttemptNew {
            payment_id: self.payment_id.clone(),
            merchant_id: self.merchant_id.clone(),
            attempt_id: self.attempt_id.clone(),
            status: self.status,
            amount: self.amount,
            currency: self.currency,
            save_to_locker: self.save_to_locker,
            connector: clone_text(&self.connector),
            error_message: clone_text(&self.error_message),
            offer_amount: self.offer_amount,
            surcharge_amount: self.surcharge_amount,
            tax_amount: self.tax_amount,
            payment_method_id: clone_text(&self.payment_method_id),
            payment_method: self.payment_method,
            capture_method: self.capture_method,
            capture_on: self.capture_on,
            confirm: self.confirm,
            authentication_type: self.authentication_type,
            created_at: self.created_at,
            modified_at: self.modified_at,
            last_synced: self.last_synced,
            cancellation_reason: clone_text(&self.cancellation_reason),
            amount_to_capture: self.amount_to_capture,
            mandate_id: clone_text(&self.mandate_id),
            browser_info: clone_json(&self.browser_info),
            payment_token: clone_text(&self.payment_token),
            error_code: clone_text(&self.error_code),
            connector_metadata: clone_json(&self.connector_metadata),
            payment_experience: self.payment_experience,
            payment_method_type: self.payment_method_type,
            payment_method_data: clone_json(&self.payment_method_data),
            business_sub_label: clone_text(&self.business_sub_label),
            straight_through_algorithm: clone_json(&self.straight_through_algorithm),
            preprocessing_step_id: clone_text(&self.preprocessing_step_id),
            mandate_details: clone_mandate(&self.mandate_details),
            error_reason: clone_text(&self.error_reason),
            connector_response_reference_id: clone_text(&self.connector_response_reference_id),
            multiple_capture_count: self.multiple_capture_count,
            amount_capturable: self.amount_capturable,
        }
    }
}

/// The ways in which an attempt changes after it was created.
#[derive(Debug, PartialEq)]
#[allow(inconsistent_fields)]
pub enum PaymentAttemptUpdate {
    /// Changes made while the payment is still being set up.
    Update {
        amount: i64,
        currency: Currency,
        status: AttemptStatus,
        authentication_type: Option<AuthenticationType>,
        payment_method: Option<PaymentMethod>,
        payment_token: Option<String>,
        payment_method_data: Option<serde_json::Value>,
        payment_method_type: Option<PaymentMethodType>,
        payment_experience: Option<PaymentExperience>,
        business_sub_label: Option<String>,
        amount_to_capture: Option<i64>,
        capture_method: Option<CaptureMethod>,
    },
    /// Routing decisions recorded before the connector is called.
    UpdateTrackers {
        payment_token: Option<String>,
        connector: Option<String>,
        straight_through_algorithm: Option<serde_json::Value>,
        amount_capturable: Option<i64>,
    },
    /// The authentication type alone.
    AuthenticationTypeUpdate {
        authentication_type: AuthenticationType,
    },
    /// Everything fixed at confirmation.
    ConfirmUpdate {
        amount: i64,
        currency: Currency,
        status: AttemptStatus,
        authentication_type: Option<AuthenticationType>,
        payment_method: Option<PaymentMethod>,
        browser_info: Option<serde_json::Value>,
        connector: Option<String>,
        payment_token: Option<String>,
        payment_method_data: Option<serde_json::Value>,
        payment_method_type: Option<PaymentMethodType>,
        payment_experience: Option<PaymentExperience>,
        business_sub_label: Option<String>,
        straight_through_algorithm: Option<serde_json::Value>,
        error_code: Option<Option<String>>,
        error_message: Option<Option<String>>,
        amount_capturable: Option<i64>,
    },
    /// Cancellation.
    VoidUpdate {
        status: AttemptStatus,
        cancellation_reason: Option<String>,
    },
    /// What the connector answered.
    ResponseUpdate {
        status: AttemptStatus,
        connector: Option<String>,
        connector_transaction_id: Option<String>,
        authentication_type: Option<AuthenticationType>,
        payment_method_id: Option<Option<String>>,
        mandate_id: Option<String>,
        connector_metadata: Option<serde_json::Value>,
        payment_token: Option<String>,
        error_code: Option<Option<String>>,
        error_message: Option<Option<String>>,
        error_reason: Option<Option<String>>,
        connector_response_reference_id: Option<String>,
        amount_capturable: Option<i64>,
    },
    /// A connector answer that needs manual resolution.
    UnresolvedResponseUpdate {
        status: AttemptStatus,
        connector: Option<String>,
        connector_transaction_id: Option<String>,
        payment_method_id: Option<Option<String>>,
        error_code: Option<Option<String>>,
        error_message: Option<Option<String>>,
        error_reason: Option<Option<String>>,
        connector_response_reference_id: Option<String>,
    },
    /// The status alone.
    StatusUpdate {
        status: AttemptStatus,
    },
    /// A failure reported by the connector.
    ErrorUpdate {
        connector: Option<String>,
        status: AttemptStatus,
        error_code: Option<Option<String>>,
        error_message: Option<Option<String>>,
        error_reason: Option<Option<String>>,
        amount_capturable: Option<i64>,
    },
    /// The number of captures made so far.
    MultipleCaptureCountUpdate {
        multiple_capture_count: i16,
    },
    /// What a preprocessing step with the connector produced.
    PreprocessingUpdate {
        status: AttemptStatus,
        payment_method_id: Option<Option<String>>,
        connector_metadata: Option<serde_json::Value>,
        preprocessing_step_id: Option<String>,
        connector_transaction_id: Option<String>,
        connector_response_reference_id: Option<String>,
    },
    /// Rejection before the connector was called.
    RejectUpdate {
        status: AttemptStatus,
        error_code: Option<Option<String>>,
        error_message: Option<Option<String>>,
    },
    /// The amount still capturable after a capture.
    AmountToCaptureUpdate {
        status: AttemptStatus,
        amount_capturable: i64,
    },
}

impl Clone for PaymentAttemptUpdate {
    fn clone(&self) -> (r: Self)
        ensures
            r == *self,
    {
        match self {
            PaymentAttemptUpdate::Update {
                amount,
                currency,
                status,
                authentication_type,
                payment_method,
                payment_token,
                payment_method_data,
                payment_method_type,
                payment_experience,
                business_sub_label,
                amount_to_capture,
                capture_method,
            } => PaymentAttemptUpdate::Update {
                amount: *amount,
                currency: *currency,
                status: *status,
                authentication_type: *authentication_type,
                payment_method: *payment_method,
                payment_token: clone_text(payment_token),
                payment_method_data: clone_json(payment_method_data),
                payment_method_type: *payment_method_type,
                payment_experience: *payment_experience,
                business_sub_label: clone_text(business_sub_label),
                amount_to_capture: *amount_to_capture,
                capture_method: *capture_method,
            },
            PaymentAttemptUpdate::UpdateTrackers {
                payment_token,
                connector,
                straight_through_algorithm,
                amount_capturable,
            } => PaymentAttemptUpdate::UpdateTrackers {
                payment_token: clone_text(payment_token),
                connector: clone_text(connector),
                straight_through_algorithm: clone_json(straight_through_algorithm),
                amount_capturable: *amount_capturable,
            },
            PaymentAttemptUpdate::AuthenticationTypeUpdate {
                authentication_type,
            } => PaymentAttemptUpdate::AuthenticationTypeUpdate {
                authentication_type: *authentication_type,
            },
            PaymentAttemptUpdate::ConfirmUpdate {
                amount,
                currency,
                status,
                authentication_type,
                payment_method,
                browser_info,
                connector,
                payment_token,
                payment_method_data,
                payment_method_type,
                payment_experience,
                business_sub_label,
                straight_through_algorithm,
                error_code,
                error_message,
                amount_capturable,
            } => PaymentAttemptUpdate::ConfirmUpdate {
                amount: *amount,
                currency: *currency,
                status: *status,
                authentication_type: *authentication_type,
                payment_method: *payment_method,
                browser_info: clone_json(browser_info),
                connector: clone_text(connector),
                payment_token: clone_text(payment_token),
                payment_method_data: clone_json(payment_method_data),
                payment_method_type: *payment_method_type,
                payment_experience: *payment_experience,
                business_sub_label: clone_text(business_sub_label),
                straight_through_algorithm: clone_json(straight_through_algorithm),
                error_code: clone_nested_text(error_code),
                error_message: clone_nested_text(error_message),
                amount_capturable: *amount_capturable,
            },
            PaymentAttemptUpdate::VoidUpdate {
                status,
                cancellation_reason,
            } => PaymentAttemptUpdate::VoidUpdate {
                status: *status,
                cancellation_reason: clone_text(cancellation_reason),
            },
            PaymentAttemptUpdate::ResponseUpdate {
                status,
                connector,
                connector_transaction_id,
                authentication_type,
                payment_method_id,
                mandate_id,
                connector_metadata,
                payment_token,
                error_code,
                error_message,
                error_reason,
                connector_response_reference_id,
                amount_capturable,
            } => PaymentAttemptUpdate::ResponseUpdate {
                status: *status,
                connector: clone_text(connector),
                connector_transaction_id: clone_text(connector_transaction_id),
                authentication_type: *authentication_type,
                payment_method_id: clone_nested_text(payment_method_id),
                mandate_id: clone_text(mandate_id),
                connector_metadata: clone_json(connector_metadata),
                payment_token: clone_text(payment_token),
                error_code: clone_nested_text(error_code),
                error_message: clone_nested_text(error_message),
                error_reason: clone_nested_text(error_reason),
                connector_response_reference_id: clone_text(connector_response_reference_id),
                amount_capturable: *amount_capturable,
            },
            PaymentAttemptUpdate::UnresolvedResponseUpdate {
                status,
                connector,
                connector_transaction_id,
                payment_method_id,
                error_code,
                error_message,
                error_reason,
                connector_response_reference_id,
            } => PaymentAttemptUpdate::UnresolvedResponseUpdate {
                status: *status,
                connector: clone_text(connector),
                connector_transaction_id: clone_text(connector_transaction_id),
                payment_method_id: clone_nested_text(payment_method_id),
                error_code: clone_nested_text(error_code),
                error_message: clone_nested_text(error_message),
                error_reason: clone_nested_text(error_reason),
                connector_response_reference_id: clone_text(connector_response_reference_id),
            },
            PaymentAttemptUpdate::StatusUpdate { status } => PaymentAttemptUpdate::StatusUpdate {
                status: *status,
            },
            PaymentAttemptUpdate::ErrorUpdate {
                connector,
                status,
                error_code,
                error_message,
                error_reason,
                amount_capturable,
            } => PaymentAttemptUpdate::ErrorUpdate {
                connector: clone_text(connector),
                status: *status,
                error_code: clone_nested_text(error_code),
                error_message: clone_nested_text(error_message),
                error_reason: clone_nested_text(error_reason),
                amount_capturable: *amount_capturable,
            },
            PaymentAttemptUpdate::MultipleCaptureCountUpdate {
                multiple_capture_count,
            } => PaymentAttemptUpdate::MultipleCaptureCountUpdate {
                multiple_capture_count: *multiple_capture_count,
            },
            PaymentAttemptUpdate::PreprocessingUpdate {
                status,
                payment_method_id,
                connector_metadata,
                preprocessing_step_id,
                connector_transaction_id,
                connector_response_reference_id,
            } => PaymentAttemptUpdate::PreprocessingUpdate {
                status: *status,
                payment_method_id: clone_nested_text(payment_method_id),
                connector_metadata: clone_json(connector_metadata),
                preprocessing_step_id: clone_text(preprocessing_step_id),
                connector_transaction_id: clone_text(connector_transaction_id),
                connector_response_reference_id: clone_text(connector_response_reference_id),
            },
            PaymentAttemptUpdate::RejectUpdate {
                status,
                error_code,
                error_message,
            } => PaymentAttemptUpdate::RejectUpdate {
                status: *status,
                error_code: clone_nested_text(error_code),
                error_message: clone_nested_text(error_message),
            },
            PaymentAttemptUpdate::AmountToCaptureUpdate {
                status,
                amount_capturable,
            } => PaymentAttemptUpdate::AmountToCaptureUpdate {
                status: *status,
                amount_capturable: *amount_capturable,
            },
        }
    }
}

impl PaymentAttempt {
    /// The attempt that the cache holds for `new` once it is inserted
    /// cache-first. The durable store has not numbered it yet, so `id` is
    /// zero; nothing is known from a connector yet. Both timestamps are
    /// the creation time given with `new`, or else the clock reading
    /// taken for each.
    pub open spec fn created_from(
        new: PaymentAttemptNew,
        created_now: Timestamp,
        modified_now: Timestamp,
    ) -> PaymentAttempt {
        PaymentAttempt {
            id: 0,
            payment_id: new.payment_id,
            merchant_id: new.merchant_id,
            attempt_id: new.attempt_id,
            status: new.status,
            amount: new.amount,
            currency: new.currency,
            save_to_locker: new.save_to_locker,
            connector: new.connector,
            error_message: new.error_message,
            offer_amount: new.offer_amount,
            surcharge_amount: new.surcharge_amount,
            tax_amount: new.tax_amount,
            payment_method_id: new.payment_method_id,
            payment_method: new.payment_method,
            connector_transaction_id: None,
            capture_method: new.capture_method,
            capture_on: new.capture_on,
            confirm: new.confirm,
            authentication_type: new.authentication_type,
            created_at: match new.created_at {
                Some(at) => at,
                None => created_now,
            },
            modified_at: match new.created_at {
                Some(at) => at,
                None => modified_now,
            },
            last_synced: new.last_synced,
            cancellation_reason: new.cancellation_reason,
            amount_to_capture: new.amount_to_capture,
            mandate_id: new.mandate_id,
            browser_info: new.browser_info,
            error_code: new.error_code,
            payment_token: new.payment_token,
            connector_metadata: new.connector_metadata,
            payment_experience: new.payment_experience,
            payment_method_type: new.payment_method_type,
            payment_method_data: new.payment_method_data,
            business_sub_label: new.business_sub_label,
            straight_through_algorithm: new.straight_through_algorithm,
            preprocessing_step_id: new.preprocessing_step_id,
            mandate_details: new.mandate_details,
            error_reason: new.error_reason,
            multiple_capture_count: new.multiple_capture_count,
            connector_response_reference_id: None,
            amount_capturable: new.amount_capturable,
        }
    }

    /// Builds the attempt that the cache holds for `new`.
    pub fn create_from(
        new: &PaymentAttemptNew,
        created_now: Timestamp,
        modified_now: Timestamp,
    ) -> (r: PaymentAttempt)
        ensures
            r == PaymentAttempt::created_from(*new, created_now, modified_now),
    {
        PaymentAttempt {
            id: 0,
            payment_id: new.payment_id.clone(),
            merchant_id: new.merchant_id.clone(),
            attempt_id: new.attempt_id.clone(),
            status: new.status,
            amount: new.amount,
            currency: new.currency,
            save_to_locker: new.save_to_locker,
            connector: clone_text(&new.connector),
            error_message: clone_text(&new.error_message),
            offer_amount: new.offer_amount,
            surcharge_amount: new.surcharge_amount,
            tax_amount: new.tax_amount,
            payment_method_id: clone_text(&new.payment_method_id),
            payment_method: new.payment_method,
            connector_transaction_id: None,
            capture_method: new.capture_method,
            capture_on: new.capture_on,
            confirm: new.confirm,
            authentication_type: new.authentication_type,
            created_at: match new.created_at {
                Some(at) => at,
                None => created_now,
            },
            modified_at: match new.created_at {
                Some(at) => at,
                None => modified_now,
            },
            last_synced: new.last_synced,
            cancellation_reason: clone_text(&new.cancellation_reason),
            amount_to_capture: new.amount_to_capture,
            mandate_id: clone_text(&new.mandate_id),
            browser_info: clone_json(&new.browser_info),
            error_code: clone_text(&new.error_code),
            payment_token: clone_text(&new.payment_token),
            connector_metadata: clone_json(&new.connector_metadata),
            payment_experience: new.payment_experience,
            payment_method_type: new.payment_method_type,
            payment_method_data: clone_json(&new.payment_method_data),
            business_sub_label: clone_text(&new.business_sub_label),
            straight_through_algorithm: clone_json(&new.straight_through_algorithm),
            preprocessing_step_id: clone_text(&new.preprocessing_step_id),
            mandate_details: clone_mandate(&new.mandate_details),
            error_reason: clone_text(&new.error_reason),
            multiple_capture_count: new.multiple_capture_count,
            connector_response_reference_id: None,
            amount_capturable: new.amount_capturable,
        }
    }
}

} // verus!
