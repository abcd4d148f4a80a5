//! Customers: what is decided between the calls to the stores, the locker
//! and the encryption service when a customer is created, read, updated or
//! deleted.
//!
//! Creating a customer stores the address, if one is given, and the
//! customer, both with their personal parts encrypted; a customer that
//! exists already is returned as it is. Updating a customer overwrites the
//! address, if one is given, and the customer.
//!
//! Deleting a customer redacts it: the customer must exist and have no
//! active mandate; its payment methods are deleted, cards from the locker
//! first; its address and the customer itself are overwritten with a
//! redaction marker.

use crate::clock::{now, Timestamp};
use crate::connector::types::Secret;
use crate::enums::{MandateStatus, PaymentMethod};
use crate::errors::{customer_error, CustomersErrorResponse, StorageError};
use crate::json::clone_json;
use crate::text::clone_text;
use vstd::prelude::*;
use vstd::string::StringExecFns;

verus! {

/// The marker that stands in the place of redacted texts.
pub const REDACTED: &'static str = "Redacted";

/// A text together with its encrypted form, as the encryption service
/// returns it.
#[derive(PartialEq)]
pub struct Encryptable {
    pub inner: Secret,
    pub encrypted: Vec<u8>,
}

impl Encryptable {
    /// The same text with the same encrypted form.
    pub open spec fn same_as(self, other: Encryptable) -> bool {
        self.inner == other.inner && self.encrypted@ == other.encrypted@
    }
}

impl Clone for Encryptable {
    fn clone(&self) -> (r: Self)
        ensures
            r.same_as(*self),
    {
        Encryptable { inner: self.inner.clone(), encrypted: self.encrypted.clone() }
    }
}

/// Whether an optional value is the redacted one.
pub open spec fn is_redacted(value: Option<Encryptable>, redacted: Encryptable) -> bool {
    value matches Some(v) && v.same_as(redacted)
}

/// Whether an optional text is the redaction marker.
pub open spec fn is_marker(text: Option<String>) -> bool {
    text matches Some(t) && t@ == REDACTED@
}

/// An update of the address of a customer.
#[derive(PartialEq)]
pub enum AddressUpdate {
    Update {
        city: Option<String>,
        country: Option<String>,
        line1: Option<Encryptable>,
        line2: Option<Encryptable>,
        line3: Option<Encryptable>,
        state: Option<Encryptable>,
        zip: Option<Encryptable>,
        first_name: Option<Encryptable>,
        last_name: Option<Encryptable>,
        phone_number: Option<Encryptable>,
        country_code: Option<String>,
    },
}

/// An update of a customer.
#[derive(PartialEq)]
pub enum CustomerUpdate {
    Update {
        name: Option<Encryptable>,
        email: Option<Encryptable>,
        phone: Option<Encryptable>,
        description: Option<String>,
        phone_country_code: Option<String>,
        metadata: Option<serde_json::Value>,
        connector_customer: Option<serde_json::Value>,
    },
}

/// A mandate of a customer.
#[derive(Debug, PartialEq)]
pub struct Mandate {
    pub mandate_id: String,
    pub mandate_status: MandateStatus,
}

/// A stored payment method of a customer.
#[derive(Debug, PartialEq)]
pub struct CustomerPaymentMethod {
    pub payment_method_id: String,
    pub payment_method: PaymentMethod,
}

/// The deletion of one payment method.
#[derive(Debug, PartialEq)]
pub struct PaymentMethodDeletion {
    pub payment_method_id: String,
    /// Whether the card behind the payment method is deleted from the
    /// locker before the payment method itself is deleted.
    pub from_locker: bool,
}

/// What the caller is told once a customer was deleted.
#[derive(Debug, PartialEq)]
pub struct CustomerDeleteResponse {
    pub customer_id: String,
    pub customer_deleted: bool,
    pub address_deleted: bool,
    pub payment_methods_deleted: bool,
}

/// What follows from a failed attempt to insert a customer: a customer that
/// exists already is fetched and returned in its place; any other failure is
/// the caller's.
pub fn existing_customer_instead(error: &StorageError) -> (r: Result<(), CustomersErrorResponse>)
    ensures
        r == if error@.is_unique_violation() {
            Ok::<(), CustomersErrorResponse>(())
        } else {
            Err::<(), CustomersErrorResponse>(CustomersErrorResponse::InternalServerError)
        },
{
    if error.is_db_unique_violation() {
        Ok(())
    } else {
        Err(CustomersErrorResponse::InternalServerError)
    }
}

/// Whether one of the mandates is active.
pub open spec fn any_active(mandates: Seq<Mandate>) -> bool {
    exists|i: int|
        0 <= i < mandates.len() && (#[trigger] mandates[i]).mandate_status == MandateStatus::Active
}

/// Whether one of the mandates is active.
pub fn has_active_mandate(mandates: &Vec<Mandate>) -> (r: bool)
    ensures
        r == any_active(mandates@),
{
    let mut i: usize = 0;
    while i < mandates.len()
        invariant
            i <= mandates.len(),
            forall|j: int|
                0 <= j < i ==> (#[trigger] mandates@[j]).mandate_status != MandateStatus::Active,
        decreases mandates.len() - i,
    {
        if mandates[i].mandate_status == MandateStatus::Active {
            return true;
        }
        i += 1;
    }
    false
}

/// The deletion of a payment method: a card is deleted from the locker
/// first.
pub open spec fn deletion_of(method: CustomerPaymentMethod) -> PaymentMethodDeletion {
    PaymentMethodDeletion {
        payment_method_id: method.payment_method_id,
        from_locker: method.payment_method == PaymentMethod::Card,
    }
}

/// The deletions of the payment methods of a customer, in their order.
pub open spec fn deletions_of(methods: Seq<CustomerPaymentMethod>) -> Seq<PaymentMethodDeletion> {
    methods.map_values(|m: CustomerPaymentMethod| deletion_of(m))
}

/// Plans the deletion of the payment methods of a customer, in their order.
pub fn plan_deletions(methods: Vec<CustomerPaymentMethod>) -> (r: Vec<PaymentMethodDeletion>)
    ensures
        r@ == deletions_of(methods@),
{
    let mut plan: Vec<PaymentMethodDeletion> = Vec::new();
    let mut i: usize = 0;
    while i < methods.len()
        invariant
            i <= methods.len(),
            plan@ == deletions_of(methods@.take(i as int)),
        decreases methods.len() - i,
    {
        plan.push(
            PaymentMethodDeletion {
                payment_method_id: methods[i].payment_method_id.clone(),
                from_locker: methods[i].payment_method == PaymentMethod::Card,
            },
        );
        assert(methods@.take(i + 1) =~= methods@.take(i as int).push(methods@[i as int]));
        assert(plan@ =~= deletions_of(methods@.take(i + 1)));
        i += 1;
    }
    assert(methods@.take(methods.len() as int) =~= methods@);
    plan
}

/// Whether an update overwrites an address with the redaction: every
/// encrypted part with the redacted value, the city and the country code
/// with the marker, and the country not at all.
pub open spec fn redacts_address(update: AddressUpdate, redacted: Encryptable) -> bool {
    match update {
        AddressUpdate::Update {
            city,
            country,
            line1,
            line2,
            line3,
            state,
            zip,
            first_name,
            last_name,
            phone_number,
            country_code,
        } => {
            &&& is_marker(city)
            &&& country is None
            &&& is_redacted(line1, redacted)
            &&& is_redacted(line2, redacted)
            &&& is_redacted(line3, redacted)
            &&& is_redacted(state, redacted)
            &&& is_redacted(zip, redacted)
            &&& is_redacted(first_name, redacted)
            &&& is_redacted(last_name, redacted)
            &&& is_redacted(phone_number, redacted)
            &&& is_marker(country_code)
        },
    }
}

/// The update that overwrites an address with the redaction.
pub fn redacted_address(redacted: &Encryptable) -> (r: AddressUpdate)
    ensures
        redacts_address(r, *redacted),
{
    AddressUpdate::Update {
        city: Some(String::from_str(REDACTED)),
        country: None,
        line1: Some(redacted.clone()),
        line2: Some(redacted.clone()),
        line3: Some(redacted.clone()),
        state: Some(redacted.clone()),
        zip: Some(redacted.clone()),
        first_name: Some(redacted.clone()),
        last_name: Some(redacted.clone()),
        phone_number: Some(redacted.clone()),
        country_code: Some(String::from_str(REDACTED)),
    }
}

/// Whether an update overwrites a customer with the redaction: name and
/// phone with the redacted value, the email with the value redacted for it,
/// description and country code with the marker, and nothing else.
pub open spec fn redacts_customer(
    update: CustomerUpdate,
    redacted: Encryptable,
    redacted_email: Encryptable,
) -> bool {
    match update {
        CustomerUpdate::Update {
            name,
            email,
            phone,
            description,
            phone_country_code,
            metadata,
            connector_customer,
        } => {
            &&& is_redacted(name, redacted)
            &&& email == Some(redacted_email)
            &&& is_redacted(phone, redacted)
            &&& is_marker(description)
            &&& is_marker(phone_country_code)
            &&& metadata is None
            &&& connector_customer is None
        },
    }
}

/// The update that overwrites a customer with the redaction.
pub fn redacted_customer(redacted: &Encryptable, redacted_email: Encryptable) -> (r: CustomerUpdate)
    ensures
        redacts_customer(r, *redacted, redacted_email),
{
    CustomerUpdate::Update {
        name: Some(redacted.clone()),
        email: Some(redacted_email),
        phone: Some(redacted.clone()),
        description: Some(String::from_str(REDACTED)),
        phone_country_code: Some(String::from_str(REDACTED)),
        metadata: None,
        connector_customer: None,
    }
}

/// What is asked of the stores, the locker and the encryption service while
/// a customer is deleted. Every request is about the customer being
/// deleted.
#[derive(PartialEq)]
#[allow(inconsistent_fields)]
pub enum DeleteRequest {
    FindCustomer,
    FindMandates,
    FindPaymentMethods,
    /// Carry out the deletions in their order, and stop at the first that
    /// fails.
    DeletePaymentMethods { deletions: Vec<PaymentMethodDeletion> },
    /// Encrypt the redaction marker.
    EncryptMarker,
    UpdateAddress { update: AddressUpdate },
    UpdateCustomer { update: CustomerUpdate },
}

/// What was answered.
#[derive(PartialEq)]
pub enum DeleteAnswer {
    CustomerFound(Result<(), StorageError>),
    MandatesFound(Result<Vec<Mandate>, StorageError>),
    PaymentMethodsFound(Result<Vec<CustomerPaymentMethod>, StorageError>),
    PaymentMethodsDeleted(Result<(), CustomersErrorResponse>),
    /// The encrypted marker, unless the encryption failed.
    MarkerEncrypted(Option<Encryptable>),
    AddressUpdated(Result<(), StorageError>),
    CustomerUpdated(Result<(), StorageError>),
}

/// What the deletion does next.
#[derive(PartialEq)]
pub enum DeleteStep {
    Request(DeleteRequest),
    Done(Result<CustomerDeleteResponse, CustomersErrorResponse>),
}

/// Where the deletion of a customer stands: which answer it is waiting for.
#[derive(PartialEq)]
pub enum DeleteCustomer {
    FindingCustomer { customer_id: String },
    FindingMandates { customer_id: String },
    FindingPaymentMethods { customer_id: String },
    DeletingPaymentMethods { customer_id: String },
    EncryptingMarker { customer_id: String },
    UpdatingAddress { customer_id: String, redacted: Encryptable },
    EncryptingEmail { customer_id: String, redacted: Encryptable },
    UpdatingCustomer { customer_id: String },
    Finished,
}

/// The deletion ended with an error.
pub open spec fn failed(r: (DeleteCustomer, DeleteStep), e: CustomersErrorResponse) -> bool {
    r.0 == DeleteCustomer::Finished && r.1 == DeleteStep::Done(
        Err::<CustomerDeleteResponse, CustomersErrorResponse>(e),
    )
}

/// What a failed lookup or update that may find nothing means: nothing
/// found is no failure; anything else is one.
pub open spec fn unless_not_found(e: StorageError) -> Option<CustomersErrorResponse> {
    if e@.is_not_found() {
        None
    } else {
        Some(CustomersErrorResponse::InternalServerError)
    }
}

impl DeleteCustomer {
    /// The deletion as it starts: the customer must exist.
    pub fn start(customer_id: String) -> (r: (DeleteCustomer, DeleteStep))
        ensures
            r.0 == (DeleteCustomer::FindingCustomer { customer_id }),
            r.1 == DeleteStep::Request(DeleteRequest::FindCustomer),
    {
        (
            DeleteCustomer::FindingCustomer { customer_id },
            DeleteStep::Request(DeleteRequest::FindCustomer),
        )
    }
}

/// One step of the deletion of a customer: from where the deletion stands
/// and what was answered, where it stands next and what it does next. An
/// answer that the deletion is not waiting for ends it with an internal
/// error.
pub fn delete_customer(state: DeleteCustomer, answer: DeleteAnswer) -> (r: (
    DeleteCustomer,
    DeleteStep,
))
    ensures
        match (state, answer) {
            (
                DeleteCustomer::FindingCustomer { customer_id },
                DeleteAnswer::CustomerFound(Ok(_)),
            ) => r.0 == (DeleteCustomer::FindingMandates { customer_id }) && r.1
                == DeleteStep::Request(DeleteRequest::FindMandates),
            (DeleteCustomer::FindingCustomer { .. }, DeleteAnswer::CustomerFound(Err(e))) => failed(
                r,
                customer_error(e@),
            ),
            (
                DeleteCustomer::FindingMandates { customer_id },
                DeleteAnswer::MandatesFound(Ok(mandates)),
            ) => if any_active(mandates@) {
                failed(r, CustomersErrorResponse::MandateActive)
            } else {
                r.0 == (DeleteCustomer::FindingPaymentMethods { customer_id }) && r.1
                    == DeleteStep::Request(DeleteRequest::FindPaymentMethods)
            },
            (DeleteCustomer::FindingMandates { .. }, DeleteAnswer::MandatesFound(Err(e))) => failed(
                r,
                customer_error(e@),
            ),
            (
                DeleteCustomer::FindingPaymentMethods { customer_id },
                DeleteAnswer::PaymentMethodsFound(Ok(methods)),
            ) => {
                &&& r.0 == (DeleteCustomer::DeletingPaymentMethods { customer_id })
                &&& r.1 matches DeleteStep::Request(
                    DeleteRequest::DeletePaymentMethods { deletions },
                )
                &&& deletions@ == deletions_of(methods@)
            },
            (
                DeleteCustomer::FindingPaymentMethods { customer_id },
                DeleteAnswer::PaymentMethodsFound(Err(e)),
            ) => match unless_not_found(e) {
                None => r.0 == (DeleteCustomer::EncryptingMarker { customer_id }) && r.1
                    == DeleteStep::Request(DeleteRequest::EncryptMarker),
                Some(error) => failed(r, error),
            },
            (
                DeleteCustomer::DeletingPaymentMethods { customer_id },
                DeleteAnswer::PaymentMethodsDeleted(Ok(_)),
            ) => r.0 == (DeleteCustomer::EncryptingMarker { customer_id }) && r.1
                == DeleteStep::Request(DeleteRequest::EncryptMarker),
            (
                DeleteCustomer::DeletingPaymentMethods { .. },
                DeleteAnswer::PaymentMethodsDeleted(Err(e)),
            ) => failed(r, e),
            (
                DeleteCustomer::EncryptingMarker { customer_id },
                DeleteAnswer::MarkerEncrypted(Some(redacted)),
            ) => {
                &&& r.0 matches DeleteCustomer::UpdatingAddress { customer_id: id, redacted: kept }
                &&& id == customer_id
                &&& kept == redacted
                &&& r.1 matches DeleteStep::Request(DeleteRequest::UpdateAddress { update })
                &&& redacts_address(update, redacted)
            },
            (
                DeleteCustomer::UpdatingAddress { customer_id, redacted },
                DeleteAnswer::AddressUpdated(updated),
            ) => match updated {
                Err(e) if unless_not_found(e) is Some => failed(
                    r,
                    CustomersErrorResponse::InternalServerError,
                ),
                _ => r.0 == (DeleteCustomer::EncryptingEmail { customer_id, redacted }) && r.1
                    == DeleteStep::Request(DeleteRequest::EncryptMarker),
            },
            (
                DeleteCustomer::EncryptingEmail { customer_id, redacted },
                DeleteAnswer::MarkerEncrypted(Some(redacted_email)),
            ) => {
                &&& r.0 == (DeleteCustomer::UpdatingCustomer { customer_id })
                &&& r.1 matches DeleteStep::Request(DeleteRequest::UpdateCustomer { update })
                &&& redacts_customer(update, redacted, redacted_email)
            },
            (
                DeleteCustomer::UpdatingCustomer { customer_id },
                DeleteAnswer::CustomerUpdated(Ok(_)),
            ) => r.0 == DeleteCustomer::Finished && r.1 == DeleteStep::Done(
                Ok::<CustomerDeleteResponse, CustomersErrorResponse>(
                    CustomerDeleteResponse {
                        customer_id,
                        customer_deleted: true,
                        address_deleted: true,
                        payment_methods_deleted: true,
                    },
                ),
            ),
            (
                DeleteCustomer::UpdatingCustomer { .. },
                DeleteAnswer::CustomerUpdated(Err(e)),
            ) => failed(r, customer_error(e@)),
            _ => failed(r, CustomersErrorResponse::InternalServerError),
        },
{
    let failure = CustomersErrorResponse::InternalServerError;
    match (state, answer) {
        (DeleteCustomer::FindingCustomer { customer_id }, DeleteAnswer::CustomerFound(Ok(_))) => (
            DeleteCustomer::FindingMandates { customer_id },
            DeleteStep::Request(DeleteRequest::FindMandates),
        ),
        (DeleteCustomer::FindingCustomer { .. }, DeleteAnswer::CustomerFound(Err(e))) => (
            DeleteCustomer::Finished,
            DeleteStep::Done(Err(e.switch())),
        ),
        (
            DeleteCustomer::FindingMandates { customer_id },
            DeleteAnswer::MandatesFound(Ok(mandates)),
        ) => {
            if has_active_mandate(&mandates) {
                (
                    DeleteCustomer::Finished,
                    DeleteStep::Done(Err(CustomersErrorResponse::MandateActive)),
                )
            } else {
                (
                    DeleteCustomer::FindingPaymentMethods { customer_id },
                    DeleteStep::Request(DeleteRequest::FindPaymentMethods),
                )
            }
        },
        (DeleteCustomer::FindingMandates { .. }, DeleteAnswer::MandatesFound(Err(e))) => (
            DeleteCustomer::Finished,
            DeleteStep::Done(Err(e.switch())),
        ),
        (
            DeleteCustomer::FindingPaymentMethods { customer_id },
            DeleteAnswer::PaymentMethodsFound(Ok(methods)),
        ) => (
            DeleteCustomer::DeletingPaymentMethods { customer_id },
            DeleteStep::Request(
                DeleteRequest::DeletePaymentMethods { deletions: plan_deletions(methods) },
            ),
        ),
        (
            DeleteCustomer::FindingPaymentMethods { customer_id },
            DeleteAnswer::PaymentMethodsFound(Err(e)),
        ) => {
            if e.is_db_not_found() {
                (
                    DeleteCustomer::EncryptingMarker { customer_id },
                    DeleteStep::Request(DeleteRequest::EncryptMarker),
                )
            } else {
                (DeleteCustomer::Finished, DeleteStep::Done(Err(failure)))
            }
        },
        (
            DeleteCustomer::DeletingPaymentMethods { customer_id },
            DeleteAnswer::PaymentMethodsDeleted(Ok(_)),
        ) => (
            DeleteCustomer::EncryptingMarker { customer_id },
            DeleteStep::Request(DeleteRequest::EncryptMarker),
        ),
        (
            DeleteCustomer::DeletingPaymentMethods { .. },
            DeleteAnswer::PaymentMethodsDeleted(Err(e)),
        ) => (DeleteCustomer::Finished, DeleteStep::Done(Err(e))),
        (
            DeleteCustomer::EncryptingMarker { customer_id },
            DeleteAnswer::MarkerEncrypted(Some(redacted)),
        ) => {
            let update = redacted_address(&redacted);
            (
                DeleteCustomer::UpdatingAddress { customer_id, redacted },
                DeleteStep::Request(DeleteRequest::UpdateAddress { update }),
            )
        },
        (
            DeleteCustomer::UpdatingAddress { customer_id, redacted },
            DeleteAnswer::AddressUpdated(updated),
        ) => {
            let proceed = match &updated {
                Ok(_) => true,
                Err(e) => e.is_db_not_found(),
            };
            if proceed {
                (
                    DeleteCustomer::EncryptingEmail { customer_id, redacted },
                    DeleteStep::Request(DeleteRequest::EncryptMarker),
                )
            } else {
                (DeleteCustomer::Finished, DeleteStep::Done(Err(failure)))
            }
        },
        (
            DeleteCustomer::EncryptingEmail { customer_id, redacted },
            DeleteAnswer::MarkerEncrypted(Some(redacted_email)),
        ) => {
            let update = redacted_customer(&redacted, redacted_email);
            (
                DeleteCustomer::UpdatingCustomer { customer_id },
                DeleteStep::Request(DeleteRequest::UpdateCustomer { update }),
            )
        },
        (
            DeleteCustomer::UpdatingCustomer { customer_id },
            DeleteAnswer::CustomerUpdated(Ok(_)),
        ) => (
            DeleteCustomer::Finished,
            DeleteStep::Done(
                Ok(
                    CustomerDeleteResponse {
                        customer_id,
                        customer_deleted: true,
                        address_deleted: true,
                        payment_methods_deleted: true,
                    },
                ),
            ),
        ),
        (DeleteCustomer::UpdatingCustomer { .. }, DeleteAnswer::CustomerUpdated(Err(e))) => (
            DeleteCustomer::Finished,
            DeleteStep::Done(Err(e.switch())),
        ),
        _ => (DeleteCustomer::Finished, DeleteStep::Done(Err(failure))),
    }
}

/// Copies an optional secret.
pub fn clone_secret(v: &Option<Secret>) -> (r: Option<Secret>)
    ensures
        r == *v,
{
    match v {
        Some(secret) => Some(secret.clone()),
        None => None,
    }
}

/// An address as the caller gives it.
#[derive(PartialEq)]
pub struct AddressDetails {
    pub city: Option<String>,
    pub country: Option<String>,
    pub line1: Option<Secret>,
    pub line2: Option<Secret>,
    pub line3: Option<Secret>,
    pub zip: Option<Secret>,
    pub state: Option<Secret>,
    pub first_name: Option<Secret>,
    pub last_name: Option<Secret>,
}

impl Clone for AddressDetails {
    fn clone(&self) -> (r: Self)
        ensures
            r == *self,
    {
        AddressDetails {
            city: clone_text(&self.city),
            country: clone_text(&self.country),
            line1: clone_secret(&self.line1),
            line2: clone_secret(&self.line2),
            line3: clone_secret(&self.line3),
            zip: clone_secret(&self.zip),
            state: clone_secret(&self.state),
            first_name: clone_secret(&self.first_name),
            last_name: clone_secret(&self.last_name),
        }
    }
}

/// What the caller gives of a customer to create or to update.
#[derive(PartialEq)]
pub struct CustomerRequest {
    pub customer_id: String,
    pub merchant_id: String,
    pub name: Option<Secret>,
    pub email: Option<Secret>,
    pub phone: Option<Secret>,
    pub description: Option<String>,
    pub phone_country_code: Option<String>,
    pub address: Option<AddressDetails>,
    pub metadata: Option<serde_json::Value>,
}

/// The personal parts of an address, encrypted.
#[derive(PartialEq)]
pub struct EncryptedAddress {
    pub line1: Option<Encryptable>,
    pub line2: Option<Encryptable>,
    pub line3: Option<Encryptable>,
    pub zip: Option<Encryptable>,
    pub state: Option<Encryptable>,
    pub first_name: Option<Encryptable>,
    pub last_name: Option<Encryptable>,
    pub phone_number: Option<Encryptable>,
}

/// The personal parts of a customer, encrypted.
#[derive(PartialEq)]
pub struct EncryptedCustomer {
    pub name: Option<Encryptable>,
    pub email: Option<Encryptable>,
    pub phone: Option<Encryptable>,
}

/// An address as stored.
#[derive(PartialEq)]
pub struct Address {
    pub id: Option<i32>,
    pub address_id: String,
    pub city: Option<String>,
    pub country: Option<String>,
    pub line1: Option<Encryptable>,
    pub line2: Option<Encryptable>,
    pub line3: Option<Encryptable>,
    pub state: Option<Encryptable>,
    pub zip: Option<Encryptable>,
    pub first_name: Option<Encryptable>,
    pub last_name: Option<Encryptable>,
    pub phone_number: Option<Encryptable>,
    pub country_code: Option<String>,
    pub created_at: Timestamp,
    pub modified_at: Timestamp,
    pub customer_id: String,
    pub merchant_id: String,
}

/// A customer as stored.
#[derive(PartialEq)]
pub struct Customer {
    pub id: Option<i32>,
    pub customer_id: String,
    pub merchant_id: String,
    pub name: Option<Encryptable>,
    pub email: Option<Encryptable>,
    pub phone: Option<Encryptable>,
    pub phone_country_code: Option<String>,
    pub description: Option<String>,
    pub created_at: Timestamp,
    pub metadata: Option<serde_json::Value>,
    pub connector_customer: Option<serde_json::Value>,
    pub modified_at: Timestamp,
}

/// A customer as the caller gets it.
#[derive(PartialEq)]
pub struct CustomerResponse {
    pub customer_id: String,
    pub name: Option<Secret>,
    pub email: Option<Secret>,
    pub phone: Option<Secret>,
    pub phone_country_code: Option<String>,
    pub description: Option<String>,
    pub address: Option<AddressDetails>,
    pub created_at: Timestamp,
    pub metadata: Option<serde_json::Value>,
}

/// The text of an encrypted value, if there is one.
pub open spec fn plain(value: Option<Encryptable>) -> Option<Secret> {
    match value {
        Some(v) => Some(v.inner),
        None => None,
    }
}

fn into_plain(value: Option<Encryptable>) -> (r: Option<Secret>)
    ensures
        r == plain(value),
{
    match value {
        Some(v) => Some(v.inner),
        None => None,
    }
}

impl CustomerResponse {
    /// What the caller gets for a stored customer: its parts in the clear,
    /// and the address as the caller gave it.
    pub open spec fn of(customer: Customer, address: Option<AddressDetails>) -> CustomerResponse {
        CustomerResponse {
            customer_id: customer.customer_id,
            name: plain(customer.name),
            email: plain(customer.email),
            phone: plain(customer.phone),
            phone_country_code: customer.phone_country_code,
            description: customer.description,
            address,
            created_at: customer.created_at,
            metadata: customer.metadata,
        }
    }

    /// What the caller gets for a stored customer.
    pub fn from_customer(customer: Customer, address: Option<AddressDetails>) -> (r: Self)
        ensures
            r == CustomerResponse::of(customer, address),
    {
        CustomerResponse {
            customer_id: customer.customer_id,
            name: into_plain(customer.name),
            email: into_plain(customer.email),
            phone: into_plain(customer.phone),
            phone_country_code: customer.phone_country_code,
            description: customer.description,
            address,
            created_at: customer.created_at,
            metadata: customer.metadata,
        }
    }
}

/// What the caller gets when it asks for a customer.
pub fn retrieve_customer(found: Result<Customer, StorageError>) -> (r: Result<
    CustomerResponse,
    CustomersErrorResponse,
>)
    ensures
        r == match found {
            Ok(customer) => Ok::<CustomerResponse, CustomersErrorResponse>(
                CustomerResponse::of(customer, None),
            ),
            Err(e) => Err::<CustomerResponse, CustomersErrorResponse>(customer_error(e@)),
        },
{
    match found {
        Ok(customer) => Ok(CustomerResponse::from_customer(customer, None)),
        Err(e) => Err(e.switch()),
    }
}

/// What is asked of the stores and the encryption service while a customer
/// is created or updated.
#[derive(PartialEq)]
#[allow(inconsistent_fields)]
pub enum CustomerAsk {
    FindCustomer { customer_id: String, merchant_id: String },
    /// Encrypt the personal parts of the address, and the phone number.
    EncryptAddress { address: AddressDetails, phone: Option<Secret> },
    InsertAddress { address: Address },
    UpdateAddress { customer_id: String, merchant_id: String, update: AddressUpdate },
    /// Encrypt the personal parts of the customer.
    EncryptCustomer { name: Option<Secret>, email: Option<Secret>, phone: Option<Secret> },
    InsertCustomer { customer: Customer },
    UpdateCustomer { customer_id: String, merchant_id: String, update: CustomerUpdate },
}

/// What was answered.
#[derive(PartialEq)]
pub enum CustomerAnswer {
    CustomerFound(Result<Customer, StorageError>),
    /// The encrypted parts, unless the encryption failed.
    AddressEncrypted(Option<EncryptedAddress>),
    AddressWritten(Result<(), StorageError>),
    /// The encrypted parts, unless the encryption failed.
    CustomerEncrypted(Option<EncryptedCustomer>),
    CustomerWritten(Result<Customer, StorageError>),
}

/// What the creation or the update does next.
#[derive(PartialEq)]
pub enum CustomerStep {
    Ask(CustomerAsk),
    Done(Result<CustomerResponse, CustomersErrorResponse>),
}

/// The end of a creation or an update with an error.
pub open spec fn refused(e: CustomersErrorResponse) -> CustomerStep {
    CustomerStep::Done(Err(e))
}

impl CustomerRequest {
    /// The request to encrypt the personal parts of the customer.
    pub open spec fn encrypt_customer(self) -> CustomerAsk {
        CustomerAsk::EncryptCustomer { name: self.name, email: self.email, phone: self.phone }
    }

    /// The request to encrypt the personal parts of the address `address`
    /// of the customer.
    pub open spec fn encrypt_address(self, address: AddressDetails) -> CustomerAsk {
        CustomerAsk::EncryptAddress { address, phone: self.phone }
    }

    /// The request to look the customer up.
    pub open spec fn find(self) -> CustomerAsk {
        CustomerAsk::FindCustomer { customer_id: self.customer_id, merchant_id: self.merchant_id }
    }

    /// The address to store for the customer, under the identifier
    /// `address_id`, created at `now`.
    pub open spec fn new_address(
        self,
        address: AddressDetails,
        encrypted: EncryptedAddress,
        address_id: String,
        now: Timestamp,
    ) -> Address {
        Address {
            id: None,
            address_id,
            city: address.city,
            country: address.country,
            line1: encrypted.line1,
            line2: encrypted.line2,
            line3: encrypted.line3,
            state: encrypted.state,
            zip: encrypted.zip,
            first_name: encrypted.first_name,
            last_name: encrypted.last_name,
            phone_number: encrypted.phone_number,
            country_code: self.phone_country_code,
            created_at: now,
            modified_at: now,
            customer_id: self.customer_id,
            merchant_id: self.merchant_id,
        }
    }

    /// The update that overwrites the address of the customer.
    pub open spec fn address_update(
        self,
        address: AddressDetails,
        encrypted: EncryptedAddress,
    ) -> AddressUpdate {
        AddressUpdate::Update {
            city: address.city,
            country: address.country,
            line1: encrypted.line1,
            line2: encrypted.line2,
            line3: encrypted.line3,
            state: encrypted.state,
            zip: encrypted.zip,
            first_name: encrypted.first_name,
            last_name: encrypted.last_name,
            phone_number: encrypted.phone_number,
            country_code: self.phone_country_code,
        }
    }

    /// The customer to store, created at `now`.
    pub open spec fn new_customer(self, encrypted: EncryptedCustomer, now: Timestamp) -> Customer {
        Customer {
            id: None,
            customer_id: self.customer_id,
            merchant_id: self.merchant_id,
            name: encrypted.name,
            email: encrypted.email,
            phone: encrypted.phone,
            phone_country_code: self.phone_country_code,
            description: self.description,
            created_at: now,
            metadata: self.metadata,
            connector_customer: None,
            modified_at: now,
        }
    }

    /// The update that overwrites the customer.
    pub open spec fn customer_update(self, encrypted: EncryptedCustomer) -> CustomerUpdate {
        CustomerUpdate::Update {
            name: encrypted.name,
            email: encrypted.email,
            phone: encrypted.phone,
            description: self.description,
            phone_country_code: self.phone_country_code,
            metadata: self.metadata,
            connector_customer: None,
        }
    }

    fn ask_to_encrypt_customer(&self) -> (r: CustomerAsk)
        ensures
            r == self.encrypt_customer(),
    {
        CustomerAsk::EncryptCustomer {
            name: clone_secret(&self.name),
            email: clone_secret(&self.email),
            phone: clone_secret(&self.phone),
        }
    }

    fn ask_to_find(&self) -> (r: CustomerAsk)
        ensures
            r == self.find(),
    {
        CustomerAsk::FindCustomer {
            customer_id: self.customer_id.clone(),
            merchant_id: self.merchant_id.clone(),
        }
    }

    fn ask_for_address_or_customer(&self) -> (r: CustomerAsk)
        ensures
            r == match self.address {
                Some(address) => self.encrypt_address(address),
                None => self.encrypt_customer(),
            },
    {
        match &self.address {
            Some(address) => CustomerAsk::EncryptAddress {
                address: address.clone(),
                phone: clone_secret(&self.phone),
            },
            None => self.ask_to_encrypt_customer(),
        }
    }
}

/// Where the creation of a customer stands: which answer it is waiting for.
#[derive(PartialEq)]
pub enum CreateCustomer {
    EncryptingAddress { data: CustomerRequest, address_id: String, now: Timestamp },
    InsertingAddress { data: CustomerRequest, now: Timestamp },
    EncryptingCustomer { data: CustomerRequest, now: Timestamp },
    InsertingCustomer { data: CustomerRequest },
    FindingCustomer { data: CustomerRequest },
    Finished,
}

impl CreateCustomer {
    /// The creation as it starts, for the merchant `merchant_id`: the
    /// address comes first, if one is given. `address_id` is the identifier
    /// for the address and `now` the time of the creation.
    pub open spec fn begun(
        customer_data: CustomerRequest,
        merchant_id: String,
        address_id: String,
        now: Timestamp,
    ) -> (CreateCustomer, CustomerStep) {
        let data = CustomerRequest { merchant_id, ..customer_data };
        match data.address {
            Some(address) => (
                CreateCustomer::EncryptingAddress { data, address_id, now },
                CustomerStep::Ask(data.encrypt_address(address)),
            ),
            None => (
                CreateCustomer::EncryptingCustomer { data, now },
                CustomerStep::Ask(data.encrypt_customer()),
            ),
        }
    }

    /// The next state and the next step. A customer that exists already is
    /// looked up and returned in the place of the one to insert. A failed
    /// encryption, or an answer that the creation is not waiting for, ends
    /// it with an internal error.
    pub open spec fn stepped(self, answer: CustomerAnswer) -> (CreateCustomer, CustomerStep) {
        let failure = (
            CreateCustomer::Finished,
            refused(CustomersErrorResponse::InternalServerError),
        );
        match (self, answer) {
            (
                CreateCustomer::EncryptingAddress { data, address_id, now },
                CustomerAnswer::AddressEncrypted(Some(encrypted)),
            ) => match data.address {
                Some(address) => (
                    CreateCustomer::InsertingAddress { data, now },
                    CustomerStep::Ask(
                        CustomerAsk::InsertAddress {
                            address: data.new_address(address, encrypted, address_id, now),
                        },
                    ),
                ),
                None => failure,
            },
            (
                CreateCustomer::InsertingAddress { data, now },
                CustomerAnswer::AddressWritten(Ok(_)),
            ) => (
                CreateCustomer::EncryptingCustomer { data, now },
                CustomerStep::Ask(data.encrypt_customer()),
            ),
            (CreateCustomer::InsertingAddress { .. }, CustomerAnswer::AddressWritten(Err(e))) => (
                CreateCustomer::Finished,
                refused(customer_error(e@)),
            ),
            (
                CreateCustomer::EncryptingCustomer { data, now },
                CustomerAnswer::CustomerEncrypted(Some(encrypted)),
            ) => (
                CreateCustomer::InsertingCustomer { data },
                CustomerStep::Ask(
                    CustomerAsk::InsertCustomer { customer: data.new_customer(encrypted, now) },
                ),
            ),
            (
                CreateCustomer::InsertingCustomer { data },
                CustomerAnswer::CustomerWritten(Ok(customer)),
            ) => (
                CreateCustomer::Finished,
                CustomerStep::Done(Ok(CustomerResponse::of(customer, data.address))),
            ),
            (
                CreateCustomer::InsertingCustomer { data },
                CustomerAnswer::CustomerWritten(Err(e)),
            ) => if e@.is_unique_violation() {
                (CreateCustomer::FindingCustomer { data }, CustomerStep::Ask(data.find()))
            } else {
                failure
            },
            (
                CreateCustomer::FindingCustomer { data },
                CustomerAnswer::CustomerFound(Ok(customer)),
            ) => (
                CreateCustomer::Finished,
                CustomerStep::Done(Ok(CustomerResponse::of(customer, data.address))),
            ),
            (CreateCustomer::FindingCustomer { .. }, CustomerAnswer::CustomerFound(Err(e))) => (
                CreateCustomer::Finished,
                refused(customer_error(e@)),
            ),
            _ => failure,
        }
    }

    /// Starts the creation of a customer.
    pub fn start(
        customer_data: CustomerRequest,
        merchant_id: String,
        address_id: String,
        now: Timestamp,
    ) -> (r: (CreateCustomer, CustomerStep))
        ensures
            r == CreateCustomer::begun(customer_data, merchant_id, address_id, now),
    {
        let data = CustomerRequest {
            customer_id: customer_data.customer_id,
            merchant_id,
            name: customer_data.name,
            email: customer_data.email,
            phone: customer_data.phone,
            description: customer_data.description,
            phone_country_code: customer_data.phone_country_code,
            address: customer_data.address,
            metadata: customer_data.metadata,
        };
        let ask = data.ask_for_address_or_customer();
        let state = if data.address.is_some() {
            CreateCustomer::EncryptingAddress { data, address_id, now }
        } else {
            CreateCustomer::EncryptingCustomer { data, now }
        };
        (state, CustomerStep::Ask(ask))
    }

    /// Starts the creation of a customer at the time the clock shows.
    /// Whatever the clock shows, the creation starts as one at some instant.
    pub fn start_now(customer_data: CustomerRequest, merchant_id: String, address_id: String) -> (r:
        (CreateCustomer, CustomerStep))
        ensures
            exists|at: Timestamp|
                r == #[trigger] CreateCustomer::begun(customer_data, merchant_id, address_id, at),
    {
        let at = now();
        CreateCustomer::start(customer_data, merchant_id, address_id, at)
    }

    fn step(self, answer: CustomerAnswer) -> (r: (CreateCustomer, CustomerStep))
        ensures
            r == self.stepped(answer),
    {
        let failure = CustomersErrorResponse::InternalServerError;
        match (self, answer) {
            (
                CreateCustomer::EncryptingAddress { data, address_id, now },
                CustomerAnswer::AddressEncrypted(Some(encrypted)),
            ) => match clone_address(&data.address) {
                Some(address) => {
                    let stored = Address {
                        id: None,
                        address_id,
                        city: address.city,
                        country: address.country,
                        line1: encrypted.line1,
                        line2: encrypted.line2,
                        line3: encrypted.line3,
                        state: encrypted.state,
                        zip: encrypted.zip,
                        first_name: encrypted.first_name,
                        last_name: encrypted.last_name,
                        phone_number: encrypted.phone_number,
                        country_code: clone_text(&data.phone_country_code),
                        created_at: now,
                        modified_at: now,
                        customer_id: data.customer_id.clone(),
                        merchant_id: data.merchant_id.clone(),
                    };
                    (
                        CreateCustomer::InsertingAddress { data, now },
                        CustomerStep::Ask(CustomerAsk::InsertAddress { address: stored }),
                    )
                },
                None => (CreateCustomer::Finished, CustomerStep::Done(Err(failure))),
            },
            (
                CreateCustomer::InsertingAddress { data, now },
                CustomerAnswer::AddressWritten(Ok(_)),
            ) => {
                let ask = data.ask_to_encrypt_customer();
                (CreateCustomer::EncryptingCustomer { data, now }, CustomerStep::Ask(ask))
            },
            (CreateCustomer::InsertingAddress { .. }, CustomerAnswer::AddressWritten(Err(e))) => (
                CreateCustomer::Finished,
                CustomerStep::Done(Err(e.switch())),
            ),
            (
                CreateCustomer::EncryptingCustomer { data, now },
                CustomerAnswer::CustomerEncrypted(Some(encrypted)),
            ) => {
                let customer = Customer {
                    id: None,
                    customer_id: data.customer_id.clone(),
                    merchant_id: data.merchant_id.clone(),
                    name: encrypted.name,
                    email: encrypted.email,
                    phone: encrypted.phone,
                    phone_country_code: clone_text(&data.phone_country_code),
                    description: clone_text(&data.description),
                    created_at: now,
                    metadata: clone_json(&data.metadata),
                    connector_customer: None,
                    modified_at: now,
                };
                (
                    CreateCustomer::InsertingCustomer { data },
                    CustomerStep::Ask(CustomerAsk::InsertCustomer { customer }),
                )
            },
            (
                CreateCustomer::InsertingCustomer { data },
                CustomerAnswer::CustomerWritten(Ok(customer)),
            ) => (
                CreateCustomer::Finished,
                CustomerStep::Done(Ok(CustomerResponse::from_customer(customer, data.address))),
            ),
            (
                CreateCustomer::InsertingCustomer { data },
                CustomerAnswer::CustomerWritten(Err(e)),
            ) => match existing_customer_instead(&e) {
                Ok(_) => {
                    let ask = data.ask_to_find();
                    (CreateCustomer::FindingCustomer { data }, CustomerStep::Ask(ask))
                },
                Err(error) => (CreateCustomer::Finished, CustomerStep::Done(Err(error))),
            },
            (
                CreateCustomer::FindingCustomer { data },
                CustomerAnswer::CustomerFound(Ok(customer)),
            ) => (
                CreateCustomer::Finished,
                CustomerStep::Done(Ok(CustomerResponse::from_customer(customer, data.address))),
            ),
            (CreateCustomer::FindingCustomer { .. }, CustomerAnswer::CustomerFound(Err(e))) => (
                CreateCustomer::Finished,
                CustomerStep::Done(Err(e.switch())),
            ),
            _ => (CreateCustomer::Finished, CustomerStep::Done(Err(failure))),
        }
    }
}

fn clone_address(v: &Option<AddressDetails>) -> (r: Option<AddressDetails>)
    ensures
        r == *v,
{
    match v {
        Some(address) => Some(address.clone()),
        None => None,
    }
}

/// Where the update of a customer stands: which answer it is waiting for.
#[derive(PartialEq)]
pub enum UpdateCustomer {
    FindingCustomer { data: CustomerRequest },
    EncryptingAddress { data: CustomerRequest },
    UpdatingAddress { data: CustomerRequest },
    EncryptingCustomer { data: CustomerRequest },
    UpdatingCustomer { data: CustomerRequest },
    Finished,
}

impl UpdateCustomer {
    /// The update as it starts, for the merchant `merchant_id`: the
    /// customer must exist.
    pub open spec fn begun(update_customer: CustomerRequest, merchant_id: String) -> (
        UpdateCustomer,
        CustomerStep,
    ) {
        let data = CustomerRequest { merchant_id, ..update_customer };
        (UpdateCustomer::FindingCustomer { data }, CustomerStep::Ask(data.find()))
    }

    /// The next state and the next step. The address is overwritten first,
    /// if one is given. A failed encryption, or an answer that the update is
    /// not waiting for, ends it with an internal error.
    pub open spec fn stepped(self, answer: CustomerAnswer) -> (UpdateCustomer, CustomerStep) {
        let failure = (
            UpdateCustomer::Finished,
            refused(CustomersErrorResponse::InternalServerError),
        );
        match (self, answer) {
            (
                UpdateCustomer::FindingCustomer { data },
                CustomerAnswer::CustomerFound(Ok(_)),
            ) => match data.address {
                Some(address) => (
                    UpdateCustomer::EncryptingAddress { data },
                    CustomerStep::Ask(data.encrypt_address(address)),
                ),
                None => (
                    UpdateCustomer::EncryptingCustomer { data },
                    CustomerStep::Ask(data.encrypt_customer()),
                ),
            },
            (UpdateCustomer::FindingCustomer { .. }, CustomerAnswer::CustomerFound(Err(e))) => (
                UpdateCustomer::Finished,
                refused(customer_error(e@)),
            ),
            (
                UpdateCustomer::EncryptingAddress { data },
                CustomerAnswer::AddressEncrypted(Some(encrypted)),
            ) => match data.address {
                Some(address) => (
                    UpdateCustomer::UpdatingAddress { data },
                    CustomerStep::Ask(
                        CustomerAsk::UpdateAddress {
                            customer_id: data.customer_id,
                            merchant_id: data.merchant_id,
                            update: data.address_update(address, encrypted),
                        },
                    ),
                ),
                None => failure,
            },
            (UpdateCustomer::UpdatingAddress { data }, CustomerAnswer::AddressWritten(Ok(_))) => (
                UpdateCustomer::EncryptingCustomer { data },
                CustomerStep::Ask(data.encrypt_customer()),
            ),
            (UpdateCustomer::UpdatingAddress { .. }, CustomerAnswer::AddressWritten(Err(e))) => (
                UpdateCustomer::Finished,
                refused(customer_error(e@)),
            ),
            (
                UpdateCustomer::EncryptingCustomer { data },
                CustomerAnswer::CustomerEncrypted(Some(encrypted)),
            ) => (
                UpdateCustomer::UpdatingCustomer { data },
                CustomerStep::Ask(
                    CustomerAsk::UpdateCustomer {
                        customer_id: data.customer_id,
                        merchant_id: data.merchant_id,
                        update: data.customer_update(encrypted),
                    },
                ),
            ),
            (
                UpdateCustomer::UpdatingCustomer { data },
                CustomerAnswer::CustomerWritten(Ok(customer)),
            ) => (
                UpdateCustomer::Finished,
                CustomerStep::Done(Ok(CustomerResponse::of(customer, data.address))),
            ),
            (
                UpdateCustomer::UpdatingCustomer { .. },
                CustomerAnswer::CustomerWritten(Err(e)),
            ) => (UpdateCustomer::Finished, refused(customer_error(e@))),
            _ => failure,
        }
    }

    /// Starts the update of a customer.
    pub fn start(update_customer: CustomerRequest, merchant_id: String) -> (r: (
        UpdateCustomer,
        CustomerStep,
    ))
        ensures
            r == UpdateCustomer::begun(update_customer, merchant_id),
    {
        let data = CustomerRequest {
            customer_id: update_customer.customer_id,
            merchant_id,
            name: update_customer.name,
            email: update_customer.email,
            phone: update_customer.phone,
            description: update_customer.description,
            phone_country_code: update_customer.phone_country_code,
            address: update_customer.address,
            metadata: update_customer.metadata,
        };
        let ask = data.ask_to_find();
        (UpdateCustomer::FindingCustomer { data }, CustomerStep::Ask(ask))
    }

    fn step(self, answer: CustomerAnswer) -> (r: (UpdateCustomer, CustomerStep))
        ensures
            r == self.stepped(answer),
    {
        let failure = CustomersErrorResponse::InternalServerError;
        match (self, answer) {
            (UpdateCustomer::FindingCustomer { data }, CustomerAnswer::CustomerFound(Ok(_))) => {
                let ask = data.ask_for_address_or_customer();
                let state = if data.address.is_some() {
                    UpdateCustomer::EncryptingAddress { data }
                } else {
                    UpdateCustomer::EncryptingCustomer { data }
                };
                (state, CustomerStep::Ask(ask))
            },
            (UpdateCustomer::FindingCustomer { .. }, CustomerAnswer::CustomerFound(Err(e))) => (
                UpdateCustomer::Finished,
                CustomerStep::Done(Err(e.switch())),
            ),
            (
                UpdateCustomer::EncryptingAddress { data },
                CustomerAnswer::AddressEncrypted(Some(encrypted)),
            ) => match clone_address(&data.address) {
                Some(address) => {
                    let update = AddressUpdate::Update {
                        city: address.city,
                        country: address.country,
                        line1: encrypted.line1,
                        line2: encrypted.line2,
                        line3: encrypted.line3,
                        state: encrypted.state,
                        zip: encrypted.zip,
                        first_name: encrypted.first_name,
                        last_name: encrypted.last_name,
                        phone_number: encrypted.phone_number,
                        country_code: clone_text(&data.phone_country_code),
                    };
                    let ask = CustomerAsk::UpdateAddress {
                        customer_id: data.customer_id.clone(),
                        merchant_id: data.merchant_id.clone(),
                        update,
                    };
                    (UpdateCustomer::UpdatingAddress { data }, CustomerStep::Ask(ask))
                },
                None => (UpdateCustomer::Finished, CustomerStep::Done(Err(failure))),
            },
            (UpdateCustomer::UpdatingAddress { data }, CustomerAnswer::AddressWritten(Ok(_))) => {
                let ask = data.ask_to_encrypt_customer();
                (UpdateCustomer::EncryptingCustomer { data }, CustomerStep::Ask(ask))
            },
            (UpdateCustomer::UpdatingAddress { .. }, CustomerAnswer::AddressWritten(Err(e))) => (
                UpdateCustomer::Finished,
                CustomerStep::Done(Err(e.switch())),
            ),
            (
                UpdateCustomer::EncryptingCustomer { data },
                CustomerAnswer::CustomerEncrypted(Some(encrypted)),
            ) => {
                let update = CustomerUpdate::Update {
                    name: encrypted.name,
                    email: encrypted.email,
                    phone: encrypted.phone,
                    description: clone_text(&data.description),
                    phone_country_code: clone_text(&data.phone_country_code),
                    metadata: clone_json(&data.metadata),
                    connector_customer: None,
                };
                let ask = CustomerAsk::UpdateCustomer {
                    customer_id: data.customer_id.clone(),
                    merchant_id: data.merchant_id.clone(),
                    update,
                };
                (UpdateCustomer::UpdatingCustomer { data }, CustomerStep::Ask(ask))
            },
            (
                UpdateCustomer::UpdatingCustomer { data },
                CustomerAnswer::CustomerWritten(Ok(customer)),
            ) => (
                UpdateCustomer::Finished,
                CustomerStep::Done(Ok(CustomerResponse::from_customer(customer, data.address))),
            ),
            (
                UpdateCustomer::UpdatingCustomer { .. },
                CustomerAnswer::CustomerWritten(Err(e)),
            ) => (UpdateCustomer::Finished, CustomerStep::Done(Err(e.switch()))),
            _ => (UpdateCustomer::Finished, CustomerStep::Done(Err(failure))),
        }
    }
}

/// One step of the creation of a customer: from where the creation stands
/// and what was answered, where it stands next and what it does next.
pub fn create_customer(state: CreateCustomer, answer: CustomerAnswer) -> (r: (
    CreateCustomer,
    CustomerStep,
))
    ensures
        r == state.stepped(answer),
{
    state.step(answer)
}

/// One step of the update of a customer: from where the update stands and
/// what was answered, where it stands next and what it does next.
pub fn update_customer(state: UpdateCustomer, answer: CustomerAnswer) -> (r: (
    UpdateCustomer,
    CustomerStep,
))
    ensures
        r == state.stepped(answer),
{
    state.step(answer)
}

} // verus!
