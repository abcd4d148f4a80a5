//! Incoming webhooks: which events a merchant wants to hear of, and the
//! data with which the source of a webhook is verified.

use crate::connector::types::{
    ConnectorAuthType, ErrorResponse, RouterData, Secret, VerifyWebhookSource,
};
use crate::enums::{AttemptStatus, AuthenticationType, IncomingWebhookEvent, PaymentMethod};
use crate::text::{joined, prefixed};
use std::marker::PhantomData;
use vstd::prelude::*;
use vstd::string::StringExecFns;

verus! {

/// The events every merchant hears of, whatever the merchant configured.
pub open spec fn default_events() -> Seq<IncomingWebhookEvent> {
    seq![
        IncomingWebhookEvent::PaymentIntentSuccess,
        IncomingWebhookEvent::PaymentIntentFailure,
        IncomingWebhookEvent::PaymentIntentProcessing,
        IncomingWebhookEvent::PaymentActionRequired,
        IncomingWebhookEvent::RefundSuccess,
    ]
}

/// The events every merchant hears of, each once.
pub fn default_webhook_config() -> (r: Vec<IncomingWebhookEvent>)
    ensures
        r@ == default_events(),
        r@.no_duplicates(),
{
    let r = vec![
        IncomingWebhookEvent::PaymentIntentSuccess,
        IncomingWebhookEvent::PaymentIntentFailure,
        IncomingWebhookEvent::PaymentIntentProcessing,
        IncomingWebhookEvent::PaymentActionRequired,
        IncomingWebhookEvent::RefundSuccess,
    ];
    assert(r@ =~= default_events());
    r
}

/// The key under which the events that a merchant configured for a
/// connector are stored.
pub open spec fn webhook_config_key(merchant_id: Seq<char>, connector_id: Seq<char>) -> Seq<char> {
    prefixed("whconf_"@, joined(merchant_id, connector_id))
}

/// Builds the key of a merchant's configuration for a connector.
pub fn make_webhook_config_key(merchant_id: &str, connector_id: &str) -> (r: String)
    ensures
        r@ == webhook_config_key(merchant_id@, connector_id@),
{
    proof {
        reveal_strlit("_");
    }
    let mut key = String::from_str("whconf_");
    key.append(merchant_id);
    key.append("_");
    key.append(connector_id);
    assert("_"@ =~= seq!['_']);
    assert(key@ =~= webhook_config_key(merchant_id@, connector_id@));
    key
}

/// Whether a merchant hears of an event: it is one of those the merchant
/// configured, or one of those every merchant hears of.
pub open spec fn event_enabled(
    configured: Seq<IncomingWebhookEvent>,
    event: IncomingWebhookEvent,
) -> bool {
    configured.contains(event) || default_events().contains(event)
}

fn contains_event(events: &Vec<IncomingWebhookEvent>, event: IncomingWebhookEvent) -> (r: bool)
    ensures
        r == events@.contains(event),
{
    let mut i: usize = 0;
    while i < events.len()
        invariant
            i <= events.len(),
            forall|j: int| 0 <= j < i ==> events@[j] != event,
        decreases events.len() - i,
    {
        if events[i] == event {
            return true;
        }
        i += 1;
    }
    false
}

/// Whether a merchant that configured `configured` hears of `event`.
pub fn is_event_enabled(configured: &Vec<IncomingWebhookEvent>, event: IncomingWebhookEvent) -> (r:
    bool)
    ensures
        r == event_enabled(configured@, event),
{
    contains_event(configured, event) || contains_event(&default_webhook_config(), event)
}

/// The event that a name stands for in a stored configuration: the name of
/// the event in lower case, its words joined by underscores. Nothing for
/// any other text.
pub open spec fn event_named(name: Seq<char>) -> Option<IncomingWebhookEvent> {
    if name == "payment_intent_failure"@ {
        Some(IncomingWebhookEvent::PaymentIntentFailure)
    } else if name == "payment_intent_success"@ {
        Some(IncomingWebhookEvent::PaymentIntentSuccess)
    } else if name == "payment_intent_processing"@ {
        Some(IncomingWebhookEvent::PaymentIntentProcessing)
    } else if name == "payment_intent_partially_funded"@ {
        Some(IncomingWebhookEvent::PaymentIntentPartiallyFunded)
    } else if name == "payment_action_required"@ {
        Some(IncomingWebhookEvent::PaymentActionRequired)
    } else if name == "event_not_supported"@ {
        Some(IncomingWebhookEvent::EventNotSupported)
    } else if name == "source_chargeable"@ {
        Some(IncomingWebhookEvent::SourceChargeable)
    } else if name == "source_transaction_created"@ {
        Some(IncomingWebhookEvent::SourceTransactionCreated)
    } else if name == "refund_failure"@ {
        Some(IncomingWebhookEvent::RefundFailure)
    } else if name == "refund_success"@ {
        Some(IncomingWebhookEvent::RefundSuccess)
    } else if name == "dispute_opened"@ {
        Some(IncomingWebhookEvent::DisputeOpened)
    } else if name == "dispute_expired"@ {
        Some(IncomingWebhookEvent::DisputeExpired)
    } else if name == "dispute_accepted"@ {
        Some(IncomingWebhookEvent::DisputeAccepted)
    } else if name == "dispute_cancelled"@ {
        Some(IncomingWebhookEvent::DisputeCancelled)
    } else if name == "dispute_challenged"@ {
        Some(IncomingWebhookEvent::DisputeChallenged)
    } else if name == "dispute_won"@ {
        Some(IncomingWebhookEvent::DisputeWon)
    } else if name == "dispute_lost"@ {
        Some(IncomingWebhookEvent::DisputeLost)
    } else if name == "endpoint_verification"@ {
        Some(IncomingWebhookEvent::EndpointVerification)
    } else {
        None
    }
}

/// Reads the name of an event.
pub fn event_from_name(name: &str) -> (r: Option<IncomingWebhookEvent>)
    ensures
        r == event_named(name@),
{
    if *name == *"payment_intent_failure" {
        Some(IncomingWebhookEvent::PaymentIntentFailure)
    } else if *name == *"payment_intent_success" {
        Some(IncomingWebhookEvent::PaymentIntentSuccess)
    } else if *name == *"payment_intent_processing" {
        Some(IncomingWebhookEvent::PaymentIntentProcessing)
    } else if *name == *"payment_intent_partially_funded" {
        Some(IncomingWebhookEvent::PaymentIntentPartiallyFunded)
    } else if *name == *"payment_action_required" {
        Some(IncomingWebhookEvent::PaymentActionRequired)
    } else if *name == *"event_not_supported" {
        Some(IncomingWebhookEvent::EventNotSupported)
    } else if *name == *"source_chargeable" {
        Some(IncomingWebhookEvent::SourceChargeable)
    } else if *name == *"source_transaction_created" {
        Some(IncomingWebhookEvent::SourceTransactionCreated)
    } else if *name == *"refund_failure" {
        Some(IncomingWebhookEvent::RefundFailure)
    } else if *name == *"refund_success" {
        Some(IncomingWebhookEvent::RefundSuccess)
    } else if *name == *"dispute_opened" {
        Some(IncomingWebhookEvent::DisputeOpened)
    } else if *name == *"dispute_expired" {
        Some(IncomingWebhookEvent::DisputeExpired)
    } else if *name == *"dispute_accepted" {
        Some(IncomingWebhookEvent::DisputeAccepted)
    } else if *name == *"dispute_cancelled" {
        Some(IncomingWebhookEvent::DisputeCancelled)
    } else if *name == *"dispute_challenged" {
        Some(IncomingWebhookEvent::DisputeChallenged)
    } else if *name == *"dispute_won" {
        Some(IncomingWebhookEvent::DisputeWon)
    } else if *name == *"dispute_lost" {
        Some(IncomingWebhookEvent::DisputeLost)
    } else if *name == *"endpoint_verification" {
        Some(IncomingWebhookEvent::EndpointVerification)
    } else {
        None
    }
}

/// The events that a list of names stands for, in the order of the names;
/// nothing if one of the names is no name of an event.
pub open spec fn events_named(names: Seq<Seq<char>>) -> Option<Seq<IncomingWebhookEvent>>
    decreases names.len(),
{
    if names.len() == 0 {
        Some(Seq::empty())
    } else {
        match (events_named(names.drop_last()), event_named(names.last())) {
            (Some(events), Some(event)) => Some(events.push(event)),
            _ => None,
        }
    }
}

/// The texts of a list of strings.
pub open spec fn texts(strings: Seq<String>) -> Seq<Seq<char>> {
    strings.map_values(|s: String| s@)
}

proof fn lemma_events_named_prefix(names: Seq<Seq<char>>, n: int)
    requires
        0 <= n <= names.len(),
        events_named(names.take(n)) is None,
    ensures
        events_named(names) is None,
    decreases names.len() - n,
{
    if n < names.len() {
        assert(names.take(n + 1).drop_last() =~= names.take(n));
        lemma_events_named_prefix(names, n + 1);
    } else {
        assert(names.take(n) =~= names);
    }
}

/// Reads a stored configuration from the names it lists: the events they
/// stand for, or nothing if the configuration lists anything that is no
/// name of an event.
pub fn read_webhook_config(names: &Vec<String>) -> (r: Option<Vec<IncomingWebhookEvent>>)
    ensures
        match r {
            Some(events) => events_named(texts(names@)) == Some(events@),
            None => events_named(texts(names@)) is None,
        },
{
    let ghost all = texts(names@);
    let mut events: Vec<IncomingWebhookEvent> = Vec::new();
    let mut i: usize = 0;
    assert(all.take(0) =~= Seq::empty());
    while i < names.len()
        invariant
            i <= names.len(),
            all == texts(names@),
            events_named(all.take(i as int)) == Some(events@),
        decreases names.len() - i,
    {
        proof {
            assert(all.take(i + 1).drop_last() =~= all.take(i as int));
            assert(all.take(i + 1).last() == names@[i as int]@);
        }
        match event_from_name(names[i].as_str()) {
            Some(event) => {
                events.push(event);
            },
            None => {
                proof {
                    lemma_events_named_prefix(all, i + 1);
                }
                return None;
            },
        }
        i += 1;
    }
    assert(all.take(names.len() as int) =~= all);
    Some(events)
}

/// What the durable store holds as a merchant's configuration.
#[derive(Debug, PartialEq)]
pub enum StoredConfig {
    /// Nothing, or the store could not be asked.
    Missing,
    /// Something that cannot be read as a set of events.
    Unreadable,
    Found(Vec<IncomingWebhookEvent>),
}

/// An answer to a question about a merchant's configuration.
#[derive(Debug, PartialEq)]
pub enum WebhookConfigAnswer {
    /// What the cache holds; nothing if it holds nothing, could not be
    /// asked, or holds what cannot be read.
    Cached(Option<Vec<IncomingWebhookEvent>>),
    /// What the durable store holds.
    Stored(StoredConfig),
}

/// What the lookup does next: ask the cache, ask the durable store, or say
/// whether the merchant hears of the event.
#[derive(Debug, PartialEq)]
pub enum WebhookStep {
    GetCached { key: String },
    FindStored { key: String },
    Done(bool),
}

/// Where the lookup of an event stands.
#[derive(Debug, PartialEq)]
pub enum WebhookLookup {
    /// The cache was asked.
    Cached { connector_id: String, merchant_id: String, event: IncomingWebhookEvent },
    /// The durable store was asked.
    Stored { event: IncomingWebhookEvent },
    /// The answer was given.
    Finished,
}

impl WebhookLookup {
    /// The lookup as it starts: the cache is asked first.
    pub fn start(connector_id: String, merchant_id: String, event: IncomingWebhookEvent) -> (r: (
        WebhookLookup,
        WebhookStep,
    ))
        ensures
            r.0 == (WebhookLookup::Cached { connector_id, merchant_id, event }),
            r.1 matches WebhookStep::GetCached { key } && key@ == webhook_config_key(
                merchant_id@,
                connector_id@,
            ),
    {
        let key = make_webhook_config_key(merchant_id.as_str(), connector_id.as_str());
        (WebhookLookup::Cached { connector_id, merchant_id, event }, WebhookStep::GetCached { key })
    }
}

/// One step of the lookup of an event. What the cache holds decides, united
/// with the events every merchant hears of. Where the cache has nothing to
/// say the durable store is asked; what it holds decides in the same way,
/// and where it holds nothing or nothing readable, the events every
/// merchant hears of decide alone. An answer that the lookup is not waiting
/// for ends it with those events alone.
pub fn lookup_webhook_event(state: WebhookLookup, answer: WebhookConfigAnswer) -> (r: (
    WebhookLookup,
    WebhookStep,
))
    ensures
        match (state, answer) {
            (
                WebhookLookup::Cached { event, .. },
                WebhookConfigAnswer::Cached(Some(configured)),
            ) => r == (
                WebhookLookup::Finished,
                WebhookStep::Done(event_enabled(configured@, event)),
            ),
            (
                WebhookLookup::Cached { connector_id, merchant_id, event },
                WebhookConfigAnswer::Cached(None),
            ) => {
                &&& r.0 == (WebhookLookup::Stored { event })
                &&& r.1 matches WebhookStep::FindStored { key }
                &&& key@ == webhook_config_key(merchant_id@, connector_id@)
            },
            (
                WebhookLookup::Stored { event },
                WebhookConfigAnswer::Stored(StoredConfig::Found(configured)),
            ) => r == (
                WebhookLookup::Finished,
                WebhookStep::Done(event_enabled(configured@, event)),
            ),
            (WebhookLookup::Stored { event }, _) | (WebhookLookup::Cached { event, .. }, _) => r
                == (
                WebhookLookup::Finished,
                WebhookStep::Done(event_enabled(Seq::empty(), event)),
            ),
            (WebhookLookup::Finished, _) => r == (
                WebhookLookup::Finished,
                WebhookStep::Done(false),
            ),
        },
{
    match (state, answer) {
        (WebhookLookup::Cached { event, .. }, WebhookConfigAnswer::Cached(Some(configured))) => (
            WebhookLookup::Finished,
            WebhookStep::Done(is_event_enabled(&configured, event)),
        ),
        (
            WebhookLookup::Cached { connector_id, merchant_id, event },
            WebhookConfigAnswer::Cached(None),
        ) => {
            let key = make_webhook_config_key(merchant_id.as_str(), connector_id.as_str());
            (WebhookLookup::Stored { event }, WebhookStep::FindStored { key })
        },
        (
            WebhookLookup::Stored { event },
            WebhookConfigAnswer::Stored(StoredConfig::Found(configured)),
        ) => (WebhookLookup::Finished, WebhookStep::Done(is_event_enabled(&configured, event))),
        (WebhookLookup::Stored { event }, _) | (WebhookLookup::Cached { event, .. }, _) => {
            let nothing: Vec<IncomingWebhookEvent> = Vec::new();
            (WebhookLookup::Finished, WebhookStep::Done(is_event_enabled(&nothing, event)))
        },
        (WebhookLookup::Finished, _) => (WebhookLookup::Finished, WebhookStep::Done(false)),
    }
}

/// The secrets with which a merchant's webhooks from a connector are
/// verified.
#[derive(PartialEq)]
pub struct ConnectorWebhookSecrets {
    pub secret: Vec<u8>,
    pub additional_secret: Option<Secret>,
}

/// What the verification of a webhook's source asks of a connector.
#[derive(PartialEq)]
pub struct VerifyWebhookSourceRequestData {
    pub webhook_headers: Vec<(String, String)>,
    pub webhook_body: Vec<u8>,
    pub merchant_secret: ConnectorWebhookSecrets,
}

/// Whether a connector vouches for a webhook.
#[derive(Clone, Copy, Debug, PartialEq, Eq, Structural)]
pub enum VerifyWebhookStatus {
    SourceVerified,
    SourceNotVerified,
}

/// What a connector answered to the verification of a webhook's source.
#[derive(Debug, PartialEq)]
pub struct VerifyWebhookSourceResponseData {
    pub verify_webhook_status: VerifyWebhookStatus,
}

/// The data of a call that verifies the source of a webhook.
pub type VerifyWebhookSourceRouterData = RouterData<
    VerifyWebhookSource,
    VerifyWebhookSourceRequestData,
    VerifyWebhookSourceResponseData,
>;

/// The payment that the verification of a webhook's source names, for want
/// of a payment.
pub open spec fn irrelevant_payment_id() -> Seq<char> {
    "irrelevant_payment_id_in_source_verification_flow"@
}

/// The attempt that the verification of a webhook's source names, for want
/// of an attempt.
pub open spec fn irrelevant_attempt_id() -> Seq<char> {
    "irrelevant_attempt_id_in_source_verification_flow"@
}

/// The reference that the verification of a webhook's source names, for want
/// of a request to refer to.
pub open spec fn irrelevant_connector_request_reference_id() -> Seq<char> {
    "irrelevant_connector_request_reference_id_in_source_verification_flow"@
}

/// The data with which a connector is asked to verify the source of a
/// webhook: the merchant, the connector and the merchant's credentials with
/// it; the webhook's headers and body and the merchant's secrets as the
/// request; fixed stand-ins where a payment would be named; no answer yet, so
/// the default error stands in its place; and nothing else.
pub fn construct_webhook_router_data(
    merchant_id: &str,
    connector_name: &str,
    auth_type: ConnectorAuthType,
    merchant_secret: ConnectorWebhookSecrets,
    webhook_headers: Vec<(String, String)>,
    webhook_body: Vec<u8>,
) -> (r: VerifyWebhookSourceRouterData)
    ensures
        r.merchant_id@ == merchant_id@,
        r.connector@ == connector_name@,
        r.customer_id is None,
        r.payment_id@ == irrelevant_payment_id(),
        r.attempt_id@ == irrelevant_attempt_id(),
        r.status == AttemptStatus::Pending,
        r.payment_method == PaymentMethod::Card,
        r.connector_auth_type == auth_type,
        r.description is None,
        r.return_url is None,
        r.payment_method_id is None,
        r.auth_type == AuthenticationType::ThreeDs,
        r.connector_meta_data is None,
        r.amount_captured is None,
        r.request == (VerifyWebhookSourceRequestData {
            webhook_headers,
            webhook_body,
            merchant_secret,
        }),
        r.response matches Err(e) && e.code@ == "HE_00"@ && e.message@ == "Something went wrong"@
            && e.reason is None && e.status_code == 500,
        r.reference_id is None,
        r.payment_method_token is None,
        r.connector_customer is None,
        r.preprocessing_id is None,
        r.connector_request_reference_id@ == irrelevant_connector_request_reference_id(),
        r.test_mode is None,
        r.connector_api_version is None,
        r.connector_http_status_code is None,
{
    RouterData {
        flow: PhantomData,
        merchant_id: String::from_str(merchant_id),
        connector: String::from_str(connector_name),
        customer_id: None,
        payment_id: String::from_str("irrelevant_payment_id_in_source_verification_flow"),
        attempt_id: String::from_str("irrelevant_attempt_id_in_source_verification_flow"),
        status: AttemptStatus::default(),
        payment_method: PaymentMethod::default(),
        connector_auth_type: auth_type,
        description: None,
        return_url: None,
        payment_method_id: None,
        auth_type: AuthenticationType::default(),
        connector_meta_data: None,
        amount_captured: None,
        request: VerifyWebhookSourceRequestData { webhook_headers, webhook_body, merchant_secret },
        response: Err(ErrorResponse::default()),
        reference_id: None,
        payment_method_token: None,
        connector_customer: None,
        preprocessing_id: None,
        connector_request_reference_id: String::from_str(
            "irrelevant_connector_request_reference_id_in_source_verification_flow",
        ),
        test_mode: None,
        connector_api_version: None,
        connector_http_status_code: None,
    }
}

} // verus!
