//! Webhook ingestion: collecting the provider's signature headers,
//! classifying event types as a closed enumeration, and the dispatch
//! decision that only ever accepts a payload whose signature the
//! provider has positively verified.

use vstd::prelude::*;

use crate::jsonfields::get_json_str_field;
use crate::jsonfields::json_str_field;
use crate::strutil::str_eq;

verus! {

/// The provider's required signature headers; a webhook without all
/// five is rejected before anything else happens.
#[derive(Debug, PartialEq)]
pub struct SignatureHeaders {
    pub transmission_id: String,
    pub transmission_sig: String,
    pub transmission_time: String,
    pub cert_url: String,
    pub auth_algo: String,
}

impl Clone for SignatureHeaders {
    /// A clone is equal to the original.
    fn clone(&self) -> (r: Self)
        ensures
            r == *self,
    {
        SignatureHeaders {
            transmission_id: self.transmission_id.clone(),
            transmission_sig: self.transmission_sig.clone(),
            transmission_time: self.transmission_time.clone(),
            cert_url: self.cert_url.clone(),
            auth_algo: self.auth_algo.clone(),
        }
    }
}

/// Why a webhook was rejected.
#[derive(Debug, Clone, Copy, PartialEq, Eq, Structural)]
pub enum WebhookRejection {
    MalformedRequest,
    InvalidSignature,
    InvalidPayload,
    UnsupportedEventType,
}

/// The closed set of provider events this system understands.
#[derive(Debug, Clone, Copy, PartialEq, Eq, Structural)]
pub enum WebhookEvent {
    CaptureCompleted,
    CaptureDenied,
    CapturePending,
    CaptureRefunded,
    CaptureReversed,
    OrderApproved,
    SubscriptionCreated,
    SubscriptionActivated,
    SubscriptionUpdated,
    SubscriptionCancelled,
    SubscriptionExpired,
    SubscriptionSuspended,
    SubscriptionPaymentFailed,
    SaleCompleted,
    SaleRefunded,
    SaleReversed,
    OrderCancelled,
    AuthorizationCreated,
    AuthorizationVoided,
}

/// The event kind a provider event-type tag names, if any.
pub open spec fn event_kind_of(s: Seq<char>) -> Option<WebhookEvent> {
    if s == "PAYMENT.CAPTURE.COMPLETED"@ {
        Some(WebhookEvent::CaptureCompleted)
    } else if s == "PAYMENT.CAPTURE.DENIED"@ {
        Some(WebhookEvent::CaptureDenied)
    } else if s == "PAYMENT.CAPTURE.PENDING"@ {
        Some(WebhookEvent::CapturePending)
    } else if s == "PAYMENT.CAPTURE.REFUNDED"@ {
        Some(WebhookEvent::CaptureRefunded)
    } else if s == "PAYMENT.CAPTURE.REVERSED"@ {
        Some(WebhookEvent::CaptureReversed)
    } else if s == "CHECKOUT.ORDER.APPROVED"@ {
        Some(WebhookEvent::OrderApproved)
    } else if s == "BILLING.SUBSCRIPTION.CREATED"@ {
        Some(WebhookEvent::SubscriptionCreated)
    } else if s == "BILLING.SUBSCRIPTION.ACTIVATED"@ {
        Some(WebhookEvent::SubscriptionActivated)
    } else if s == "BILLING.SUBSCRIPTION.UPDATED"@ {
        Some(WebhookEvent::SubscriptionUpdated)
    } else if s == "BILLING.SUBSCRIPTION.CANCELLED"@ {
        Some(WebhookEvent::SubscriptionCancelled)
    } else if s == "BILLING.SUBSCRIPTION.EXPIRED"@ {
        Some(WebhookEvent::SubscriptionExpired)
    } else if s == "BILLING.SUBSCRIPTION.SUSPENDED"@ {
        Some(WebhookEvent::SubscriptionSuspended)
    } else if s == "BILLING.SUBSCRIPTION.PAYMENT.FAILED"@ {
        Some(WebhookEvent::SubscriptionPaymentFailed)
    } else if s == "PAYMENT.SALE.COMPLETED"@ {
        Some(WebhookEvent::SaleCompleted)
    } else if s == "PAYMENT.SALE.REFUNDED"@ {
        Some(WebhookEvent::SaleRefunded)
    } else if s == "PAYMENT.SALE.REVERSED"@ {
        Some(WebhookEvent::SaleReversed)
    } else if s == "PAYMENT.ORDER.CANCELLED"@ {
        Some(WebhookEvent::OrderCancelled)
    } else if s == "PAYMENT.AUTHORIZATION.CREATED"@ {
        Some(WebhookEvent::AuthorizationCreated)
    } else if s == "PAYMENT.AUTHORIZATION.VOIDED"@ {
        Some(WebhookEvent::AuthorizationVoided)
    } else {
        None
    }
}

/// Classifies a provider event-type tag; an unknown tag is reported
/// rather than silently accepted.
pub fn classify_event(event_type: &str) -> (r: Option<WebhookEvent>)
    ensures
        r == event_kind_of(event_type@),
{
    if str_eq(event_type, "PAYMENT.CAPTURE.COMPLETED") {
        Some(WebhookEvent::CaptureCompleted)
    } else if str_eq(event_type, "PAYMENT.CAPTURE.DENIED") {
        Some(WebhookEvent::CaptureDenied)
    } else if str_eq(event_type, "PAYMENT.CAPTURE.PENDING") {
        Some(WebhookEvent::CapturePending)
    } else if str_eq(event_type, "PAYMENT.CAPTURE.REFUNDED") {
        Some(WebhookEvent::CaptureRefunded)
    } else if str_eq(event_type, "PAYMENT.CAPTURE.REVERSED") {
        Some(WebhookEvent::CaptureReversed)
    } else if str_eq(event_type, "CHECKOUT.ORDER.APPROVED") {
        Some(WebhookEvent::OrderApproved)
    } else if str_eq(event_type, "BILLING.SUBSCRIPTION.CREATED") {
        Some(WebhookEvent::SubscriptionCreated)
    } else if str_eq(event_type, "BILLING.SUBSCRIPTION.ACTIVATED") {
        Some(WebhookEvent::SubscriptionActivated)
    } else if str_eq(event_type, "BILLING.SUBSCRIPTION.UPDATED") {
        Some(WebhookEvent::SubscriptionUpdated)
    } else if str_eq(event_type, "BILLING.SUBSCRIPTION.CANCELLED") {
        Some(WebhookEvent::SubscriptionCancelled)
    } else if str_eq(event_type, "BILLING.SUBSCRIPTION.EXPIRED") {
        Some(WebhookEvent::SubscriptionExpired)
    } else if str_eq(event_type, "BILLING.SUBSCRIPTION.SUSPENDED") {
        Some(WebhookEvent::SubscriptionSuspended)
    } else if str_eq(event_type, "BILLING.SUBSCRIPTION.PAYMENT.FAILED") {
        Some(WebhookEvent::SubscriptionPaymentFailed)
    } else if str_eq(event_type, "PAYMENT.SALE.COMPLETED") {
        Some(WebhookEvent::SaleCompleted)
    } else if str_eq(event_type, "PAYMENT.SALE.REFUNDED") {
        Some(WebhookEvent::SaleRefunded)
    } else if str_eq(event_type, "PAYMENT.SALE.REVERSED") {
        Some(WebhookEvent::SaleReversed)
    } else if str_eq(event_type, "PAYMENT.ORDER.CANCELLED") {
        Some(WebhookEvent::OrderCancelled)
    } else if str_eq(event_type, "PAYMENT.AUTHORIZATION.CREATED") {
        Some(WebhookEvent::AuthorizationCreated)
    } else if str_eq(event_type, "PAYMENT.AUTHORIZATION.VOIDED") {
        Some(WebhookEvent::AuthorizationVoided)
    } else {
        None
    }
}

/// Gathers the five required signature headers; any missing one makes
/// the webhook a malformed request, rejected before verification.
pub fn collect_signature_headers(
    transmission_id: Option<String>,
    transmission_sig: Option<String>,
    transmission_time: Option<String>,
    cert_url: Option<String>,
    auth_algo: Option<String>,
) -> (r: Result<SignatureHeaders, WebhookRejection>)
    ensures
        r is Ok <==> (transmission_id is Some && transmission_sig is Some && transmission_time
            is Some && cert_url is Some && auth_algo is Some),
        r matches Ok(h) ==> Some(h.transmission_id) == transmission_id && Some(h.transmission_sig)
            == transmission_sig && Some(h.transmission_time) == transmission_time && Some(
            h.cert_url,
        ) == cert_url && Some(h.auth_algo) == auth_algo,
        r is Err ==> r == Err::<SignatureHeaders, WebhookRejection>(
            WebhookRejection::MalformedRequest,
        ),
{
    match (transmission_id, transmission_sig, transmission_time, cert_url, auth_algo) {
        (Some(tid), Some(sig), Some(time_tag), Some(cert), Some(algo)) => Ok(
            SignatureHeaders {
                transmission_id: tid,
                transmission_sig: sig,
                transmission_time: time_tag,
                cert_url: cert,
                auth_algo: algo,
            },
        ),
        _ => Err(WebhookRejection::MalformedRequest),
    }
}

/// What is sent to the provider's signature-verification endpoint:
/// the original headers, the configured webhook id, and (appended by
/// the caller) the raw event body.
#[derive(Debug, PartialEq)]
pub struct VerificationRequest {
    pub transmission_id: String,
    pub transmission_time: String,
    pub cert_url: String,
    pub auth_algo: String,
    pub transmission_sig: String,
    pub webhook_id: String,
}

/// Builds the verification request from the collected headers.
pub fn build_verification_request(headers: &SignatureHeaders, webhook_id: String) -> (r:
    VerificationRequest)
    ensures
        r.transmission_id == headers.transmission_id,
        r.transmission_time == headers.transmission_time,
        r.cert_url == headers.cert_url,
        r.auth_algo == headers.auth_algo,
        r.transmission_sig == headers.transmission_sig,
        r.webhook_id == webhook_id,
{
    VerificationRequest {
        transmission_id: headers.transmission_id.clone(),
        transmission_time: headers.transmission_time.clone(),
        cert_url: headers.cert_url.clone(),
        auth_algo: headers.auth_algo.clone(),
        transmission_sig: headers.transmission_sig.clone(),
        webhook_id,
    }
}

/// Reads the provider's verification answer: only an explicit
/// SUCCESS counts as a verified signature.
pub fn verification_succeeded(resp_body: &[u8]) -> (r: bool)
    ensures
        r == (json_str_field(resp_body@, "verification_status"@) == Some("SUCCESS"@)),
{
    match get_json_str_field(resp_body, "verification_status") {
        Some(s) => str_eq(s.as_str(), "SUCCESS"),
        None => false,
    }
}

/// The dispatch decision over a verified flag and the raw body: an
/// unverified signature is rejected before the body is even read; a
/// verified body is accepted exactly when it carries a known event
/// type, and every unknown type is rejected rather than masked.
pub fn verify_and_dispatch(verified: bool, body: &[u8]) -> (r: Result<
    WebhookEvent,
    WebhookRejection,
>)
    ensures
        !verified ==> r == Err::<WebhookEvent, WebhookRejection>(
            WebhookRejection::InvalidSignature,
        ),
        verified ==> (match json_str_field(body@, "event_type"@) {
            None => r == Err::<WebhookEvent, WebhookRejection>(WebhookRejection::InvalidPayload),
            Some(t) => (match event_kind_of(t) {
                Some(k) => r == Ok::<WebhookEvent, WebhookRejection>(k),
                None => r == Err::<WebhookEvent, WebhookRejection>(
                    WebhookRejection::UnsupportedEventType,
                ),
            }),
        }),
{
    if !verified {
        return Err(WebhookRejection::InvalidSignature);
    }
    let event_type = match get_json_str_field(body, "event_type") {
        Some(t) => t,
        None => {
            return Err(WebhookRejection::InvalidPayload);
        },
    };
    match classify_event(event_type.as_str()) {
        Some(k) => Ok(k),
        None => Err(WebhookRejection::UnsupportedEventType),
    }
}

} // verus!
