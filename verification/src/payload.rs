//! The webhook payload and the HTTPS request that carries it.

use crate::auth::sign_payload;
use crate::auth::signature;
use crate::text::decimal;
use crate::text::push_decimal;
use crate::types::Channel;
use crate::types::ChannelView;
use crate::types::Signal;
use crate::types::SignalUrgency;
use crate::types::SignalView;
use crate::types::Subscriber;
use crate::types::Timestamp;
use crate::types::Webhook;
use crate::types::WebhookView;
use vstd::prelude::*;
use vstd::string::StringExecFns;

verus! {

/// How long a webhook request may take as a whole, in seconds.
pub const WEBHOOK_TIMEOUT_SECS: u64 = 30;

/// The channel of a payload.
#[derive(Clone, Debug)]
pub struct PayloadChannel {
    pub id: String,
    pub slug: String,
    pub display_name: String,
}

/// The view of a [`PayloadChannel`].
pub struct PayloadChannelView {
    pub id: Seq<char>,
    pub slug: Seq<char>,
    pub display_name: Seq<char>,
}

impl View for PayloadChannel {
    type V = PayloadChannelView;

    open spec fn view(&self) -> PayloadChannelView {
        PayloadChannelView {
            id: self.id@,
            slug: self.slug@,
            display_name: self.display_name@,
        }
    }
}

impl DeepView for PayloadChannel {
    type V = PayloadChannelView;

    open spec fn deep_view(&self) -> PayloadChannelView {
        self@
    }
}

/// The signal of a payload.
#[derive(Clone, Debug)]
pub struct PayloadSignal {
    pub id: String,
    pub title: String,
    pub body: String,
    pub urgency: SignalUrgency,
    /// Free-form metadata, as JSON text.
    pub metadata: String,
    pub created_at: Timestamp,
}

/// The view of a [`PayloadSignal`].
pub struct PayloadSignalView {
    pub id: Seq<char>,
    pub title: Seq<char>,
    pub body: Seq<char>,
    pub urgency: SignalUrgency,
    pub metadata: Seq<char>,
    pub created_at: Timestamp,
}

impl View for PayloadSignal {
    type V = PayloadSignalView;

    open spec fn view(&self) -> PayloadSignalView {
        PayloadSignalView {
            id: self.id@,
            title: self.title@,
            body: self.body@,
            urgency: self.urgency,
            metadata: self.metadata@,
            created_at: self.created_at,
        }
    }
}

impl DeepView for PayloadSignal {
    type V = PayloadSignalView;

    open spec fn deep_view(&self) -> PayloadSignalView {
        self@
    }
}

/// What a webhook receives for one delivery.
#[derive(Clone, Debug)]
pub struct WebhookPayload {
    pub delivery_id: String,
    pub webhook_id: Option<String>,
    pub channel: PayloadChannel,
    pub signal: PayloadSignal,
}

/// The view of a [`WebhookPayload`].
pub struct WebhookPayloadView {
    pub delivery_id: Seq<char>,
    pub webhook_id: Option<Seq<char>>,
    pub channel: PayloadChannelView,
    pub signal: PayloadSignalView,
}

impl View for WebhookPayload {
    type V = WebhookPayloadView;

    open spec fn view(&self) -> WebhookPayloadView {
        WebhookPayloadView {
            delivery_id: self.delivery_id@,
            webhook_id: self.webhook_id.deep_view(),
            channel: self.channel@,
            signal: self.signal@,
        }
    }
}

impl DeepView for WebhookPayload {
    type V = WebhookPayloadView;

    open spec fn deep_view(&self) -> WebhookPayloadView {
        self@
    }
}

/// The HTTPS POST of one webhook delivery.
#[derive(Clone, Debug)]
pub struct WebhookRequest {
    pub url: String,
    /// The headers, in the order in which they are set.
    pub headers: Vec<(String, String)>,
    /// The JSON payload: the bytes that the signature covers.
    pub body: String,
    pub timeout_secs: u64,
}

/// The view of a [`WebhookRequest`].
pub struct WebhookRequestView {
    pub url: Seq<char>,
    pub headers: Seq<(Seq<char>, Seq<char>)>,
    pub body: Seq<char>,
    pub timeout_secs: u64,
}

impl View for WebhookRequest {
    type V = WebhookRequestView;

    open spec fn view(&self) -> WebhookRequestView {
        WebhookRequestView {
            url: self.url@,
            headers: self.headers.deep_view(),
            body: self.body@,
            timeout_secs: self.timeout_secs,
        }
    }
}

impl DeepView for WebhookRequest {
    type V = WebhookRequestView;

    open spec fn deep_view(&self) -> WebhookRequestView {
        self@
    }
}

/// The payload of a delivery: the delivery and webhook identifiers, the
/// channel's identifier, slug and display name, and the signal's identifier,
/// title, body, urgency, metadata and time of creation.
pub open spec fn payload_of(
    delivery_id: Seq<char>,
    webhook_id: Option<Seq<char>>,
    channel: ChannelView,
    signal: SignalView,
) -> WebhookPayloadView {
    WebhookPayloadView {
        delivery_id,
        webhook_id,
        channel: PayloadChannelView {
            id: channel.id,
            slug: channel.slug,
            display_name: channel.display_name,
        },
        signal: PayloadSignalView {
            id: signal.id,
            title: signal.title,
            body: signal.body,
            urgency: signal.urgency,
            metadata: signal.metadata,
            created_at: signal.created_at,
        },
    }
}

/// Builds the payload of a delivery.
pub fn build_payload(
    delivery_id: &str,
    webhook_id: Option<&str>,
    channel: &Channel,
    signal: &Signal,
) -> (payload: WebhookPayload)
    ensures
        payload@ == payload_of(
            delivery_id@,
            match webhook_id {
                Some(id) => Some(id@),
                None => None,
            },
            channel@,
            signal@,
        ),
{
    WebhookPayload {
        delivery_id: String::from_str(delivery_id),
        webhook_id: match webhook_id {
            Some(id) => Some(String::from_str(id)),
            None => None,
        },
        channel: PayloadChannel {
            id: channel.id.clone(),
            slug: channel.slug.clone(),
            display_name: channel.display_name.clone(),
        },
        signal: PayloadSignal {
            id: signal.id.clone(),
            title: signal.title.clone(),
            body: signal.body.clone(),
            urgency: signal.urgency,
            metadata: signal.metadata.clone(),
            created_at: signal.created_at,
        },
    }
}

/// The value of the `Authorization` header for a bearer token.
pub open spec fn bearer_value(token: Seq<char>) -> Seq<char> {
    "Bearer "@ + token
}

/// The headers of a webhook request: the content type, the signature of the
/// body, the timestamp that was signed, the delivery identifier, and the
/// bearer token if the webhook has one.
pub open spec fn request_headers(
    secret: Seq<char>,
    timestamp: int,
    delivery_id: Seq<char>,
    token: Option<Seq<char>>,
    body: Seq<char>,
) -> Seq<(Seq<char>, Seq<char>)> {
    let fixed = seq![
        ("Content-Type"@, "application/json"@),
        ("X-Herald-Signature"@, signature(secret, timestamp, body)),
        ("X-Herald-Timestamp"@, decimal(timestamp)),
        ("X-Herald-Delivery-Id"@, delivery_id),
    ];
    match token {
        Some(t) => fixed.push(("Authorization"@, bearer_value(t))),
        None => fixed,
    }
}

/// The request that delivers `body` to a webhook: sent to the webhook's URL,
/// signed with `secret` at `timestamp`, within the timeout.
pub open spec fn request_of(
    webhook: WebhookView,
    secret: Seq<char>,
    delivery_id: Seq<char>,
    timestamp: int,
    body: Seq<char>,
) -> WebhookRequestView {
    WebhookRequestView {
        url: webhook.url,
        headers: request_headers(secret, timestamp, delivery_id, webhook.token, body),
        body,
        timeout_secs: WEBHOOK_TIMEOUT_SECS,
    }
}

/// Prepares the request of one webhook delivery. `timestamp` is the time of
/// signing in Unix seconds; `body` is the JSON text of the payload.
pub fn webhook_request(
    webhook: &Webhook,
    subscriber: &Subscriber,
    delivery_id: &str,
    timestamp: i64,
    body: String,
) -> (request: WebhookRequest)
    ensures
        request@ == request_of(
            webhook@,
            subscriber@.webhook_secret,
            delivery_id@,
            timestamp as int,
            body@,
        ),
{
    let sig = sign_payload(subscriber.webhook_secret.as_str(), timestamp, body.as_str());
    let mut stamp = String::new();
    push_decimal(&mut stamp, timestamp);
    assert(stamp@ == decimal(timestamp as int));
    let mut headers: Vec<(String, String)> = Vec::new();
    headers.push((String::from_str("Content-Type"), String::from_str("application/json")));
    headers.push((String::from_str("X-Herald-Signature"), sig));
    headers.push((String::from_str("X-Herald-Timestamp"), stamp));
    headers.push((String::from_str("X-Herald-Delivery-Id"), String::from_str(delivery_id)));
    match &webhook.token {
        Some(token) => {
            let mut value = String::from_str("Bearer ");
            value.append(token.as_str());
            headers.push((String::from_str("Authorization"), value));
        },
        None => {},
    }
    assert(headers.deep_view() =~= request_headers(
        subscriber@.webhook_secret,
        timestamp as int,
        delivery_id@,
        webhook@.token,
        body@,
    ));
    WebhookRequest { url: webhook.url.clone(), headers, body, timeout_secs: WEBHOOK_TIMEOUT_SECS }
}

} // verus!
