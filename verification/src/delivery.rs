//! The delivery worker: what it does with one job.
//!
//! The worker alternates outside work (loading rows, sending through the
//! tunnel, posting to a webhook) with decisions. The decisions are the
//! functions of this module: each takes what the outside work gave and
//! returns what is to be done next, as [`Effect`]s to apply and a
//! [`Next`] step.

use crate::payload::build_payload;
use crate::payload::payload_of;
use crate::payload::WebhookPayload;
use crate::payload::WebhookPayloadView;
use crate::policy::after_failure;
use crate::policy::followup_of;
use crate::policy::requeue_delay;
use crate::policy::Followup;
use crate::policy::Lane;
use crate::policy::LAST_ATTEMPT;
use crate::text::decimal;
use crate::text::push_decimal;
use crate::tunnel::to_tunnel_signal;
use crate::tunnel::tunnel_signal_of;
use crate::tunnel::ServerMessage;
use crate::tunnel::ServerMessageView;
use crate::types::Channel;
use crate::types::ChannelView;
use crate::types::DeliveryJob;
use crate::types::DeliveryJobView;
use crate::types::DeliveryMode;
use crate::types::DeliveryStatus;
use crate::types::ErrorRecord;
use crate::types::ErrorRecordView;
use crate::types::Signal;
use crate::types::SignalView;
use crate::types::Subscriber;
use crate::types::SubscriberView;
use crate::types::Subscription;
use crate::types::SubscriptionView;
use crate::types::Timestamp;
use crate::types::Webhook;
use crate::types::WebhookView;
use vstd::prelude::*;
use vstd::string::StringExecFns;

verus! {

/// One change that a decision asks for: a write to the store, or a job for
/// the queue.
#[derive(Clone, Debug)]
pub enum Effect {
    /// Create the row of a delivery attempt, with status `pending`.
    CreateDelivery {
        id: String,
        signal_id: String,
        subscription_id: String,
        webhook_id: Option<String>,
        mode: DeliveryMode,
        attempt: i32,
    },
    /// Set the outcome of a delivery attempt.
    UpdateDelivery {
        id: String,
        status: DeliveryStatus,
        status_code: Option<i32>,
        error_message: Option<String>,
        latency_ms: Option<i32>,
    },
    /// Add to the delivery counters of a signal.
    IncrementSignalCounts {
        signal_id: String,
        delivered: i32,
        failed: i32,
        total: i32,
    },
    /// Record a success on a webhook: its failure count goes back to zero.
    WebhookSucceeded {
        id: String,
        at: Timestamp,
    },
    /// Record a failure on a webhook: its failure count goes up by one.
    WebhookFailed {
        id: String,
        at: Timestamp,
    },
    /// Put the delivery in the dead-letter queue, with the payload of the last
    /// attempt and the record of its failure.
    CreateDeadLetter {
        delivery_id: String,
        signal_id: String,
        subscription_id: String,
        payload: String,
        error: ErrorRecord,
    },
    /// Push a job on a queue, to run after a delay.
    Enqueue {
        queue: String,
        job: DeliveryJob,
        delay_secs: u64,
    },
}

/// The view of an [`Effect`].
pub enum EffectView {
    CreateDelivery {
        id: Seq<char>,
        signal_id: Seq<char>,
        subscription_id: Seq<char>,
        webhook_id: Option<Seq<char>>,
        mode: DeliveryMode,
        attempt: i32,
    },
    UpdateDelivery {
        id: Seq<char>,
        status: DeliveryStatus,
        status_code: Option<i32>,
        error_message: Option<Seq<char>>,
        latency_ms: Option<i32>,
    },
    IncrementSignalCounts {
        signal_id: Seq<char>,
        delivered: i32,
        failed: i32,
        total: i32,
    },
    WebhookSucceeded {
        id: Seq<char>,
        at: Timestamp,
    },
    WebhookFailed {
        id: Seq<char>,
        at: Timestamp,
    },
    CreateDeadLetter {
        delivery_id: Seq<char>,
        signal_id: Seq<char>,
        subscription_id: Seq<char>,
        payload: Seq<char>,
        error: ErrorRecordView,
    },
    Enqueue {
        queue: Seq<char>,
        job: DeliveryJobView,
        delay_secs: u64,
    },
}

impl View for Effect {
    type V = EffectView;

    open spec fn view(&self) -> EffectView {
        match self {
            Effect::CreateDelivery { id, signal_id, subscription_id, webhook_id, mode, attempt } => EffectView::CreateDelivery {
                id: id@,
                signal_id: signal_id@,
                subscription_id: subscription_id@,
                webhook_id: webhook_id.deep_view(),
                mode: *mode,
                attempt: *attempt,
            },
            Effect::UpdateDelivery { id, status, status_code, error_message, latency_ms } => EffectView::UpdateDelivery {
                id: id@,
                status: *status,
                status_code: *status_code,
                error_message: error_message.deep_view(),
                latency_ms: *latency_ms,
            },
            Effect::IncrementSignalCounts { signal_id, delivered, failed, total } => EffectView::IncrementSignalCounts {
                signal_id: signal_id@,
                delivered: *delivered,
                failed: *failed,
                total: *total,
            },
            Effect::WebhookSucceeded { id, at } => EffectView::WebhookSucceeded {
                id: id@,
                at: *at,
            },
            Effect::WebhookFailed { id, at } => EffectView::WebhookFailed {
                id: id@,
                at: *at,
            },
            Effect::CreateDeadLetter { delivery_id, signal_id, subscription_id, payload, error } => EffectView::CreateDeadLetter {
                delivery_id: delivery_id@,
                signal_id: signal_id@,
                subscription_id: subscription_id@,
                payload: payload@,
                error: error@,
            },
            Effect::Enqueue { queue, job, delay_secs } => EffectView::Enqueue {
                queue: queue@,
                job: job@,
                delay_secs: *delay_secs,
            },
        }
    }
}

impl DeepView for Effect {
    type V = EffectView;

    open spec fn deep_view(&self) -> EffectView {
        self@
    }
}

/// Why a job ends without an attempt.
#[derive(Clone, Copy, Debug, PartialEq, Eq, Structural)]
pub enum JobError {
    SignalNotFound,
    SubscriptionNotFound,
    ChannelNotFound,
    SubscriberNotFound,
    WebhookNotFound,
    /// The subscriber has no agent connected and the subscription no webhook.
    NoDeliveryMethod,
}

impl JobError {
    /// The text of the error.
    pub open spec fn text(self) -> Seq<char> {
        match self {
            JobError::SignalNotFound => "signal not found"@,
            JobError::SubscriptionNotFound => "subscription not found"@,
            JobError::ChannelNotFound => "channel not found"@,
            JobError::SubscriberNotFound => "subscriber not found"@,
            JobError::WebhookNotFound => "webhook not found"@,
            JobError::NoDeliveryMethod => "No delivery method available"@,
        }
    }

    /// The text of the error.
    pub fn message(&self) -> (text: &'static str)
        ensures
            text@ == self.text(),
    {
        match self {
            JobError::SignalNotFound => "signal not found",
            JobError::SubscriptionNotFound => "subscription not found",
            JobError::ChannelNotFound => "channel not found",
            JobError::SubscriberNotFound => "subscriber not found",
            JobError::WebhookNotFound => "webhook not found",
            JobError::NoDeliveryMethod => "No delivery method available",
        }
    }
}

/// The rows that a job needs, all found.
#[derive(Clone, Debug)]
pub struct JobContext {
    pub signal: Signal,
    pub subscription: Subscription,
    pub channel: Channel,
    pub subscriber: Subscriber,
}

/// The view of a [`JobContext`].
pub struct JobContextView {
    pub signal: SignalView,
    pub subscription: SubscriptionView,
    pub channel: ChannelView,
    pub subscriber: SubscriberView,
}

impl View for JobContext {
    type V = JobContextView;

    open spec fn view(&self) -> JobContextView {
        JobContextView {
            signal: self.signal@,
            subscription: self.subscription@,
            channel: self.channel@,
            subscriber: self.subscriber@,
        }
    }
}

/// The transport that a job tries first.
#[derive(Clone, Debug)]
pub enum Route {
    /// The subscriber's agent is connected: push through the tunnel. A failure
    /// is retried through the queue only if `allow_retry` holds, which is when
    /// the subscription has no webhook to fall back to.
    Tunnel {
        allow_retry: bool,
    },
    /// No agent is connected: post to the subscription's webhook.
    Webhook {
        webhook_id: String,
    },
}

/// The view of a [`Route`].
pub enum RouteView {
    Tunnel {
        allow_retry: bool,
    },
    Webhook {
        webhook_id: Seq<char>,
    },
}

impl View for Route {
    type V = RouteView;

    open spec fn view(&self) -> RouteView {
        match self {
            Route::Tunnel { allow_retry } => RouteView::Tunnel {
                allow_retry: *allow_retry,
            },
            Route::Webhook { webhook_id } => RouteView::Webhook {
                webhook_id: webhook_id@,
            },
        }
    }
}

/// What the worker does after a decision.
#[derive(Clone, Debug)]
pub enum Next {
    /// The job is complete: the outcome of the attempt is recorded, and a
    /// retry or a dead letter is in the effects where one is due.
    Done {
        delivered: bool,
    },
    /// The tunnel failed and the subscription has a webhook: deliver through
    /// it, in this same job.
    TryWebhook {
        webhook_id: String,
    },
}

/// The view of a [`Next`].
pub enum NextView {
    Done {
        delivered: bool,
    },
    TryWebhook {
        webhook_id: Seq<char>,
    },
}

impl View for Next {
    type V = NextView;

    open spec fn view(&self) -> NextView {
        match self {
            Next::Done { delivered } => NextView::Done {
                delivered: *delivered,
            },
            Next::TryWebhook { webhook_id } => NextView::TryWebhook {
                webhook_id: webhook_id@,
            },
        }
    }
}

/// A tunnel attempt, ready to be made.
#[derive(Clone, Debug)]
pub struct TunnelAttempt {
    /// The row of the attempt.
    pub create: Effect,
    /// The message to push into the agent's outbound channel, without waiting.
    pub message: ServerMessage,
    /// The payload to keep, should the attempt end in the dead-letter queue.
    pub payload: WebhookPayload,
}

/// The view of a [`TunnelAttempt`].
pub struct TunnelAttemptView {
    pub create: EffectView,
    pub message: ServerMessageView,
    pub payload: WebhookPayloadView,
}

impl View for TunnelAttempt {
    type V = TunnelAttemptView;

    open spec fn view(&self) -> TunnelAttemptView {
        TunnelAttemptView {
            create: self.create@,
            message: self.message@,
            payload: self.payload@,
        }
    }
}

/// A webhook attempt, ready to be made.
#[derive(Clone, Debug)]
pub struct WebhookAttempt {
    /// The row of the attempt.
    pub create: Effect,
    /// The payload to post, as JSON.
    pub payload: WebhookPayload,
}

/// The view of a [`WebhookAttempt`].
pub struct WebhookAttemptView {
    pub create: EffectView,
    pub payload: WebhookPayloadView,
}

impl View for WebhookAttempt {
    type V = WebhookAttemptView;

    open spec fn view(&self) -> WebhookAttemptView {
        WebhookAttemptView {
            create: self.create@,
            payload: self.payload@,
        }
    }
}

/// The result of a decision: the effects to apply, in order, and what comes
/// next.
#[derive(Clone, Debug)]
pub struct Step {
    pub effects: Vec<Effect>,
    pub next: Next,
}

/// The view of a [`Step`].
pub struct StepView {
    pub effects: Seq<EffectView>,
    pub next: NextView,
}

impl View for Step {
    type V = StepView;

    open spec fn view(&self) -> StepView {
        StepView {
            effects: self.effects.deep_view(),
            next: self.next@,
        }
    }
}

/// How a webhook request ended.
#[derive(Clone, Debug)]
pub enum HttpOutcome {
    /// The endpoint answered with this status.
    Response {
        status: u16,
    },
    /// No answer came: a timeout, a refused or a reset connection.
    TransportError {
        message: String,
    },
}

/// The view of a [`HttpOutcome`].
pub enum HttpOutcomeView {
    Response {
        status: u16,
    },
    TransportError {
        message: Seq<char>,
    },
}

impl View for HttpOutcome {
    type V = HttpOutcomeView;

    open spec fn view(&self) -> HttpOutcomeView {
        match self {
            HttpOutcome::Response { status } => HttpOutcomeView::Response {
                status: *status,
            },
            HttpOutcome::TransportError { message } => HttpOutcomeView::TransportError {
                message: message@,
            },
        }
    }
}

/// The first of the four rows that is missing, in the order in which they
/// are loaded: signal, subscription, channel, subscriber.
pub open spec fn missing_row(
    signal: Option<Signal>,
    subscription: Option<Subscription>,
    channel: Option<Channel>,
    subscriber: Option<Subscriber>,
) -> Option<JobError> {
    if signal is None {
        Some(JobError::SignalNotFound)
    } else if subscription is None {
        Some(JobError::SubscriptionNotFound)
    } else if channel is None {
        Some(JobError::ChannelNotFound)
    } else if subscriber is None {
        Some(JobError::SubscriberNotFound)
    } else {
        None
    }
}

/// The transport to try first: the tunnel whenever the subscriber's agent is
/// connected, else the subscription's webhook, else none.
pub open spec fn route_of(subscription: SubscriptionView, agent_online: bool) -> Option<RouteView> {
    if agent_online {
        Some(RouteView::Tunnel { allow_retry: subscription.webhook_id is None })
    } else {
        match subscription.webhook_id {
            Some(webhook_id) => Some(RouteView::Webhook { webhook_id }),
            None => None,
        }
    }
}

/// Chooses the transport of a job.
pub fn choose_route(subscription: &Subscription, agent_online: bool) -> (route: Result<
    Route,
    JobError,
>)
    ensures
        match route {
            Ok(r) => route_of(subscription@, agent_online) == Some(r@),
            Err(e) => route_of(subscription@, agent_online) is None && e
                == JobError::NoDeliveryMethod,
        },
{
    if agent_online {
        Ok(Route::Tunnel { allow_retry: subscription.webhook_id.is_none() })
    } else {
        match &subscription.webhook_id {
            Some(webhook_id) => Ok(Route::Webhook { webhook_id: webhook_id.clone() }),
            None => Err(JobError::NoDeliveryMethod),
        }
    }
}

/// Begins a job: given the rows that were loaded for it and whether the
/// subscriber's agent is connected, the context of the job and the transport
/// to try first.
///
/// A missing row ends the job with its error, the first missing one in the
/// order signal, subscription, channel, subscriber; so does the lack of any
/// transport.
pub fn handle_delivery_job(
    signal: Option<Signal>,
    subscription: Option<Subscription>,
    channel: Option<Channel>,
    subscriber: Option<Subscriber>,
    agent_online: bool,
) -> (begun: Result<(JobContext, Route), JobError>)
    ensures
        match begun {
            Ok((ctx, route)) => {
                &&& missing_row(signal, subscription, channel, subscriber) is None
                &&& ctx.signal == signal->0
                &&& ctx.subscription == subscription->0
                &&& ctx.channel == channel->0
                &&& ctx.subscriber == subscriber->0
                &&& route_of(ctx.subscription@, agent_online) == Some(route@)
            },
            Err(e) => match missing_row(signal, subscription, channel, subscriber) {
                Some(missing) => e == missing,
                None => route_of(subscription->0@, agent_online) is None && e
                    == JobError::NoDeliveryMethod,
            },
        },
{
    let signal = match signal {
        Some(s) => s,
        None => {
            return Err(JobError::SignalNotFound);
        },
    };
    let subscription = match subscription {
        Some(s) => s,
        None => {
            return Err(JobError::SubscriptionNotFound);
        },
    };
    let channel = match channel {
        Some(c) => c,
        None => {
            return Err(JobError::ChannelNotFound);
        },
    };
    let subscriber = match subscriber {
        Some(s) => s,
        None => {
            return Err(JobError::SubscriberNotFound);
        },
    };
    match choose_route(&subscription, agent_online) {
        Ok(route) => Ok((JobContext { signal, subscription, channel, subscriber }, route)),
        Err(e) => Err(e),
    }
}

/// The tunnel attempt of a job: a delivery row in agent mode without a
/// webhook, the signal message for the agent, and the payload of the
/// delivery.
pub open spec fn tunnel_attempt_of(
    ctx: JobContextView,
    attempt: i32,
    delivery_id: Seq<char>,
) -> TunnelAttemptView {
    TunnelAttemptView {
        create: EffectView::CreateDelivery {
            id: delivery_id,
            signal_id: ctx.signal.id,
            subscription_id: ctx.subscription.id,
            webhook_id: None,
            mode: DeliveryMode::Agent,
            attempt,
        },
        message: ServerMessageView::Signal {
            delivery_id,
            channel_id: ctx.channel.id,
            channel_slug: ctx.channel.slug,
            signal: tunnel_signal_of(ctx.signal),
        },
        payload: payload_of(delivery_id, ctx.subscription.webhook_id, ctx.channel, ctx.signal),
    }
}

/// Prepares the tunnel attempt of a job, under the delivery identifier
/// `delivery_id`.
pub fn deliver_via_tunnel(ctx: &JobContext, attempt: i32, delivery_id: &str) -> (out: TunnelAttempt)
    ensures
        out@ == tunnel_attempt_of(ctx@, attempt, delivery_id@),
{
    let webhook_id: Option<&str> = match &ctx.subscription.webhook_id {
        Some(id) => Some(id.as_str()),
        None => None,
    };
    TunnelAttempt {
        create: Effect::CreateDelivery {
            id: String::from_str(delivery_id),
            signal_id: ctx.signal.id.clone(),
            subscription_id: ctx.subscription.id.clone(),
            webhook_id: None,
            mode: DeliveryMode::Agent,
            attempt,
        },
        message: ServerMessage::Signal {
            delivery_id: String::from_str(delivery_id),
            channel_id: ctx.channel.id.clone(),
            channel_slug: ctx.channel.slug.clone(),
            signal: to_tunnel_signal(&ctx.signal),
        },
        payload: build_payload(delivery_id, webhook_id, &ctx.channel, &ctx.signal),
    }
}

/// The webhook attempt of a job: a delivery row in webhook mode, and the
/// payload to post.
pub open spec fn webhook_attempt_of(
    ctx: JobContextView,
    webhook: WebhookView,
    attempt: i32,
    delivery_id: Seq<char>,
) -> WebhookAttemptView {
    WebhookAttemptView {
        create: EffectView::CreateDelivery {
            id: delivery_id,
            signal_id: ctx.signal.id,
            subscription_id: ctx.subscription.id,
            webhook_id: Some(webhook.id),
            mode: DeliveryMode::Webhook,
            attempt,
        },
        payload: payload_of(delivery_id, Some(webhook.id), ctx.channel, ctx.signal),
    }
}

/// Prepares the webhook attempt of a job, under the delivery identifier
/// `delivery_id`.
pub fn deliver_via_webhook(
    ctx: &JobContext,
    webhook: &Webhook,
    attempt: i32,
    delivery_id: &str,
) -> (out: WebhookAttempt)
    ensures
        out@ == webhook_attempt_of(ctx@, webhook@, attempt, delivery_id@),
{
    WebhookAttempt {
        create: Effect::CreateDelivery {
            id: String::from_str(delivery_id),
            signal_id: ctx.signal.id.clone(),
            subscription_id: ctx.subscription.id.clone(),
            webhook_id: Some(webhook.id.clone()),
            mode: DeliveryMode::Webhook,
            attempt,
        },
        payload: build_payload(delivery_id, Some(webhook.id.as_str()), &ctx.channel, &ctx.signal),
    }
}

/// What follows a failed attempt that may be retried, as an effect: a job
/// for the next attempt, or the dead letter.
pub open spec fn followup_effect(
    signal: SignalView,
    subscription_id: Seq<char>,
    webhook_id: Option<Seq<char>>,
    delivery_id: Seq<char>,
    payload: Seq<char>,
    error: ErrorRecordView,
) -> EffectView {
    match followup_of(error.attempt, signal.urgency) {
        Followup::Requeue { attempt, lane, delay_secs } => EffectView::Enqueue {
            queue: lane.queue(),
            job: DeliveryJobView { signal_id: signal.id, subscription_id, webhook_id, attempt },
            delay_secs,
        },
        Followup::DeadLetter => EffectView::CreateDeadLetter {
            delivery_id,
            signal_id: signal.id,
            subscription_id,
            payload,
            error,
        },
    }
}

fn followup(
    signal: &Signal,
    subscription_id: &String,
    webhook_id: Option<&String>,
    delivery_id: &str,
    payload: &str,
    error: ErrorRecord,
) -> (effect: Effect)
    ensures
        effect@ == followup_effect(
            signal@,
            subscription_id@,
            match webhook_id {
                Some(id) => Some(id@),
                None => None,
            },
            delivery_id@,
            payload@,
            error@,
        ),
{
    match after_failure(error.attempt, signal.urgency) {
        Followup::Requeue { attempt, lane, delay_secs } => Effect::Enqueue {
            queue: String::from_str(lane.queue_name()),
            job: DeliveryJob {
                signal_id: signal.id.clone(),
                subscription_id: subscription_id.clone(),
                webhook_id: match webhook_id {
                    Some(id) => Some(id.clone()),
                    None => None,
                },
                attempt,
            },
            delay_secs,
        },
        Followup::DeadLetter => Effect::CreateDeadLetter {
            delivery_id: String::from_str(delivery_id),
            signal_id: signal.id.clone(),
            subscription_id: subscription_id.clone(),
            payload: String::from_str(payload),
            error,
        },
    }
}

/// The effects of a failed tunnel attempt: the delivery is marked failed
/// with the error, the signal counts one more failure, and, only if the
/// subscription has no webhook to fall back to, the retry or the dead letter
/// follows.
pub open spec fn tunnel_failure_effects(
    ctx: JobContextView,
    delivery_id: Seq<char>,
    attempt: i32,
    error_message: Seq<char>,
    payload: Seq<char>,
) -> Seq<EffectView> {
    let recorded = seq![
        EffectView::UpdateDelivery {
            id: delivery_id,
            status: DeliveryStatus::Failed,
            status_code: None,
            error_message: Some(error_message),
            latency_ms: None,
        },
        EffectView::IncrementSignalCounts {
            signal_id: ctx.signal.id,
            delivered: 0,
            failed: 1,
            total: 1,
        },
    ];
    if ctx.subscription.webhook_id is None {
        recorded.push(
            followup_effect(
                ctx.signal,
                ctx.subscription.id,
                None,
                delivery_id,
                payload,
                ErrorRecordView { attempt, error: error_message, status_code: None },
            ),
        )
    } else {
        recorded
    }
}

/// Records a failed tunnel attempt and decides what follows it. `payload`
/// is the JSON text of the attempt's payload.
pub fn handle_tunnel_failure(
    ctx: &JobContext,
    delivery_id: &str,
    attempt: i32,
    error_message: &str,
    payload: &str,
) -> (effects: Vec<Effect>)
    ensures
        effects.deep_view() == tunnel_failure_effects(
            ctx@,
            delivery_id@,
            attempt,
            error_message@,
            payload@,
        ),
{
    let mut effects: Vec<Effect> = Vec::new();
    effects.push(
        Effect::UpdateDelivery {
            id: String::from_str(delivery_id),
            status: DeliveryStatus::Failed,
            status_code: None,
            error_message: Some(String::from_str(error_message)),
            latency_ms: None,
        },
    );
    effects.push(
        Effect::IncrementSignalCounts {
            signal_id: ctx.signal.id.clone(),
            delivered: 0,
            failed: 1,
            total: 1,
        },
    );
    if ctx.subscription.webhook_id.is_none() {
        let error = ErrorRecord {
            attempt,
            error: String::from_str(error_message),
            status_code: None,
        };
        effects.push(
            followup(&ctx.signal, &ctx.subscription.id, None, delivery_id, payload, error),
        );
    }
    assert(effects.deep_view() =~= tunnel_failure_effects(
        ctx@,
        delivery_id@,
        attempt,
        error_message@,
        payload@,
    ));
    effects
}

/// The step after a tunnel attempt. If the message went into the agent's
/// channel, the delivery is a success and the job is done. If it did not,
/// the failure is recorded, and the job goes on to the webhook where the
/// subscription has one.
pub open spec fn tunnel_step(
    ctx: JobContextView,
    delivery_id: Seq<char>,
    attempt: i32,
    sent: Result<(), Seq<char>>,
    payload: Seq<char>,
) -> StepView {
    match sent {
        Ok(_) => StepView {
            effects: seq![
                EffectView::UpdateDelivery {
                    id: delivery_id,
                    status: DeliveryStatus::Success,
                    status_code: None,
                    error_message: None,
                    latency_ms: None,
                },
                EffectView::IncrementSignalCounts {
                    signal_id: ctx.signal.id,
                    delivered: 1,
                    failed: 0,
                    total: 1,
                },
            ],
            next: NextView::Done { delivered: true },
        },
        Err(error_message) => StepView {
            effects: tunnel_failure_effects(ctx, delivery_id, attempt, error_message, payload),
            next: match ctx.subscription.webhook_id {
                Some(webhook_id) => NextView::TryWebhook { webhook_id },
                None => NextView::Done { delivered: false },
            },
        },
    }
}

/// Decides the step after a tunnel attempt. `sent` says whether the message
/// went into the agent's outbound channel, with the error if it did not;
/// `payload` is the JSON text of the attempt's payload.
pub fn complete_tunnel_delivery(
    ctx: &JobContext,
    delivery_id: &str,
    attempt: i32,
    sent: Result<(), String>,
    payload: &str,
) -> (step: Step)
    ensures
        step@ == tunnel_step(
            ctx@,
            delivery_id@,
            attempt,
            match sent {
                Ok(_) => Ok(()),
                Err(m) => Err(m@),
            },
            payload@,
        ),
{
    match sent {
        Ok(_) => {
            let mut effects: Vec<Effect> = Vec::new();
            effects.push(
                Effect::UpdateDelivery {
                    id: String::from_str(delivery_id),
                    status: DeliveryStatus::Success,
                    status_code: None,
                    error_message: None,
                    latency_ms: None,
                },
            );
            effects.push(
                Effect::IncrementSignalCounts {
                    signal_id: ctx.signal.id.clone(),
                    delivered: 1,
                    failed: 0,
                    total: 1,
                },
            );
            assert(effects.deep_view() =~= tunnel_step(
                ctx@,
                delivery_id@,
                attempt,
                Ok(()),
                payload@,
            ).effects);
            Step { effects, next: Next::Done { delivered: true } }
        },
        Err(error_message) => {
            let effects = handle_tunnel_failure(
                ctx,
                delivery_id,
                attempt,
                error_message.as_str(),
                payload,
            );
            let next = match &ctx.subscription.webhook_id {
                Some(webhook_id) => Next::TryWebhook { webhook_id: webhook_id.clone() },
                None => Next::Done { delivered: false },
            };
            Step { effects, next }
        },
    }
}

/// A status of the 2xx class.
pub open spec fn is_success_status(status: u16) -> bool {
    200 <= status <= 299
}

/// The error text for an answer that is no success: `HTTP` and the status.
pub open spec fn http_error_text(status: u16) -> Seq<char> {
    "HTTP "@ + decimal(status as int)
}

/// The effects of a failed webhook attempt: the delivery is marked failed
/// with what was captured, the signal counts one more failure, the webhook
/// counts one more failure, and the retry or the dead letter follows.
pub open spec fn webhook_failure_effects(
    ctx: JobContextView,
    webhook: WebhookView,
    delivery_id: Seq<char>,
    attempt: i32,
    status_code: Option<i32>,
    error_message: Seq<char>,
    latency_ms: i32,
    now: Timestamp,
    payload: Seq<char>,
) -> Seq<EffectView> {
    seq![
        EffectView::UpdateDelivery {
            id: delivery_id,
            status: DeliveryStatus::Failed,
            status_code,
            error_message: Some(error_message),
            latency_ms: Some(latency_ms),
        },
        EffectView::IncrementSignalCounts {
            signal_id: ctx.signal.id,
            delivered: 0,
            failed: 1,
            total: 1,
        },
        EffectView::WebhookFailed { id: webhook.id, at: now },
        followup_effect(
            ctx.signal,
            ctx.subscription.id,
            Some(webhook.id),
            delivery_id,
            payload,
            ErrorRecordView { attempt, error: error_message, status_code },
        ),
    ]
}

/// Records a failed webhook attempt and decides what follows it. `payload`
/// is the JSON text that was posted.
pub fn handle_webhook_failure(
    ctx: &JobContext,
    webhook: &Webhook,
    delivery_id: &str,
    attempt: i32,
    status_code: Option<i32>,
    error_message: &str,
    latency_ms: i32,
    now: Timestamp,
    payload: &str,
) -> (effects: Vec<Effect>)
    ensures
        effects.deep_view() == webhook_failure_effects(
            ctx@,
            webhook@,
            delivery_id@,
            attempt,
            status_code,
            error_message@,
            latency_ms,
            now,
            payload@,
        ),
{
    let mut effects: Vec<Effect> = Vec::new();
    effects.push(
        Effect::UpdateDelivery {
            id: String::from_str(delivery_id),
            status: DeliveryStatus::Failed,
            status_code,
            error_message: Some(String::from_str(error_message)),
            latency_ms: Some(latency_ms),
        },
    );
    effects.push(
        Effect::IncrementSignalCounts {
            signal_id: ctx.signal.id.clone(),
            delivered: 0,
            failed: 1,
            total: 1,
        },
    );
    effects.push(Effect::WebhookFailed { id: webhook.id.clone(), at: now });
    let error = ErrorRecord { attempt, error: String::from_str(error_message), status_code };
    effects.push(
        followup(
            &ctx.signal,
            &ctx.subscription.id,
            Some(&webhook.id),
            delivery_id,
            payload,
            error,
        ),
    );
    assert(effects.deep_view() =~= webhook_failure_effects(
        ctx@,
        webhook@,
        delivery_id@,
        attempt,
        status_code,
        error_message@,
        latency_ms,
        now,
        payload@,
    ));
    effects
}

/// The step after a webhook attempt. An answer of the 2xx class is a
/// success: the delivery is marked so with the status and the latency, the
/// signal counts one more delivery, and the webhook's failures are reset.
/// Any other answer fails with its status and the text `HTTP <status>`; no
/// answer at all fails without a status, with the transport's own message.
pub open spec fn webhook_step(
    ctx: JobContextView,
    webhook: WebhookView,
    delivery_id: Seq<char>,
    attempt: i32,
    outcome: HttpOutcomeView,
    latency_ms: i32,
    now: Timestamp,
    payload: Seq<char>,
) -> StepView {
    match outcome {
        HttpOutcomeView::Response { status } => if is_success_status(status) {
            StepView {
                effects: seq![
                    EffectView::UpdateDelivery {
                        id: delivery_id,
                        status: DeliveryStatus::Success,
                        status_code: Some(status as i32),
                        error_message: None,
                        latency_ms: Some(latency_ms),
                    },
                    EffectView::IncrementSignalCounts {
                        signal_id: ctx.signal.id,
                        delivered: 1,
                        failed: 0,
                        total: 1,
                    },
                    EffectView::WebhookSucceeded { id: webhook.id, at: now },
                ],
                next: NextView::Done { delivered: true },
            }
        } else {
            StepView {
                effects: webhook_failure_effects(
                    ctx,
                    webhook,
                    delivery_id,
                    attempt,
                    Some(status as i32),
                    http_error_text(status),
                    latency_ms,
                    now,
                    payload,
                ),
                next: NextView::Done { delivered: false },
            }
        },
        HttpOutcomeView::TransportError { message } => StepView {
            effects: webhook_failure_effects(
                ctx,
                webhook,
                delivery_id,
                attempt,
                None,
                message,
                latency_ms,
                now,
                payload,
            ),
            next: NextView::Done { delivered: false },
        },
    }
}

/// Decides the step after a webhook attempt. `latency_ms` is the time the
/// request took, `now` the time at which it ended, `payload` the JSON text
/// that was posted.
pub fn complete_webhook_delivery(
    ctx: &JobContext,
    webhook: &Webhook,
    delivery_id: &str,
    attempt: i32,
    outcome: HttpOutcome,
    latency_ms: i32,
    now: Timestamp,
    payload: &str,
) -> (step: Step)
    ensures
        step@ == webhook_step(
            ctx@,
            webhook@,
            delivery_id@,
            attempt,
            outcome@,
            latency_ms,
            now,
            payload@,
        ),
{
    match outcome {
        HttpOutcome::Response { status } => {
            let status_code: i32 = status as i32;
            if 200 <= status && status <= 299 {
                let mut effects: Vec<Effect> = Vec::new();
                effects.push(
                    Effect::UpdateDelivery {
                        id: String::from_str(delivery_id),
                        status: DeliveryStatus::Success,
                        status_code: Some(status_code),
                        error_message: None,
                        latency_ms: Some(latency_ms),
                    },
                );
                effects.push(
                    Effect::IncrementSignalCounts {
                        signal_id: ctx.signal.id.clone(),
                        delivered: 1,
                        failed: 0,
                        total: 1,
                    },
                );
                effects.push(Effect::WebhookSucceeded { id: webhook.id.clone(), at: now });
                assert(effects.deep_view() =~= webhook_step(
                    ctx@,
                    webhook@,
                    delivery_id@,
                    attempt,
                    outcome@,
                    latency_ms,
                    now,
                    payload@,
                ).effects);
                Step { effects, next: Next::Done { delivered: true } }
            } else {
                let mut error_message = String::from_str("HTTP ");
                push_decimal(&mut error_message, status as i64);
                let effects = handle_webhook_failure(
                    ctx,
                    webhook,
                    delivery_id,
                    attempt,
                    Some(status_code),
                    error_message.as_str(),
                    latency_ms,
                    now,
                    payload,
                );
                Step { effects, next: Next::Done { delivered: false } }
            }
        },
        HttpOutcome::TransportError { message } => {
            let effects = handle_webhook_failure(
                ctx,
                webhook,
                delivery_id,
                attempt,
                None,
                message.as_str(),
                latency_ms,
                now,
                payload,
            );
            Step { effects, next: Next::Done { delivered: false } }
        },
    }
}

/// A failed webhook attempt is followed by exactly one of two things: a job
/// for the next attempt, as long as the attempt was not the last, or the
/// dead letter, once it was. Nothing else in its effects touches the queue
/// or the dead-letter queue.
pub proof fn law_failure_is_followed_once(
    ctx: JobContextView,
    webhook: WebhookView,
    delivery_id: Seq<char>,
    attempt: i32,
    status_code: Option<i32>,
    error_message: Seq<char>,
    latency_ms: i32,
    now: Timestamp,
    payload: Seq<char>,
)
    ensures
        ({
            let effects = webhook_failure_effects(
                ctx,
                webhook,
                delivery_id,
                attempt,
                status_code,
                error_message,
                latency_ms,
                now,
                payload,
            );
            &&& effects.len() == 4
            &&& forall|i: int|
                0 <= i < 3 ==> !((#[trigger] effects[i]) is Enqueue) && !(effects[i]
                    is CreateDeadLetter)
            &&& attempt >= LAST_ATTEMPT ==> effects[3] == (EffectView::CreateDeadLetter {
                delivery_id,
                signal_id: ctx.signal.id,
                subscription_id: ctx.subscription.id,
                payload,
                error: ErrorRecordView { attempt, error: error_message, status_code },
            })
            &&& attempt < LAST_ATTEMPT ==> effects[3] == (EffectView::Enqueue {
                queue: Lane::of(ctx.signal.urgency).queue(),
                job: DeliveryJobView {
                    signal_id: ctx.signal.id,
                    subscription_id: ctx.subscription.id,
                    webhook_id: Some(webhook.id),
                    attempt: (attempt + 1) as i32,
                },
                delay_secs: requeue_delay(attempt + 1) as u64,
            })
        }),
{
}

/// Every completed attempt adds exactly one to a signal's total, and one to
/// either its delivered or its failed count: whatever the outcome of a
/// tunnel or webhook attempt, its step holds one counter effect, and that
/// effect is balanced.
pub open spec fn counts_once_balanced(effects: Seq<EffectView>, signal_id: Seq<char>) -> bool {
    &&& effects.len() >= 2
    &&& effects[1] matches EffectView::IncrementSignalCounts { signal_id: id, delivered, failed, total }
    &&& id == signal_id
    &&& total == 1
    &&& delivered + failed == total
    &&& 0 <= delivered && 0 <= failed
    &&& forall|i: int| 0 <= i < effects.len() && i != 1 ==> !(
        #[trigger] effects[i] is IncrementSignalCounts)
}

/// The law of balanced counting, for both transports.
pub proof fn law_attempt_counts_once(
    ctx: JobContextView,
    webhook: WebhookView,
    delivery_id: Seq<char>,
    attempt: i32,
    sent: Result<(), Seq<char>>,
    outcome: HttpOutcomeView,
    latency_ms: i32,
    now: Timestamp,
    payload: Seq<char>,
)
    ensures
        counts_once_balanced(
            tunnel_step(ctx, delivery_id, attempt, sent, payload).effects,
            ctx.signal.id,
        ),
        counts_once_balanced(
            webhook_step(
                ctx,
                webhook,
                delivery_id,
                attempt,
                outcome,
                latency_ms,
                now,
                payload,
            ).effects,
            ctx.signal.id,
        ),
{
}

} // verus!
