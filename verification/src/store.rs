//! The persistence contract: what each write does to the row it touches,
//! and a store held in memory that honours it.
//!
//! The delivery engine asks for writes as [`Effect`]s; [`run_effects`]
//! applies them to a [`Store`] and a queue. A deployment applies the same
//! effects to its database; the functions here say what they mean.

use crate::delivery::law_attempt_counts_once;
use crate::delivery::tunnel_step;
use crate::delivery::webhook_step;
use crate::delivery::Effect;
use crate::delivery::HttpOutcomeView;
use crate::delivery::JobContextView;
use crate::delivery::EffectView;
use crate::ids::is_id_of_kind;
use crate::ids::new_id;
use crate::ids::DEAD_LETTER_KIND;
use crate::policy::QUEUE_NORMAL;
use crate::queue::PostgresStorage;
use crate::queue::QueuedJobView;
use crate::text::str_eq;
use crate::types::ApiKey;
use crate::types::ApiKeyView;
use crate::types::Channel;
use crate::types::ChannelView;
use crate::types::DeadLetterEntry;
use crate::types::DeadLetterEntryView;
use crate::types::Delivery;
use crate::types::DeliveryJob;
use crate::types::DeliveryJobView;
use crate::types::DeliveryMode;
use crate::types::DeliveryStatus;
use crate::types::DeliveryView;
use crate::types::ErrorRecord;
use crate::types::Signal;
use crate::types::SignalView;
use crate::types::Subscriber;
use crate::types::SubscriberView;
use crate::types::Subscription;
use crate::types::SubscriptionStatus;
use crate::types::SubscriptionView;
use crate::types::Timestamp;
use crate::types::Webhook;
use crate::types::WebhookView;
use vstd::prelude::*;
use vstd::string::StringExecFns;

verus! {

/// Why a write was refused. A refused write changes nothing.
#[derive(Clone, Copy, Debug, PartialEq, Eq, Structural)]
pub enum StoreError {
    SignalNotFound,
    WebhookNotFound,
    DeliveryNotFound,
    /// A counter would leave the range of its column.
    CounterOverflow,
}

/// A sum of a counter and a delta fits the counter's column.
pub open spec fn fits(counter: i32, delta: i32) -> bool {
    i32::MIN <= counter + delta <= i32::MAX
}

fn add_counter(counter: i32, delta: i32) -> (sum: Option<i32>)
    ensures
        match sum {
            Some(s) => fits(counter, delta) && s == counter + delta,
            None => !fits(counter, delta),
        },
{
    let wide: i64 = counter as i64 + delta as i64;
    if wide < -2147483648 || wide > 2147483647 {
        None
    } else {
        Some(wide as i32)
    }
}

impl SignalView {
    /// The counters agree: every completed attempt was either delivered or
    /// failed.
    pub open spec fn balanced(self) -> bool {
        self.delivery_count == self.delivered_count + self.failed_count
    }

    /// The deltas can be added to the counters.
    pub open spec fn takes(self, delivered: i32, failed: i32, total: i32) -> bool {
        &&& fits(self.delivered_count, delivered)
        &&& fits(self.failed_count, failed)
        &&& fits(self.delivery_count, total)
    }

    /// The signal with the deltas added to its counters.
    pub open spec fn counted(self, delivered: i32, failed: i32, total: i32) -> SignalView {
        SignalView {
            delivered_count: (self.delivered_count + delivered) as i32,
            failed_count: (self.failed_count + failed) as i32,
            delivery_count: (self.delivery_count + total) as i32,
            ..self
        }
    }
}

impl Signal {
    /// Adds the deltas to the delivery counters, all three or none.
    pub fn increment_counts(&mut self, delivered: i32, failed: i32, total: i32) -> (done: Result<
        (),
        StoreError,
    >)
        ensures
            match done {
                Ok(_) => old(self)@.takes(delivered, failed, total) && final(self)@ == old(
                    self,
                )@.counted(delivered, failed, total),
                Err(e) => !old(self)@.takes(delivered, failed, total) && e
                    == StoreError::CounterOverflow && *final(self) == *old(self),
            },
    {
        match (
            add_counter(self.delivered_count, delivered),
            add_counter(self.failed_count, failed),
            add_counter(self.delivery_count, total),
        ) {
            (Some(d), Some(f), Some(t)) => {
                self.delivered_count = d;
                self.failed_count = f;
                self.delivery_count = t;
                Ok(())
            },
            _ => Err(StoreError::CounterOverflow),
        }
    }
}

/// One completed attempt, as the deltas it adds to a signal's counters.
pub struct Counted {
    pub delivered: i32,
    pub failed: i32,
    pub total: i32,
}

impl Counted {
    /// The deltas of a completed attempt: the total grows by what the
    /// delivered and failed counts grow together.
    pub open spec fn balanced(self) -> bool {
        self.total == self.delivered + self.failed
    }
}

/// The counters of a signal after the attempts in `attempts` were counted,
/// in that order, as mathematical integers: `(delivered, failed, total)`.
pub open spec fn counters_after(start: (int, int, int), attempts: Seq<Counted>) -> (int, int, int)
    decreases attempts.len(),
{
    if attempts.len() == 0 {
        start
    } else {
        let before = counters_after(start, attempts.drop_last());
        let a = attempts.last();
        (before.0 + a.delivered, before.1 + a.failed, before.2 + a.total)
    }
}

/// Counting keeps the counters consistent: if a signal's total equals its
/// delivered plus its failed count, it still does after any number of
/// completed attempts, counted in any order.
pub proof fn law_counters_stay_balanced(start: (int, int, int), attempts: Seq<Counted>)
    requires
        start.2 == start.0 + start.1,
        forall|i: int| 0 <= i < attempts.len() ==> (#[trigger] attempts[i]).balanced(),
    ensures
        counters_after(start, attempts).2 == counters_after(start, attempts).0 + counters_after(
            start,
            attempts,
        ).1,
    decreases attempts.len(),
{
    if attempts.len() > 0 {
        let front = attempts.drop_last();
        assert forall|i: int| 0 <= i < front.len() implies (#[trigger] front[i]).balanced() by {
            assert(front[i] == attempts[i]);
        }
        law_counters_stay_balanced(start, front);
        assert(attempts.last() == attempts[attempts.len() - 1]);
    }
}

/// The order in which completed attempts are counted does not matter: the
/// counters after two attempts are the same either way round.
pub proof fn law_counting_commutes(start: (int, int, int), a: Counted, b: Counted)
    ensures
        counters_after(start, seq![a, b]) == counters_after(start, seq![b, a]),
{
    reveal_with_fuel(counters_after, 3);
    let ab = seq![a, b];
    let ba = seq![b, a];
    assert(ab.drop_last() =~= seq![a]);
    assert(ba.drop_last() =~= seq![b]);
    assert(seq![a].drop_last() =~= Seq::<Counted>::empty());
    assert(seq![b].drop_last() =~= Seq::<Counted>::empty());
    assert(counters_after(start, Seq::<Counted>::empty()) == start);
    assert(seq![a].last() == a && seq![b].last() == b);
    assert(ab.last() == b && ba.last() == a);
}

/// One write of a balanced attempt keeps a signal row balanced.
pub proof fn law_write_keeps_balance(signal: SignalView, delivered: i32, failed: i32, total: i32)
    requires
        signal.balanced(),
        total == delivered + failed,
        signal.takes(delivered, failed, total),
    ensures
        signal.counted(delivered, failed, total).balanced(),
{
}

impl WebhookView {
    /// The webhook after a successful delivery at `at`: its failure count
    /// is zero.
    pub open spec fn succeeded(self, at: Timestamp) -> WebhookView {
        WebhookView { failure_count: 0, last_success_at: Some(at), updated_at: at, ..self }
    }

    /// The webhook after a failed delivery at `at`: its failure count is one
    /// higher.
    pub open spec fn failed(self, at: Timestamp) -> WebhookView {
        WebhookView {
            failure_count: (self.failure_count + 1) as i32,
            last_failure_at: Some(at),
            updated_at: at,
            ..self
        }
    }

    /// The webhook after `k` failed deliveries at `at`.
    pub open spec fn failed_times(self, k: nat, at: Timestamp) -> WebhookView
        decreases k,
    {
        if k == 0 {
            self
        } else {
            self.failed_times((k - 1) as nat, at).failed(at)
        }
    }
}

impl Webhook {
    /// Records a successful delivery: the failure count goes back to zero.
    pub fn update_success(&mut self, at: Timestamp)
        ensures
            final(self)@ == old(self)@.succeeded(at),
    {
        self.failure_count = 0;
        self.last_success_at = Some(at);
        self.updated_at = at;
    }

    /// Records a failed delivery: the failure count goes up by one.
    pub fn update_failure(&mut self, at: Timestamp) -> (done: Result<(), StoreError>)
        ensures
            match done {
                Ok(_) => old(self).failure_count < i32::MAX && final(self)@ == old(self)@.failed(
                    at,
                ),
                Err(e) => old(self).failure_count == i32::MAX && e == StoreError::CounterOverflow
                    && *final(self) == *old(self),
            },
    {
        if self.failure_count == i32::MAX {
            return Err(StoreError::CounterOverflow);
        }
        self.failure_count = self.failure_count + 1;
        self.last_failure_at = Some(at);
        self.updated_at = at;
        Ok(())
    }
}

/// A success resets a webhook's failures: after any number of failed
/// deliveries and then one success, the failure count is zero.
pub proof fn law_success_resets_failures(
    webhook: WebhookView,
    k: nat,
    failed_at: Timestamp,
    succeeded_at: Timestamp,
)
    ensures
        webhook.failed_times(k, failed_at).succeeded(succeeded_at).failure_count == 0,
        k == 0 ==> webhook.failed_times(k, failed_at) == webhook,
        webhook.failure_count + k <= i32::MAX ==> webhook.failed_times(k, failed_at).failure_count
            == webhook.failure_count + k,
    decreases k,
{
    if k > 0 {
        law_success_resets_failures(webhook, (k - 1) as nat, failed_at, succeeded_at);
    }
}

impl ChannelView {
    /// The channel with `delta` added to its signal count.
    pub open spec fn with_signals(self, delta: i32) -> ChannelView {
        ChannelView { signal_count: (self.signal_count + delta) as i32, ..self }
    }

    /// The channel with `delta` added to its subscriber count.
    pub open spec fn with_subscribers(self, delta: i32) -> ChannelView {
        ChannelView { subscriber_count: (self.subscriber_count + delta) as i32, ..self }
    }
}

impl Channel {
    /// Adds `delta` to the signal count of the channel.
    pub fn increment_signal_count(&mut self, delta: i32) -> (done: Result<(), StoreError>)
        ensures
            match done {
                Ok(_) => fits(old(self).signal_count, delta) && final(self)@ == old(
                    self,
                )@.with_signals(delta),
                Err(e) => !fits(old(self).signal_count, delta) && e == StoreError::CounterOverflow
                    && *final(self) == *old(self),
            },
    {
        match add_counter(self.signal_count, delta) {
            Some(n) => {
                self.signal_count = n;
                Ok(())
            },
            None => Err(StoreError::CounterOverflow),
        }
    }

    /// Adds `delta` to the subscriber count of the channel.
    pub fn increment_subscriber_count(&mut self, delta: i32) -> (done: Result<(), StoreError>)
        ensures
            match done {
                Ok(_) => fits(old(self).subscriber_count, delta) && final(self)@ == old(
                    self,
                )@.with_subscribers(delta),
                Err(e) => !fits(old(self).subscriber_count, delta) && e
                    == StoreError::CounterOverflow && *final(self) == *old(self),
            },
    {
        match add_counter(self.subscriber_count, delta) {
            Some(n) => {
                self.subscriber_count = n;
                Ok(())
            },
            None => Err(StoreError::CounterOverflow),
        }
    }
}

/// The active subscriptions of a channel among `subscriptions`, in their
/// order.
pub open spec fn active_on_channel(
    subscriptions: Seq<SubscriptionView>,
    channel_id: Seq<char>,
) -> Seq<SubscriptionView>
    decreases subscriptions.len(),
{
    if subscriptions.len() == 0 {
        Seq::empty()
    } else {
        let before = active_on_channel(subscriptions.drop_last(), channel_id);
        let last = subscriptions.last();
        if last.status == SubscriptionStatus::Active && last.channel_id == channel_id {
            before.push(last)
        } else {
            before
        }
    }
}

/// Lists the active subscriptions of a channel.
pub fn list_active_by_channel<'a>(subscriptions: &'a Vec<Subscription>, channel_id: &str) -> (active:
    Vec<&'a Subscription>)
    ensures
        active.deep_view() == active_on_channel(subscriptions.deep_view(), channel_id@),
{
    let mut active: Vec<&'a Subscription> = Vec::new();
    let ghost all = subscriptions.deep_view();
    let mut i: usize = 0;
    assert(all.take(0) =~= Seq::<SubscriptionView>::empty());
    while i < subscriptions.len()
        invariant
            i <= subscriptions@.len(),
            all == subscriptions.deep_view(),
            active.deep_view() =~= active_on_channel(all.take(i as int), channel_id@),
        decreases subscriptions@.len() - i,
    {
        let subscription = &subscriptions[i];
        proof {
            assert(all.take(i + 1).drop_last() =~= all.take(i as int));
            assert(all.take(i + 1).last() == subscription@);
        }
        let is_active = match subscription.status {
            SubscriptionStatus::Active => true,
            _ => false,
        };
        if is_active && str_eq(subscription.channel_id.as_str(), channel_id) {
            let ghost before = active.deep_view();
            active.push(subscription);
            assert(active.deep_view() =~= before.push(subscription@));
        }
        i = i + 1;
    }
    assert(all.take(i as int) =~= all);
    active
}

/// The entries among `entries` that are not resolved, in their order.
pub open spec fn unresolved(entries: Seq<DeadLetterEntryView>) -> Seq<DeadLetterEntryView>
    decreases entries.len(),
{
    if entries.len() == 0 {
        Seq::empty()
    } else {
        let before = unresolved(entries.drop_last());
        if entries.last().resolved_at is None {
            before.push(entries.last())
        } else {
            before
        }
    }
}

/// Lists the dead letters that are not resolved.
pub fn list_unresolved<'a>(entries: &'a Vec<DeadLetterEntry>) -> (open: Vec<&'a DeadLetterEntry>)
    ensures
        open.deep_view() == unresolved(entries.deep_view()),
{
    let mut open: Vec<&'a DeadLetterEntry> = Vec::new();
    let ghost all = entries.deep_view();
    let mut i: usize = 0;
    assert(all.take(0) =~= Seq::<DeadLetterEntryView>::empty());
    while i < entries.len()
        invariant
            i <= entries@.len(),
            all == entries.deep_view(),
            open.deep_view() =~= unresolved(all.take(i as int)),
        decreases entries@.len() - i,
    {
        let entry = &entries[i];
        proof {
            assert(all.take(i + 1).drop_last() =~= all.take(i as int));
            assert(all.take(i + 1).last() == entry@);
        }
        if entry.resolved_at.is_none() {
            let ghost before = open.deep_view();
            open.push(entry);
            assert(open.deep_view() =~= before.push(entry@));
        }
        i = i + 1;
    }
    assert(all.take(i as int) =~= all);
    open
}

impl ApiKey {
    /// Records that the key was used at `now`.
    pub fn touch_last_used(&mut self, now: Timestamp)
        ensures
            final(self)@ == (ApiKeyView { last_used_at: Some(now), ..old(self)@ }),
    {
        self.last_used_at = Some(now);
    }
}

impl Subscriber {
    /// Records that the subscriber's agent connected at `now`.
    pub fn agent_connected(&mut self, now: Timestamp)
        ensures
            final(self)@ == (SubscriberView {
                agent_last_connected_at: Some(now),
                updated_at: now,
                ..old(self)@
            }),
    {
        self.agent_last_connected_at = Some(now);
        self.updated_at = now;
    }
}

/// A new delivery row: pending, with no outcome yet.
pub open spec fn pending_delivery(
    id: Seq<char>,
    signal_id: Seq<char>,
    subscription_id: Seq<char>,
    webhook_id: Option<Seq<char>>,
    mode: DeliveryMode,
    attempt: i32,
    now: Timestamp,
) -> DeliveryView {
    DeliveryView {
        id,
        signal_id,
        subscription_id,
        webhook_id,
        delivery_mode: mode,
        attempt,
        status: DeliveryStatus::Pending,
        status_code: None,
        error_message: None,
        latency_ms: None,
        created_at: now,
        updated_at: now,
    }
}

impl DeliveryView {
    /// The delivery with its outcome set. The signal, the subscription, the
    /// attempt and the mode of a delivery never change.
    pub open spec fn completed(
        self,
        status: DeliveryStatus,
        status_code: Option<i32>,
        error_message: Option<Seq<char>>,
        latency_ms: Option<i32>,
        now: Timestamp,
    ) -> DeliveryView {
        DeliveryView { status, status_code, error_message, latency_ms, updated_at: now, ..self }
    }
}

impl Delivery {
    /// Sets the outcome of the delivery.
    pub fn update_status(
        &mut self,
        status: DeliveryStatus,
        status_code: Option<i32>,
        error_message: Option<String>,
        latency_ms: Option<i32>,
        now: Timestamp,
    )
        ensures
            final(self)@ == old(self)@.completed(
                status,
                status_code,
                error_message.deep_view(),
                latency_ms,
                now,
            ),
    {
        self.status = status;
        self.status_code = status_code;
        self.error_message = error_message;
        self.latency_ms = latency_ms;
        self.updated_at = now;
    }
}

/// The position of the first signal with the identifier `id`, or the number
/// of rows if there is none.
pub open spec fn signal_position(rows: Seq<SignalView>, id: Seq<char>) -> int
    decreases rows.len(),
{
    if rows.len() == 0 {
        0
    } else if rows[0].id == id {
        0
    } else {
        1 + signal_position(rows.drop_first(), id)
    }
}

/// `signal_position` is the least position whose row has the identifier.
proof fn lemma_signal_position(rows: Seq<SignalView>, id: Seq<char>, at: int)
    requires
        0 <= at <= rows.len(),
        forall|i: int| 0 <= i < at ==> (#[trigger] rows[i]).id != id,
        at < rows.len() ==> rows[at].id == id,
    ensures
        signal_position(rows, id) == at,
    decreases rows.len(),
{
    if rows.len() > 0 && rows[0].id != id {
        let rest = rows.drop_first();
        assert forall|i: int| 0 <= i < at - 1 implies (#[trigger] rest[i]).id != id by {
            assert(rest[i] == rows[i + 1]);
        }
        lemma_signal_position(rest, id, at - 1);
    }
}

fn find_signal(rows: &Vec<Signal>, id: &str) -> (at: usize)
    ensures
        at == signal_position(rows.deep_view(), id@),
        at <= rows@.len(),
{
    let mut at: usize = 0;
    while at < rows.len() && !str_eq(rows[at].id.as_str(), id)
        invariant
            at <= rows@.len(),
            forall|i: int| 0 <= i < at ==> (#[trigger] rows.deep_view()[i]).id != id@,
        decreases rows@.len() - at,
    {
        at = at + 1;
    }
    proof {
        lemma_signal_position(rows.deep_view(), id@, at as int);
    }
    at
}

/// The position of the first webhook with the identifier `id`, or the number
/// of rows if there is none.
pub open spec fn webhook_position(rows: Seq<WebhookView>, id: Seq<char>) -> int
    decreases rows.len(),
{
    if rows.len() == 0 {
        0
    } else if rows[0].id == id {
        0
    } else {
        1 + webhook_position(rows.drop_first(), id)
    }
}

/// `webhook_position` is the least position whose row has the identifier.
proof fn lemma_webhook_position(rows: Seq<WebhookView>, id: Seq<char>, at: int)
    requires
        0 <= at <= rows.len(),
        forall|i: int| 0 <= i < at ==> (#[trigger] rows[i]).id != id,
        at < rows.len() ==> rows[at].id == id,
    ensures
        webhook_position(rows, id) == at,
    decreases rows.len(),
{
    if rows.len() > 0 && rows[0].id != id {
        let rest = rows.drop_first();
        assert forall|i: int| 0 <= i < at - 1 implies (#[trigger] rest[i]).id != id by {
            assert(rest[i] == rows[i + 1]);
        }
        lemma_webhook_position(rest, id, at - 1);
    }
}

fn find_webhook(rows: &Vec<Webhook>, id: &str) -> (at: usize)
    ensures
        at == webhook_position(rows.deep_view(), id@),
        at <= rows@.len(),
{
    let mut at: usize = 0;
    while at < rows.len() && !str_eq(rows[at].id.as_str(), id)
        invariant
            at <= rows@.len(),
            forall|i: int| 0 <= i < at ==> (#[trigger] rows.deep_view()[i]).id != id@,
        decreases rows@.len() - at,
    {
        at = at + 1;
    }
    proof {
        lemma_webhook_position(rows.deep_view(), id@, at as int);
    }
    at
}

/// The position of the first delivery with the identifier `id`, or the number
/// of rows if there is none.
pub open spec fn delivery_position(rows: Seq<DeliveryView>, id: Seq<char>) -> int
    decreases rows.len(),
{
    if rows.len() == 0 {
        0
    } else if rows[0].id == id {
        0
    } else {
        1 + delivery_position(rows.drop_first(), id)
    }
}

/// `delivery_position` is the least position whose row has the identifier.
proof fn lemma_delivery_position(rows: Seq<DeliveryView>, id: Seq<char>, at: int)
    requires
        0 <= at <= rows.len(),
        forall|i: int| 0 <= i < at ==> (#[trigger] rows[i]).id != id,
        at < rows.len() ==> rows[at].id == id,
    ensures
        delivery_position(rows, id) == at,
    decreases rows.len(),
{
    if rows.len() > 0 && rows[0].id != id {
        let rest = rows.drop_first();
        assert forall|i: int| 0 <= i < at - 1 implies (#[trigger] rest[i]).id != id by {
            assert(rest[i] == rows[i + 1]);
        }
        lemma_delivery_position(rest, id, at - 1);
    }
}

fn find_delivery(rows: &Vec<Delivery>, id: &str) -> (at: usize)
    ensures
        at == delivery_position(rows.deep_view(), id@),
        at <= rows@.len(),
{
    let mut at: usize = 0;
    while at < rows.len() && !str_eq(rows[at].id.as_str(), id)
        invariant
            at <= rows@.len(),
            forall|i: int| 0 <= i < at ==> (#[trigger] rows.deep_view()[i]).id != id@,
        decreases rows@.len() - at,
    {
        at = at + 1;
    }
    proof {
        lemma_delivery_position(rows.deep_view(), id@, at as int);
    }
    at
}

impl DeadLetterEntryView {
    /// The entry, resolved at `now`.
    pub open spec fn resolved(self, now: Timestamp) -> DeadLetterEntryView {
        DeadLetterEntryView { resolved_at: Some(now), ..self }
    }

    /// The entry is about this signal and this subscription.
    pub open spec fn concerns(self, signal_id: Seq<char>, subscription_id: Seq<char>) -> bool {
        self.signal_id == signal_id && self.subscription_id == subscription_id
    }
}

impl DeadLetterEntry {
    /// Marks the entry resolved at `now`.
    pub fn resolve(&mut self, now: Timestamp)
        ensures
            final(self)@ == old(self)@.resolved(now),
    {
        self.resolved_at = Some(now);
    }
}

/// The job that retries a dead letter: a fresh job for the same signal and
/// subscription, through the webhook of the delivery that was given up, at
/// attempt 0 on the normal lane, with no delay.
pub open spec fn retry_job(entry: DeadLetterEntryView, delivery: DeliveryView) -> EffectView {
    EffectView::Enqueue {
        queue: QUEUE_NORMAL@,
        job: DeliveryJobView {
            signal_id: entry.signal_id,
            subscription_id: entry.subscription_id,
            webhook_id: delivery.webhook_id,
            attempt: 0,
        },
        delay_secs: 0,
    }
}

/// Prepares the retry of a dead letter, given the delivery it refers to.
/// Once the job is on the queue, the entry is to be resolved.
pub fn retry_dead_letter(entry: &DeadLetterEntry, delivery: &Delivery) -> (job: Effect)
    ensures
        job@ == retry_job(entry@, delivery@),
{
    Effect::Enqueue {
        queue: String::from_str(QUEUE_NORMAL),
        job: DeliveryJob {
            signal_id: entry.signal_id.clone(),
            subscription_id: entry.subscription_id.clone(),
            webhook_id: delivery.webhook_id.clone(),
            attempt: 0,
        },
        delay_secs: 0,
    }
}

/// How many of the entries concern the signal and the subscription.
pub open spec fn dead_letter_count(
    entries: Seq<DeadLetterEntryView>,
    signal_id: Seq<char>,
    subscription_id: Seq<char>,
) -> nat
    decreases entries.len(),
{
    if entries.len() == 0 {
        0
    } else {
        dead_letter_count(entries.drop_last(), signal_id, subscription_id) + if entries.last().concerns(
            signal_id,
            subscription_id,
        ) {
            1nat
        } else {
            0nat
        }
    }
}

/// The rows that the delivery engine writes, held in memory.
pub struct Store {
    pub signals: Vec<Signal>,
    pub webhooks: Vec<Webhook>,
    pub deliveries: Vec<Delivery>,
    pub dead_letters: Vec<DeadLetterEntry>,
}

/// The view of a [`Store`].
pub struct StoreView {
    pub signals: Seq<SignalView>,
    pub webhooks: Seq<WebhookView>,
    pub deliveries: Seq<DeliveryView>,
    pub dead_letters: Seq<DeadLetterEntryView>,
}

impl View for Store {
    type V = StoreView;

    open spec fn view(&self) -> StoreView {
        StoreView {
            signals: self.signals.deep_view(),
            webhooks: self.webhooks.deep_view(),
            deliveries: self.deliveries.deep_view(),
            dead_letters: self.dead_letters.deep_view(),
        }
    }
}

impl StoreView {
    /// Whether the write `effect` is refused, and why.
    pub open spec fn refusal(self, effect: EffectView) -> Option<StoreError> {
        match effect {
            EffectView::UpdateDelivery { id, .. } => if delivery_position(self.deliveries, id)
                < self.deliveries.len() {
                None
            } else {
                Some(StoreError::DeliveryNotFound)
            },
            EffectView::IncrementSignalCounts { signal_id, delivered, failed, total } => {
                let at = signal_position(self.signals, signal_id);
                if at >= self.signals.len() {
                    Some(StoreError::SignalNotFound)
                } else if !self.signals[at].takes(delivered, failed, total) {
                    Some(StoreError::CounterOverflow)
                } else {
                    None
                }
            },
            EffectView::WebhookSucceeded { id, .. } => if webhook_position(
                self.webhooks,
                id,
            ) < self.webhooks.len() {
                None
            } else {
                Some(StoreError::WebhookNotFound)
            },
            EffectView::WebhookFailed { id, .. } => {
                let at = webhook_position(self.webhooks, id);
                if at >= self.webhooks.len() {
                    Some(StoreError::WebhookNotFound)
                } else if self.webhooks[at].failure_count == i32::MAX {
                    Some(StoreError::CounterOverflow)
                } else {
                    None
                }
            },
            _ => None,
        }
    }

    /// The store after the write `effect` at `now`, if it is not refused. A
    /// write goes to the first row with the identifier it names. A dead
    /// letter is filed under `dead_letter_id`; a job for the queue is no
    /// write and leaves the store as it is.
    pub open spec fn written(
        self,
        effect: EffectView,
        now: Timestamp,
        dead_letter_id: Seq<char>,
    ) -> StoreView {
        match effect {
            EffectView::CreateDelivery {
                id,
                signal_id,
                subscription_id,
                webhook_id,
                mode,
                attempt,
            } => StoreView {
                deliveries: self.deliveries.push(
                    pending_delivery(id, signal_id, subscription_id, webhook_id, mode, attempt, now),
                ),
                ..self
            },
            EffectView::UpdateDelivery { id, status, status_code, error_message, latency_ms } => {
                let at = delivery_position(self.deliveries, id);
                StoreView {
                    deliveries: self.deliveries.update(
                        at,
                        self.deliveries[at].completed(
                            status,
                            status_code,
                            error_message,
                            latency_ms,
                            now,
                        ),
                    ),
                    ..self
                }
            },
            EffectView::IncrementSignalCounts { signal_id, delivered, failed, total } => {
                let at = signal_position(self.signals, signal_id);
                StoreView {
                    signals: self.signals.update(
                        at,
                        self.signals[at].counted(delivered, failed, total),
                    ),
                    ..self
                }
            },
            EffectView::WebhookSucceeded { id, at: when } => {
                let at = webhook_position(self.webhooks, id);
                StoreView {
                    webhooks: self.webhooks.update(at, self.webhooks[at].succeeded(when)),
                    ..self
                }
            },
            EffectView::WebhookFailed { id, at: when } => {
                let at = webhook_position(self.webhooks, id);
                StoreView {
                    webhooks: self.webhooks.update(at, self.webhooks[at].failed(when)),
                    ..self
                }
            },
            EffectView::CreateDeadLetter {
                delivery_id,
                signal_id,
                subscription_id,
                payload,
                error,
            } => StoreView {
                dead_letters: self.dead_letters.push(
                    DeadLetterEntryView {
                        id: dead_letter_id,
                        delivery_id,
                        signal_id,
                        subscription_id,
                        payload,
                        error_history: seq![error],
                        resolved_at: None,
                        created_at: now,
                    },
                ),
                ..self
            },
            EffectView::Enqueue { .. } => self,
        }
    }
}

impl Store {
    /// A store with no rows.
    pub fn new() -> (store: Store)
        ensures
            store@ == (StoreView {
                signals: Seq::empty(),
                webhooks: Seq::empty(),
                deliveries: Seq::empty(),
                dead_letters: Seq::empty(),
            }),
    {
        let store = Store {
            signals: Vec::new(),
            webhooks: Vec::new(),
            deliveries: Vec::new(),
            dead_letters: Vec::new(),
        };
        assert(store.signals.deep_view() =~= Seq::empty());
        assert(store.webhooks.deep_view() =~= Seq::empty());
        assert(store.deliveries.deep_view() =~= Seq::empty());
        assert(store.dead_letters.deep_view() =~= Seq::empty());
        store
    }

    /// The first signal with the identifier `id`.
    pub fn signal(&self, id: &str) -> (row: Option<&Signal>)
        ensures
            match row {
                Some(s) => signal_position(self@.signals, id@) < self@.signals.len() && s@
                    == self@.signals[signal_position(self@.signals, id@)],
                None => signal_position(self@.signals, id@) == self@.signals.len(),
            },
    {
        let at = find_signal(&self.signals, id);
        if at < self.signals.len() {
            Some(&self.signals[at])
        } else {
            None
        }
    }

    /// The first webhook with the identifier `id`.
    pub fn webhook(&self, id: &str) -> (row: Option<&Webhook>)
        ensures
            match row {
                Some(w) => webhook_position(self@.webhooks, id@) < self@.webhooks.len() && w@
                    == self@.webhooks[webhook_position(self@.webhooks, id@)],
                None => webhook_position(self@.webhooks, id@) == self@.webhooks.len(),
            },
    {
        let at = find_webhook(&self.webhooks, id);
        if at < self.webhooks.len() {
            Some(&self.webhooks[at])
        } else {
            None
        }
    }

    /// The first delivery with the identifier `id`.
    pub fn delivery(&self, id: &str) -> (row: Option<&Delivery>)
        ensures
            match row {
                Some(d) => delivery_position(self@.deliveries, id@) < self@.deliveries.len() && d@
                    == self@.deliveries[delivery_position(self@.deliveries, id@)],
                None => delivery_position(self@.deliveries, id@) == self@.deliveries.len(),
            },
    {
        let at = find_delivery(&self.deliveries, id);
        if at < self.deliveries.len() {
            Some(&self.deliveries[at])
        } else {
            None
        }
    }

    /// How many dead letters concern the signal and the subscription.
    pub fn dead_letters_of(&self, signal_id: &str, subscription_id: &str) -> (n: usize)
        ensures
            n == dead_letter_count(self@.dead_letters, signal_id@, subscription_id@),
    {
        let ghost rows = self.dead_letters.deep_view();
        let mut n: usize = 0;
        let mut i: usize = 0;
        assert(rows.take(0) =~= Seq::<DeadLetterEntryView>::empty());
        while i < self.dead_letters.len()
            invariant
                i <= self.dead_letters@.len(),
                rows == self.dead_letters.deep_view(),
                n <= i,
                n == dead_letter_count(rows.take(i as int), signal_id@, subscription_id@),
            decreases self.dead_letters@.len() - i,
        {
            let entry = &self.dead_letters[i];
            proof {
                assert(rows.take(i + 1).drop_last() =~= rows.take(i as int));
                assert(rows.take(i + 1).last() == entry@);
            }
            if str_eq(entry.signal_id.as_str(), signal_id) && str_eq(
                entry.subscription_id.as_str(),
                subscription_id,
            ) {
                n = n + 1;
            }
            i = i + 1;
        }
        assert(rows.take(i as int) =~= rows);
        n
    }

    /// Applies one write at `now`, filing a dead letter under
    /// `dead_letter_id`. A refused write changes nothing.
    pub fn apply(&mut self, effect: Effect, now: Timestamp, dead_letter_id: String) -> (done:
        Result<(), StoreError>)
        ensures
            match done {
                Ok(_) => old(self)@.refusal(effect@) is None && final(self)@ == old(self)@.written(
                    effect@,
                    now,
                    dead_letter_id@,
                ),
                Err(e) => old(self)@.refusal(effect@) == Some(e) && final(self)@ == old(self)@,
            },
    {
        match effect {
            Effect::CreateDelivery { id, signal_id, subscription_id, webhook_id, mode, attempt } => {
                self.deliveries.push(
                    Delivery {
                        id,
                        signal_id,
                        subscription_id,
                        webhook_id,
                        delivery_mode: mode,
                        attempt,
                        status: DeliveryStatus::Pending,
                        status_code: None,
                        error_message: None,
                        latency_ms: None,
                        created_at: now,
                        updated_at: now,
                    },
                );
                assert(self.deliveries.deep_view() =~= old(self).deliveries.deep_view().push(
                    pending_delivery(
                        id@,
                        signal_id@,
                        subscription_id@,
                        webhook_id.deep_view(),
                        mode,
                        attempt,
                        now,
                    ),
                ));
                Ok(())
            },
            Effect::UpdateDelivery { id, status, status_code, error_message, latency_ms } => {
                let at = find_delivery(&self.deliveries, id.as_str());
                if at >= self.deliveries.len() {
                    return Err(StoreError::DeliveryNotFound);
                }
                let ghost before = self.deliveries.deep_view();
                let ghost message = error_message.deep_view();
                self.deliveries[at].update_status(
                    status,
                    status_code,
                    error_message,
                    latency_ms,
                    now,
                );
                assert(self.deliveries.deep_view() =~= before.update(
                    at as int,
                    before[at as int].completed(status, status_code, message, latency_ms, now),
                ));
                Ok(())
            },
            Effect::IncrementSignalCounts { signal_id, delivered, failed, total } => {
                let at = find_signal(&self.signals, signal_id.as_str());
                if at >= self.signals.len() {
                    return Err(StoreError::SignalNotFound);
                }
                let ghost before = self.signals.deep_view();
                match self.signals[at].increment_counts(delivered, failed, total) {
                    Ok(_) => {
                        assert(self.signals.deep_view() =~= before.update(
                            at as int,
                            before[at as int].counted(delivered, failed, total),
                        ));
                        Ok(())
                    },
                    Err(e) => {
                        assert(self.signals.deep_view() =~= before);
                        Err(e)
                    },
                }
            },
            Effect::WebhookSucceeded { id, at: when } => {
                let at = find_webhook(&self.webhooks, id.as_str());
                if at >= self.webhooks.len() {
                    return Err(StoreError::WebhookNotFound);
                }
                let ghost before = self.webhooks.deep_view();
                self.webhooks[at].update_success(when);
                assert(self.webhooks.deep_view() =~= before.update(
                    at as int,
                    before[at as int].succeeded(when),
                ));
                Ok(())
            },
            Effect::WebhookFailed { id, at: when } => {
                let at = find_webhook(&self.webhooks, id.as_str());
                if at >= self.webhooks.len() {
                    return Err(StoreError::WebhookNotFound);
                }
                let ghost before = self.webhooks.deep_view();
                match self.webhooks[at].update_failure(when) {
                    Ok(_) => {
                        assert(self.webhooks.deep_view() =~= before.update(
                            at as int,
                            before[at as int].failed(when),
                        ));
                        Ok(())
                    },
                    Err(e) => {
                        assert(self.webhooks.deep_view() =~= before);
                        Err(e)
                    },
                }
            },
            Effect::CreateDeadLetter { delivery_id, signal_id, subscription_id, payload, error } => {
                let ghost record = error@;
                let mut error_history: Vec<ErrorRecord> = Vec::new();
                error_history.push(error);
                assert(error_history.deep_view() =~= seq![record]);
                let ghost before = self.dead_letters.deep_view();
                let entry = DeadLetterEntry {
                    id: dead_letter_id,
                    delivery_id,
                    signal_id,
                    subscription_id,
                    payload,
                    error_history,
                    resolved_at: None,
                    created_at: now,
                };
                let ghost filed = entry@;
                self.dead_letters.push(entry);
                assert(self.dead_letters.deep_view() =~= before.push(filed));
                Ok(())
            },
            Effect::Enqueue { .. } => Ok(()),
        }
    }
}

/// The jobs that the effects push on the queue, in order.
pub open spec fn queued_by(effects: Seq<Effect>) -> Seq<QueuedJobView<DeliveryJob>>
    decreases effects.len(),
{
    if effects.len() == 0 {
        Seq::empty()
    } else {
        let before = queued_by(effects.drop_last());
        match effects.last() {
            Effect::Enqueue { queue, job, delay_secs } => before.push(
                QueuedJobView { queue: queue@, job, delay_secs },
            ),
            _ => before,
        }
    }
}

/// The store after the writes among `effects` were applied in order at
/// `now`, the dead letter of the effect at position `i`, if it is one, filed
/// under `ids[i]`.
pub open spec fn stored_by(
    store: StoreView,
    effects: Seq<EffectView>,
    now: Timestamp,
    ids: Seq<Seq<char>>,
) -> StoreView
    decreases effects.len(),
{
    if effects.len() == 0 {
        store
    } else {
        stored_by(store, effects.drop_last(), now, ids).written(
            effects.last(),
            now,
            ids[effects.len() - 1],
        )
    }
}

impl StoreView {
    /// Every signal row is balanced: its total is its delivered plus its
    /// failed count.
    pub open spec fn all_balanced(self) -> bool {
        forall|i: int| 0 <= i < self.signals.len() ==> (#[trigger] self.signals[i]).balanced()
    }
}

/// The effect counts a completed attempt, if it counts at all: the total
/// grows by what the delivered and failed counts grow together.
pub open spec fn counts_in_balance(effect: EffectView) -> bool {
    effect matches EffectView::IncrementSignalCounts { delivered, failed, total, .. } ==> total
        == delivered + failed
}

proof fn lemma_signal_position_bounds(rows: Seq<SignalView>, id: Seq<char>)
    ensures
        0 <= signal_position(rows, id) <= rows.len(),
    decreases rows.len(),
{
    if rows.len() > 0 && rows[0].id != id {
        lemma_signal_position_bounds(rows.drop_first(), id);
    }
}

/// Every effect of a delivery attempt counts in balance, whatever the
/// transport and whatever the outcome.
pub proof fn law_attempts_count_in_balance(
    ctx: JobContextView,
    webhook: WebhookView,
    delivery_id: Seq<char>,
    attempt: i32,
    sent: Result<(), Seq<char>>,
    outcome: HttpOutcomeView,
    latency_ms: i32,
    now: Timestamp,
    payload: Seq<char>,
)
    ensures
        forall|i: int|
            0 <= i < tunnel_step(ctx, delivery_id, attempt, sent, payload).effects.len()
                ==> counts_in_balance(
                #[trigger] tunnel_step(ctx, delivery_id, attempt, sent, payload).effects[i],
            ),
        forall|i: int|
            0 <= i < webhook_step(
                ctx,
                webhook,
                delivery_id,
                attempt,
                outcome,
                latency_ms,
                now,
                payload,
            ).effects.len() ==> counts_in_balance(
                #[trigger] webhook_step(
                    ctx,
                    webhook,
                    delivery_id,
                    attempt,
                    outcome,
                    latency_ms,
                    now,
                    payload,
                ).effects[i],
            ),
{
    law_attempt_counts_once(
        ctx,
        webhook,
        delivery_id,
        attempt,
        sent,
        outcome,
        latency_ms,
        now,
        payload,
    );
}

/// One write keeps every signal balanced, as long as it counts in balance
/// and is not refused.
pub proof fn law_write_keeps_store_balanced(
    store: StoreView,
    effect: EffectView,
    now: Timestamp,
    dead_letter_id: Seq<char>,
)
    requires
        store.all_balanced(),
        counts_in_balance(effect),
        store.refusal(effect) is None,
    ensures
        store.written(effect, now, dead_letter_id).all_balanced(),
{
    let after = store.written(effect, now, dead_letter_id);
    assert forall|i: int| 0 <= i < after.signals.len() implies (#[trigger] after.signals[i]).balanced() by {
        match effect {
            EffectView::IncrementSignalCounts { signal_id, delivered, failed, total } => {
                let at = signal_position(store.signals, signal_id);
                lemma_signal_position_bounds(store.signals, signal_id);
                assert(after.signals == store.signals.update(
                    at,
                    store.signals[at].counted(delivered, failed, total),
                ));
                if i != at {
                    assert(after.signals[i] == store.signals[i]);
                } else {
                    assert(store.signals[at].balanced());
                }
            },
            _ => {
                assert(after.signals[i] == store.signals[i]);
            },
        }
    }
}

/// None of `effects` is refused when they are applied in order.
pub open spec fn all_accepted(
    store: StoreView,
    effects: Seq<EffectView>,
    now: Timestamp,
    ids: Seq<Seq<char>>,
) -> bool {
    forall|k: int|
        0 <= k < effects.len() ==> (#[trigger] stored_by(store, effects.take(k), now, ids)).refusal(
            effects[k],
        ) is None
}

/// Counter consistency: a store whose signals are balanced stays so after
/// any number of completed attempts, whatever the order in which their
/// writes arrive, as long as each write counts in balance and none is
/// refused.
pub proof fn law_store_stays_balanced(
    store: StoreView,
    effects: Seq<EffectView>,
    now: Timestamp,
    ids: Seq<Seq<char>>,
)
    requires
        store.all_balanced(),
        forall|i: int| 0 <= i < effects.len() ==> counts_in_balance(#[trigger] effects[i]),
        all_accepted(store, effects, now, ids),
    ensures
        stored_by(store, effects, now, ids).all_balanced(),
    decreases effects.len(),
{
    if effects.len() > 0 {
        let front = effects.drop_last();
        assert forall|i: int| 0 <= i < front.len() implies counts_in_balance(#[trigger] front[i]) by {
            assert(front[i] == effects[i]);
        }
        assert(all_accepted(store, front, now, ids)) by {
            assert forall|k: int| 0 <= k < front.len() implies (#[trigger] stored_by(
                store,
                front.take(k),
                now,
                ids,
            )).refusal(front[k]) is None by {
                assert(front.take(k) =~= effects.take(k));
                assert(front[k] == effects[k]);
            }
        }
        law_store_stays_balanced(store, front, now, ids);
        let before = stored_by(store, front, now, ids);
        assert(front =~= effects.take(effects.len() - 1));
        assert(before.refusal(effects[effects.len() - 1]) is None);
        assert(counts_in_balance(effects[effects.len() - 1]));
        law_write_keeps_store_balanced(before, effects.last(), now, ids[effects.len() - 1]);
    }
}

/// `ids` names the dead letters among the first `n` of `effects`: one
/// identifier for each position, of the dead-letter kind where the effect
/// files a dead letter.
pub open spec fn names_dead_letters(ids: Seq<Seq<char>>, effects: Seq<EffectView>, n: int) -> bool {
    &&& ids.len() == n
    &&& forall|i: int|
        0 <= i < n && i < effects.len() && (#[trigger] effects[i]) is CreateDeadLetter
            ==> is_id_of_kind(ids[i], DEAD_LETTER_KIND@)
}

proof fn lemma_stored_by_prefix(
    store: StoreView,
    effects: Seq<EffectView>,
    now: Timestamp,
    ids: Seq<Seq<char>>,
    more: Seq<Seq<char>>,
)
    requires
        effects.len() <= ids.len(),
    ensures
        stored_by(store, effects, now, ids + more) == stored_by(store, effects, now, ids),
    decreases effects.len(),
{
    if effects.len() > 0 {
        lemma_stored_by_prefix(store, effects.drop_last(), now, ids, more);
    }
}

/// How many effects were applied: all of them, or those before the one that
/// was refused.
pub open spec fn applied(done: Result<(), (usize, StoreError)>, all: nat) -> nat {
    match done {
        Ok(_) => all,
        Err((at, _)) => at as nat,
    }
}

/// `after` is `before` with the first `n` of `effects` applied at `now`, the
/// dead letters among them filed under identifiers of their kind.
pub open spec fn stored_under_new_ids(
    before: StoreView,
    after: StoreView,
    effects: Seq<EffectView>,
    n: int,
    now: Timestamp,
) -> bool {
    exists|ids: Seq<Seq<char>>| #[trigger]
        names_dead_letters(ids, effects, n) && after == stored_by(
            before,
            effects.take(n),
            now,
            ids,
        )
}

/// Applies the effects of a step in order at `now`: the writes to `store`,
/// the jobs to `queue`. It stops at the first write that is refused, and
/// says at which position it stands and why it was refused; the effects
/// before it stay applied. Each dead letter is filed under a new identifier.
pub fn run_effects(
    store: &mut Store,
    queue: &mut PostgresStorage<DeliveryJob>,
    effects: Vec<Effect>,
    now: Timestamp,
) -> (done: Result<(), (usize, StoreError)>)
    ensures
        applied(done, effects@.len()) <= effects@.len(),
        final(queue).pending() == old(queue).pending() + queued_by(
            effects@.take(applied(done, effects@.len()) as int),
        ),
        stored_under_new_ids(
            old(store)@,
            final(store)@,
            effects.deep_view(),
            applied(done, effects@.len()) as int,
            now,
        ),
        done matches Err((at, e)) ==> at < effects@.len() && final(store)@.refusal(
            effects.deep_view()[at as int],
        ) == Some(e),
{
    let mut rest = effects;
    let total: usize = rest.len();
    let ghost all = effects@;
    let ghost views = effects.deep_view();
    let ghost mut ids: Seq<Seq<char>> = Seq::empty();
    let mut done: usize = 0;
    proof {
        assert(all.take(0) =~= Seq::<Effect>::empty());
        assert(views.take(0) =~= Seq::<EffectView>::empty());
    }
    while rest.len() > 0
        invariant
            all == effects@,
            views == effects.deep_view(),
            done + rest@.len() == all.len(),
            all.len() == views.len(),
            all.len() == total,
            forall|i: int| 0 <= i < all.len() ==> (#[trigger] all[i])@ == views[i],
            rest@ =~= all.skip(done as int),
            queue.pending() == old(queue).pending() + queued_by(all.take(done as int)),
            names_dead_letters(ids, views, done as int),
            store@ == stored_by(old(store)@, views.take(done as int), now, ids),
        decreases rest@.len(),
    {
        let effect = rest.remove(0);
        let ghost before = store@;
        proof {
            assert(effect == all[done as int]);
            assert(rest@ =~= all.skip(done + 1));
            assert(all.take(done + 1).drop_last() =~= all.take(done as int));
            assert(all.take(done + 1).last() == effect);
            assert(views.take(done + 1).drop_last() =~= views.take(done as int));
            assert(views.take(done + 1).last() == effect@);
        }
        match effect {
            Effect::Enqueue { queue: lane, job, delay_secs } => {
                queue.push_delayed(lane.as_str(), job, delay_secs);
                proof {
                    let id = Seq::<char>::empty();
                    lemma_stored_by_prefix(
                        old(store)@,
                        views.take(done as int),
                        now,
                        ids,
                        seq![id],
                    );
                    ids = ids + seq![id];
                }
            },
            Effect::CreateDeadLetter { delivery_id, signal_id, subscription_id, payload, error } => {
                let id = new_id(DEAD_LETTER_KIND);
                proof {
                    lemma_stored_by_prefix(
                        old(store)@,
                        views.take(done as int),
                        now,
                        ids,
                        seq![id@],
                    );
                    ids = ids + seq![id@];
                }
                let filed = store.apply(
                    Effect::CreateDeadLetter {
                        delivery_id,
                        signal_id,
                        subscription_id,
                        payload,
                        error,
                    },
                    now,
                    id,
                );
                assert(filed is Ok);
            },
            other => {
                let ghost id = Seq::<char>::empty();
                match store.apply(other, now, String::new()) {
                    Ok(_) => {
                        proof {
                            lemma_stored_by_prefix(
                                old(store)@,
                                views.take(done as int),
                                now,
                                ids,
                                seq![id],
                            );
                            ids = ids + seq![id];
                        }
                    },
                    Err(e) => {
                        assert(names_dead_letters(ids, effects.deep_view(), done as int)
                            && store@ == stored_by(
                            old(store)@,
                            effects.deep_view().take(done as int),
                            now,
                            ids,
                        ));
                        return Err((done, e));
                    },
                }
            },
        }
        done = done + 1;
    }
    proof {
        assert(all.take(done as int) =~= all);
        assert(views.take(done as int) =~= views);
        assert(effects.deep_view().take(effects@.len() as int) =~= views);
        assert(names_dead_letters(ids, effects.deep_view(), effects@.len() as int) && store@
            == stored_by(
            old(store)@,
            effects.deep_view().take(effects@.len() as int),
            now,
            ids,
        ));
    }
    Ok(())
}

} // verus!
