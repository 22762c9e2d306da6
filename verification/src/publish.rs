//! Ingestion and fan-out: what is asked of a publish request before a
//! signal is stored, and the delivery jobs that a stored signal gives rise
//! to.

use crate::access::AuthContext;
use crate::access::AuthContextView;
use crate::access::OwnerType;
use crate::access::RequestId;
use crate::delivery::Effect;
use crate::delivery::EffectView;
use crate::error::ApiError;
use crate::error::ApiErrorView;
use crate::error::AppError;
use crate::error::AppErrorView;
use crate::policy::Lane;
use crate::store::active_on_channel;
use crate::store::StoreError;
use crate::text::blank;
use crate::text::is_blank;
use crate::text::str_eq;
use crate::types::Channel;
use crate::types::ChannelStatus;
use crate::types::ChannelView;
use crate::types::DeliveryJob;
use crate::types::DeliveryJobView;
use crate::types::Signal;
use crate::types::SignalStatus;
use crate::types::SignalUrgency;
use crate::types::SignalView;
use crate::types::Subscription;
use crate::types::SubscriptionStatus;
use crate::types::SubscriptionView;
use crate::types::Timestamp;
use vstd::prelude::*;
use vstd::string::StringExecFns;

verus! {

/// The body of a publish request.
#[derive(Clone, Debug)]
pub struct PushSignalRequest {
    pub title: String,
    pub body: String,
    /// The name of the urgency; `normal` if absent.
    pub urgency: Option<String>,
    /// Free-form metadata, as JSON text; an empty object if absent.
    pub metadata: Option<String>,
}

/// The view of a [`PushSignalRequest`].
pub struct PushSignalRequestView {
    pub title: Seq<char>,
    pub body: Seq<char>,
    pub urgency: Option<Seq<char>>,
    pub metadata: Option<Seq<char>>,
}

impl View for PushSignalRequest {
    type V = PushSignalRequestView;

    open spec fn view(&self) -> PushSignalRequestView {
        PushSignalRequestView {
            title: self.title@,
            body: self.body@,
            urgency: self.urgency.deep_view(),
            metadata: self.metadata.deep_view(),
        }
    }
}

/// A signal that passed every check and is ready to be stored.
#[derive(Clone, Debug)]
pub struct SignalDraft {
    pub id: String,
    pub channel_id: String,
    pub title: String,
    pub body: String,
    pub urgency: SignalUrgency,
    pub metadata: String,
}

/// The view of a [`SignalDraft`].
pub struct SignalDraftView {
    pub id: Seq<char>,
    pub channel_id: Seq<char>,
    pub title: Seq<char>,
    pub body: Seq<char>,
    pub urgency: SignalUrgency,
    pub metadata: Seq<char>,
}

impl View for SignalDraft {
    type V = SignalDraftView;

    open spec fn view(&self) -> SignalDraftView {
        SignalDraftView {
            id: self.id@,
            channel_id: self.channel_id@,
            title: self.title@,
            body: self.body@,
            urgency: self.urgency,
            metadata: self.metadata@,
        }
    }
}

/// The answer to a publish request.
#[derive(Clone, Debug)]
pub struct PushSignalResponse {
    pub id: String,
    pub channel_id: String,
    pub status: String,
    pub created_at: Timestamp,
}

/// The view of a [`PushSignalResponse`].
pub struct PushSignalResponseView {
    pub id: Seq<char>,
    pub channel_id: Seq<char>,
    pub status: Seq<char>,
    pub created_at: Timestamp,
}

impl View for PushSignalResponse {
    type V = PushSignalResponseView;

    open spec fn view(&self) -> PushSignalResponseView {
        PushSignalResponseView {
            id: self.id@,
            channel_id: self.channel_id@,
            status: self.status@,
            created_at: self.created_at,
        }
    }
}

/// The metadata of a signal published without any: an empty JSON object.
pub open spec fn empty_metadata() -> Seq<char> {
    seq!['{', '}']
}

/// Why a publish request is refused, if it is. The checks run in this order,
/// and the first that fails decides: the caller must be a publisher; the
/// channel must exist and not be deleted; the caller must own it; it must be
/// active; title and body must not be blank; the urgency, if given, must be
/// one of the four names.
pub open spec fn publish_fault(
    auth: AuthContextView,
    channel: Option<ChannelView>,
    request: PushSignalRequestView,
) -> Option<AppErrorView> {
    if auth.owner_type != OwnerType::Publisher {
        Some(AppErrorView::Forbidden("publisher access required"@))
    } else if channel is None || channel->0.status == ChannelStatus::Deleted {
        Some(AppErrorView::NotFound("channel not found"@))
    } else if channel->0.publisher_id != auth.owner_id {
        Some(AppErrorView::Forbidden("not channel owner"@))
    } else if channel->0.status != ChannelStatus::Active {
        Some(AppErrorView::BadRequest("channel not active"@))
    } else if blank(request.title) || blank(request.body) {
        Some(AppErrorView::BadRequest("title and body required"@))
    } else if request.urgency is Some && SignalUrgency::named(request.urgency->0) is None {
        Some(AppErrorView::BadRequest("unsupported urgency"@))
    } else {
        None
    }
}

/// The signal that an accepted request asks for: on the channel, with the
/// request's title and body, the urgency it names or `normal`, and its
/// metadata or an empty object.
pub open spec fn draft_of(
    signal_id: Seq<char>,
    channel: ChannelView,
    request: PushSignalRequestView,
) -> SignalDraftView {
    SignalDraftView {
        id: signal_id,
        channel_id: channel.id,
        title: request.title,
        body: request.body,
        urgency: match request.urgency {
            Some(name) => SignalUrgency::named(name)->0,
            None => SignalUrgency::Normal,
        },
        metadata: match request.metadata {
            Some(text) => text,
            None => empty_metadata(),
        },
    }
}

fn refuse(error: AppError, request_id: &RequestId) -> (refused: Result<SignalDraft, ApiError>)
    ensures
        refused matches Err(e) && e@ == (ApiErrorView { error: error@, request_id: request_id@ }),
{
    Err(error.with_request_id(request_id.0.as_str()))
}

/// Checks a publish request against the caller and the channel that was
/// looked up for it, and drafts the signal under the identifier `signal_id`.
pub fn push_signal(
    auth: &AuthContext,
    request_id: &RequestId,
    channel: Option<&Channel>,
    request: PushSignalRequest,
    signal_id: String,
) -> (drafted: Result<SignalDraft, ApiError>)
    ensures
        match drafted {
            Ok(draft) => {
                &&& publish_fault(auth@, channel.deep_view(), request@) is None
                &&& draft@ == draft_of(signal_id@, channel->0@, request@)
            },
            Err(e) => e@ == (ApiErrorView {
                error: publish_fault(auth@, channel.deep_view(), request@)->0,
                request_id: request_id@,
            }) && publish_fault(auth@, channel.deep_view(), request@) is Some,
        },
{
    match auth.owner_type {
        OwnerType::Publisher => {},
        OwnerType::Subscriber => {
            return refuse(
                AppError::Forbidden(String::from_str("publisher access required")),
                request_id,
            );
        },
    }
    let channel = match channel {
        Some(c) => c,
        None => {
            return refuse(AppError::NotFound(String::from_str("channel not found")), request_id);
        },
    };
    match channel.status {
        ChannelStatus::Deleted => {
            return refuse(AppError::NotFound(String::from_str("channel not found")), request_id);
        },
        _ => {},
    }
    if !str_eq(channel.publisher_id.as_str(), auth.owner_id.as_str()) {
        return refuse(AppError::Forbidden(String::from_str("not channel owner")), request_id);
    }
    match channel.status {
        ChannelStatus::Active => {},
        _ => {
            return refuse(AppError::BadRequest(String::from_str("channel not active")), request_id);
        },
    }
    if is_blank(request.title.as_str()) || is_blank(request.body.as_str()) {
        return refuse(
            AppError::BadRequest(String::from_str("title and body required")),
            request_id,
        );
    }
    let urgency = match &request.urgency {
        Some(name) => match SignalUrgency::parse(name.as_str()) {
            Some(u) => u,
            None => {
                return refuse(
                    AppError::BadRequest(String::from_str("unsupported urgency")),
                    request_id,
                );
            },
        },
        None => SignalUrgency::Normal,
    };
    let metadata = match request.metadata {
        Some(text) => text,
        None => {
            proof {
                reveal_strlit("{}");
                assert("{}"@ == empty_metadata());
            }
            String::from_str("{}")
        },
    };
    Ok(
        SignalDraft {
            id: signal_id,
            channel_id: channel.id.clone(),
            title: request.title,
            body: request.body,
            urgency,
            metadata,
        },
    )
}

/// The row of a drafted signal stored at `now`: active, with all counters at
/// zero.
pub open spec fn stored_signal(draft: SignalDraftView, now: Timestamp) -> SignalView {
    SignalView {
        id: draft.id,
        channel_id: draft.channel_id,
        title: draft.title,
        body: draft.body,
        urgency: draft.urgency,
        metadata: draft.metadata,
        delivery_count: 0,
        delivered_count: 0,
        failed_count: 0,
        status: SignalStatus::Active,
        created_at: now,
    }
}

/// Stores a drafted signal at `now` and counts it on its channel, both or
/// neither: the channel's signal count goes up by one.
pub fn persist_signal(draft: SignalDraft, channel: &mut Channel, now: Timestamp) -> (stored: Result<
    Signal,
    StoreError,
>)
    ensures
        match stored {
            Ok(signal) => {
                &&& old(channel).signal_count < i32::MAX
                &&& signal@ == stored_signal(draft@, now)
                &&& final(channel)@ == old(channel)@.with_signals(1)
            },
            Err(e) => old(channel).signal_count == i32::MAX && e == StoreError::CounterOverflow
                && *final(channel) == *old(channel),
        },
{
    match channel.increment_signal_count(1) {
        Ok(_) => {},
        Err(e) => {
            return Err(e);
        },
    }
    Ok(
        Signal {
            id: draft.id,
            channel_id: draft.channel_id,
            title: draft.title,
            body: draft.body,
            urgency: draft.urgency,
            metadata: draft.metadata,
            delivery_count: 0,
            delivered_count: 0,
            failed_count: 0,
            status: SignalStatus::Active,
            created_at: now,
        },
    )
}

/// The answer for a stored signal: its identifier, channel and time of
/// creation, and the status `active`.
pub fn publish_response(signal: &Signal) -> (response: PushSignalResponse)
    ensures
        response@ == (PushSignalResponseView {
            id: signal@.id,
            channel_id: signal@.channel_id,
            status: "active"@,
            created_at: signal.created_at,
        }),
{
    PushSignalResponse {
        id: signal.id.clone(),
        channel_id: signal.channel_id.clone(),
        status: String::from_str("active"),
        created_at: signal.created_at,
    }
}

/// A subscription receives the signals of a channel: it is active and bound
/// to that channel.
pub open spec fn receives(subscription: SubscriptionView, channel_id: Seq<char>) -> bool {
    subscription.status == SubscriptionStatus::Active && subscription.channel_id == channel_id
}

/// The first job of a signal for a subscription: attempt 0, through the
/// subscription's webhook if it has one, on the lane of the signal's urgency,
/// with no delay.
pub open spec fn first_job(signal: SignalView, subscription: SubscriptionView) -> EffectView {
    EffectView::Enqueue {
        queue: Lane::of(signal.urgency).queue(),
        job: DeliveryJobView {
            signal_id: signal.id,
            subscription_id: subscription.id,
            webhook_id: subscription.webhook_id,
            attempt: 0,
        },
        delay_secs: 0,
    }
}

/// The jobs that a signal fans out to: one for each of the subscriptions
/// that receive it, in their order.
pub open spec fn fan_out_jobs(signal: SignalView, subscriptions: Seq<SubscriptionView>) -> Seq<
    EffectView,
>
    decreases subscriptions.len(),
{
    if subscriptions.len() == 0 {
        Seq::empty()
    } else {
        let before = fan_out_jobs(signal, subscriptions.drop_last());
        if receives(subscriptions.last(), signal.channel_id) {
            before.push(first_job(signal, subscriptions.last()))
        } else {
            before
        }
    }
}

/// Fans a stored signal out to the subscriptions of its channel: one job to
/// enqueue for each subscription that receives it.
pub fn fan_out(signal: &Signal, subscriptions: &Vec<Subscription>) -> (jobs: Vec<Effect>)
    ensures
        jobs.deep_view() == fan_out_jobs(signal@, subscriptions.deep_view()),
{
    let lane = Lane::for_urgency(signal.urgency);
    let mut jobs: Vec<Effect> = Vec::new();
    let ghost subs = subscriptions.deep_view();
    let mut i: usize = 0;
    assert(subs.take(0) =~= Seq::<SubscriptionView>::empty());
    while i < subscriptions.len()
        invariant
            i <= subscriptions@.len(),
            subs == subscriptions.deep_view(),
            lane == Lane::of(signal.urgency),
            jobs.deep_view() =~= fan_out_jobs(signal@, subs.take(i as int)),
        decreases subscriptions@.len() - i,
    {
        let subscription = &subscriptions[i];
        proof {
            assert(subs.take(i + 1).drop_last() =~= subs.take(i as int));
            assert(subs.take(i + 1).last() == subscription@);
        }
        let active = match subscription.status {
            SubscriptionStatus::Active => true,
            _ => false,
        };
        if active && str_eq(subscription.channel_id.as_str(), signal.channel_id.as_str()) {
            let ghost before = jobs.deep_view();
            jobs.push(
                Effect::Enqueue {
                    queue: String::from_str(lane.queue_name()),
                    job: DeliveryJob {
                        signal_id: signal.id.clone(),
                        subscription_id: subscription.id.clone(),
                        webhook_id: subscription.webhook_id.clone(),
                        attempt: 0,
                    },
                    delay_secs: 0,
                },
            );
            assert(jobs.deep_view() =~= before.push(first_job(signal@, subscription@)));
        }
        i = i + 1;
    }
    assert(subs.take(i as int) =~= subs);
    jobs
}

/// Fan-out reaches every subscriber once: where all `M` subscriptions
/// handed in receive the signal, exactly `M` jobs come out, the job at each
/// position is the first job for the subscription at that position, and so
/// each is on the lane of the signal's urgency.
pub proof fn law_fan_out_is_complete(signal: SignalView, subscriptions: Seq<SubscriptionView>)
    requires
        forall|i: int|
            0 <= i < subscriptions.len() ==> receives(#[trigger] subscriptions[i], signal.channel_id),
    ensures
        fan_out_jobs(signal, subscriptions).len() == subscriptions.len(),
        forall|i: int|
            0 <= i < subscriptions.len() ==> #[trigger] fan_out_jobs(signal, subscriptions)[i]
                == first_job(signal, subscriptions[i]),
    decreases subscriptions.len(),
{
    if subscriptions.len() > 0 {
        let front = subscriptions.drop_last();
        assert forall|i: int| 0 <= i < front.len() implies receives(
            #[trigger] front[i],
            signal.channel_id,
        ) by {
            assert(front[i] == subscriptions[i]);
        }
        law_fan_out_is_complete(signal, front);
        assert(receives(subscriptions[subscriptions.len() - 1], signal.channel_id));
        assert forall|i: int| 0 <= i < subscriptions.len() implies #[trigger] fan_out_jobs(
            signal,
            subscriptions,
        )[i] == first_job(signal, subscriptions[i]) by {
            if i < front.len() {
                assert(fan_out_jobs(signal, front)[i] == first_job(signal, front[i]));
                assert(front[i] == subscriptions[i]);
            }
        }
    }
}

/// Fan-out makes exactly one job for each active subscription of the
/// signal's channel: as many jobs as the store lists active subscriptions,
/// the job at each position being the first job for the subscription at that
/// position of the listing.
pub proof fn law_fan_out_follows_listing(signal: SignalView, subscriptions: Seq<SubscriptionView>)
    ensures
        fan_out_jobs(signal, subscriptions) == active_on_channel(
            subscriptions,
            signal.channel_id,
        ).map_values(|s: SubscriptionView| first_job(signal, s)),
        fan_out_jobs(signal, subscriptions).len() == active_on_channel(
            subscriptions,
            signal.channel_id,
        ).len(),
    decreases subscriptions.len(),
{
    let job = |s: SubscriptionView| first_job(signal, s);
    if subscriptions.len() > 0 {
        let front = subscriptions.drop_last();
        law_fan_out_follows_listing(signal, front);
        let listed = active_on_channel(front, signal.channel_id);
        if receives(subscriptions.last(), signal.channel_id) {
            assert(listed.push(subscriptions.last()).map_values(job) =~= listed.map_values(
                job,
            ).push(job(subscriptions.last())));
        }
    } else {
        assert(active_on_channel(subscriptions, signal.channel_id).map_values(job) =~= Seq::<
            EffectView,
        >::empty());
    }
}

/// Fan-out leaves out every subscription that does not receive the signal,
/// and never makes more jobs than there are subscriptions.
pub proof fn law_fan_out_is_selective(signal: SignalView, subscriptions: Seq<SubscriptionView>)
    ensures
        fan_out_jobs(signal, subscriptions).len() <= subscriptions.len(),
        (forall|i: int|
            0 <= i < subscriptions.len() ==> !receives(
                #[trigger] subscriptions[i],
                signal.channel_id,
            )) ==> fan_out_jobs(signal, subscriptions).len() == 0,
    decreases subscriptions.len(),
{
    if subscriptions.len() > 0 {
        let front = subscriptions.drop_last();
        law_fan_out_is_selective(signal, front);
        if forall|i: int|
            0 <= i < subscriptions.len() ==> !receives(
                #[trigger] subscriptions[i],
                signal.channel_id,
            ) {
            assert forall|i: int| 0 <= i < front.len() implies !receives(
                #[trigger] front[i],
                signal.channel_id,
            ) by {
                assert(front[i] == subscriptions[i]);
            }
            assert(!receives(subscriptions[subscriptions.len() - 1], signal.channel_id));
        }
    }
}

} // verus!
