//! The rules of the REST surface: who may see or change which row, what a
//! new row must look like, and how much a page or a rate limit holds.
//!
//! Each rule takes the rows that were looked up for a request and answers
//! with `Ok` or with the error to report; the first check that fails
//! decides.

use crate::access::AuthContext;
use crate::access::AuthContextView;
use crate::access::OwnerType;
use crate::config::Settings;
use crate::error::AppError;
use crate::error::AppErrorView;
use crate::text::blank;
use crate::text::is_blank;
use crate::text::str_eq;
use crate::types::AccountTier;
use crate::types::Channel;
use crate::types::ChannelStatus;
use crate::types::ChannelView;
use crate::types::Subscription;
use crate::types::SubscriptionStatus;
use crate::types::SubscriptionView;
use crate::types::Webhook;
use crate::types::WebhookView;
use vstd::prelude::*;
use vstd::string::StringExecFns;

verus! {

/// The size of a page where the request names none.
pub const DEFAULT_PAGE: i64 = 50;

/// The largest page.
pub const MAX_PAGE: i64 = 100;

/// The size of a page of signals: what the request asks for, or the default,
/// brought into the range from one to the largest page.
pub fn page_limit(limit: Option<i64>) -> (size: i64)
    ensures
        size == match limit {
            Some(n) => if n < 1 {
                1
            } else if n > MAX_PAGE {
                MAX_PAGE
            } else {
                n
            },
            None => DEFAULT_PAGE,
        },
{
    match limit {
        Some(n) => if n < 1 {
            1
        } else if n > MAX_PAGE {
            MAX_PAGE
        } else {
            n
        },
        None => DEFAULT_PAGE,
    }
}

/// The size of a page of deliveries: what the request asks for, or the
/// default, but never more than the largest page.
pub fn delivery_page_limit(limit: Option<i64>) -> (size: i64)
    ensures
        size == match limit {
            Some(n) => if n > MAX_PAGE {
                MAX_PAGE
            } else {
                n
            },
            None => DEFAULT_PAGE,
        },
{
    match limit {
        Some(n) => if n > MAX_PAGE {
            MAX_PAGE
        } else {
            n
        },
        None => DEFAULT_PAGE,
    }
}

/// The request ceiling of an account tier.
pub fn rate_limit_capacity(tier: AccountTier, settings: &Settings) -> (capacity: u32)
    ensures
        capacity == match tier {
            AccountTier::Free => settings.rate_limit_free,
            AccountTier::Pro => settings.rate_limit_pro,
            AccountTier::Enterprise => settings.rate_limit_ent,
        },
{
    match tier {
        AccountTier::Free => settings.rate_limit_free,
        AccountTier::Pro => settings.rate_limit_pro,
        AccountTier::Enterprise => settings.rate_limit_ent,
    }
}

fn is_deleted(channel: &Channel) -> (deleted: bool)
    ensures
        deleted == (channel.status == ChannelStatus::Deleted),
{
    match channel.status {
        ChannelStatus::Deleted => true,
        _ => false,
    }
}

fn is_publisher(auth: &AuthContext) -> (yes: bool)
    ensures
        yes == (auth.owner_type == OwnerType::Publisher),
{
    match auth.owner_type {
        OwnerType::Publisher => true,
        OwnerType::Subscriber => false,
    }
}

/// The caller owns the channel: it is the publisher that the channel names.
pub open spec fn owns_channel(auth: AuthContextView, channel: ChannelView) -> bool {
    auth.owner_type == OwnerType::Publisher && channel.publisher_id == auth.owner_id
}

/// Why the caller may not list the signals of a channel, if so: the channel
/// must exist and not be deleted; a publisher must own it, and a subscriber
/// sees it only if it is public.
pub open spec fn signals_fault(auth: AuthContextView, channel: Option<ChannelView>) -> Option<
    AppErrorView,
> {
    if channel is None || channel->0.status == ChannelStatus::Deleted {
        Some(AppErrorView::NotFound("channel not found"@))
    } else if auth.owner_type == OwnerType::Publisher && channel->0.publisher_id != auth.owner_id {
        Some(AppErrorView::Forbidden("access denied"@))
    } else if auth.owner_type == OwnerType::Subscriber && !channel->0.is_public {
        Some(AppErrorView::Forbidden("access denied"@))
    } else {
        None
    }
}

/// Decides whether the caller may list the signals of a channel.
pub fn may_list_signals(auth: &AuthContext, channel: Option<&Channel>) -> (verdict: Result<
    (),
    AppError,
>)
    ensures
        match verdict {
            Ok(_) => signals_fault(auth@, channel.deep_view()) is None,
            Err(e) => signals_fault(auth@, channel.deep_view()) == Some(e@),
        },
{
    let channel = match channel {
        Some(c) => c,
        None => {
            return Err(AppError::NotFound(String::from_str("channel not found")));
        },
    };
    if is_deleted(channel) {
        return Err(AppError::NotFound(String::from_str("channel not found")));
    }
    let allowed = if is_publisher(auth) {
        str_eq(channel.publisher_id.as_str(), auth.owner_id.as_str())
    } else {
        channel.is_public
    };
    if allowed {
        Ok(())
    } else {
        Err(AppError::Forbidden(String::from_str("access denied")))
    }
}

/// The caller may see the channel: it exists, is not deleted, and is public
/// or the caller's own. A channel that may not be seen is reported as not
/// found.
pub open spec fn channel_visible(auth: AuthContextView, channel: Option<ChannelView>) -> bool {
    &&& channel is Some
    &&& channel->0.status != ChannelStatus::Deleted
    &&& channel->0.is_public || owns_channel(auth, channel->0)
}

/// Decides whether the caller may see a channel.
pub fn may_see_channel(auth: &AuthContext, channel: Option<&Channel>) -> (verdict: Result<
    (),
    AppError,
>)
    ensures
        match verdict {
            Ok(_) => channel_visible(auth@, channel.deep_view()),
            Err(e) => !channel_visible(auth@, channel.deep_view()) && e@ == AppErrorView::NotFound(
                "channel not found"@,
            ),
        },
{
    let visible = match channel {
        Some(c) => !is_deleted(c) && (c.is_public || (is_publisher(auth) && str_eq(
            c.publisher_id.as_str(),
            auth.owner_id.as_str(),
        ))),
        None => false,
    };
    if visible {
        Ok(())
    } else {
        Err(AppError::NotFound(String::from_str("channel not found")))
    }
}

/// Why the caller may not change a channel, if so: the caller must be a
/// publisher, the channel must exist, and the caller must own it.
pub open spec fn channel_change_fault(auth: AuthContextView, channel: Option<ChannelView>) -> Option<
    AppErrorView,
> {
    if auth.owner_type != OwnerType::Publisher {
        Some(AppErrorView::Forbidden("publisher access required"@))
    } else if channel is None {
        Some(AppErrorView::NotFound("channel not found"@))
    } else if channel->0.publisher_id != auth.owner_id {
        Some(AppErrorView::Forbidden("not channel owner"@))
    } else {
        None
    }
}

/// Decides whether the caller may change a channel or read its statistics.
pub fn may_change_channel(auth: &AuthContext, channel: Option<&Channel>) -> (verdict: Result<
    (),
    AppError,
>)
    ensures
        match verdict {
            Ok(_) => channel_change_fault(auth@, channel.deep_view()) is None,
            Err(e) => channel_change_fault(auth@, channel.deep_view()) == Some(e@),
        },
{
    if !is_publisher(auth) {
        return Err(AppError::Forbidden(String::from_str("publisher access required")));
    }
    match channel {
        None => Err(AppError::NotFound(String::from_str("channel not found"))),
        Some(c) => if str_eq(c.publisher_id.as_str(), auth.owner_id.as_str()) {
            Ok(())
        } else {
            Err(AppError::Forbidden(String::from_str("not channel owner")))
        },
    }
}

/// Why a new channel is refused, if it is: only a publisher creates
/// channels, and slug and display name must not be blank.
pub open spec fn new_channel_fault(
    auth: AuthContextView,
    slug: Seq<char>,
    display_name: Seq<char>,
) -> Option<AppErrorView> {
    if auth.owner_type != OwnerType::Publisher {
        Some(AppErrorView::Forbidden("publisher access required"@))
    } else if blank(slug) || blank(display_name) {
        Some(AppErrorView::BadRequest("slug and displayName required"@))
    } else {
        None
    }
}

/// Checks a request for a new channel.
pub fn check_new_channel(auth: &AuthContext, slug: &str, display_name: &str) -> (verdict: Result<
    (),
    AppError,
>)
    ensures
        match verdict {
            Ok(_) => new_channel_fault(auth@, slug@, display_name@) is None,
            Err(e) => new_channel_fault(auth@, slug@, display_name@) == Some(e@),
        },
{
    if !is_publisher(auth) {
        Err(AppError::Forbidden(String::from_str("publisher access required")))
    } else if is_blank(slug) || is_blank(display_name) {
        Err(AppError::BadRequest(String::from_str("slug and displayName required")))
    } else {
        Ok(())
    }
}

/// Only subscribers browse the marketplace.
pub fn may_list_marketplace(auth: &AuthContext) -> (verdict: Result<(), AppError>)
    ensures
        match verdict {
            Ok(_) => auth.owner_type == OwnerType::Subscriber,
            Err(e) => auth.owner_type == OwnerType::Publisher && e@ == AppErrorView::Forbidden(
                "publishers cannot list marketplace channels"@,
            ),
        },
{
    if is_publisher(auth) {
        Err(AppError::Forbidden(String::from_str("publishers cannot list marketplace channels")))
    } else {
        Ok(())
    }
}

/// Why a channel cannot be subscribed to, if so: it must exist, be public,
/// and be active.
pub open spec fn subscribe_fault(channel: Option<ChannelView>) -> Option<AppErrorView> {
    if channel is None {
        Some(AppErrorView::NotFound("channel not found"@))
    } else if !channel->0.is_public {
        Some(AppErrorView::BadRequest("channel is not public"@))
    } else if channel->0.status != ChannelStatus::Active {
        Some(AppErrorView::BadRequest("channel is not active"@))
    } else {
        None
    }
}

/// Decides whether a channel can be subscribed to.
pub fn may_subscribe(channel: Option<&Channel>) -> (verdict: Result<(), AppError>)
    ensures
        match verdict {
            Ok(_) => subscribe_fault(channel.deep_view()) is None,
            Err(e) => subscribe_fault(channel.deep_view()) == Some(e@),
        },
{
    let channel = match channel {
        Some(c) => c,
        None => {
            return Err(AppError::NotFound(String::from_str("channel not found")));
        },
    };
    if !channel.is_public {
        return Err(AppError::BadRequest(String::from_str("channel is not public")));
    }
    match channel.status {
        ChannelStatus::Active => Ok(()),
        _ => Err(AppError::BadRequest(String::from_str("channel is not active"))),
    }
}

/// Why the subscriber may not use a webhook, if so: the webhook must exist
/// and be the subscriber's own.
pub open spec fn webhook_fault(subscriber_id: Seq<char>, webhook: Option<WebhookView>) -> Option<
    AppErrorView,
> {
    if webhook is None {
        Some(AppErrorView::NotFound("webhook not found"@))
    } else if webhook->0.subscriber_id != subscriber_id {
        Some(AppErrorView::Forbidden("not webhook owner"@))
    } else {
        None
    }
}

/// Decides whether the subscriber may use or change a webhook.
pub fn may_use_webhook(subscriber_id: &str, webhook: Option<&Webhook>) -> (verdict: Result<
    (),
    AppError,
>)
    ensures
        match verdict {
            Ok(_) => webhook_fault(subscriber_id@, webhook.deep_view()) is None,
            Err(e) => webhook_fault(subscriber_id@, webhook.deep_view()) == Some(e@),
        },
{
    match webhook {
        None => Err(AppError::NotFound(String::from_str("webhook not found"))),
        Some(w) => if str_eq(w.subscriber_id.as_str(), subscriber_id) {
            Ok(())
        } else {
            Err(AppError::Forbidden(String::from_str("not webhook owner")))
        },
    }
}

/// Why the subscriber may not cancel a subscription, if so: the
/// subscription must exist and be the subscriber's own.
pub open spec fn subscription_fault(
    subscriber_id: Seq<char>,
    subscription: Option<SubscriptionView>,
) -> Option<AppErrorView> {
    if subscription is None {
        Some(AppErrorView::NotFound("subscription not found"@))
    } else if subscription->0.subscriber_id != subscriber_id {
        Some(AppErrorView::Forbidden("not subscription owner"@))
    } else {
        None
    }
}

/// Decides whether the subscriber may cancel a subscription.
pub fn may_cancel_subscription(subscriber_id: &str, subscription: Option<&Subscription>) -> (verdict:
    Result<(), AppError>)
    ensures
        match verdict {
            Ok(_) => subscription_fault(subscriber_id@, subscription.deep_view()) is None,
            Err(e) => subscription_fault(subscriber_id@, subscription.deep_view()) == Some(e@),
        },
{
    match subscription {
        None => Err(AppError::NotFound(String::from_str("subscription not found"))),
        Some(s) => if str_eq(s.subscriber_id.as_str(), subscriber_id) {
            Ok(())
        } else {
            Err(AppError::Forbidden(String::from_str("not subscription owner")))
        },
    }
}

/// The subscription is an active binding of the subscriber to the channel.
pub open spec fn binds(
    subscription: SubscriptionView,
    subscriber_id: Seq<char>,
    channel_id: Seq<char>,
) -> bool {
    &&& subscription.status == SubscriptionStatus::Active
    &&& subscription.subscriber_id == subscriber_id
    &&& subscription.channel_id == channel_id
}

/// The subscriber has an active subscription to the channel.
pub open spec fn is_subscribed(
    subscriptions: Seq<SubscriptionView>,
    subscriber_id: Seq<char>,
    channel_id: Seq<char>,
) -> bool {
    exists|i: int|
        0 <= i < subscriptions.len() && binds(#[trigger] subscriptions[i], subscriber_id, channel_id)
}

/// No subscriber has two active subscriptions to one channel.
pub open spec fn subscriptions_unique(subscriptions: Seq<SubscriptionView>) -> bool {
    forall|i: int, j: int|
        0 <= i < subscriptions.len() && 0 <= j < subscriptions.len() && i != j && (
        #[trigger] subscriptions[i]).status == SubscriptionStatus::Active ==> !binds(
            #[trigger] subscriptions[j],
            subscriptions[i].subscriber_id,
            subscriptions[i].channel_id,
        )
}

/// Decides whether the subscriber may subscribe to the channel once more: a
/// subscriber has at most one active subscription to a channel.
pub fn may_add_subscription(
    subscriptions: &Vec<Subscription>,
    subscriber_id: &str,
    channel_id: &str,
) -> (verdict: Result<(), AppError>)
    ensures
        match verdict {
            Ok(_) => !is_subscribed(subscriptions.deep_view(), subscriber_id@, channel_id@),
            Err(e) => is_subscribed(subscriptions.deep_view(), subscriber_id@, channel_id@) && e@
                == AppErrorView::BadRequest("already subscribed"@),
        },
{
    let mut i: usize = 0;
    while i < subscriptions.len()
        invariant
            i <= subscriptions@.len(),
            forall|k: int|
                0 <= k < i ==> !binds(
                    #[trigger] subscriptions.deep_view()[k],
                    subscriber_id@,
                    channel_id@,
                ),
        decreases subscriptions@.len() - i,
    {
        let s = &subscriptions[i];
        let active = match s.status {
            SubscriptionStatus::Active => true,
            _ => false,
        };
        if active && str_eq(s.subscriber_id.as_str(), subscriber_id) && str_eq(
            s.channel_id.as_str(),
            channel_id,
        ) {
            assert(binds(subscriptions.deep_view()[i as int], subscriber_id@, channel_id@));
            return Err(AppError::BadRequest(String::from_str("already subscribed")));
        }
        i = i + 1;
    }
    Ok(())
}

/// Subscriptions stay unique: where no subscriber has two active
/// subscriptions to one channel, adding a subscription that
/// `may_add_subscription` allows keeps it so.
pub proof fn law_subscriptions_stay_unique(
    subscriptions: Seq<SubscriptionView>,
    added: SubscriptionView,
)
    requires
        subscriptions_unique(subscriptions),
        !is_subscribed(subscriptions, added.subscriber_id, added.channel_id),
    ensures
        subscriptions_unique(subscriptions.push(added)),
{
    let after = subscriptions.push(added);
    assert forall|i: int, j: int|
        0 <= i < after.len() && 0 <= j < after.len() && i != j && (#[trigger] after[i]).status
            == SubscriptionStatus::Active implies !binds(
        #[trigger] after[j],
        after[i].subscriber_id,
        after[i].channel_id,
    ) by {
        if i < subscriptions.len() && j < subscriptions.len() {
            assert(after[i] == subscriptions[i]);
            assert(after[j] == subscriptions[j]);
        } else if j < subscriptions.len() {
            assert(after[j] == subscriptions[j]);
            assert(!binds(subscriptions[j], added.subscriber_id, added.channel_id));
        } else {
            assert(after[i] == subscriptions[i]);
            if binds(added, after[i].subscriber_id, after[i].channel_id) {
                assert(binds(subscriptions[i], added.subscriber_id, added.channel_id));
            }
        }
    }
}

} // verus!
