//! The data model: the enumerations with their wire names, and the entities
//! that the delivery engine reads and writes.
//!
//! Every entity has a view that holds its strings as sequences of characters;
//! contracts elsewhere speak of entities through these views.

use crate::text::str_eq;
use vstd::prelude::*;

verus! {

/// An absolute point in time, UTC, in microseconds since the Unix epoch.
#[derive(Clone, Copy, Debug, PartialEq, Eq, Structural)]
pub struct Timestamp {
    pub micros: i64,
}

impl Timestamp {
    /// The whole seconds since the Unix epoch, rounded towards the past.
    pub open spec fn seconds(self) -> int {
        self.micros as int / 1_000_000
    }

    /// The whole seconds since the Unix epoch, rounded towards the past.
    pub fn unix_seconds(&self) -> (secs: i64)
        ensures
            secs == self.seconds(),
    {
        let q: i64 = self.micros / 1_000_000;
        let r: i64 = self.micros % 1_000_000;
        if r < 0 {
            q - 1
        } else {
            q
        }
    }
}

/// Pricing tier for channels.
#[derive(Clone, Copy, Debug, PartialEq, Eq, Structural)]
pub enum PricingTier {
    Free,
    Pro,
    Enterprise,
}

impl PricingTier {
    /// The name of the variant on the wire and in the store: lower case.
    pub open spec fn name(self) -> Seq<char> {
        match self {
            PricingTier::Free => seq!['f', 'r', 'e', 'e'],
            PricingTier::Pro => seq!['p', 'r', 'o'],
            PricingTier::Enterprise => seq!['e', 'n', 't', 'e', 'r', 'p', 'r', 'i', 's', 'e'],
        }
    }

    /// The variant that `name` names, if any. Names are case-sensitive.
    pub open spec fn named(name: Seq<char>) -> Option<Self> {
        if name == PricingTier::Free.name() {
            Some(PricingTier::Free)
        } else if name == PricingTier::Pro.name() {
            Some(PricingTier::Pro)
        } else if name == PricingTier::Enterprise.name() {
            Some(PricingTier::Enterprise)
        } else {
            None
        }
    }

    /// The name of the variant on the wire and in the store.
    pub fn as_str(&self) -> (name: &'static str)
        ensures
            name@ == self.name(),
    {
        match self {
            PricingTier::Free => {
                proof {
                    reveal_strlit("free");
                    assert("free"@ == seq!['f', 'r', 'e', 'e']);
                }
                "free"
            },
            PricingTier::Pro => {
                proof {
                    reveal_strlit("pro");
                    assert("pro"@ == seq!['p', 'r', 'o']);
                }
                "pro"
            },
            PricingTier::Enterprise => {
                proof {
                    reveal_strlit("enterprise");
                    assert("enterprise"@ == seq!['e', 'n', 't', 'e', 'r', 'p', 'r', 'i', 's', 'e']);
                }
                "enterprise"
            },
        }
    }

    /// Reads a variant from its name; an unknown name gives `None`.
    pub fn parse(name: &str) -> (variant: Option<Self>)
        ensures
            variant == Self::named(name@),
    {
        if str_eq(name, PricingTier::Free.as_str()) {
            Some(PricingTier::Free)
        } else if str_eq(name, PricingTier::Pro.as_str()) {
            Some(PricingTier::Pro)
        } else if str_eq(name, PricingTier::Enterprise.as_str()) {
            Some(PricingTier::Enterprise)
        } else {
            None
        }
    }

    /// Reading the name of a variant gives the variant back.
    pub proof fn law_name_reads_back(self)
        ensures
            Self::named(self.name()) == Some(self),
    {
        assert(PricingTier::Free.name().len() != PricingTier::Pro.name().len());
        assert(PricingTier::Free.name().len() != PricingTier::Enterprise.name().len());
        assert(PricingTier::Pro.name().len() != PricingTier::Enterprise.name().len());
    }
}

/// Account tier for publishers and subscribers.
#[derive(Clone, Copy, Debug, PartialEq, Eq, Structural)]
pub enum AccountTier {
    Free,
    Pro,
    Enterprise,
}

impl AccountTier {
    /// The name of the variant on the wire and in the store: lower case.
    pub open spec fn name(self) -> Seq<char> {
        match self {
            AccountTier::Free => seq!['f', 'r', 'e', 'e'],
            AccountTier::Pro => seq!['p', 'r', 'o'],
            AccountTier::Enterprise => seq!['e', 'n', 't', 'e', 'r', 'p', 'r', 'i', 's', 'e'],
        }
    }

    /// The variant that `name` names, if any. Names are case-sensitive.
    pub open spec fn named(name: Seq<char>) -> Option<Self> {
        if name == AccountTier::Free.name() {
            Some(AccountTier::Free)
        } else if name == AccountTier::Pro.name() {
            Some(AccountTier::Pro)
        } else if name == AccountTier::Enterprise.name() {
            Some(AccountTier::Enterprise)
        } else {
            None
        }
    }

    /// The name of the variant on the wire and in the store.
    pub fn as_str(&self) -> (name: &'static str)
        ensures
            name@ == self.name(),
    {
        match self {
            AccountTier::Free => {
                proof {
                    reveal_strlit("free");
                    assert("free"@ == seq!['f', 'r', 'e', 'e']);
                }
                "free"
            },
            AccountTier::Pro => {
                proof {
                    reveal_strlit("pro");
                    assert("pro"@ == seq!['p', 'r', 'o']);
                }
                "pro"
            },
            AccountTier::Enterprise => {
                proof {
                    reveal_strlit("enterprise");
                    assert("enterprise"@ == seq!['e', 'n', 't', 'e', 'r', 'p', 'r', 'i', 's', 'e']);
                }
                "enterprise"
            },
        }
    }

    /// Reads a variant from its name; an unknown name gives `None`.
    pub fn parse(name: &str) -> (variant: Option<Self>)
        ensures
            variant == Self::named(name@),
    {
        if str_eq(name, AccountTier::Free.as_str()) {
            Some(AccountTier::Free)
        } else if str_eq(name, AccountTier::Pro.as_str()) {
            Some(AccountTier::Pro)
        } else if str_eq(name, AccountTier::Enterprise.as_str()) {
            Some(AccountTier::Enterprise)
        } else {
            None
        }
    }

    /// Reading the name of a variant gives the variant back.
    pub proof fn law_name_reads_back(self)
        ensures
            Self::named(self.name()) == Some(self),
    {
        assert(AccountTier::Free.name().len() != AccountTier::Pro.name().len());
        assert(AccountTier::Free.name().len() != AccountTier::Enterprise.name().len());
        assert(AccountTier::Pro.name().len() != AccountTier::Enterprise.name().len());
    }
}

/// Account lifecycle status.
#[derive(Clone, Copy, Debug, PartialEq, Eq, Structural)]
pub enum AccountStatus {
    Active,
    Suspended,
    Deleted,
}

impl AccountStatus {
    /// The name of the variant on the wire and in the store: lower case.
    pub open spec fn name(self) -> Seq<char> {
        match self {
            AccountStatus::Active => seq!['a', 'c', 't', 'i', 'v', 'e'],
            AccountStatus::Suspended => seq!['s', 'u', 's', 'p', 'e', 'n', 'd', 'e', 'd'],
            AccountStatus::Deleted => seq!['d', 'e', 'l', 'e', 't', 'e', 'd'],
        }
    }

    /// The variant that `name` names, if any. Names are case-sensitive.
    pub open spec fn named(name: Seq<char>) -> Option<Self> {
        if name == AccountStatus::Active.name() {
            Some(AccountStatus::Active)
        } else if name == AccountStatus::Suspended.name() {
            Some(AccountStatus::Suspended)
        } else if name == AccountStatus::Deleted.name() {
            Some(AccountStatus::Deleted)
        } else {
            None
        }
    }

    /// The name of the variant on the wire and in the store.
    pub fn as_str(&self) -> (name: &'static str)
        ensures
            name@ == self.name(),
    {
        match self {
            AccountStatus::Active => {
                proof {
                    reveal_strlit("active");
                    assert("active"@ == seq!['a', 'c', 't', 'i', 'v', 'e']);
                }
                "active"
            },
            AccountStatus::Suspended => {
                proof {
                    reveal_strlit("suspended");
                    assert("suspended"@ == seq!['s', 'u', 's', 'p', 'e', 'n', 'd', 'e', 'd']);
                }
                "suspended"
            },
            AccountStatus::Deleted => {
                proof {
                    reveal_strlit("deleted");
                    assert("deleted"@ == seq!['d', 'e', 'l', 'e', 't', 'e', 'd']);
                }
                "deleted"
            },
        }
    }

    /// Reads a variant from its name; an unknown name gives `None`.
    pub fn parse(name: &str) -> (variant: Option<Self>)
        ensures
            variant == Self::named(name@),
    {
        if str_eq(name, AccountStatus::Active.as_str()) {
            Some(AccountStatus::Active)
        } else if str_eq(name, AccountStatus::Suspended.as_str()) {
            Some(AccountStatus::Suspended)
        } else if str_eq(name, AccountStatus::Deleted.as_str()) {
            Some(AccountStatus::Deleted)
        } else {
            None
        }
    }

    /// Reading the name of a variant gives the variant back.
    pub proof fn law_name_reads_back(self)
        ensures
            Self::named(self.name()) == Some(self),
    {
        assert(AccountStatus::Active.name().len() != AccountStatus::Suspended.name().len());
        assert(AccountStatus::Active.name().len() != AccountStatus::Deleted.name().len());
        assert(AccountStatus::Suspended.name().len() != AccountStatus::Deleted.name().len());
    }
}

/// Channel lifecycle status. Only an active channel takes new signals.
#[derive(Clone, Copy, Debug, PartialEq, Eq, Structural)]
pub enum ChannelStatus {
    Active,
    Paused,
    Deleted,
}

impl ChannelStatus {
    /// The name of the variant on the wire and in the store: lower case.
    pub open spec fn name(self) -> Seq<char> {
        match self {
            ChannelStatus::Active => seq!['a', 'c', 't', 'i', 'v', 'e'],
            ChannelStatus::Paused => seq!['p', 'a', 'u', 's', 'e', 'd'],
            ChannelStatus::Deleted => seq!['d', 'e', 'l', 'e', 't', 'e', 'd'],
        }
    }

    /// The variant that `name` names, if any. Names are case-sensitive.
    pub open spec fn named(name: Seq<char>) -> Option<Self> {
        if name == ChannelStatus::Active.name() {
            Some(ChannelStatus::Active)
        } else if name == ChannelStatus::Paused.name() {
            Some(ChannelStatus::Paused)
        } else if name == ChannelStatus::Deleted.name() {
            Some(ChannelStatus::Deleted)
        } else {
            None
        }
    }

    /// The name of the variant on the wire and in the store.
    pub fn as_str(&self) -> (name: &'static str)
        ensures
            name@ == self.name(),
    {
        match self {
            ChannelStatus::Active => {
                proof {
                    reveal_strlit("active");
                    assert("active"@ == seq!['a', 'c', 't', 'i', 'v', 'e']);
                }
                "active"
            },
            ChannelStatus::Paused => {
                proof {
                    reveal_strlit("paused");
                    assert("paused"@ == seq!['p', 'a', 'u', 's', 'e', 'd']);
                }
                "paused"
            },
            ChannelStatus::Deleted => {
                proof {
                    reveal_strlit("deleted");
                    assert("deleted"@ == seq!['d', 'e', 'l', 'e', 't', 'e', 'd']);
                }
                "deleted"
            },
        }
    }

    /// Reads a variant from its name; an unknown name gives `None`.
    pub fn parse(name: &str) -> (variant: Option<Self>)
        ensures
            variant == Self::named(name@),
    {
        if str_eq(name, ChannelStatus::Active.as_str()) {
            Some(ChannelStatus::Active)
        } else if str_eq(name, ChannelStatus::Paused.as_str()) {
            Some(ChannelStatus::Paused)
        } else if str_eq(name, ChannelStatus::Deleted.as_str()) {
            Some(ChannelStatus::Deleted)
        } else {
            None
        }
    }

    /// Reading the name of a variant gives the variant back.
    pub proof fn law_name_reads_back(self)
        ensures
            Self::named(self.name()) == Some(self),
    {
        assert(ChannelStatus::Active.name()[0] != ChannelStatus::Paused.name()[0]);
        assert(ChannelStatus::Active.name().len() != ChannelStatus::Deleted.name().len());
        assert(ChannelStatus::Paused.name().len() != ChannelStatus::Deleted.name().len());
    }
}

/// Signal urgency level; it decides the priority lane of a delivery.
#[derive(Clone, Copy, Debug, PartialEq, Eq, Structural)]
pub enum SignalUrgency {
    Low,
    Normal,
    High,
    Critical,
}

impl SignalUrgency {
    /// The name of the variant on the wire and in the store: lower case.
    pub open spec fn name(self) -> Seq<char> {
        match self {
            SignalUrgency::Low => seq!['l', 'o', 'w'],
            SignalUrgency::Normal => seq!['n', 'o', 'r', 'm', 'a', 'l'],
            SignalUrgency::High => seq!['h', 'i', 'g', 'h'],
            SignalUrgency::Critical => seq!['c', 'r', 'i', 't', 'i', 'c', 'a', 'l'],
        }
    }

    /// The variant that `name` names, if any. Names are case-sensitive.
    pub open spec fn named(name: Seq<char>) -> Option<Self> {
        if name == SignalUrgency::Low.name() {
            Some(SignalUrgency::Low)
        } else if name == SignalUrgency::Normal.name() {
            Some(SignalUrgency::Normal)
        } else if name == SignalUrgency::High.name() {
            Some(SignalUrgency::High)
        } else if name == SignalUrgency::Critical.name() {
            Some(SignalUrgency::Critical)
        } else {
            None
        }
    }

    /// The name of the variant on the wire and in the store.
    pub fn as_str(&self) -> (name: &'static str)
        ensures
            name@ == self.name(),
    {
        match self {
            SignalUrgency::Low => {
                proof {
                    reveal_strlit("low");
                    assert("low"@ == seq!['l', 'o', 'w']);
                }
                "low"
            },
            SignalUrgency::Normal => {
                proof {
                    reveal_strlit("normal");
                    assert("normal"@ == seq!['n', 'o', 'r', 'm', 'a', 'l']);
                }
                "normal"
            },
            SignalUrgency::High => {
                proof {
                    reveal_strlit("high");
                    assert("high"@ == seq!['h', 'i', 'g', 'h']);
                }
                "high"
            },
            SignalUrgency::Critical => {
                proof {
                    reveal_strlit("critical");
                    assert("critical"@ == seq!['c', 'r', 'i', 't', 'i', 'c', 'a', 'l']);
                }
                "critical"
            },
        }
    }

    /// Reads a variant from its name; an unknown name gives `None`.
    pub fn parse(name: &str) -> (variant: Option<Self>)
        ensures
            variant == Self::named(name@),
    {
        if str_eq(name, SignalUrgency::Low.as_str()) {
            Some(SignalUrgency::Low)
        } else if str_eq(name, SignalUrgency::Normal.as_str()) {
            Some(SignalUrgency::Normal)
        } else if str_eq(name, SignalUrgency::High.as_str()) {
            Some(SignalUrgency::High)
        } else if str_eq(name, SignalUrgency::Critical.as_str()) {
            Some(SignalUrgency::Critical)
        } else {
            None
        }
    }

    /// Reading the name of a variant gives the variant back.
    pub proof fn law_name_reads_back(self)
        ensures
            Self::named(self.name()) == Some(self),
    {
        assert(SignalUrgency::Low.name().len() != SignalUrgency::Normal.name().len());
        assert(SignalUrgency::Low.name().len() != SignalUrgency::High.name().len());
        assert(SignalUrgency::Low.name().len() != SignalUrgency::Critical.name().len());
        assert(SignalUrgency::Normal.name().len() != SignalUrgency::High.name().len());
        assert(SignalUrgency::Normal.name().len() != SignalUrgency::Critical.name().len());
        assert(SignalUrgency::High.name().len() != SignalUrgency::Critical.name().len());
    }
}

/// Signal lifecycle status.
#[derive(Clone, Copy, Debug, PartialEq, Eq, Structural)]
pub enum SignalStatus {
    Active,
    Deleted,
}

impl SignalStatus {
    /// The name of the variant on the wire and in the store: lower case.
    pub open spec fn name(self) -> Seq<char> {
        match self {
            SignalStatus::Active => seq!['a', 'c', 't', 'i', 'v', 'e'],
            SignalStatus::Deleted => seq!['d', 'e', 'l', 'e', 't', 'e', 'd'],
        }
    }

    /// The variant that `name` names, if any. Names are case-sensitive.
    pub open spec fn named(name: Seq<char>) -> Option<Self> {
        if name == SignalStatus::Active.name() {
            Some(SignalStatus::Active)
        } else if name == SignalStatus::Deleted.name() {
            Some(SignalStatus::Deleted)
        } else {
            None
        }
    }

    /// The name of the variant on the wire and in the store.
    pub fn as_str(&self) -> (name: &'static str)
        ensures
            name@ == self.name(),
    {
        match self {
            SignalStatus::Active => {
                proof {
                    reveal_strlit("active");
                    assert("active"@ == seq!['a', 'c', 't', 'i', 'v', 'e']);
                }
                "active"
            },
            SignalStatus::Deleted => {
                proof {
                    reveal_strlit("deleted");
                    assert("deleted"@ == seq!['d', 'e', 'l', 'e', 't', 'e', 'd']);
                }
                "deleted"
            },
        }
    }

    /// Reads a variant from its name; an unknown name gives `None`.
    pub fn parse(name: &str) -> (variant: Option<Self>)
        ensures
            variant == Self::named(name@),
    {
        if str_eq(name, SignalStatus::Active.as_str()) {
            Some(SignalStatus::Active)
        } else if str_eq(name, SignalStatus::Deleted.as_str()) {
            Some(SignalStatus::Deleted)
        } else {
            None
        }
    }

    /// Reading the name of a variant gives the variant back.
    pub proof fn law_name_reads_back(self)
        ensures
            Self::named(self.name()) == Some(self),
    {
        assert(SignalStatus::Active.name().len() != SignalStatus::Deleted.name().len());
    }
}

/// Subscription lifecycle status.
#[derive(Clone, Copy, Debug, PartialEq, Eq, Structural)]
pub enum SubscriptionStatus {
    Active,
    Paused,
    Canceled,
}

impl SubscriptionStatus {
    /// The name of the variant on the wire and in the store: lower case.
    pub open spec fn name(self) -> Seq<char> {
        match self {
            SubscriptionStatus::Active => seq!['a', 'c', 't', 'i', 'v', 'e'],
            SubscriptionStatus::Paused => seq!['p', 'a', 'u', 's', 'e', 'd'],
            SubscriptionStatus::Canceled => seq!['c', 'a', 'n', 'c', 'e', 'l', 'e', 'd'],
        }
    }

    /// The variant that `name` names, if any. Names are case-sensitive.
    pub open spec fn named(name: Seq<char>) -> Option<Self> {
        if name == SubscriptionStatus::Active.name() {
            Some(SubscriptionStatus::Active)
        } else if name == SubscriptionStatus::Paused.name() {
            Some(SubscriptionStatus::Paused)
        } else if name == SubscriptionStatus::Canceled.name() {
            Some(SubscriptionStatus::Canceled)
        } else {
            None
        }
    }

    /// The name of the variant on the wire and in the store.
    pub fn as_str(&self) -> (name: &'static str)
        ensures
            name@ == self.name(),
    {
        match self {
            SubscriptionStatus::Active => {
                proof {
                    reveal_strlit("active");
                    assert("active"@ == seq!['a', 'c', 't', 'i', 'v', 'e']);
                }
                "active"
            },
            SubscriptionStatus::Paused => {
                proof {
                    reveal_strlit("paused");
                    assert("paused"@ == seq!['p', 'a', 'u', 's', 'e', 'd']);
                }
                "paused"
            },
            SubscriptionStatus::Canceled => {
                proof {
                    reveal_strlit("canceled");
                    assert("canceled"@ == seq!['c', 'a', 'n', 'c', 'e', 'l', 'e', 'd']);
                }
                "canceled"
            },
        }
    }

    /// Reads a variant from its name; an unknown name gives `None`.
    pub fn parse(name: &str) -> (variant: Option<Self>)
        ensures
            variant == Self::named(name@),
    {
        if str_eq(name, SubscriptionStatus::Active.as_str()) {
            Some(SubscriptionStatus::Active)
        } else if str_eq(name, SubscriptionStatus::Paused.as_str()) {
            Some(SubscriptionStatus::Paused)
        } else if str_eq(name, SubscriptionStatus::Canceled.as_str()) {
            Some(SubscriptionStatus::Canceled)
        } else {
            None
        }
    }

    /// Reading the name of a variant gives the variant back.
    pub proof fn law_name_reads_back(self)
        ensures
            Self::named(self.name()) == Some(self),
    {
        assert(SubscriptionStatus::Active.name()[0] != SubscriptionStatus::Paused.name()[0]);
        assert(SubscriptionStatus::Active.name().len() != SubscriptionStatus::Canceled.name().len());
        assert(SubscriptionStatus::Paused.name().len() != SubscriptionStatus::Canceled.name().len());
    }
}

/// Webhook endpoint status.
#[derive(Clone, Copy, Debug, PartialEq, Eq, Structural)]
pub enum WebhookStatus {
    Active,
    Paused,
    Disabled,
}

impl WebhookStatus {
    /// The name of the variant on the wire and in the store: lower case.
    pub open spec fn name(self) -> Seq<char> {
        match self {
            WebhookStatus::Active => seq!['a', 'c', 't', 'i', 'v', 'e'],
            WebhookStatus::Paused => seq!['p', 'a', 'u', 's', 'e', 'd'],
            WebhookStatus::Disabled => seq!['d', 'i', 's', 'a', 'b', 'l', 'e', 'd'],
        }
    }

    /// The variant that `name` names, if any. Names are case-sensitive.
    pub open spec fn named(name: Seq<char>) -> Option<Self> {
        if name == WebhookStatus::Active.name() {
            Some(WebhookStatus::Active)
        } else if name == WebhookStatus::Paused.name() {
            Some(WebhookStatus::Paused)
        } else if name == WebhookStatus::Disabled.name() {
            Some(WebhookStatus::Disabled)
        } else {
            None
        }
    }

    /// The name of the variant on the wire and in the store.
    pub fn as_str(&self) -> (name: &'static str)
        ensures
            name@ == self.name(),
    {
        match self {
            WebhookStatus::Active => {
                proof {
                    reveal_strlit("active");
                    assert("active"@ == seq!['a', 'c', 't', 'i', 'v', 'e']);
                }
                "active"
            },
            WebhookStatus::Paused => {
                proof {
                    reveal_strlit("paused");
                    assert("paused"@ == seq!['p', 'a', 'u', 's', 'e', 'd']);
                }
                "paused"
            },
            WebhookStatus::Disabled => {
                proof {
                    reveal_strlit("disabled");
                    assert("disabled"@ == seq!['d', 'i', 's', 'a', 'b', 'l', 'e', 'd']);
                }
                "disabled"
            },
        }
    }

    /// Reads a variant from its name; an unknown name gives `None`.
    pub fn parse(name: &str) -> (variant: Option<Self>)
        ensures
            variant == Self::named(name@),
    {
        if str_eq(name, WebhookStatus::Active.as_str()) {
            Some(WebhookStatus::Active)
        } else if str_eq(name, WebhookStatus::Paused.as_str()) {
            Some(WebhookStatus::Paused)
        } else if str_eq(name, WebhookStatus::Disabled.as_str()) {
            Some(WebhookStatus::Disabled)
        } else {
            None
        }
    }

    /// Reading the name of a variant gives the variant back.
    pub proof fn law_name_reads_back(self)
        ensures
            Self::named(self.name()) == Some(self),
    {
        assert(WebhookStatus::Active.name()[0] != WebhookStatus::Paused.name()[0]);
        assert(WebhookStatus::Active.name().len() != WebhookStatus::Disabled.name().len());
        assert(WebhookStatus::Paused.name().len() != WebhookStatus::Disabled.name().len());
    }
}

/// Delivery attempt status: created pending, then success or failed.
#[derive(Clone, Copy, Debug, PartialEq, Eq, Structural)]
pub enum DeliveryStatus {
    Pending,
    Success,
    Failed,
}

impl DeliveryStatus {
    /// The name of the variant on the wire and in the store: lower case.
    pub open spec fn name(self) -> Seq<char> {
        match self {
            DeliveryStatus::Pending => seq!['p', 'e', 'n', 'd', 'i', 'n', 'g'],
            DeliveryStatus::Success => seq!['s', 'u', 'c', 'c', 'e', 's', 's'],
            DeliveryStatus::Failed => seq!['f', 'a', 'i', 'l', 'e', 'd'],
        }
    }

    /// The variant that `name` names, if any. Names are case-sensitive.
    pub open spec fn named(name: Seq<char>) -> Option<Self> {
        if name == DeliveryStatus::Pending.name() {
            Some(DeliveryStatus::Pending)
        } else if name == DeliveryStatus::Success.name() {
            Some(DeliveryStatus::Success)
        } else if name == DeliveryStatus::Failed.name() {
            Some(DeliveryStatus::Failed)
        } else {
            None
        }
    }

    /// The name of the variant on the wire and in the store.
    pub fn as_str(&self) -> (name: &'static str)
        ensures
            name@ == self.name(),
    {
        match self {
            DeliveryStatus::Pending => {
                proof {
                    reveal_strlit("pending");
                    assert("pending"@ == seq!['p', 'e', 'n', 'd', 'i', 'n', 'g']);
                }
                "pending"
            },
            DeliveryStatus::Success => {
                proof {
                    reveal_strlit("success");
                    assert("success"@ == seq!['s', 'u', 'c', 'c', 'e', 's', 's']);
                }
                "success"
            },
            DeliveryStatus::Failed => {
                proof {
                    reveal_strlit("failed");
                    assert("failed"@ == seq!['f', 'a', 'i', 'l', 'e', 'd']);
                }
                "failed"
            },
        }
    }

    /// Reads a variant from its name; an unknown name gives `None`.
    pub fn parse(name: &str) -> (variant: Option<Self>)
        ensures
            variant == Self::named(name@),
    {
        if str_eq(name, DeliveryStatus::Pending.as_str()) {
            Some(DeliveryStatus::Pending)
        } else if str_eq(name, DeliveryStatus::Success.as_str()) {
            Some(DeliveryStatus::Success)
        } else if str_eq(name, DeliveryStatus::Failed.as_str()) {
            Some(DeliveryStatus::Failed)
        } else {
            None
        }
    }

    /// Reading the name of a variant gives the variant back.
    pub proof fn law_name_reads_back(self)
        ensures
            Self::named(self.name()) == Some(self),
    {
        assert(DeliveryStatus::Pending.name()[0] != DeliveryStatus::Success.name()[0]);
        assert(DeliveryStatus::Pending.name().len() != DeliveryStatus::Failed.name().len());
        assert(DeliveryStatus::Success.name().len() != DeliveryStatus::Failed.name().len());
    }
}

/// How a signal reaches a subscriber: the agent tunnel or an HTTPS webhook.
#[derive(Clone, Copy, Debug, PartialEq, Eq, Structural)]
pub enum DeliveryMode {
    Agent,
    Webhook,
}

impl DeliveryMode {
    /// The name of the variant on the wire and in the store: lower case.
    pub open spec fn name(self) -> Seq<char> {
        match self {
            DeliveryMode::Agent => seq!['a', 'g', 'e', 'n', 't'],
            DeliveryMode::Webhook => seq!['w', 'e', 'b', 'h', 'o', 'o', 'k'],
        }
    }

    /// The variant that `name` names, if any. Names are case-sensitive.
    pub open spec fn named(name: Seq<char>) -> Option<Self> {
        if name == DeliveryMode::Agent.name() {
            Some(DeliveryMode::Agent)
        } else if name == DeliveryMode::Webhook.name() {
            Some(DeliveryMode::Webhook)
        } else {
            None
        }
    }

    /// The name of the variant on the wire and in the store.
    pub fn as_str(&self) -> (name: &'static str)
        ensures
            name@ == self.name(),
    {
        match self {
            DeliveryMode::Agent => {
                proof {
                    reveal_strlit("agent");
                    assert("agent"@ == seq!['a', 'g', 'e', 'n', 't']);
                }
                "agent"
            },
            DeliveryMode::Webhook => {
                proof {
                    reveal_strlit("webhook");
                    assert("webhook"@ == seq!['w', 'e', 'b', 'h', 'o', 'o', 'k']);
                }
                "webhook"
            },
        }
    }

    /// Reads a variant from its name; an unknown name gives `None`.
    pub fn parse(name: &str) -> (variant: Option<Self>)
        ensures
            variant == Self::named(name@),
    {
        if str_eq(name, DeliveryMode::Agent.as_str()) {
            Some(DeliveryMode::Agent)
        } else if str_eq(name, DeliveryMode::Webhook.as_str()) {
            Some(DeliveryMode::Webhook)
        } else {
            None
        }
    }

    /// Reading the name of a variant gives the variant back.
    pub proof fn law_name_reads_back(self)
        ensures
            Self::named(self.name()) == Some(self),
    {
        assert(DeliveryMode::Agent.name().len() != DeliveryMode::Webhook.name().len());
    }
}

/// The kind of account that owns an API key.
#[derive(Clone, Copy, Debug, PartialEq, Eq, Structural)]
pub enum ApiKeyOwner {
    Publisher,
    Subscriber,
}

impl ApiKeyOwner {
    /// The name of the variant on the wire and in the store: lower case.
    pub open spec fn name(self) -> Seq<char> {
        match self {
            ApiKeyOwner::Publisher => seq!['p', 'u', 'b', 'l', 'i', 's', 'h', 'e', 'r'],
            ApiKeyOwner::Subscriber => seq!['s', 'u', 'b', 's', 'c', 'r', 'i', 'b', 'e', 'r'],
        }
    }

    /// The variant that `name` names, if any. Names are case-sensitive.
    pub open spec fn named(name: Seq<char>) -> Option<Self> {
        if name == ApiKeyOwner::Publisher.name() {
            Some(ApiKeyOwner::Publisher)
        } else if name == ApiKeyOwner::Subscriber.name() {
            Some(ApiKeyOwner::Subscriber)
        } else {
            None
        }
    }

    /// The name of the variant on the wire and in the store.
    pub fn as_str(&self) -> (name: &'static str)
        ensures
            name@ == self.name(),
    {
        match self {
            ApiKeyOwner::Publisher => {
                proof {
                    reveal_strlit("publisher");
                    assert("publisher"@ == seq!['p', 'u', 'b', 'l', 'i', 's', 'h', 'e', 'r']);
                }
                "publisher"
            },
            ApiKeyOwner::Subscriber => {
                proof {
                    reveal_strlit("subscriber");
                    assert("subscriber"@ == seq!['s', 'u', 'b', 's', 'c', 'r', 'i', 'b', 'e', 'r']);
                }
                "subscriber"
            },
        }
    }

    /// Reads a variant from its name; an unknown name gives `None`.
    pub fn parse(name: &str) -> (variant: Option<Self>)
        ensures
            variant == Self::named(name@),
    {
        if str_eq(name, ApiKeyOwner::Publisher.as_str()) {
            Some(ApiKeyOwner::Publisher)
        } else if str_eq(name, ApiKeyOwner::Subscriber.as_str()) {
            Some(ApiKeyOwner::Subscriber)
        } else {
            None
        }
    }

    /// Reading the name of a variant gives the variant back.
    pub proof fn law_name_reads_back(self)
        ensures
            Self::named(self.name()) == Some(self),
    {
        assert(ApiKeyOwner::Publisher.name().len() != ApiKeyOwner::Subscriber.name().len());
    }
}

/// API key lifecycle status.
#[derive(Clone, Copy, Debug, PartialEq, Eq, Structural)]
pub enum ApiKeyStatus {
    Active,
    Revoked,
    Expired,
}

impl ApiKeyStatus {
    /// The name of the variant on the wire and in the store: lower case.
    pub open spec fn name(self) -> Seq<char> {
        match self {
            ApiKeyStatus::Active => seq!['a', 'c', 't', 'i', 'v', 'e'],
            ApiKeyStatus::Revoked => seq!['r', 'e', 'v', 'o', 'k', 'e', 'd'],
            ApiKeyStatus::Expired => seq!['e', 'x', 'p', 'i', 'r', 'e', 'd'],
        }
    }

    /// The variant that `name` names, if any. Names are case-sensitive.
    pub open spec fn named(name: Seq<char>) -> Option<Self> {
        if name == ApiKeyStatus::Active.name() {
            Some(ApiKeyStatus::Active)
        } else if name == ApiKeyStatus::Revoked.name() {
            Some(ApiKeyStatus::Revoked)
        } else if name == ApiKeyStatus::Expired.name() {
            Some(ApiKeyStatus::Expired)
        } else {
            None
        }
    }

    /// The name of the variant on the wire and in the store.
    pub fn as_str(&self) -> (name: &'static str)
        ensures
            name@ == self.name(),
    {
        match self {
            ApiKeyStatus::Active => {
                proof {
                    reveal_strlit("active");
                    assert("active"@ == seq!['a', 'c', 't', 'i', 'v', 'e']);
                }
                "active"
            },
            ApiKeyStatus::Revoked => {
                proof {
                    reveal_strlit("revoked");
                    assert("revoked"@ == seq!['r', 'e', 'v', 'o', 'k', 'e', 'd']);
                }
                "revoked"
            },
            ApiKeyStatus::Expired => {
                proof {
                    reveal_strlit("expired");
                    assert("expired"@ == seq!['e', 'x', 'p', 'i', 'r', 'e', 'd']);
                }
                "expired"
            },
        }
    }

    /// Reads a variant from its name; an unknown name gives `None`.
    pub fn parse(name: &str) -> (variant: Option<Self>)
        ensures
            variant == Self::named(name@),
    {
        if str_eq(name, ApiKeyStatus::Active.as_str()) {
            Some(ApiKeyStatus::Active)
        } else if str_eq(name, ApiKeyStatus::Revoked.as_str()) {
            Some(ApiKeyStatus::Revoked)
        } else if str_eq(name, ApiKeyStatus::Expired.as_str()) {
            Some(ApiKeyStatus::Expired)
        } else {
            None
        }
    }

    /// Reading the name of a variant gives the variant back.
    pub proof fn law_name_reads_back(self)
        ensures
            Self::named(self.name()) == Some(self),
    {
        assert(ApiKeyStatus::Active.name().len() != ApiKeyStatus::Revoked.name().len());
        assert(ApiKeyStatus::Active.name().len() != ApiKeyStatus::Expired.name().len());
        assert(ApiKeyStatus::Revoked.name()[0] != ApiKeyStatus::Expired.name()[0]);
    }
}

/// An identifier on its own.
#[derive(Clone, Debug)]
pub struct Ids {
    pub id: String,
}

/// The view of an [`Ids`].
pub struct IdsView {
    pub id: Seq<char>,
}

impl View for Ids {
    type V = IdsView;

    open spec fn view(&self) -> IdsView {
        IdsView {
            id: self.id@,
        }
    }
}

impl DeepView for Ids {
    type V = IdsView;

    open spec fn deep_view(&self) -> IdsView {
        self@
    }
}

/// A publisher, who creates channels and sends signals.
#[derive(Clone, Debug)]
pub struct Publisher {
    pub id: String,
    pub name: String,
    pub email: String,
    pub stripe_customer_id: Option<String>,
    pub stripe_connect_id: Option<String>,
    pub tier: AccountTier,
    pub status: AccountStatus,
    pub created_at: Timestamp,
    pub updated_at: Timestamp,
}

/// The view of a [`Publisher`].
pub struct PublisherView {
    pub id: Seq<char>,
    pub name: Seq<char>,
    pub email: Seq<char>,
    pub stripe_customer_id: Option<Seq<char>>,
    pub stripe_connect_id: Option<Seq<char>>,
    pub tier: AccountTier,
    pub status: AccountStatus,
    pub created_at: Timestamp,
    pub updated_at: Timestamp,
}

impl View for Publisher {
    type V = PublisherView;

    open spec fn view(&self) -> PublisherView {
        PublisherView {
            id: self.id@,
            name: self.name@,
            email: self.email@,
            stripe_customer_id: self.stripe_customer_id.deep_view(),
            stripe_connect_id: self.stripe_connect_id.deep_view(),
            tier: self.tier,
            status: self.status,
            created_at: self.created_at,
            updated_at: self.updated_at,
        }
    }
}

impl DeepView for Publisher {
    type V = PublisherView;

    open spec fn deep_view(&self) -> PublisherView {
        self@
    }
}

/// A subscriber, who receives the signals of subscribed channels.
#[derive(Clone, Debug)]
pub struct Subscriber {
    pub id: String,
    pub name: String,
    pub email: String,
    /// The secret that signs webhook payloads for this subscriber.
    pub webhook_secret: String,
    pub stripe_customer_id: Option<String>,
    pub tier: AccountTier,
    pub status: AccountStatus,
    pub delivery_mode: DeliveryMode,
    /// The last time the subscriber's agent connected through the tunnel.
    pub agent_last_connected_at: Option<Timestamp>,
    pub created_at: Timestamp,
    pub updated_at: Timestamp,
}

/// The view of a [`Subscriber`].
pub struct SubscriberView {
    pub id: Seq<char>,
    pub name: Seq<char>,
    pub email: Seq<char>,
    pub webhook_secret: Seq<char>,
    pub stripe_customer_id: Option<Seq<char>>,
    pub tier: AccountTier,
    pub status: AccountStatus,
    pub delivery_mode: DeliveryMode,
    pub agent_last_connected_at: Option<Timestamp>,
    pub created_at: Timestamp,
    pub updated_at: Timestamp,
}

impl View for Subscriber {
    type V = SubscriberView;

    open spec fn view(&self) -> SubscriberView {
        SubscriberView {
            id: self.id@,
            name: self.name@,
            email: self.email@,
            webhook_secret: self.webhook_secret@,
            stripe_customer_id: self.stripe_customer_id.deep_view(),
            tier: self.tier,
            status: self.status,
            delivery_mode: self.delivery_mode,
            agent_last_connected_at: self.agent_last_connected_at,
            created_at: self.created_at,
            updated_at: self.updated_at,
        }
    }
}

impl DeepView for Subscriber {
    type V = SubscriberView;

    open spec fn deep_view(&self) -> SubscriberView {
        self@
    }
}

/// A channel, on which a publisher broadcasts signals.
#[derive(Clone, Debug)]
pub struct Channel {
    pub id: String,
    pub publisher_id: String,
    /// URL-friendly identifier.
    pub slug: String,
    pub display_name: String,
    pub description: Option<String>,
    pub category: Option<String>,
    pub pricing_tier: PricingTier,
    /// Monthly subscription price in cents.
    pub price_cents: i32,
    pub status: ChannelStatus,
    /// Whether the channel is listed in the marketplace.
    pub is_public: bool,
    pub signal_count: i32,
    pub subscriber_count: i32,
    pub created_at: Timestamp,
    pub updated_at: Timestamp,
}

/// The view of a [`Channel`].
pub struct ChannelView {
    pub id: Seq<char>,
    pub publisher_id: Seq<char>,
    pub slug: Seq<char>,
    pub display_name: Seq<char>,
    pub description: Option<Seq<char>>,
    pub category: Option<Seq<char>>,
    pub pricing_tier: PricingTier,
    pub price_cents: i32,
    pub status: ChannelStatus,
    pub is_public: bool,
    pub signal_count: i32,
    pub subscriber_count: i32,
    pub created_at: Timestamp,
    pub updated_at: Timestamp,
}

impl View for Channel {
    type V = ChannelView;

    open spec fn view(&self) -> ChannelView {
        ChannelView {
            id: self.id@,
            publisher_id: self.publisher_id@,
            slug: self.slug@,
            display_name: self.display_name@,
            description: self.description.deep_view(),
            category: self.category.deep_view(),
            pricing_tier: self.pricing_tier,
            price_cents: self.price_cents,
            status: self.status,
            is_public: self.is_public,
            signal_count: self.signal_count,
            subscriber_count: self.subscriber_count,
            created_at: self.created_at,
            updated_at: self.updated_at,
        }
    }
}

impl DeepView for Channel {
    type V = ChannelView;

    open spec fn deep_view(&self) -> ChannelView {
        self@
    }
}

/// A signal: a notification sent through a channel.
#[derive(Clone, Debug)]
pub struct Signal {
    pub id: String,
    pub channel_id: String,
    pub title: String,
    pub body: String,
    pub urgency: SignalUrgency,
    /// Free-form metadata, as JSON text.
    pub metadata: String,
    /// Completed delivery attempts over all subscribers.
    pub delivery_count: i32,
    pub delivered_count: i32,
    pub failed_count: i32,
    pub status: SignalStatus,
    pub created_at: Timestamp,
}

/// The view of a [`Signal`].
pub struct SignalView {
    pub id: Seq<char>,
    pub channel_id: Seq<char>,
    pub title: Seq<char>,
    pub body: Seq<char>,
    pub urgency: SignalUrgency,
    pub metadata: Seq<char>,
    pub delivery_count: i32,
    pub delivered_count: i32,
    pub failed_count: i32,
    pub status: SignalStatus,
    pub created_at: Timestamp,
}

impl View for Signal {
    type V = SignalView;

    open spec fn view(&self) -> SignalView {
        SignalView {
            id: self.id@,
            channel_id: self.channel_id@,
            title: self.title@,
            body: self.body@,
            urgency: self.urgency,
            metadata: self.metadata@,
            delivery_count: self.delivery_count,
            delivered_count: self.delivered_count,
            failed_count: self.failed_count,
            status: self.status,
            created_at: self.created_at,
        }
    }
}

impl DeepView for Signal {
    type V = SignalView;

    open spec fn deep_view(&self) -> SignalView {
        self@
    }
}

/// A webhook endpoint configured by a subscriber.
#[derive(Clone, Debug)]
pub struct Webhook {
    pub id: String,
    pub subscriber_id: String,
    pub url: String,
    pub name: String,
    /// Optional bearer token sent in the `Authorization` header.
    pub token: Option<String>,
    pub status: WebhookStatus,
    /// Failures since the last success.
    pub failure_count: i32,
    pub last_success_at: Option<Timestamp>,
    pub last_failure_at: Option<Timestamp>,
    pub created_at: Timestamp,
    pub updated_at: Timestamp,
}

/// The view of a [`Webhook`].
pub struct WebhookView {
    pub id: Seq<char>,
    pub subscriber_id: Seq<char>,
    pub url: Seq<char>,
    pub name: Seq<char>,
    pub token: Option<Seq<char>>,
    pub status: WebhookStatus,
    pub failure_count: i32,
    pub last_success_at: Option<Timestamp>,
    pub last_failure_at: Option<Timestamp>,
    pub created_at: Timestamp,
    pub updated_at: Timestamp,
}

impl View for Webhook {
    type V = WebhookView;

    open spec fn view(&self) -> WebhookView {
        WebhookView {
            id: self.id@,
            subscriber_id: self.subscriber_id@,
            url: self.url@,
            name: self.name@,
            token: self.token.deep_view(),
            status: self.status,
            failure_count: self.failure_count,
            last_success_at: self.last_success_at,
            last_failure_at: self.last_failure_at,
            created_at: self.created_at,
            updated_at: self.updated_at,
        }
    }
}

impl DeepView for Webhook {
    type V = WebhookView;

    open spec fn deep_view(&self) -> WebhookView {
        self@
    }
}

/// A subscription: a subscriber's binding to a channel.
#[derive(Clone, Debug)]
pub struct Subscription {
    pub id: String,
    pub subscriber_id: String,
    pub channel_id: String,
    /// The webhook that deliveries are routed to, if any.
    pub webhook_id: Option<String>,
    pub status: SubscriptionStatus,
    pub stripe_subscription_id: Option<String>,
    pub created_at: Timestamp,
    pub updated_at: Timestamp,
}

/// The view of a [`Subscription`].
pub struct SubscriptionView {
    pub id: Seq<char>,
    pub subscriber_id: Seq<char>,
    pub channel_id: Seq<char>,
    pub webhook_id: Option<Seq<char>>,
    pub status: SubscriptionStatus,
    pub stripe_subscription_id: Option<Seq<char>>,
    pub created_at: Timestamp,
    pub updated_at: Timestamp,
}

impl View for Subscription {
    type V = SubscriptionView;

    open spec fn view(&self) -> SubscriptionView {
        SubscriptionView {
            id: self.id@,
            subscriber_id: self.subscriber_id@,
            channel_id: self.channel_id@,
            webhook_id: self.webhook_id.deep_view(),
            status: self.status,
            stripe_subscription_id: self.stripe_subscription_id.deep_view(),
            created_at: self.created_at,
            updated_at: self.updated_at,
        }
    }
}

impl DeepView for Subscription {
    type V = SubscriptionView;

    open spec fn deep_view(&self) -> SubscriptionView {
        self@
    }
}

/// One attempt to hand a signal to a subscriber.
#[derive(Clone, Debug)]
pub struct Delivery {
    pub id: String,
    pub signal_id: String,
    pub subscription_id: String,
    pub webhook_id: Option<String>,
    pub delivery_mode: DeliveryMode,
    /// Attempt number, from 0.
    pub attempt: i32,
    pub status: DeliveryStatus,
    /// HTTP status code of the webhook response, if there was one.
    pub status_code: Option<i32>,
    pub error_message: Option<String>,
    /// Round-trip latency in milliseconds.
    pub latency_ms: Option<i32>,
    pub created_at: Timestamp,
    pub updated_at: Timestamp,
}

/// The view of a [`Delivery`].
pub struct DeliveryView {
    pub id: Seq<char>,
    pub signal_id: Seq<char>,
    pub subscription_id: Seq<char>,
    pub webhook_id: Option<Seq<char>>,
    pub delivery_mode: DeliveryMode,
    pub attempt: i32,
    pub status: DeliveryStatus,
    pub status_code: Option<i32>,
    pub error_message: Option<Seq<char>>,
    pub latency_ms: Option<i32>,
    pub created_at: Timestamp,
    pub updated_at: Timestamp,
}

impl View for Delivery {
    type V = DeliveryView;

    open spec fn view(&self) -> DeliveryView {
        DeliveryView {
            id: self.id@,
            signal_id: self.signal_id@,
            subscription_id: self.subscription_id@,
            webhook_id: self.webhook_id.deep_view(),
            delivery_mode: self.delivery_mode,
            attempt: self.attempt,
            status: self.status,
            status_code: self.status_code,
            error_message: self.error_message.deep_view(),
            latency_ms: self.latency_ms,
            created_at: self.created_at,
            updated_at: self.updated_at,
        }
    }
}

impl DeepView for Delivery {
    type V = DeliveryView;

    open spec fn deep_view(&self) -> DeliveryView {
        self@
    }
}

/// An API key of a publisher or a subscriber. The raw key is never stored.
#[derive(Clone, Debug)]
pub struct ApiKey {
    pub id: String,
    /// SHA-256 of the raw key, in hexadecimal.
    pub key_hash: String,
    /// The first 12 characters of the raw key.
    pub key_prefix: String,
    pub owner_type: ApiKeyOwner,
    pub owner_id: String,
    pub name: Option<String>,
    /// Permission scopes.
    pub scopes: Vec<String>,
    pub last_used_at: Option<Timestamp>,
    pub expires_at: Option<Timestamp>,
    pub status: ApiKeyStatus,
    pub created_at: Timestamp,
}

/// The view of an [`ApiKey`].
pub struct ApiKeyView {
    pub id: Seq<char>,
    pub key_hash: Seq<char>,
    pub key_prefix: Seq<char>,
    pub owner_type: ApiKeyOwner,
    pub owner_id: Seq<char>,
    pub name: Option<Seq<char>>,
    pub scopes: Seq<Seq<char>>,
    pub last_used_at: Option<Timestamp>,
    pub expires_at: Option<Timestamp>,
    pub status: ApiKeyStatus,
    pub created_at: Timestamp,
}

impl View for ApiKey {
    type V = ApiKeyView;

    open spec fn view(&self) -> ApiKeyView {
        ApiKeyView {
            id: self.id@,
            key_hash: self.key_hash@,
            key_prefix: self.key_prefix@,
            owner_type: self.owner_type,
            owner_id: self.owner_id@,
            name: self.name.deep_view(),
            scopes: self.scopes.deep_view(),
            last_used_at: self.last_used_at,
            expires_at: self.expires_at,
            status: self.status,
            created_at: self.created_at,
        }
    }
}

impl DeepView for ApiKey {
    type V = ApiKeyView;

    open spec fn deep_view(&self) -> ApiKeyView {
        self@
    }
}

/// The record of one failed attempt, as the dead-letter queue keeps it.
#[derive(Clone, Debug)]
pub struct ErrorRecord {
    pub attempt: i32,
    pub error: String,
    pub status_code: Option<i32>,
}

/// The view of an [`ErrorRecord`].
pub struct ErrorRecordView {
    pub attempt: i32,
    pub error: Seq<char>,
    pub status_code: Option<i32>,
}

impl View for ErrorRecord {
    type V = ErrorRecordView;

    open spec fn view(&self) -> ErrorRecordView {
        ErrorRecordView {
            attempt: self.attempt,
            error: self.error@,
            status_code: self.status_code,
        }
    }
}

impl DeepView for ErrorRecord {
    type V = ErrorRecordView;

    open spec fn deep_view(&self) -> ErrorRecordView {
        self@
    }
}

/// A delivery that exhausted its retries, kept for inspection and replay.
#[derive(Clone, Debug)]
pub struct DeadLetterEntry {
    pub id: String,
    pub delivery_id: String,
    pub signal_id: String,
    pub subscription_id: String,
    /// The payload of the last attempt, as JSON text.
    pub payload: String,
    /// The records of the failed attempts, oldest first.
    pub error_history: Vec<ErrorRecord>,
    pub resolved_at: Option<Timestamp>,
    pub created_at: Timestamp,
}

/// The view of a [`DeadLetterEntry`].
pub struct DeadLetterEntryView {
    pub id: Seq<char>,
    pub delivery_id: Seq<char>,
    pub signal_id: Seq<char>,
    pub subscription_id: Seq<char>,
    pub payload: Seq<char>,
    pub error_history: Seq<ErrorRecordView>,
    pub resolved_at: Option<Timestamp>,
    pub created_at: Timestamp,
}

impl View for DeadLetterEntry {
    type V = DeadLetterEntryView;

    open spec fn view(&self) -> DeadLetterEntryView {
        DeadLetterEntryView {
            id: self.id@,
            delivery_id: self.delivery_id@,
            signal_id: self.signal_id@,
            subscription_id: self.subscription_id@,
            payload: self.payload@,
            error_history: self.error_history.deep_view(),
            resolved_at: self.resolved_at,
            created_at: self.created_at,
        }
    }
}

impl DeepView for DeadLetterEntry {
    type V = DeadLetterEntryView;

    open spec fn deep_view(&self) -> DeadLetterEntryView {
        self@
    }
}

/// The payload of a job on a delivery queue.
#[derive(Clone, Debug)]
pub struct DeliveryJob {
    pub signal_id: String,
    pub subscription_id: String,
    pub webhook_id: Option<String>,
    pub attempt: i32,
}

/// The view of a [`DeliveryJob`].
pub struct DeliveryJobView {
    pub signal_id: Seq<char>,
    pub subscription_id: Seq<char>,
    pub webhook_id: Option<Seq<char>>,
    pub attempt: i32,
}

impl View for DeliveryJob {
    type V = DeliveryJobView;

    open spec fn view(&self) -> DeliveryJobView {
        DeliveryJobView {
            signal_id: self.signal_id@,
            subscription_id: self.subscription_id@,
            webhook_id: self.webhook_id.deep_view(),
            attempt: self.attempt,
        }
    }
}

impl DeepView for DeliveryJob {
    type V = DeliveryJobView;

    open spec fn deep_view(&self) -> DeliveryJobView {
        self@
    }
}

} // verus!
