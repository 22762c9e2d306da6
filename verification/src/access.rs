//! Who is calling: the authenticated context of a request, how a bearer
//! token is read and an API key is accepted, and the role checks that guard
//! publisher and subscriber operations.

use crate::auth::api_key_hash;
use crate::auth::hash_api_key;
use crate::error::ApiError;
use crate::error::ApiErrorView;
use crate::error::AppError;
use crate::error::AppErrorView;
use crate::text::chars_of;
use crate::text::contains;
use crate::text::has_prefix;
use crate::text::has_substring;
use crate::text::lowercase;
use crate::text::lowercase_of;
use crate::text::starts_with;
use crate::text::str_eq;
use crate::text::string_of;
use crate::types::ApiKey;
use crate::types::ApiKeyOwner;
use crate::types::ApiKeyStatus;
use crate::types::ApiKeyView;
use crate::types::Timestamp;
use vstd::prelude::*;
use vstd::string::StringExecFns;

verus! {

/// The identifier that a request carries through the service.
#[derive(Clone, Debug)]
pub struct RequestId(pub String);

impl View for RequestId {
    type V = Seq<char>;

    open spec fn view(&self) -> Seq<char> {
        self.0@
    }
}

/// The role of the account behind a request.
#[derive(Clone, Copy, Debug, PartialEq, Eq, Structural)]
pub enum OwnerType {
    Publisher,
    Subscriber,
}

impl OwnerType {
    /// The role that a stored owner name stands for.
    pub open spec fn named(value: Seq<char>) -> Option<OwnerType> {
        if value == "publisher"@ {
            Some(OwnerType::Publisher)
        } else if value == "subscriber"@ {
            Some(OwnerType::Subscriber)
        } else {
            None
        }
    }

    /// Reads a role from the owner name held in the store: `publisher` or
    /// `subscriber`; anything else gives `None`.
    pub fn from_db(value: &str) -> (role: Option<OwnerType>)
        ensures
            role == Self::named(value@),
    {
        if str_eq(value, "publisher") {
            Some(OwnerType::Publisher)
        } else if str_eq(value, "subscriber") {
            Some(OwnerType::Subscriber)
        } else {
            None
        }
    }

    /// The role of the owner of an API key.
    pub open spec fn of(owner: ApiKeyOwner) -> OwnerType {
        match owner {
            ApiKeyOwner::Publisher => OwnerType::Publisher,
            ApiKeyOwner::Subscriber => OwnerType::Subscriber,
        }
    }

    /// The role of the owner of an API key.
    pub fn of_key_owner(owner: ApiKeyOwner) -> (role: OwnerType)
        ensures
            role == Self::of(owner),
    {
        match owner {
            ApiKeyOwner::Publisher => OwnerType::Publisher,
            ApiKeyOwner::Subscriber => OwnerType::Subscriber,
        }
    }
}

/// What is known of the caller once its API key has been accepted.
#[derive(Clone, Debug)]
pub struct AuthContext {
    pub key_id: String,
    pub owner_type: OwnerType,
    pub owner_id: String,
    pub key_prefix: String,
}

/// The view of an [`AuthContext`].
pub struct AuthContextView {
    pub key_id: Seq<char>,
    pub owner_type: OwnerType,
    pub owner_id: Seq<char>,
    pub key_prefix: Seq<char>,
}

impl View for AuthContext {
    type V = AuthContextView;

    open spec fn view(&self) -> AuthContextView {
        AuthContextView {
            key_id: self.key_id@,
            owner_type: self.owner_type,
            owner_id: self.owner_id@,
            key_prefix: self.key_prefix@,
        }
    }
}

/// What an `Authorization` header must begin with.
pub open spec fn bearer_scheme() -> Seq<char> {
    seq!['B', 'e', 'a', 'r', 'e', 'r', ' ']
}

/// The token of an `Authorization` header: what follows `Bearer` and one
/// space, if the header begins so and something follows.
pub open spec fn bearer_token(header: Seq<char>) -> Option<Seq<char>> {
    if has_prefix(header, bearer_scheme()) && header.len() > bearer_scheme().len() {
        Some(header.subrange(bearer_scheme().len() as int, header.len() as int))
    } else {
        None
    }
}

/// Reads the bearer token of an `Authorization` header. A header of another
/// scheme, or with no token, is unauthorized.
pub fn parse_bearer(header: &str) -> (token: Result<String, AppError>)
    ensures
        match token {
            Ok(t) => bearer_token(header@) == Some(t@),
            Err(e) => bearer_token(header@) is None && e@ == AppErrorView::Unauthorized,
        },
{
    let chars = chars_of(header);
    let scheme = chars_of("Bearer ");
    proof {
        reveal_strlit("Bearer ");
        assert("Bearer "@ == bearer_scheme());
    }
    if starts_with(&chars, &scheme) && chars.len() > scheme.len() {
        Ok(string_of(&chars, scheme.len(), chars.len()))
    } else {
        Err(AppError::Unauthorized)
    }
}

/// The hash to look an API key up by, given the `Authorization` header of a
/// request, if it has one.
pub fn bearer_key_hash(header: Option<&str>) -> (hash: Result<String, AppError>)
    ensures
        match hash {
            Ok(h) => header is Some && bearer_token(header->0@) is Some && h@ == api_key_hash(
                bearer_token(header->0@)->0,
            ),
            Err(e) => (header is None || bearer_token(header->0@) is None) && e@
                == AppErrorView::Unauthorized,
        },
{
    match header {
        None => Err(AppError::Unauthorized),
        Some(value) => match parse_bearer(value) {
            Ok(token) => Ok(hash_api_key(token.as_str())),
            Err(e) => Err(e),
        },
    }
}

/// An API key can be used at `now`: it is active and has not expired.
pub open spec fn key_usable(key: ApiKeyView, now: Timestamp) -> bool {
    &&& key.status == ApiKeyStatus::Active
    &&& match key.expires_at {
        Some(end) => end.micros >= now.micros,
        None => true,
    }
}

/// The context that an accepted API key gives its caller.
pub open spec fn context_of(key: ApiKeyView) -> AuthContextView {
    AuthContextView {
        key_id: key.id,
        owner_type: OwnerType::of(key.owner_type),
        owner_id: key.owner_id,
        key_prefix: key.key_prefix,
    }
}

/// Accepts or refuses the API key that a lookup by hash gave.
///
/// The caller is authenticated exactly when a key was found and it is usable
/// at `now`; every other case is unauthorized.
pub fn authorize_key(record: Option<&ApiKey>, now: Timestamp) -> (auth: Result<
    AuthContext,
    AppError,
>)
    ensures
        match auth {
            Ok(ctx) => record is Some && key_usable(record->0@, now) && ctx@ == context_of(
                record->0@,
            ),
            Err(e) => !(record is Some && key_usable(record->0@, now)) && e@
                == AppErrorView::Unauthorized,
        },
{
    match record {
        None => Err(AppError::Unauthorized),
        Some(key) => {
            let active = match key.status {
                ApiKeyStatus::Active => true,
                _ => false,
            };
            let expired = match key.expires_at {
                Some(end) => end.micros < now.micros,
                None => false,
            };
            if !active || expired {
                Err(AppError::Unauthorized)
            } else {
                Ok(
                    AuthContext {
                        key_id: key.id.clone(),
                        owner_type: OwnerType::of_key_owner(key.owner_type),
                        owner_id: key.owner_id.clone(),
                        key_prefix: key.key_prefix.clone(),
                    },
                )
            }
        },
    }
}

/// The publisher behind the request, or `Forbidden` for a subscriber.
pub fn require_publisher<'a>(auth: &'a AuthContext, request_id: &RequestId) -> (who: Result<
    &'a str,
    ApiError,
>)
    ensures
        match who {
            Ok(id) => auth.owner_type == OwnerType::Publisher && id@ == auth.owner_id@,
            Err(e) => auth.owner_type == OwnerType::Subscriber && e@ == (ApiErrorView {
                error: AppErrorView::Forbidden("publisher access required"@),
                request_id: request_id@,
            }),
        },
{
    match auth.owner_type {
        OwnerType::Publisher => Ok(auth.owner_id.as_str()),
        OwnerType::Subscriber => Err(
            AppError::Forbidden(String::from_str("publisher access required")).with_request_id(
                request_id.0.as_str(),
            ),
        ),
    }
}

/// The subscriber behind the request, or `Forbidden` for a publisher.
pub fn require_subscriber<'a>(auth: &'a AuthContext, request_id: &RequestId) -> (who: Result<
    &'a str,
    ApiError,
>)
    ensures
        match who {
            Ok(id) => auth.owner_type == OwnerType::Subscriber && id@ == auth.owner_id@,
            Err(e) => auth.owner_type == OwnerType::Publisher && e@ == (ApiErrorView {
                error: AppErrorView::Forbidden("subscriber access required"@),
                request_id: request_id@,
            }),
        },
{
    match auth.owner_type {
        OwnerType::Subscriber => Ok(auth.owner_id.as_str()),
        OwnerType::Publisher => Err(
            AppError::Forbidden(String::from_str("subscriber access required")).with_request_id(
                request_id.0.as_str(),
            ),
        ),
    }
}

/// A URL names this very machine: its lower-case form holds `localhost`,
/// `127.0.0.1` or `0.0.0.0`.
pub open spec fn targets_local_host(url: Seq<char>) -> bool {
    let lowered = lowercase_of(url);
    ||| has_substring(lowered, "localhost"@)
    ||| has_substring(lowered, "127.0.0.1"@)
    ||| has_substring(lowered, "0.0.0.0"@)
}

/// Why a webhook URL is refused in the deployment `env`, if it is.
pub open spec fn webhook_url_fault(url: Seq<char>, env: Seq<char>) -> Option<Seq<char>> {
    if !has_prefix(url, "https://"@) {
        Some("webhook url must be https"@)
    } else if env == "prod"@ && targets_local_host(url) {
        Some("webhook url must not target localhost in prod"@)
    } else {
        None
    }
}

/// Checks a webhook URL: it must be `https`, and in the `prod` deployment it
/// must not name the local host.
pub fn validate_webhook_url(url: &str, env: &str) -> (verdict: Result<(), String>)
    ensures
        match verdict {
            Ok(_) => webhook_url_fault(url@, env@) is None,
            Err(why) => webhook_url_fault(url@, env@) == Some(why@),
        },
{
    let chars = chars_of(url);
    let scheme = chars_of("https://");
    if !starts_with(&chars, &scheme) {
        return Err(String::from_str("webhook url must be https"));
    }
    if str_eq(env, "prod") {
        let lowered = lowercase(url);
        let lowered_chars = chars_of(lowered.as_str());
        let localhost = chars_of("localhost");
        let loopback = chars_of("127.0.0.1");
        let any = chars_of("0.0.0.0");
        if contains(&lowered_chars, &localhost) || contains(&lowered_chars, &loopback) || contains(
            &lowered_chars,
            &any,
        ) {
            return Err(String::from_str("webhook url must not target localhost in prod"));
        }
    }
    Ok(())
}

} // verus!
