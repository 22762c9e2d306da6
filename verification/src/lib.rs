//! Herald: the signal delivery engine of a multi-tenant pub/sub notification
//! platform, with its contracts stated and proved.
//!
//! Publishers push signals to channels; subscribers receive them through an
//! HTTPS webhook or through a tunnel held open by an agent. This library
//! holds the rules of that engine. It does no input or output of its own:
//! where the engine has to wait for the outside world, the library takes
//! what the outside world gave and answers with what is to be done next.
//!
//! - [`auth`]: API keys and the HMAC signature of webhook payloads.
//! - [`access`]: the caller of a request, and the role checks.
//! - [`publish`]: ingestion of a signal and the fan-out to subscriptions.
//! - [`delivery`]: the steps of one delivery job, over tunnel and webhook.
//! - [`policy`]: priority lanes, the retry schedule, the dead-letter rule.
//! - [`payload`]: the webhook payload and the request that carries it.
//! - [`tunnel`]: the tunnel messages and the registry of connected agents.
//! - [`session`]: the server side of a tunnel session, as a state machine.
//! - [`agent`]: the subscriber side of the tunnel.
//! - [`store`]: what each write does to the rows, and a store in memory.
//! - [`queue`]: the delivery lanes.
//! - [`rules`]: the rules of the REST surface.
//! - [`types`], [`error`], [`ids`], [`config`], [`text`]: the data model,
//!   errors, identifiers, settings, and helpers over strings.

pub mod access;
pub mod agent;
pub mod auth;
pub mod config;
pub mod delivery;
pub mod error;
pub mod ids;
pub mod payload;
pub mod policy;
pub mod publish;
pub mod queue;
pub mod rules;
pub mod session;
pub mod store;
pub mod text;
pub mod tunnel;
pub mod types;
