//! A Casbin policy engine for the gateway: it translates an authorization question into a
//! Casbin request, asks an enforcer, and turns the answer into a decision.
//!
//! - [`config`]: the operator's configuration and its validation.
//! - [`envelope`]: the caller's identity and the context of a request.
//! - [`json`]: what is read of JSON documents.
//! - [`request`]: the translation of a question into a request tuple.
//! - [`matcher`]: which matchers Casbin evaluates without a panic.
//! - [`bundle`]: a model and a policy in force, with their enforcer.
//! - [`engine`]: the check of a translation against a model, and evaluation.
//! - [`decision`]: what an enforcement result means.
//! - [`audit`]: what the audit log is told.
//! - [`cluster`]: how the nodes of a cluster keep their policies in step.
//! - [`calendar`] and [`clock`]: dates and timestamps.
//! - [`text`]: joining, white space and numerals.

pub mod audit;
pub mod bundle;
pub mod calendar;
pub mod clock;
pub mod cluster;
pub mod config;
pub mod decision;
pub mod engine;
pub mod envelope;
pub mod json;
pub mod matcher;
pub mod request;
pub mod text;

pub use config::{
    CasbinConfig, ConfigError, ContextField, DefaultDenyMode, EvaluationConfig, ReloadConfig,
    RequestField, TranslationConfig,
};
