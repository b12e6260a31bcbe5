//! The library of a tunnel management tool, centred on its sandboxed script
//! execution: the script repository, the diagnostics buffer, the resource
//! governor, admission control, the capability bridge and the run
//! coordinator. Around them: settings, stored credentials, the API client's
//! credential handling, the response cache, tunnel ingress bindings,
//! rulesets, traffic totals and the local tunnel connector's decisions.

pub mod admission;
pub mod analytics;
pub mod api;
pub mod bridge;
pub mod cache;
pub mod cloud;
pub mod config;
pub mod connector;
pub mod coordinator;
pub mod credential;
pub mod diagnostics;
pub mod error;
pub mod governor;
pub mod ingress;
pub mod models;
pub mod rules;
pub mod script;
pub mod secret;
pub mod store;
pub mod text;

mod platform;
