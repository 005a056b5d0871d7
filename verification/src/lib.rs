//! Corvid runtime library: approval governance, authentication, lineage
//! rendering and the small text utilities they share.

pub mod text;
pub mod digest;
pub mod errors;
pub mod floatbits;
pub mod approval_records;
pub mod approval_authorization;
pub mod approval_policy;
pub mod approval_queue;
pub mod auth_records;
pub mod auth_checks;
pub mod citation;
pub mod lineage;
pub mod lineage_render;
pub mod lineage_redact;
pub mod lineage_eval;
pub mod catalog;
pub mod effect_filter;
pub mod http;
pub mod io;
pub mod approvals;
pub mod approval_ui;
pub mod human;
pub mod approver_bridge;
pub mod db;
pub mod calibration;
pub mod jwks;
pub mod cache;
pub mod auth_store;
pub mod prompt_bridge;
pub mod approval_token;
pub mod ensemble;
pub mod grounded_handles;
pub mod dotenv;
pub mod catalog_invoke;
pub mod approval_card;
pub mod json;
pub mod adversarial;
pub mod filter_eval;
pub mod runtime_config;
pub mod approval_host;
pub mod lineage_drift;
pub mod scalar_marshal;
pub mod agent_handles;
