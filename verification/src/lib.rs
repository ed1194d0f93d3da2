//! The rules of a motorsport operations service: events and rulesets, assets,
//! invoices, analytics reports, data-quality scans, the audit trail, sessions and
//! roles, backups and field encryption.

pub mod analytics;
pub mod assets;
pub mod audit;
pub mod auth;
pub mod backup;
pub mod billing;
pub mod competition;
pub mod config;
pub mod crypto;
pub mod data_quality;
pub mod dates;
pub mod decimal;
pub mod errors;
pub mod middleware;
pub mod text;
