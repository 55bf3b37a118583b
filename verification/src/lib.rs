//! Application use cases of the subscription-service backend: validation,
//! normalization and decision rules, each stated as a contract.
pub mod text;
pub mod error;
pub use error::{ApplicationError, RepositoryError};
pub mod filter_dsl;
pub mod logs;
pub mod admin_order;
pub mod admin_user;
pub mod auth;
pub mod keyed_map;
pub mod configuration;
pub mod server_management;
pub mod payment;
pub mod promotion;
pub mod telegram;
pub mod service_usage;
pub mod invite;
pub mod plan;
pub mod order;
pub mod audit;
pub mod account;
pub mod giftcard;
pub mod operator_access;
pub mod system_monitoring;
pub mod ticket;
pub mod subscription;
pub mod statistics;
pub mod reconciliation;
pub mod server_runtime;
pub mod maintenance;
pub mod order_jobs;
pub mod content;
pub mod auth_flow;
pub mod registration;
pub mod step_up;
