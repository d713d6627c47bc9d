//! Core of an authentication and authorization service for multi-tenant
//! applications: account and credential rules, one-time passwords, client
//! and service credentials, request signatures, rate and bot screening,
//! tenant bootstrapping, organization trees, roles and capability checks,
//! and the configuration read from the environment.
pub mod audit;
pub mod auth_context;
pub mod authz;
pub mod bot;
pub mod clients;
pub mod config;
pub mod digest;
pub mod dtos;
pub mod error;
pub mod grants;
pub mod ids;
pub mod invitation;
pub mod migration;
pub mod num;
pub mod oauth;
pub mod org_tree;
pub mod organizations;
pub mod otp;
pub mod password;
pub mod rate_limit;
pub mod roles;
pub mod scope;
pub mod secrets;
pub mod service_account;
pub mod service_registry;
pub mod signature;
pub mod tenant;
pub mod tenant_admin;
pub mod text;
pub mod user_auth;
pub mod users;
pub mod validation;
