//! Verified core of a cloud resource linter and of a profile file editor.
//!
//! The linter half classifies ElastiCache cluster descriptors into
//! resources, derives the CloudWatch metric targets of each resource and
//! frames the report; the editor half rewrites the lines of credential and
//! configuration profiles.
pub mod config;
pub mod dimensions;
pub mod discovery;
pub mod elasticache;
pub mod enrich;
pub mod error;
pub mod ini_config;
pub mod metrics;
pub mod orchestrator;
pub mod pattern;
pub mod report;
pub mod resource;
pub mod text;
