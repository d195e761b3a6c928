//! Correlation-and-orchestration core of a four-stage imaging workflow.
//!
//! A study request enters through the submission path: the host queries a
//! remote source system for the study, starts an asynchronous retrieve job,
//! and records both identifiers here. From then on the workflow is driven
//! entirely by job-completion notifications: when a retrieve job finishes,
//! the undesirable series are discarded and an anonymization job is issued;
//! when an anonymization job finishes, a push to a downstream peer is issued;
//! when a push job finishes without failures, the local copy is deleted.
//!
//! This crate holds the verified part of that protocol: the validated value
//! types, the workflow store with its bijective job-correlation tables, the
//! series filter, the anonymization request builder, and the dispatcher's
//! decision functions. The host process performs the actual calls to the
//! imaging server's built-in API and feeds their results back in as plain
//! values.

pub mod anonymize;
pub mod api;
pub mod clients;
pub mod database;
pub mod dicom;
pub mod dicom_date;
pub mod dispatch;
pub mod error;
pub mod filter;
pub mod ids;
pub mod job;
pub mod models;
pub mod response;
pub mod strutil;
