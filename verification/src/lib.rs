//! Core of a peer node in an agent-centric distributed ledger.
//!
//! Two tightly coupled pieces are modeled and verified here:
//!
//! * the system-validation pipeline, which drains a queue of pending
//!   ledger operations, checks each against chain-structure and dependency
//!   rules, classifies it into an [`types::Outcome`], and commits exactly one
//!   staging transition per operation; and
//! * the task-supervision tree, which owns every long-lived worker of the
//!   node and converts task failures into node-wide recovery decisions.
//!
//! Network transport, the relational store, cryptography and the async
//! runtime are external collaborators: their results enter these modules as
//! plain values, and every decision taken on those values is verified.

pub mod data;
pub mod limbo;
pub mod manager;
pub mod region;
pub mod sys_validate;
pub mod types;
pub mod workflow;
pub mod workspace;
