//! Control plane of a compute fabric: an authoritative registry of compute
//! nodes and the agents deployed onto them, the events every change emits,
//! and the rules by which nodes are admitted, updated, commanded and reaped.
//!
//! The library decides and publishes; it neither touches a disk nor a
//! network. Each operation of [`manager::FabricManager`] changes the registry
//! as the state machine of [`model`] prescribes and returns the events to
//! publish and whether the registry has to be persisted. [`bus::EventBus`]
//! publishes events, [`laws`] states what holds over every registry and
//! operation, and the caller persists the registry and speaks to the nodes.
//!
//! Around that core stand the service in front of it ([`service`],
//! [`command`]) and what a coordinator needs besides: configuration
//! ([`config`]), tokens ([`security`]), health ([`observability`]), logging
//! ([`logging`]), spans ([`tracing`]), metrics ([`metrics`], [`telemetry`])
//! and the keys of auxiliary stores ([`storage`]).

pub mod agent;
pub mod bus;
pub mod clock;
pub mod command;
pub mod config;
pub mod event;
pub mod ident;
pub mod laws;
pub mod logging;
pub mod manager;
pub mod metrics;
pub mod model;
pub mod node;
pub mod observability;
pub mod pool;
pub mod progress;
pub mod registry;
pub mod security;
pub mod service;
pub mod storage;
pub mod table;
pub mod telemetry;
pub mod text;
pub mod tracing;
