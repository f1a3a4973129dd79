//! The verified core of a client for a JSON-RPC-over-socket blockchain node.
//!
//! A client keeps one socket open and serves three things over it: calls that
//! an application makes and waits for, notifications that the node pushes for
//! the application's subscriptions, and an orderly shutdown. Three loops share
//! the socket: a sender, a receiver and a dispatcher of callbacks.
//!
//! This crate holds what those loops and the calls decide. It does no I/O and
//! never waits: every function takes what a wait brought (a value from a
//! queue, a frame, the outcome of a write) and returns what to do next. The
//! program around it owns the queues, the socket and the clock.
//!
//! - [`json`]: the messages, as trees of plain values.
//! - [`errors`], [`message_channel`]: the errors, the close sentinel, and what
//!   a queue operation amounts to.
//! - [`responses`]: the envelope of a pushed notification.
//! - [`listeners`]: the sender, the receiver and the dispatch loop.
//! - [`connection`]: the lifecycle of a session and the calls on it.
//! - [`rpc`], [`getters`], [`subscriptions`], [`client`]: the requests of a
//!   session and the reading of their answers.
//! - [`config`], [`apis`], [`chain_getters`]: timeouts and API numbers.

pub mod apis;
pub mod chain_getters;
pub mod client;
pub mod config;
pub mod connection;
pub mod errors;
pub mod getters;
pub mod json;
pub mod listeners;
pub mod message_channel;
pub mod responses;
pub mod rpc;
pub mod subscriptions;
