//! The decisions behind interactive session verification.
//!
//! A client that verifies another device or user walks through a flow: a request is made or
//! received, it is accepted, it turns into a short auth string (SAS) or a QR code verification,
//! and it ends done or cancelled. Tasks listen to the request and to the concrete verification it
//! turned into, and a delegate hears about what matters to the person in front of the screen.
//!
//! This crate decides; it performs nothing. Every method of
//! [`SessionVerificationController`](controller::SessionVerificationController) takes what a
//! network call or a stream gave back, as a plain value, and answers with what has to be done
//! next: a call to make, a task to spawn, tasks to abort, a callback to deliver. The handles of
//! the outside objects (requests, SAS and QR verifications, tasks) are type parameters that the
//! crate stores and hands back without looking inside.

pub mod controller;
pub mod data;
pub mod delegate;
pub mod error;
pub mod laws;
pub mod listener_tasks;
pub mod model;
pub mod sharing;
pub mod states;
pub mod steps;
pub mod user_id;

pub use error::ClientError;
