//! Lifecycle and batching protocol for function-interception records that sit
//! on top of an inline-hooking engine.
//!
//! The engine itself patches machine code and is reached only by the embedding
//! program. This library decides which engine calls are owed, and in what
//! order, and what each reported status means for the caller.

#![allow(non_camel_case_types)]

pub mod status;
pub mod engine;
pub mod init;
pub mod hook;
pub mod hooks;
pub mod model;
