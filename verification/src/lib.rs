//! Verified core of a GPU upload engine.
//!
//! The crate models the transfer path of an interactive renderer: staged
//! resources (buffers and images) that hold their payload in host-visible
//! memory, a transfer queue of pending copy descriptors, and a resource
//! manager that drains the queue, records copy commands and ownership-transfer
//! barriers into a bounded pool of reusable execution contexts, and reclaims
//! each context once its timeline progress counter reaches the expected value.
//!
//! GPU objects appear as plain handle tokens; the surrounding (unverified)
//! engine owns the real driver objects, mirrors the tokens, and performs the
//! submissions and memory operations that the verified scheduler plans.

pub mod buffer;
pub mod command_buffer;
pub mod command_pool;
pub mod device;
pub mod error;
pub mod resource_manager;
pub mod image;
pub mod parser;
pub mod resource_queue;
pub mod swapchain;
pub mod sync;
