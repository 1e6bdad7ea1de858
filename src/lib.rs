//! A type-safe layer over the raw service calls of a μITRON-lineage real-time
//! kernel (the TOPPERS third-generation kernels).
//!
//! Each kernel object kind has a borrowed reference type, which may be copied
//! freely, and, where objects can be created at run time, an owning handle
//! that deletes its object when dropped and a builder that assembles the
//! creation record. Every operation classifies the kernel's negative result
//! codes into a small per-operation error kind.
//!
//! This build targets SOLID-ASP3 with dynamic object creation, restricted
//! tasks, message buffers and the priority inheritance protocol for mutexes.
//! Error kind variants that this kernel cannot produce carry the uninhabited
//! type [`error::Never`].
pub mod abi;
pub mod closure;
pub mod dataqueue;
pub mod error;
pub mod kernel;
pub mod memorypool;
pub mod messagebuffer;
pub mod mutex;
pub mod semaphore;
pub mod task;
pub mod time;
pub mod wait;
