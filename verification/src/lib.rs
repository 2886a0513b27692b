//! Host-side management of memory that lives on a compute device.
//!
//! The crate decides; it never talks to a device. A [`buffer::Buffer`] or a
//! [`sub_buffer::SubBuffer`] hands out a [`command::BufferCmd`], a single-use
//! builder that gathers the parameters of one asynchronous memory operation.
//! Consuming the builder yields either a fully validated
//! [`command::Enqueue`] / [`command::EnqueueMap`] request, ready to be
//! submitted to the device runtime by the caller, or the reason why no request
//! may be submitted. A [`mapped::MappedMem`] tracks the host-visible window
//! that a map request produced and decides when, and with which parameters,
//! that window is released.
//!
//! Every function is verified against a contract over the mathematical view
//! of the values it touches.

pub mod bounds;
pub mod buffer;
pub mod command;
pub mod dims;
pub mod error;
pub mod handle;
pub mod mapped;
pub mod sub_buffer;
