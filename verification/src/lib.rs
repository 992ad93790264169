//! Tensors over memory that a device API owns.
//!
//! The library decides what a tensor operation does: which checks it makes,
//! which bytes a host copy moves, and which device API calls it asks for. The
//! calls themselves are made by whoever drives the library.
#![allow(non_camel_case_types)]

pub mod any_array;
pub mod device;
pub mod device_api;
pub mod dlpack;
pub mod extents;
pub mod host_copy;
pub mod laws;
pub mod nd_alloc;
pub mod tensor;
pub mod text;
