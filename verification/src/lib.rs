//! Detection of the execution environment: whether the current host runs
//! inside a virtual machine or a container, and which hypervisor or
//! container manager is in effect.
//!
//! The decision logic is pure: every probe of the running system (a file's
//! first line, a firmware blob, the tracer of the current process) is handed
//! in as a plain value, and the engines reduce those values to a single
//! classification under the documented precedence rules.

pub mod container;
pub mod evidence;
pub mod text;
pub mod virtualization;
