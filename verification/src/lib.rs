//! Fusion of elementwise producers into a row-wise lower-triangular correlation kernel.
//!
//! A correlation takes a `paths x factors` tensor of independent values and a
//! `factors x factors` lower-triangular matrix, and combines each row of the first with
//! the rows of the second. The elementwise operations that produce the independent values
//! run inside the same kernel.
//!
//! The library decides: which operations join the fused kernel ([`fuser`]), what is
//! launched and what happens when a launch fails ([`optimization`]), and which elements
//! one unit of the kernel reads, combines and writes ([`kernel`]). The traces that record
//! operations, the device and the floating-point arithmetic belong to the host.
//! [`guarantees`] states what any call gives back, and [`laws`] what holds across calls and
//! parts.
pub mod fuser;
pub mod guarantees;
pub mod ir;
pub mod kernel;
pub mod laws;
pub mod optimization;
pub mod settings;
