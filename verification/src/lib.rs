//! Architecture cfgs, intrinsic catalogue rules and lowering plans for CUDA
//! device code.

pub mod arch;
pub mod catalog;
pub mod cfg;
pub mod cfg_consistency;
pub mod lower;
pub mod order;
pub mod resolve;
pub mod text;
pub mod unroll;
