//! Catalogue records: what is stated of one generated intrinsic.

pub mod cache_policy;
pub mod tcgen05;

use crate::catalog::cache_policy::CachePolicy;
use crate::catalog::tcgen05::Tcgen05;
use crate::lower::IntrinsicBackend;
use vstd::prelude::*;

verus! {

/// The pattern of one operand of an expected PTX instruction.
#[derive(Debug, Clone, Copy, PartialEq, Eq, Structural)]
pub enum OperandPattern {
    Register,
    RegisterList { length: usize },
    Address,
    Immediate,
}

/// The PTX instruction that an intrinsic must become.
#[derive(Debug)]
pub struct ExpectedPtx {
    pub mnemonic: String,
    pub modifiers: Vec<String>,
    pub operands: Vec<OperandPattern>,
}

/// How a backend is given the instruction.
#[derive(Debug, Clone, Copy, PartialEq, Eq, Structural)]
pub enum BackendLoweringMechanism {
    InlinePtx,
    TypedIntrinsic,
}

/// The route through one backend.
#[derive(Debug)]
pub struct BackendLowering {
    pub backend: IntrinsicBackend,
    pub mechanism: BackendLoweringMechanism,
    pub targets: Option<String>,
    pub minimum_ptx: Option<String>,
    pub minimum_sm: Option<String>,
    pub evidence_profile: String,
}

/// Where an intrinsic comes from.
#[derive(Debug)]
pub enum IntrinsicSource {
    /// A PTX instruction without a declaration in LLVM.
    PtxNative { instruction: String },
    /// A declaration that was imported from LLVM.
    LlvmDeclaration { source_record: String },
}

/// A declaration that was imported from LLVM.
#[derive(Debug)]
pub struct ImportedIntrinsic {
    pub source_record: String,
    pub llvm_name: String,
    pub arguments: Vec<String>,
    pub results: Vec<String>,
    pub classes: Vec<String>,
    pub properties: Vec<String>,
    pub selections: Vec<String>,
}

/// The record of one intrinsic.
#[derive(Debug)]
pub struct OverlayIntrinsic {
    pub id: String,
    pub abi_id: String,
    pub operation_key: String,
    pub source: Option<IntrinsicSource>,
    pub source_record: Option<String>,
    pub rust_module: String,
    pub rust_name: String,
    pub rust_arguments: Vec<String>,
    pub rust_result: String,
    pub safe: bool,
    pub must_use: bool,
    pub safe_allowlist_reason: Option<String>,
    pub public_rust_path: String,
    pub compatibility_rust_paths: Vec<String>,
    pub dialect_op_type: String,
    pub dialect_op_name: String,
    pub dialect_operands: Vec<String>,
    pub dialect_results: Vec<String>,
    pub llvm_symbol: Option<String>,
    pub resolved_llvm_symbol: Option<String>,
    pub llvm_arguments: Vec<String>,
    pub llvm_results: Vec<String>,
    pub lowering: String,
    pub pure: bool,
    pub memory: String,
    pub convergent: bool,
    pub execution_scope: String,
    pub minimum_ptx: String,
    pub minimum_sm: Option<String>,
    pub targets: String,
    pub ptx_isa_version: String,
    pub ptx_isa_section: String,
    pub ptx_isa_url: String,
    pub ptx_result: String,
    pub expected_ptx: ExpectedPtx,
    pub backend_lowerings: Vec<BackendLowering>,
    pub summary: String,
    pub cache_policy: Option<CachePolicy>,
    pub tcgen05: Option<Tcgen05>,
    /// The names of the further families whose contract the record carries.
    pub other_contracts: Vec<String>,
}

} // verus!
