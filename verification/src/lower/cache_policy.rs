//! Lowering of generated `createpolicy` operations.
//!
//! Every one is a pure instruction of one operand: an `f32` fraction in, an
//! opaque 64-bit policy out. The qualifiers are part of the instruction text.

use crate::lower::{
    outcome, Arg, AsmKind, Emission, EmissionView, Lowering, LoweringError,
    LoweringView, OpShape,
};
use crate::text::{decimal, decimal_text};
use vstd::prelude::*;

verus! {

/// The lowering of a `createpolicy` operation with an instruction text.
pub open spec fn cache_policy_outcome(
    operand_count: nat,
    ptx_instruction: Seq<char>,
) -> Result<LoweringView, Seq<char>> {
    if operand_count != 1 {
        Err(
            "generated createpolicy operation requires 1 operand, got "@ + decimal(operand_count),
        )
    } else {
        Ok(
            LoweringView {
                first: None,
                emission: EmissionView::InlineAsm {
                    kind: AsmKind::Pure,
                    result: Some(64),
                    inputs: seq![Arg::Operand(0)],
                    template: ptx_instruction + " $0, $1;"@,
                    constraints: "=l,f"@,
                },
            },
        )
    }
}

/// Lowers a generated `createpolicy` operation to its PTX instruction.
pub fn convert_generated_cache_policy(op: &OpShape, ptx_instruction: &str) -> (r: Result<
    Lowering,
    LoweringError,
>)
    ensures
        outcome(r) == cache_policy_outcome(op.operand_spaces@.len(), ptx_instruction@),
{
    let count = op.operand_spaces.len();
    if count != 1 {
        return Err(
            LoweringError {
                message: "generated createpolicy operation requires 1 operand, got "
                    .to_owned().concat(decimal_text(count as u64).as_str()),
            },
        );
    }
    let inputs: Vec<Arg> = vec![Arg::Operand(0)];
    assert(inputs@ =~= seq![Arg::Operand(0)]);
    Ok(
        Lowering {
            first: None,
            emission: Emission::InlineAsm {
                kind: AsmKind::Pure,
                result: Some(64),
                inputs,
                template: ptx_instruction.to_owned().concat(" $0, $1;"),
                constraints: "=l,f".to_owned(),
            },
        },
    )
}

} // verus!
