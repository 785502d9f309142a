//! The closed identity of `createpolicy` L2 cache-eviction policies.

use crate::text::{joined, text_if};
use vstd::prelude::*;

verus! {

/// Closed identity for one `createpolicy` L2 cache-eviction policy form.
///
/// The produced 64-bit value is opaque: PTX does not document its encoding, so
/// the only way to obtain one is the instruction itself. The value feeds the
/// `.L2::cache_hint` operand of the bulk-copy, tensor-memory-access and
/// prefetch families.
#[derive(Debug, Clone, Copy, PartialEq, Eq, PartialOrd, Ord, Structural)]
pub struct CachePolicy {
    pub form: CachePolicyForm,
    pub primary: CachePolicyPriority,
    pub secondary: CachePolicySecondaryPriority,
}

#[derive(Debug, Clone, Copy, PartialEq, Eq, PartialOrd, Ord, Structural)]
pub enum CachePolicyForm {
    /// `createpolicy.fractional`: the primary priority applies to a fraction
    /// of the accessed lines, the secondary priority to the rest.
    Fractional,
}

/// Eviction priority applied to the primary share of the accessed lines.
#[derive(Debug, Clone, Copy, PartialEq, Eq, PartialOrd, Ord, Structural)]
pub enum CachePolicyPriority {
    EvictLast,
    EvictNormal,
    EvictFirst,
    EvictUnchanged,
}

/// Eviction priority applied outside the primary share. PTX defaults the
/// omitted qualifier to `evict_unchanged`, so only `evict_first` is spelled.
#[derive(Debug, Clone, Copy, PartialEq, Eq, PartialOrd, Ord, Structural)]
pub enum CachePolicySecondaryPriority {
    EvictUnchanged,
    EvictFirst,
}

impl CachePolicyPriority {
    /// The priority in snake case.
    pub open spec fn name(self) -> Seq<char> {
        match self {
            CachePolicyPriority::EvictLast => "evict_last"@,
            CachePolicyPriority::EvictNormal => "evict_normal"@,
            CachePolicyPriority::EvictFirst => "evict_first"@,
            CachePolicyPriority::EvictUnchanged => "evict_unchanged"@,
        }
    }

    /// The qualifier that PTX spells for the priority.
    pub open spec fn qualifier(self) -> Seq<char> {
        "L2::"@ + self.name()
    }

    /// The qualifier that PTX spells for the priority.
    pub fn ptx_qualifier(self) -> (r: &'static str)
        ensures
            r@ == self.qualifier(),
    {
        proof {
            reveal_strlit("L2::");
            reveal_strlit("evict_last");
            reveal_strlit("evict_normal");
            reveal_strlit("evict_first");
            reveal_strlit("evict_unchanged");
            reveal_strlit("L2::evict_last");
            reveal_strlit("L2::evict_normal");
            reveal_strlit("L2::evict_first");
            reveal_strlit("L2::evict_unchanged");
        }
        match self {
            CachePolicyPriority::EvictLast => "L2::evict_last",
            CachePolicyPriority::EvictNormal => "L2::evict_normal",
            CachePolicyPriority::EvictFirst => "L2::evict_first",
            CachePolicyPriority::EvictUnchanged => "L2::evict_unchanged",
        }
    }
}

impl CachePolicySecondaryPriority {
    /// Whether PTX spells the secondary priority.
    pub open spec fn is_spelled(self) -> bool {
        self == CachePolicySecondaryPriority::EvictFirst
    }
}

impl CachePolicy {
    /// The modifiers of the instruction, in order.
    pub open spec fn modifiers(self) -> Seq<Seq<char>> {
        seq!["fractional"@, self.primary.qualifier()] + text_if(
            self.secondary.is_spelled(),
            "L2::evict_first"@,
        ) + seq!["b64"@]
    }

    /// The exact PTX instruction, without operands.
    pub open spec fn instruction(self) -> Seq<char> {
        "createpolicy.fractional."@ + self.primary.qualifier() + (if self.secondary.is_spelled() {
            ".L2::evict_first"@
        } else {
            ""@
        }) + ".b64"@
    }

    /// The exact PTX instruction, without operands.
    pub fn ptx_instruction(&self) -> (r: String)
        ensures
            r@ == self.instruction(),
    {
        let secondary = match self.secondary {
            CachePolicySecondaryPriority::EvictUnchanged => "",
            CachePolicySecondaryPriority::EvictFirst => ".L2::evict_first",
        };
        "createpolicy.fractional.".to_owned().concat(self.primary.ptx_qualifier()).concat(
            secondary,
        ).concat(".b64")
    }
}

/// The instruction is the mnemonic and its modifiers, with dots between them.
pub proof fn instruction_spells_its_modifiers(policy: CachePolicy)
    ensures
        policy.instruction() == joined(seq!["createpolicy"@] + policy.modifiers(), "."@),
{
    reveal_strlit("createpolicy");
    reveal_strlit("createpolicy.fractional.");
    reveal_strlit("fractional");
    reveal_strlit(".");
    reveal_strlit("L2::evict_first");
    reveal_strlit(".L2::evict_first");
    reveal_strlit("");
    reveal_strlit("b64");
    reveal_strlit(".b64");
    let all = seq!["createpolicy"@] + policy.modifiers();
    let dot = "."@;
    let q = policy.primary.qualifier();
    let head = seq!["createpolicy"@, "fractional"@];
    assert(head.drop_last() =~= seq!["createpolicy"@]);
    assert(joined(head.drop_last(), dot) == "createpolicy"@);
    assert(joined(head, dot) =~= "createpolicy"@ + dot + "fractional"@);
    let with_q = head.push(q);
    assert(with_q.drop_last() =~= head);
    assert(joined(with_q, dot) =~= "createpolicy.fractional."@ + q);
    if policy.secondary.is_spelled() {
        let with_s = with_q.push("L2::evict_first"@);
        assert(with_s.drop_last() =~= with_q);
        assert(all.drop_last() =~= with_s);
        assert(joined(with_s, dot) =~= "createpolicy.fractional."@ + q + ".L2::evict_first"@);
        assert(all.last() == "b64"@);
        assert(joined(all, dot) =~= policy.instruction());
    } else {
        assert(all.drop_last() =~= with_q);
        assert(all.last() == "b64"@);
        assert(joined(all, dot) =~= policy.instruction());
    }
}

/// Distinct policies are distinct instructions.
pub proof fn instructions_are_distinct(a: CachePolicy, b: CachePolicy)
    requires
        a.instruction() == b.instruction(),
    ensures
        a == b,
{
    reveal_strlit("createpolicy.fractional.");
    reveal_strlit("L2::");
    reveal_strlit("evict_last");
    reveal_strlit("evict_normal");
    reveal_strlit("evict_first");
    reveal_strlit("evict_unchanged");
    reveal_strlit(".L2::evict_first");
    reveal_strlit("");
    reveal_strlit(".b64");
    let x = a.instruction();
    let y = b.instruction();
    assert(x.len() == y.len());
    assert(x[34] == y[34]);
    assert(x[35] == y[35]);
    assert(x[36] == y[36]);
}

} // verus!
