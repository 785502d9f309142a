//! Inline PTX for the tensor-memory-access family: instruction templates and
//! operand constraints.

use crate::lower::LoweringError;
use crate::text::{
    decimal, decimal_text, join, joined, push_repeated, push_text, push_text_if, repeated,
    same_text, text_if, texts,
};
use vstd::prelude::*;

verus! {

/// The placeholders of `count` operands from position `first` on.
pub open spec fn placeholders(first: nat, count: nat) -> Seq<Seq<char>> {
    Seq::new(count, |i: int| "$"@ + decimal((first + i) as nat))
}

/// The placeholders of `count` coordinates from position `first` on, as an
/// instruction lists them.
pub open spec fn coordinates(first: nat, count: nat) -> Seq<char> {
    joined(placeholders(first, count), ", "@)
}

fn coordinates_text(first: usize, count: usize) -> (r: String)
    requires
        first + count <= usize::MAX,
    ensures
        r@ == coordinates(first as nat, count as nat),
{
    let mut list: Vec<String> = Vec::new();
    assert(texts(list@) =~= placeholders(first as nat, 0));
    for i in 0..count
        invariant
            first + count <= usize::MAX,
            texts(list@) == placeholders(first as nat, i as nat),
    {
        push_text(&mut list, "$".to_owned().concat(decimal_text((first + i) as u64).as_str()).as_str());
        assert(texts(list@) =~= placeholders(first as nat, (i + 1) as nat));
    }
    join(&list, ", ")
}

/// The template that copies a tensor tile from global to shared memory.
pub open spec fn g2s_template(dims: nat, multicast: bool, cta_group: i32) -> Seq<char> {
    "{ .reg .u64 %cluster_dst; cvta.to.shared::cluster.u64 %cluster_dst, $0; cp.async.bulk.tensor."@
        + decimal(dims) + "d.shared::cluster.global.tile.mbarrier::complete_tx::bytes"@ + (
    if multicast {
        ".multicast::cluster"@
    } else {
        ""@
    }) + (if cta_group == 2 {
        ".cta_group::2"@
    } else {
        ""@
    }) + " [%cluster_dst], [$2, {"@ + coordinates(3, dims) + "}], [$1]"@ + (if multicast {
        ", $"@ + decimal(3 + dims)
    } else {
        Seq::empty()
    }) + "; }"@
}

/// The constraints of [`g2s_template`], one per operand, then the memory
/// clobber.
pub open spec fn g2s_constraints(dims: nat, multicast: bool) -> Seq<Seq<char>> {
    repeated("l"@, 3) + repeated("r"@, dims) + text_if(multicast, "h"@) + seq!["~{memory}"@]
}

/// Spells the global-to-shared tensor copy as inline PTX.
pub fn g2s_inline_asm(dims: usize, multicast: bool, cta_group: i32) -> (r: (String, String))
    requires
        3 + dims <= usize::MAX,
    ensures
        r.0@ == g2s_template(dims as nat, multicast, cta_group),
        r.1@ == joined(g2s_constraints(dims as nat, multicast), ","@),
{
    let coordinates = coordinates_text(3, dims);
    let multicast_modifier = if multicast {
        ".multicast::cluster"
    } else {
        ""
    };
    let cta_group_modifier = if cta_group == 2 {
        ".cta_group::2"
    } else {
        ""
    };
    let mask = if multicast {
        ", $".to_owned().concat(decimal_text((3 + dims) as u64).as_str())
    } else {
        String::new()
    };
    let template =
        "{ .reg .u64 %cluster_dst; cvta.to.shared::cluster.u64 %cluster_dst, $0; cp.async.bulk.tensor.".to_owned().concat(
    decimal_text(dims as u64).as_str()).concat(
        "d.shared::cluster.global.tile.mbarrier::complete_tx::bytes",
    ).concat(multicast_modifier).concat(cta_group_modifier).concat(" [%cluster_dst], [$2, {").concat(
        coordinates.as_str(),
    ).concat("}], [$1]").concat(mask.as_str()).concat("; }");
    let mut constraints: Vec<String> = Vec::new();
    push_repeated(&mut constraints, "l", 3);
    push_repeated(&mut constraints, "r", dims);
    push_text_if(&mut constraints, multicast, "h");
    push_text(&mut constraints, "~{memory}");
    assert(texts(constraints@) =~= g2s_constraints(dims as nat, multicast));
    (template, join(&constraints, ","))
}

/// The template that copies a tensor tile from shared to global memory.
pub open spec fn s2g_template(dims: nat) -> Seq<char> {
    "cp.async.bulk.tensor."@ + decimal(dims) + "d.global.shared::cta.tile.bulk_group [$1, {"@
        + coordinates(2, dims) + "}], [$0];"@
}

/// The constraints of the shared-to-global tensor templates: source, tensor
/// map and coordinates, then the memory clobber.
pub open spec fn s2g_constraints(dims: nat) -> Seq<Seq<char>> {
    repeated("l"@, 2) + repeated("r"@, dims) + seq!["~{memory}"@]
}

fn s2g_constraints_text(dims: usize) -> (r: String)
    ensures
        r@ == joined(s2g_constraints(dims as nat), ","@),
{
    let mut constraints: Vec<String> = Vec::new();
    push_repeated(&mut constraints, "l", 2);
    push_repeated(&mut constraints, "r", dims);
    push_text(&mut constraints, "~{memory}");
    assert(texts(constraints@) =~= s2g_constraints(dims as nat));
    join(&constraints, ",")
}

/// Spells the shared-to-global tensor copy as inline PTX.
pub fn s2g_inline_asm(dims: usize) -> (r: (String, String))
    requires
        2 + dims <= usize::MAX,
    ensures
        r.0@ == s2g_template(dims as nat),
        r.1@ == joined(s2g_constraints(dims as nat), ","@),
{
    let coordinates = coordinates_text(2, dims);
    let template = "cp.async.bulk.tensor.".to_owned().concat(
        decimal_text(dims as u64).as_str(),
    ).concat("d.global.shared::cta.tile.bulk_group [$1, {").concat(coordinates.as_str()).concat(
        "}], [$0];",
    );
    (template, s2g_constraints_text(dims))
}

/// Whether a name is one of the tensor reduction operations.
pub open spec fn is_reduction(name: Seq<char>) -> bool {
    ||| name == "add"@
    ||| name == "and"@
    ||| name == "dec"@
    ||| name == "inc"@
    ||| name == "max"@
    ||| name == "min"@
    ||| name == "or"@
    ||| name == "xor"@
}

fn known_reduction(name: &str) -> (r: bool)
    ensures
        r == is_reduction(name@),
{
    same_text(name, "add") || same_text(name, "and") || same_text(name, "dec") || same_text(
        name,
        "inc",
    ) || same_text(name, "max") || same_text(name, "min") || same_text(name, "or") || same_text(
        name,
        "xor",
    )
}

/// The PTX spelling of a load mode, if a reduction over `dims` dimensions has
/// that mode.
pub open spec fn ptx_load_mode(dims: nat, load_mode: Seq<char>) -> Option<Seq<char>> {
    if load_mode == "tile"@ {
        Some("tile"@)
    } else if load_mode == "im2col"@ && dims >= 3 {
        Some("im2col_no_offs"@)
    } else {
        None
    }
}

/// Why a tensor reduction is refused, if it is.
pub open spec fn reduce_refusal(
    dims: nat,
    reduction: Seq<char>,
    load_mode: Seq<char>,
) -> Option<Seq<char>> {
    if !(1 <= dims <= 5) {
        Some("TMA reduction requires 1 through 5 dimensions, got "@ + decimal(dims))
    } else if !is_reduction(reduction) {
        Some("unsupported TMA reduction operation `"@ + reduction + "`"@)
    } else if ptx_load_mode(dims, load_mode) is Some {
        None
    } else if load_mode == "im2col"@ {
        Some("TMA reduction im2col requires at least 3 dimensions"@)
    } else {
        Some("unsupported TMA reduction load mode `"@ + load_mode + "`"@)
    }
}

/// The template that reduces a shared tensor tile into global memory.
pub open spec fn reduce_template(
    dims: nat,
    reduction: Seq<char>,
    ptx_mode: Seq<char>,
) -> Seq<char> {
    "cp.reduce.async.bulk.tensor."@ + decimal(dims) + "d.global.shared::cta."@ + reduction + "."@
        + ptx_mode + ".bulk_group [$1, {"@ + coordinates(2, dims) + "}], [$0];"@
}

/// Spells a tensor reduction as inline PTX, or says why it is refused.
pub fn reduce_inline_asm(dims: usize, reduction: &str, load_mode: &str) -> (r: Result<
    (String, String),
    LoweringError,
>)
    ensures
        match r {
            Ok((template, constraints)) => {
                &&& reduce_refusal(dims as nat, reduction@, load_mode@) is None
                &&& template@ == reduce_template(
                    dims as nat,
                    reduction@,
                    ptx_load_mode(dims as nat, load_mode@)->0,
                )
                &&& constraints@ == joined(s2g_constraints(dims as nat), ","@)
            },
            Err(error) => reduce_refusal(dims as nat, reduction@, load_mode@) == Some(
                error.message@,
            ),
        },
{
    if dims < 1 || dims > 5 {
        return Err(
            LoweringError {
                message: "TMA reduction requires 1 through 5 dimensions, got ".to_owned().concat(
                    decimal_text(dims as u64).as_str(),
                ),
            },
        );
    }
    if !known_reduction(reduction) {
        return Err(
            LoweringError {
                message: "unsupported TMA reduction operation `".to_owned().concat(
                    reduction,
                ).concat("`"),
            },
        );
    }
    let ptx_mode = if same_text(load_mode, "tile") {
        "tile"
    } else if same_text(load_mode, "im2col") {
        if dims < 3 {
            return Err(
                LoweringError {
                    message: "TMA reduction im2col requires at least 3 dimensions".to_owned(),
                },
            );
        }
        "im2col_no_offs"
    } else {
        return Err(
            LoweringError {
                message: "unsupported TMA reduction load mode `".to_owned().concat(
                    load_mode,
                ).concat("`"),
            },
        );
    };
    let coordinates = coordinates_text(2, dims);
    let template = "cp.reduce.async.bulk.tensor.".to_owned().concat(
        decimal_text(dims as u64).as_str(),
    ).concat("d.global.shared::cta.").concat(reduction).concat(".").concat(ptx_mode).concat(
        ".bulk_group [$1, {",
    ).concat(coordinates.as_str()).concat("}], [$0];");
    Ok((template, s2g_constraints_text(dims)))
}

/// The template that prefetches a tensor tile into the L2 cache.
pub open spec fn prefetch_tile_template(
    coordinate_count: nat,
    gather4: bool,
    use_cache_hint: bool,
) -> Seq<char> {
    "cp.async.bulk.prefetch.tensor."@ + (if gather4 {
        "2d"@
    } else {
        decimal(coordinate_count) + "d"@
    }) + ".L2.global."@ + (if gather4 {
        "tile::gather4"@
    } else {
        "tile"@
    }) + (if use_cache_hint {
        ".L2::cache_hint"@
    } else {
        ""@
    }) + " [$0, {"@ + coordinates(1, coordinate_count) + "}]"@ + (if use_cache_hint {
        ", $"@ + decimal(coordinate_count + 1)
    } else {
        Seq::empty()
    }) + ";"@
}

/// The constraints of [`prefetch_tile_template`].
pub open spec fn prefetch_tile_constraints(
    coordinate_count: nat,
    use_cache_hint: bool,
) -> Seq<Seq<char>> {
    seq!["l"@] + repeated("r"@, coordinate_count) + text_if(use_cache_hint, "l"@) + seq![
        "~{memory}"@,
    ]
}

/// Spells a tensor tile prefetch as inline PTX.
pub fn prefetch_tile_inline_asm(
    coordinate_count: usize,
    gather4: bool,
    use_cache_hint: bool,
) -> (r: (String, String))
    requires
        1 + coordinate_count <= usize::MAX,
    ensures
        r.0@ == prefetch_tile_template(coordinate_count as nat, gather4, use_cache_hint),
        r.1@ == joined(
            prefetch_tile_constraints(coordinate_count as nat, use_cache_hint),
            ","@,
        ),
{
    let coordinates = coordinates_text(1, coordinate_count);
    let dimensionality = if gather4 {
        "2d".to_owned()
    } else {
        decimal_text(coordinate_count as u64).concat("d")
    };
    let tile = if gather4 {
        "tile::gather4"
    } else {
        "tile"
    };
    let modifier = if use_cache_hint {
        ".L2::cache_hint"
    } else {
        ""
    };
    let hint = if use_cache_hint {
        ", $".to_owned().concat(decimal_text((coordinate_count + 1) as u64).as_str())
    } else {
        String::new()
    };
    let template = "cp.async.bulk.prefetch.tensor.".to_owned().concat(
        dimensionality.as_str(),
    ).concat(".L2.global.").concat(tile).concat(modifier).concat(" [$0, {").concat(
        coordinates.as_str(),
    ).concat("}]").concat(hint.as_str()).concat(";");
    let mut constraints: Vec<String> = Vec::new();
    push_text(&mut constraints, "l");
    push_repeated(&mut constraints, "r", coordinate_count);
    push_text_if(&mut constraints, use_cache_hint, "l");
    push_text(&mut constraints, "~{memory}");
    assert(texts(constraints@) =~= prefetch_tile_constraints(
        coordinate_count as nat,
        use_cache_hint,
    ));
    (template, join(&constraints, ","))
}

} // verus!
