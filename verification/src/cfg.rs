//! The `cuda_arch*` conditional-compilation vocabulary.
//!
//! Device code asks which architecture it is compiled for with plain `#[cfg]`.
//! This module owns both halves of that contract: the settings that a target
//! produces ([`arch_cfgs`]), and the values that the compiler is told to expect
//! ([`check_cfg_specs`]).
//!
//! ```text
//! sm_90a --> cuda_arch = "90"
//!            cuda_arch_min = "70" .. "90"
//!            cuda_arch_target = "sm_90a"
//!            cuda_arch_specific = "90"
//!            cuda_arch_family_specific = "90"
//! ```
//!
//! The order of capabilities is numeric, so `sm_120` satisfies
//! `cuda_arch_min = "100"`.

use crate::arch::{ArchSuffix, CudaArch, RECORDED_PTX_FLOORS};
use crate::order::{
    ascending, ascending_members, ascending_members_exist, ascending_members_is, insert_number,
    insert_text, number_less, number_order, text_less, text_order,
};
use crate::text::{
    decimal, decimal_text, join, joined, occurs_in, occurs_in_extension, parts_occur_in_joined,
    push_text, texts,
};
use vstd::prelude::*;

verus! {

/// The compute capability of the target.
pub const CFG_ARCH: &'static str = "cuda_arch";

/// Every recorded capability that the target is at least as new as.
pub const CFG_ARCH_MIN: &'static str = "cuda_arch_min";

/// The name of the target, as `sm_XX[a|f]`.
pub const CFG_ARCH_TARGET: &'static str = "cuda_arch_target";

/// The capability, if the target has the suffix `a`.
pub const CFG_ARCH_SPECIFIC: &'static str = "cuda_arch_specific";

/// The capability, if the target has the suffix `a` or `f`.
pub const CFG_ARCH_FAMILY_SPECIFIC: &'static str = "cuda_arch_family_specific";

/// Every name of the vocabulary.
pub const ALL_CFG_NAMES: [&'static str; 5] = [
    CFG_ARCH,
    CFG_ARCH_MIN,
    CFG_ARCH_TARGET,
    CFG_ARCH_SPECIFIC,
    CFG_ARCH_FAMILY_SPECIFIC,
];

/// One setting, `name="value"`.
#[derive(Clone, Debug, PartialEq, Eq)]
pub struct CfgPair {
    /// One of [`ALL_CFG_NAMES`].
    pub name: &'static str,
    /// The value, without quotes.
    pub value: String,
}

/// [`CfgPair`] by what it holds.
pub struct CfgPairView {
    pub name: Seq<char>,
    pub value: Seq<char>,
}

impl View for CfgPair {
    type V = CfgPairView;

    open spec fn view(&self) -> CfgPairView {
        CfgPairView { name: self.name@, value: self.value@ }
    }
}

/// A text in quotes.
pub open spec fn quoted(text: Seq<char>) -> Seq<char> {
    "\""@ + text + "\""@
}

impl CfgPair {
    /// The setting as the compiler takes it: `name="value"`.
    pub fn render(&self) -> (r: String)
        ensures
            r@ == self@.name + "="@ + quoted(self@.value),
    {
        let value = "\"".to_owned().concat(self.value.as_str()).concat("\"");
        self.name.to_owned().concat("=").concat(value.as_str())
    }
}

/// What the settings of a list hold.
pub open spec fn pair_views(pairs: Seq<CfgPair>) -> Seq<CfgPairView> {
    pairs.map_values(|pair: CfgPair| pair@)
}

/// The capabilities that have an entry with one of some suffixes.
pub open spec fn capabilities_with(
    floors: Seq<(u32, ArchSuffix)>,
    suffixes: Set<ArchSuffix>,
) -> Set<u32> {
    Set::new(
        |c: u32|
            exists|i: int|
                0 <= i < floors.len() && (#[trigger] floors[i]).0 == c && suffixes.contains(
                    floors[i].1,
                ),
    )
}

/// The names of the targets.
pub open spec fn target_names(floors: Seq<(u32, ArchSuffix)>) -> Set<Seq<char>> {
    Set::new(
        |name: Seq<char>|
            exists|i: int|
                0 <= i < floors.len() && name == #[trigger] target_at(floors, i).spelling(),
    )
}

/// The target of an entry.
pub open spec fn target_at(floors: Seq<(u32, ArchSuffix)>, i: int) -> CudaArch {
    CudaArch { capability: floors[i].0, suffix: floors[i].1 }
}

/// Any suffix.
pub open spec fn any_suffix() -> Set<ArchSuffix> {
    Set::full()
}

/// The suffix of targets that are specific to an architecture.
pub open spec fn specific_suffix() -> Set<ArchSuffix> {
    set![ArchSuffix::Specific]
}

/// The suffixes of targets that are specific to an architecture or a family.
pub open spec fn family_suffixes() -> Set<ArchSuffix> {
    set![ArchSuffix::Specific, ArchSuffix::Family]
}

/// Distinct recorded capabilities with one of some suffixes, ascending.
pub open spec fn capability_list(suffixes: Set<ArchSuffix>) -> Seq<u32> {
    ascending_members(capabilities_with(RECORDED_PTX_FLOORS@, suffixes), number_less())
}

/// Numbers in decimal.
pub open spec fn decimals(numbers: Seq<u32>) -> Seq<Seq<char>> {
    numbers.map_values(|n: u32| decimal(n as nat))
}

/// One more entry adds its capability if it has one of the suffixes.
proof fn further_entry(floors: Seq<(u32, ArchSuffix)>, suffixes: Set<ArchSuffix>, i: int)
    requires
        0 <= i < floors.len(),
    ensures
        capabilities_with(floors.take(i + 1), suffixes) == (if suffixes.contains(floors[i].1) {
            capabilities_with(floors.take(i), suffixes).insert(floors[i].0)
        } else {
            capabilities_with(floors.take(i), suffixes)
        }),
{
    let shorter = floors.take(i);
    let longer = floors.take(i + 1);
    let before = capabilities_with(shorter, suffixes);
    let after = capabilities_with(longer, suffixes);
    assert(longer[i] == floors[i]);
    assert forall|c: u32| #[trigger] after.contains(c) <==> (before.contains(c) || (c == floors[i].0
        && suffixes.contains(floors[i].1))) by {
        if before.contains(c) {
            let j = choose|j: int|
                0 <= j < shorter.len() && (#[trigger] shorter[j]).0 == c && suffixes.contains(
                    shorter[j].1,
                );
            assert(longer[j] == shorter[j]);
        }
        if after.contains(c) {
            let j = choose|j: int|
                0 <= j < longer.len() && (#[trigger] longer[j]).0 == c && suffixes.contains(
                    longer[j].1,
                );
            if j < i {
                assert(shorter[j] == longer[j]);
            }
        }
    }
    if suffixes.contains(floors[i].1) {
        assert(after =~= before.insert(floors[i].0));
    } else {
        assert(after =~= before);
    }
}

/// Whether a suffix is among some.
fn is_among(suffix: ArchSuffix, suffixes: &Vec<ArchSuffix>) -> (r: bool)
    ensures
        r == suffixes@.to_set().contains(suffix),
{
    for i in 0..suffixes.len()
        invariant
            forall|j: int| 0 <= j < i ==> suffixes@[j] != suffix,
    {
        if suffixes[i] == suffix {
            assert(suffixes@.contains(suffix));
            return true;
        }
    }
    false
}

/// Distinct recorded capabilities that have an entry with one of `suffixes`,
/// ascending.
pub fn recorded_capabilities_with_suffix(suffixes: &Vec<ArchSuffix>) -> (r: Vec<u32>)
    ensures
        r@ == capability_list(suffixes@.to_set()),
        ascending(r@, number_less()),
        r@.to_set() == capabilities_with(RECORDED_PTX_FLOORS@, suffixes@.to_set()),
{
    let mut capabilities: Vec<u32> = Vec::new();
    let ghost floors = RECORDED_PTX_FLOORS@;
    let ghost wanted = suffixes@.to_set();
    assert(capabilities@.to_set() =~= capabilities_with(floors.take(0), wanted));
    for i in 0..RECORDED_PTX_FLOORS.len()
        invariant
            floors == RECORDED_PTX_FLOORS@,
            wanted == suffixes@.to_set(),
            ascending(capabilities@, number_less()),
            capabilities@.to_set() == capabilities_with(floors.take(i as int), wanted),
    {
        let (capability, suffix) = RECORDED_PTX_FLOORS[i];
        proof {
            further_entry(floors, wanted, i as int);
        }
        if is_among(suffix, suffixes) {
            insert_number(&mut capabilities, capability);
        }
    }
    proof {
        assert(floors.take(floors.len() as int) =~= floors);
        number_order();
        ascending_members_is(
            capabilities@,
            capabilities_with(floors, wanted),
            number_less(),
        );
    }
    capabilities
}

/// Distinct recorded capabilities, ascending.
pub fn recorded_capabilities() -> (r: Vec<u32>)
    ensures
        r@ == capability_list(any_suffix()),
        ascending(r@, number_less()),
        r@.to_set() == capabilities_with(RECORDED_PTX_FLOORS@, any_suffix()),
{
    let suffixes: Vec<ArchSuffix> = vec![
        ArchSuffix::Plain,
        ArchSuffix::Specific,
        ArchSuffix::Family,
    ];
    proof {
        assert(suffixes@[0] == ArchSuffix::Plain);
        assert(suffixes@[1] == ArchSuffix::Specific);
        assert(suffixes@[2] == ArchSuffix::Family);
        assert(suffixes@.to_set() =~= any_suffix());
    }
    recorded_capabilities_with_suffix(&suffixes)
}

/// Numbers in decimal.
fn decimal_texts(numbers: &Vec<u32>) -> (r: Vec<String>)
    ensures
        texts(r@) == decimals(numbers@),
{
    let mut list: Vec<String> = Vec::new();
    assert(texts(list@) =~= decimals(numbers@).take(0));
    for i in 0..numbers.len()
        invariant
            texts(list@) == decimals(numbers@).take(i as int),
    {
        push_text(&mut list, decimal_text(numbers[i] as u64).as_str());
        assert(texts(list@) =~= decimals(numbers@).take(i + 1));
    }
    assert(decimals(numbers@).take(numbers.len() as int) =~= decimals(numbers@));
    list
}

/// The recorded capabilities up to a bound, ascending.
pub open spec fn capabilities_up_to(capability: u32) -> Seq<u32> {
    capability_list(any_suffix()).filter(|c: u32| c <= capability)
}

/// A setting, if a condition holds.
pub open spec fn pair_if(condition: bool, name: Seq<char>, value: Seq<char>) -> Seq<CfgPairView> {
    if condition {
        seq![CfgPairView { name, value }]
    } else {
        seq![]
    }
}

/// Settings of one name with some values.
pub open spec fn pairs_of(name: Seq<char>, values: Seq<Seq<char>>) -> Seq<CfgPairView> {
    values.map_values(|value: Seq<char>| CfgPairView { name, value })
}

/// The settings of a target.
pub open spec fn arch_cfg_pairs(arch: CudaArch) -> Seq<CfgPairView> {
    let capability = decimal(arch.capability as nat);
    seq![CfgPairView { name: CFG_ARCH@, value: capability }] + pairs_of(
        CFG_ARCH_MIN@,
        decimals(capabilities_up_to(arch.capability)),
    ) + seq![CfgPairView { name: CFG_ARCH_TARGET@, value: arch.spelling() }] + pair_if(
        arch.suffix == ArchSuffix::Specific,
        CFG_ARCH_SPECIFIC@,
        capability,
    ) + pair_if(arch.suffix != ArchSuffix::Plain, CFG_ARCH_FAMILY_SPECIFIC@, capability)
}

/// Adds one setting.
fn push_pair(pairs: &mut Vec<CfgPair>, name: &'static str, value: String)
    ensures
        pair_views(final(pairs)@) == pair_views(old(pairs)@) + seq![
            (CfgPairView { name: name@, value: value@ }),
        ],
{
    let ghost before = pair_views(pairs@);
    let ghost text = value@;
    pairs.push(CfgPair { name, value });
    assert(pair_views(pairs@) =~= before + seq![CfgPairView { name: name@, value: text }]);
}

/// Adds one setting for each recorded capability up to a bound.
fn push_minimums(pairs: &mut Vec<CfgPair>, capability: u32)
    ensures
        pair_views(final(pairs)@) == pair_views(old(pairs)@) + pairs_of(
            CFG_ARCH_MIN@,
            decimals(capabilities_up_to(capability)),
        ),
{
    let recorded = recorded_capabilities();
    let ghost before = pair_views(pairs@);
    let ghost keep = |c: u32| c <= capability;
    assert(recorded@.take(0).filter(keep) =~= seq![]) by {
        reveal(Seq::filter);
    }
    assert(before =~= before + pairs_of(CFG_ARCH_MIN@, decimals(recorded@.take(0).filter(keep))));
    for i in 0..recorded.len()
        invariant
            keep == (|c: u32| c <= capability),
            pair_views(pairs@) == before + pairs_of(
                CFG_ARCH_MIN@,
                decimals(recorded@.take(i as int).filter(keep)),
            ),
    {
        assert(recorded@.take(i + 1).drop_last() =~= recorded@.take(i as int));
        assert(recorded@.take(i + 1).filter(keep) == (if keep(recorded@[i as int]) {
            recorded@.take(i as int).filter(keep).push(recorded@[i as int])
        } else {
            recorded@.take(i as int).filter(keep)
        })) by {
            reveal(Seq::filter);
        }
        if recorded[i] <= capability {
            push_pair(pairs, CFG_ARCH_MIN, decimal_text(recorded[i] as u64));
            assert(pair_views(pairs@) =~= before + pairs_of(
                CFG_ARCH_MIN@,
                decimals(recorded@.take(i + 1).filter(keep)),
            ));
        }
    }
    assert(recorded@.take(recorded.len() as int) =~= recorded@);
}

/// The settings of a target: its capability, the recorded capabilities that it
/// is at least as new as, its name, and its capability again under the names
/// that its suffix sets.
pub fn arch_cfgs(arch: &CudaArch) -> (r: Vec<CfgPair>)
    ensures
        pair_views(r@) == arch_cfg_pairs(*arch),
{
    let capability = arch.capability();
    let mut cfgs: Vec<CfgPair> = Vec::new();
    push_pair(&mut cfgs, CFG_ARCH, decimal_text(capability as u64));
    push_minimums(&mut cfgs, capability);
    push_pair(&mut cfgs, CFG_ARCH_TARGET, arch.sm());
    if arch.suffix == ArchSuffix::Specific {
        push_pair(&mut cfgs, CFG_ARCH_SPECIFIC, decimal_text(capability as u64));
    }
    if arch.suffix != ArchSuffix::Plain {
        push_pair(&mut cfgs, CFG_ARCH_FAMILY_SPECIFIC, decimal_text(capability as u64));
    }
    assert(pair_views(cfgs@) =~= arch_cfg_pairs(*arch));
    cfgs
}

/// One more entry adds its name.
proof fn further_target(floors: Seq<(u32, ArchSuffix)>, i: int)
    requires
        0 <= i < floors.len(),
    ensures
        target_names(floors.take(i + 1)) == target_names(floors.take(i)).insert(
            target_at(floors, i).spelling(),
        ),
{
    let shorter = floors.take(i);
    let longer = floors.take(i + 1);
    assert(longer[i] == floors[i]);
    assert(target_at(longer, i) == target_at(floors, i));
    assert forall|name: Seq<char>| #[trigger]
        target_names(longer).contains(name) <==> target_names(shorter).insert(
            target_at(floors, i).spelling(),
        ).contains(name) by {
        if target_names(shorter).contains(name) {
            let j = choose|j: int|
                0 <= j < shorter.len() && name == #[trigger] target_at(shorter, j).spelling();
            assert(target_at(longer, j) == target_at(shorter, j));
        }
        if target_names(longer).contains(name) {
            let j = choose|j: int|
                0 <= j < longer.len() && name == #[trigger] target_at(longer, j).spelling();
            if j < i {
                assert(target_at(shorter, j) == target_at(longer, j));
            }
        }
    }
    assert(target_names(longer) =~= target_names(shorter).insert(target_at(floors, i).spelling()));
}

/// Distinct names of recorded targets, ascending.
pub open spec fn target_list() -> Seq<Seq<char>> {
    ascending_members(target_names(RECORDED_PTX_FLOORS@), text_less())
}

/// Distinct names of recorded targets, ascending.
fn recorded_targets() -> (r: Vec<String>)
    ensures
        texts(r@) == target_list(),
{
    let mut targets: Vec<String> = Vec::new();
    let ghost floors = RECORDED_PTX_FLOORS@;
    assert(texts(targets@).to_set() =~= target_names(floors.take(0)));
    for i in 0..RECORDED_PTX_FLOORS.len()
        invariant
            floors == RECORDED_PTX_FLOORS@,
            ascending(texts(targets@), text_less()),
            texts(targets@).to_set() == target_names(floors.take(i as int)),
    {
        let (capability, suffix) = RECORDED_PTX_FLOORS[i];
        proof {
            further_target(floors, i as int);
        }
        let arch = CudaArch { capability, suffix };
        insert_text(&mut targets, arch.sm());
    }
    proof {
        assert(floors.take(floors.len() as int) =~= floors);
        text_order();
        ascending_members_is(texts(targets@), target_names(floors), text_less());
    }
    targets
}

/// The values that a name of the vocabulary may have, in the order in which
/// they are declared.
pub open spec fn declared_values(name: Seq<char>) -> Seq<Seq<char>> {
    if name == CFG_ARCH@ || name == CFG_ARCH_MIN@ {
        decimals(capability_list(any_suffix()))
    } else if name == CFG_ARCH_TARGET@ {
        target_list()
    } else if name == CFG_ARCH_SPECIFIC@ {
        decimals(capability_list(specific_suffix()))
    } else {
        decimals(capability_list(family_suffixes()))
    }
}

/// The declaration of a name with its values: `cfg(NAME, values("a", "b"))`.
pub open spec fn declaration(name: Seq<char>, values: Seq<Seq<char>>) -> Seq<char> {
    "cfg("@ + name + ", values("@ + joined(
        values.map_values(|value: Seq<char>| quoted(value)),
        ", "@,
    ) + "))"@
}

/// Writes the declaration of a name with its values.
fn declare(name: &str, values: &Vec<String>) -> (r: String)
    ensures
        r@ == declaration(name@, texts(values@)),
{
    let mut rendered: Vec<String> = Vec::new();
    let ghost all = texts(values@).map_values(|value: Seq<char>| quoted(value));
    assert(texts(rendered@) =~= all.take(0));
    for i in 0..values.len()
        invariant
            all == texts(values@).map_values(|value: Seq<char>| quoted(value)),
            texts(rendered@) == all.take(i as int),
    {
        push_text(
            &mut rendered,
            "\"".to_owned().concat(values[i].as_str()).concat("\"").as_str(),
        );
        assert(texts(rendered@) =~= all.take(i + 1));
    }
    assert(all.take(values.len() as int) =~= all);
    "cfg(".to_owned().concat(name).concat(", values(").concat(
        join(&rendered, ", ").as_str(),
    ).concat("))")
}

/// The names of the vocabulary are distinct.
proof fn names_are_distinct()
    ensures
        CFG_ARCH@ != CFG_ARCH_TARGET@,
        CFG_ARCH@ != CFG_ARCH_SPECIFIC@,
        CFG_ARCH@ != CFG_ARCH_FAMILY_SPECIFIC@,
        CFG_ARCH_MIN@ != CFG_ARCH_TARGET@,
        CFG_ARCH_MIN@ != CFG_ARCH_SPECIFIC@,
        CFG_ARCH_MIN@ != CFG_ARCH_FAMILY_SPECIFIC@,
        CFG_ARCH_TARGET@ != CFG_ARCH_SPECIFIC@,
        CFG_ARCH_TARGET@ != CFG_ARCH_FAMILY_SPECIFIC@,
        CFG_ARCH_SPECIFIC@ != CFG_ARCH_FAMILY_SPECIFIC@,
        CFG_ARCH@ != CFG_ARCH_MIN@,
{
    reveal_strlit("cuda_arch");
    reveal_strlit("cuda_arch_min");
    reveal_strlit("cuda_arch_target");
    reveal_strlit("cuda_arch_specific");
    reveal_strlit("cuda_arch_family_specific");
    assert(CFG_ARCH@.len() == 9);
    assert(CFG_ARCH_MIN@.len() == 13);
    assert(CFG_ARCH_TARGET@.len() == 16);
    assert(CFG_ARCH_SPECIFIC@.len() == 18);
    assert(CFG_ARCH_FAMILY_SPECIFIC@.len() == 25);
}

/// Declares the values of every name in [`ALL_CFG_NAMES`], in order.
pub fn check_cfg_specs() -> (r: Vec<String>)
    ensures
        texts(r@) == ALL_CFG_NAMES@.map_values(
            |name: &'static str| declaration(name@, declared_values(name@)),
        ),
{
    let capabilities = decimal_texts(&recorded_capabilities());
    let specific: Vec<ArchSuffix> = vec![ArchSuffix::Specific];
    let family: Vec<ArchSuffix> = vec![ArchSuffix::Specific, ArchSuffix::Family];
    proof {
        assert(specific@[0] == ArchSuffix::Specific);
        assert(specific@.to_set() =~= specific_suffix());
        assert(family@[0] == ArchSuffix::Specific);
        assert(family@[1] == ArchSuffix::Family);
        assert(family@.to_set() =~= family_suffixes());
        names_are_distinct();
    }
    let mut specs: Vec<String> = Vec::new();
    push_text(&mut specs, declare(CFG_ARCH, &capabilities).as_str());
    push_text(&mut specs, declare(CFG_ARCH_MIN, &capabilities).as_str());
    push_text(&mut specs, declare(CFG_ARCH_TARGET, &recorded_targets()).as_str());
    push_text(
        &mut specs,
        declare(
            CFG_ARCH_SPECIFIC,
            &decimal_texts(&recorded_capabilities_with_suffix(&specific)),
        ).as_str(),
    );
    push_text(
        &mut specs,
        declare(
            CFG_ARCH_FAMILY_SPECIFIC,
            &decimal_texts(&recorded_capabilities_with_suffix(&family)),
        ).as_str(),
    );
    assert(texts(specs@) =~= ALL_CFG_NAMES@.map_values(
        |name: &'static str| declaration(name@, declared_values(name@)),
    ));
    specs
}

/// Whether a target is on record.
pub open spec fn is_recorded(arch: CudaArch) -> bool {
    exists|i: int|
        0 <= i < RECORDED_PTX_FLOORS@.len() && arch == #[trigger] target_at(RECORDED_PTX_FLOORS@, i)
}

/// Whether a target with a capability is on record.
pub open spec fn is_recorded_capability(capability: u32) -> bool {
    capabilities_with(RECORDED_PTX_FLOORS@, any_suffix()).contains(capability)
}

/// A list of capabilities holds the recorded ones with the suffixes.
proof fn capability_list_holds(suffixes: Set<ArchSuffix>, capability: u32)
    ensures
        ascending(capability_list(suffixes), number_less()),
        capability_list(suffixes).contains(capability) <==> capabilities_with(
            RECORDED_PTX_FLOORS@,
            suffixes,
        ).contains(capability),
{
    let floors = RECORDED_PTX_FLOORS@;
    let kept = floors.filter(|f: (u32, ArchSuffix)| suffixes.contains(f.1));
    let capabilities = kept.map_values(|f: (u32, ArchSuffix)| f.0);
    number_order();
    assert(capabilities.to_set() =~= capabilities_with(floors, suffixes)) by {
        assert forall|c: u32|
            capabilities.to_set().contains(c) <==> #[trigger] capabilities_with(
                floors,
                suffixes,
            ).contains(c) by {
            let keep = |f: (u32, ArchSuffix)| suffixes.contains(f.1);
            if capabilities.contains(c) {
                let i = choose|i: int| 0 <= i < capabilities.len() && capabilities[i] == c;
                assert(kept.contains(kept[i]));
                filtered_members(floors, keep, kept[i]);
                let j = choose|j: int| 0 <= j < floors.len() && floors[j] == kept[i];
                assert(floors[j].0 == c);
            }
            if capabilities_with(floors, suffixes).contains(c) {
                let j = choose|j: int|
                    0 <= j < floors.len() && (#[trigger] floors[j]).0 == c && suffixes.contains(
                        floors[j].1,
                    );
                filtered_members(floors, keep, floors[j]);
                let i = choose|i: int| 0 <= i < kept.len() && kept[i] == floors[j];
                assert(capabilities[i] == c);
            }
        }
    }
    ascending_members_exist(capabilities, number_less());
    assert(capability_list(suffixes).contains(capability) <==> capability_list(
        suffixes,
    ).to_set().contains(capability));
}

/// A filtered list holds the elements that pass.
proof fn filtered_members<T>(s: Seq<T>, keep: spec_fn(T) -> bool, x: T)
    ensures
        s.filter(keep).contains(x) <==> s.contains(x) && keep(x),
    decreases s.len(),
{
    reveal(Seq::filter);
    if s.len() > 0 {
        let shorter = s.drop_last();
        filtered_members(shorter, keep, x);
        let kept = s.filter(keep);
        let before = shorter.filter(keep);
        if before.contains(x) {
            let i = choose|i: int| 0 <= i < before.len() && before[i] == x;
            assert(kept[i] == x);
        }
        if shorter.contains(x) {
            let i = choose|i: int| 0 <= i < shorter.len() && shorter[i] == x;
            assert(s[i] == x);
        }
        if s.contains(x) {
            let i = choose|i: int| 0 <= i < s.len() && s[i] == x;
            if i < shorter.len() {
                assert(shorter[i] == x);
            } else if keep(x) {
                assert(kept.last() == x);
                assert(kept[kept.len() - 1] == x);
            }
        }
        if kept.contains(x) {
            let i = choose|i: int| 0 <= i < kept.len() && kept[i] == x;
            if i < before.len() {
                assert(before[i] == x);
            } else {
                assert(s[s.len() - 1] == x);
            }
        }
    }
}

/// Numbers in decimal hold the decimal of each number.
proof fn decimals_hold(numbers: Seq<u32>, value: Seq<char>)
    ensures
        decimals(numbers).contains(value) <==> exists|c: u32|
            #![trigger decimal(c as nat)]
            numbers.contains(c) && value == decimal(c as nat),
{
    if decimals(numbers).contains(value) {
        let i = choose|i: int| 0 <= i < decimals(numbers).len() && decimals(numbers)[i] == value;
        assert(numbers.contains(numbers[i]));
        assert(value == decimal(numbers[i] as nat));
    }
    if exists|c: u32|
        #![trigger decimal(c as nat)]
        numbers.contains(c) && value == decimal(c as nat) {
        let c = choose|c: u32|
            #![trigger decimal(c as nat)]
            numbers.contains(c) && value == decimal(c as nat);
        let i = choose|i: int| 0 <= i < numbers.len() && numbers[i] == c;
        assert(decimals(numbers)[i] == value);
    }
}

/// Whether a target has a setting.
pub open spec fn is_set(arch: CudaArch, name: Seq<char>, value: Seq<char>) -> bool {
    arch_cfg_pairs(arch).contains(CfgPairView { name, value })
}

/// Which settings a target has under each name, value by value.
proof fn settings_by_name(arch: CudaArch, value: Seq<char>)
    ensures
        is_set(arch, CFG_ARCH@, value) <==> value == decimal(arch.capability as nat),
        is_set(arch, CFG_ARCH_MIN@, value) <==> decimals(
            capabilities_up_to(arch.capability),
        ).contains(value),
        is_set(arch, CFG_ARCH_TARGET@, value) <==> value == arch.spelling(),
        is_set(arch, CFG_ARCH_SPECIFIC@, value) <==> arch.suffix == ArchSuffix::Specific && value
            == decimal(arch.capability as nat),
        is_set(arch, CFG_ARCH_FAMILY_SPECIFIC@, value) <==> arch.suffix != ArchSuffix::Plain
            && value == decimal(arch.capability as nat),
{
    names_are_distinct();
    let capability = decimal(arch.capability as nat);
    let minimums = decimals(capabilities_up_to(arch.capability));
    let n = minimums.len() as int;
    let all = arch_cfg_pairs(arch);
    assert(all[0] == CfgPairView { name: CFG_ARCH@, value: capability });
    assert forall|i: int| 1 <= i <= n implies #[trigger] all[i] == (CfgPairView {
        name: CFG_ARCH_MIN@,
        value: minimums[i - 1],
    }) by {}
    assert(all[n + 1] == CfgPairView { name: CFG_ARCH_TARGET@, value: arch.spelling() });
    if arch.suffix == ArchSuffix::Specific {
        assert(all.len() == n + 4);
        assert(all[n + 2] == CfgPairView { name: CFG_ARCH_SPECIFIC@, value: capability });
        assert(all[n + 3] == CfgPairView { name: CFG_ARCH_FAMILY_SPECIFIC@, value: capability });
    } else if arch.suffix == ArchSuffix::Family {
        assert(all.len() == n + 3);
        assert(all[n + 2] == CfgPairView { name: CFG_ARCH_FAMILY_SPECIFIC@, value: capability });
    } else {
        assert(all.len() == n + 2);
    }
    if minimums.contains(value) {
        let j = choose|j: int| 0 <= j < minimums.len() && minimums[j] == value;
        assert(all[j + 1] == CfgPairView { name: CFG_ARCH_MIN@, value });
    }
    if is_set(arch, CFG_ARCH_MIN@, value) {
        let i = choose|i: int|
            0 <= i < all.len() && all[i] == CfgPairView { name: CFG_ARCH_MIN@, value };
        assert(1 <= i <= n);
        assert(minimums[i - 1] == value);
    }
}

/// The minimum capabilities of a target are the recorded ones up to its own.
pub proof fn minimums_are_the_recorded_up_to_the_target(arch: CudaArch, value: Seq<char>)
    ensures
        is_set(arch, CFG_ARCH_MIN@, value) <==> exists|c: u32|
            #![trigger decimal(c as nat)]
            is_recorded_capability(c) && c <= arch.capability && value == decimal(c as nat),
{
    settings_by_name(arch, value);
    let list = capability_list(any_suffix());
    let keep = |c: u32| c <= arch.capability;
    let kept = capabilities_up_to(arch.capability);
    decimals_hold(kept, value);
    if is_set(arch, CFG_ARCH_MIN@, value) {
        let c = choose|c: u32|
            #![trigger decimal(c as nat)]
            kept.contains(c) && value == decimal(c as nat);
        filtered_members(list, keep, c);
        capability_list_holds(any_suffix(), c);
    }
    if exists|c: u32|
        #![trigger decimal(c as nat)]
        is_recorded_capability(c) && c <= arch.capability && value == decimal(c as nat) {
        let c = choose|c: u32|
            #![trigger decimal(c as nat)]
            is_recorded_capability(c) && c <= arch.capability && value == decimal(c as nat);
        filtered_members(list, keep, c);
        capability_list_holds(any_suffix(), c);
        assert(kept.contains(c));
    }
}

/// A newer target has every minimum that an older one has: the order is that
/// of the numbers.
pub proof fn newer_targets_keep_minimums(older: CudaArch, newer: CudaArch, value: Seq<char>)
    requires
        older.capability <= newer.capability,
        is_set(older, CFG_ARCH_MIN@, value),
    ensures
        is_set(newer, CFG_ARCH_MIN@, value),
{
    minimums_are_the_recorded_up_to_the_target(older, value);
    minimums_are_the_recorded_up_to_the_target(newer, value);
}

/// The suffix `a` sets both specific names, `f` the family name, and no suffix
/// neither. The capability and the name of the target are always set.
pub proof fn suffixes_set_the_specific_names(arch: CudaArch, value: Seq<char>)
    ensures
        is_set(arch, CFG_ARCH@, value) <==> value == decimal(arch.capability as nat),
        is_set(arch, CFG_ARCH_TARGET@, value) <==> value == arch.spelling(),
        is_set(arch, CFG_ARCH_SPECIFIC@, value) <==> arch.suffix == ArchSuffix::Specific && value
            == decimal(arch.capability as nat),
        is_set(arch, CFG_ARCH_FAMILY_SPECIFIC@, value) <==> arch.suffix != ArchSuffix::Plain
            && value == decimal(arch.capability as nat),
{
    settings_by_name(arch, value);
}

/// A minimum is always a declared value, whatever the target.
pub proof fn minimums_are_declared(arch: CudaArch, value: Seq<char>)
    requires
        is_set(arch, CFG_ARCH_MIN@, value),
    ensures
        declared_values(CFG_ARCH_MIN@).contains(value),
{
    minimums_are_the_recorded_up_to_the_target(arch, value);
    let c = choose|c: u32|
        #![trigger decimal(c as nat)]
        is_recorded_capability(c) && c <= arch.capability && value == decimal(c as nat);
    capability_list_holds(any_suffix(), c);
    decimals_hold(capability_list(any_suffix()), value);
}

/// Every setting of a recorded target has one of the owned names and one of the
/// values that are declared for it.
pub proof fn settings_are_declared(arch: CudaArch, i: int)
    requires
        is_recorded(arch),
        0 <= i < arch_cfg_pairs(arch).len(),
    ensures
        exists|k: int|
            0 <= k < 5 && (#[trigger] ALL_CFG_NAMES@[k])@ == arch_cfg_pairs(arch)[i].name,
        declared_values(arch_cfg_pairs(arch)[i].name).contains(arch_cfg_pairs(arch)[i].value),
{
    names_are_distinct();
    let floors = RECORDED_PTX_FLOORS@;
    let pair = arch_cfg_pairs(arch)[i];
    let (name, value) = (pair.name, pair.value);
    let c = arch.capability;
    let at = choose|at: int| 0 <= at < floors.len() && arch == #[trigger] target_at(floors, at);
    assert(floors[at].0 == c && floors[at].1 == arch.suffix);
    assert(ALL_CFG_NAMES@[0]@ == CFG_ARCH@);
    assert(ALL_CFG_NAMES@[1]@ == CFG_ARCH_MIN@);
    assert(ALL_CFG_NAMES@[2]@ == CFG_ARCH_TARGET@);
    assert(ALL_CFG_NAMES@[3]@ == CFG_ARCH_SPECIFIC@);
    assert(ALL_CFG_NAMES@[4]@ == CFG_ARCH_FAMILY_SPECIFIC@);
    assert(pair == CfgPairView { name, value });
    assert(is_set(arch, name, value)) by {
        assert(arch_cfg_pairs(arch)[i] == CfgPairView { name, value });
    }
    settings_by_name(arch, value);
    capability_list_holds(any_suffix(), c);
    capability_list_holds(specific_suffix(), c);
    capability_list_holds(family_suffixes(), c);
    decimals_hold(capability_list(any_suffix()), value);
    decimals_hold(capability_list(specific_suffix()), value);
    decimals_hold(capability_list(family_suffixes()), value);
    if name == CFG_ARCH_MIN@ {
        minimums_are_declared(arch, value);
    } else if name == CFG_ARCH_TARGET@ {
        target_list_holds(at);
    }
}

/// The list of target names holds the name of every entry.
proof fn target_list_holds(at: int)
    requires
        0 <= at < RECORDED_PTX_FLOORS@.len(),
    ensures
        target_list().contains(target_at(RECORDED_PTX_FLOORS@, at).spelling()),
{
    let floors = RECORDED_PTX_FLOORS@;
    let names = Seq::new(floors.len(), |i: int| target_at(floors, i).spelling());
    text_order();
    assert(names.to_set() =~= target_names(floors)) by {
        assert forall|name: Seq<char>|
            names.to_set().contains(name) <==> #[trigger] target_names(floors).contains(name) by {
            if names.contains(name) {
                let i = choose|i: int| 0 <= i < names.len() && names[i] == name;
                assert(name == target_at(floors, i).spelling());
            }
            if target_names(floors).contains(name) {
                let i = choose|i: int|
                    0 <= i < floors.len() && name == #[trigger] target_at(floors, i).spelling();
                assert(names[i] == name);
            }
        }
    }
    ascending_members_exist(names, text_less());
    assert(names[at] == target_at(floors, at).spelling());
    assert(target_list().to_set().contains(names[at]));
}

/// A declaration begins with its name, ends with the list, and shows each of
/// its values in quotes.
pub proof fn declarations_show_their_values(name: Seq<char>, values: Seq<Seq<char>>, i: int)
    requires
        0 <= i < values.len(),
    ensures
        ("cfg("@ + name + ", values("@).is_prefix_of(declaration(name, values)),
        "))"@.is_suffix_of(declaration(name, values)),
        occurs_in(quoted(values[i]), declaration(name, values)),
{
    let parts = values.map_values(|value: Seq<char>| quoted(value));
    let head = "cfg("@ + name + ", values("@;
    let list = joined(parts, ", "@);
    let whole = declaration(name, values);
    parts_occur_in_joined(parts, ", "@, i);
    occurs_in_extension(quoted(values[i]), head, list, "))"@);
    assert(whole.subrange(0, head.len() as int) =~= head);
    assert(whole.subrange(whole.len() - "))"@.len(), whole.len() as int) =~= "))"@);
}

/// The recorded targets: which capabilities are on record, which of them are
/// specific to an architecture, and which to a family.
pub proof fn recorded_targets_are_these(c: u32)
    ensures
        is_recorded(CudaArch { capability: c, suffix: ArchSuffix::Plain }) <==> c == 70 || c == 72 || c == 75 || c == 80 || c == 86 || c == 87 || c == 88 || c == 89 || c == 90 || c == 100 || c == 101 || c == 103 || c == 110 || c == 120 || c == 121,
        is_recorded(CudaArch { capability: c, suffix: ArchSuffix::Specific }) <==> c == 90 || c == 100 || c == 101 || c == 103 || c == 110 || c == 120 || c == 121,
        is_recorded(CudaArch { capability: c, suffix: ArchSuffix::Family }) <==> c == 100 || c == 101 || c == 103 || c == 110 || c == 120 || c == 121,
        is_recorded_capability(c) <==> c == 70 || c == 72 || c == 75 || c == 80 || c == 86 || c == 87 || c == 88 || c == 89 || c == 90 || c == 100 || c == 101 || c == 103 || c == 110 || c == 120 || c == 121,
{
    let floors = RECORDED_PTX_FLOORS@;
    recorded_entries();
    let plain = CudaArch { capability: c, suffix: ArchSuffix::Plain };
    let specific = CudaArch { capability: c, suffix: ArchSuffix::Specific };
    let family = CudaArch { capability: c, suffix: ArchSuffix::Family };
    assert forall|i: int| 0 <= i < floors.len() && plain == #[trigger] target_at(
        floors,
        i,
    ) implies c == 70 || c == 72 || c == 75 || c == 80 || c == 86 || c == 87 || c == 88 || c == 89 || c == 90 || c == 100 || c == 101 || c == 103 || c == 110 || c == 120 || c == 121 by {}
    assert forall|i: int| 0 <= i < floors.len() && specific == #[trigger] target_at(
        floors,
        i,
    ) implies c == 90 || c == 100 || c == 101 || c == 103 || c == 110 || c == 120 || c == 121 by {}
    assert forall|i: int| 0 <= i < floors.len() && family == #[trigger] target_at(
        floors,
        i,
    ) implies c == 100 || c == 101 || c == 103 || c == 110 || c == 120 || c == 121 by {}
    assert(target_at(floors, 0) == (CudaArch { capability: 70, suffix: ArchSuffix::Plain }));
    assert(target_at(floors, 1) == (CudaArch { capability: 72, suffix: ArchSuffix::Plain }));
    assert(target_at(floors, 2) == (CudaArch { capability: 75, suffix: ArchSuffix::Plain }));
    assert(target_at(floors, 3) == (CudaArch { capability: 80, suffix: ArchSuffix::Plain }));
    assert(target_at(floors, 4) == (CudaArch { capability: 86, suffix: ArchSuffix::Plain }));
    assert(target_at(floors, 5) == (CudaArch { capability: 87, suffix: ArchSuffix::Plain }));
    assert(target_at(floors, 6) == (CudaArch { capability: 89, suffix: ArchSuffix::Plain }));
    assert(target_at(floors, 7) == (CudaArch { capability: 90, suffix: ArchSuffix::Plain }));
    assert(target_at(floors, 8) == (CudaArch { capability: 90, suffix: ArchSuffix::Specific }));
    assert(target_at(floors, 9) == (CudaArch { capability: 100, suffix: ArchSuffix::Plain }));
    assert(target_at(floors, 10) == (CudaArch { capability: 100, suffix: ArchSuffix::Specific }));
    assert(target_at(floors, 11) == (CudaArch { capability: 101, suffix: ArchSuffix::Plain }));
    assert(target_at(floors, 12) == (CudaArch { capability: 101, suffix: ArchSuffix::Specific }));
    assert(target_at(floors, 13) == (CudaArch { capability: 120, suffix: ArchSuffix::Plain }));
    assert(target_at(floors, 14) == (CudaArch { capability: 120, suffix: ArchSuffix::Specific }));
    assert(target_at(floors, 15) == (CudaArch { capability: 100, suffix: ArchSuffix::Family }));
    assert(target_at(floors, 16) == (CudaArch { capability: 101, suffix: ArchSuffix::Family }));
    assert(target_at(floors, 17) == (CudaArch { capability: 103, suffix: ArchSuffix::Plain }));
    assert(target_at(floors, 18) == (CudaArch { capability: 103, suffix: ArchSuffix::Specific }));
    assert(target_at(floors, 19) == (CudaArch { capability: 103, suffix: ArchSuffix::Family }));
    assert(target_at(floors, 20) == (CudaArch { capability: 120, suffix: ArchSuffix::Family }));
    assert(target_at(floors, 21) == (CudaArch { capability: 121, suffix: ArchSuffix::Plain }));
    assert(target_at(floors, 22) == (CudaArch { capability: 121, suffix: ArchSuffix::Specific }));
    assert(target_at(floors, 23) == (CudaArch { capability: 121, suffix: ArchSuffix::Family }));
    assert(target_at(floors, 24) == (CudaArch { capability: 88, suffix: ArchSuffix::Plain }));
    assert(target_at(floors, 25) == (CudaArch { capability: 110, suffix: ArchSuffix::Plain }));
    assert(target_at(floors, 26) == (CudaArch { capability: 110, suffix: ArchSuffix::Specific }));
    assert(target_at(floors, 27) == (CudaArch { capability: 110, suffix: ArchSuffix::Family }));
    assert forall|i: int| 0 <= i < floors.len() && (#[trigger] floors[i]).0
        == c implies c == 70 || c == 72 || c == 75 || c == 80 || c == 86 || c == 87 || c == 88 || c == 89 || c == 90 || c == 100 || c == 101 || c == 103 || c == 110 || c == 120 || c == 121 by {}
}

/// The entries on record, one by one.
proof fn recorded_entries()
    ensures
        RECORDED_PTX_FLOORS@.len() == 28,
        RECORDED_PTX_FLOORS@[0] == (70u32, ArchSuffix::Plain),
        RECORDED_PTX_FLOORS@[1] == (72u32, ArchSuffix::Plain),
        RECORDED_PTX_FLOORS@[2] == (75u32, ArchSuffix::Plain),
        RECORDED_PTX_FLOORS@[3] == (80u32, ArchSuffix::Plain),
        RECORDED_PTX_FLOORS@[4] == (86u32, ArchSuffix::Plain),
        RECORDED_PTX_FLOORS@[5] == (87u32, ArchSuffix::Plain),
        RECORDED_PTX_FLOORS@[6] == (89u32, ArchSuffix::Plain),
        RECORDED_PTX_FLOORS@[7] == (90u32, ArchSuffix::Plain),
        RECORDED_PTX_FLOORS@[8] == (90u32, ArchSuffix::Specific),
        RECORDED_PTX_FLOORS@[9] == (100u32, ArchSuffix::Plain),
        RECORDED_PTX_FLOORS@[10] == (100u32, ArchSuffix::Specific),
        RECORDED_PTX_FLOORS@[11] == (101u32, ArchSuffix::Plain),
        RECORDED_PTX_FLOORS@[12] == (101u32, ArchSuffix::Specific),
        RECORDED_PTX_FLOORS@[13] == (120u32, ArchSuffix::Plain),
        RECORDED_PTX_FLOORS@[14] == (120u32, ArchSuffix::Specific),
        RECORDED_PTX_FLOORS@[15] == (100u32, ArchSuffix::Family),
        RECORDED_PTX_FLOORS@[16] == (101u32, ArchSuffix::Family),
        RECORDED_PTX_FLOORS@[17] == (103u32, ArchSuffix::Plain),
        RECORDED_PTX_FLOORS@[18] == (103u32, ArchSuffix::Specific),
        RECORDED_PTX_FLOORS@[19] == (103u32, ArchSuffix::Family),
        RECORDED_PTX_FLOORS@[20] == (120u32, ArchSuffix::Family),
        RECORDED_PTX_FLOORS@[21] == (121u32, ArchSuffix::Plain),
        RECORDED_PTX_FLOORS@[22] == (121u32, ArchSuffix::Specific),
        RECORDED_PTX_FLOORS@[23] == (121u32, ArchSuffix::Family),
        RECORDED_PTX_FLOORS@[24] == (88u32, ArchSuffix::Plain),
        RECORDED_PTX_FLOORS@[25] == (110u32, ArchSuffix::Plain),
        RECORDED_PTX_FLOORS@[26] == (110u32, ArchSuffix::Specific),
        RECORDED_PTX_FLOORS@[27] == (110u32, ArchSuffix::Family),
{
}

/// The settings of a target, place by place: its capability, the recorded
/// capabilities up to it from the lowest to the highest, its name, and its
/// capability again where it is specific.
pub proof fn settings_stand_in_order(arch: CudaArch)
    ensures
        ({
            let all = arch_cfg_pairs(arch);
            let minimums = capabilities_up_to(arch.capability);
            let n = minimums.len() as int;
            let capability = decimal(arch.capability as nat);
            &&& all[0] == (CfgPairView { name: "cuda_arch"@, value: capability })
            &&& forall|i: int|
                0 <= i < n ==> #[trigger] all[i + 1] == (CfgPairView {
                    name: "cuda_arch_min"@,
                    value: decimal(minimums[i] as nat),
                })
            &&& all[n + 1] == (CfgPairView { name: "cuda_arch_target"@, value: arch.spelling() })
            &&& arch.suffix == ArchSuffix::Plain ==> all.len() == n + 2
            &&& arch.suffix == ArchSuffix::Family ==> all.len() == n + 3 && all[n + 2] == (
            CfgPairView { name: "cuda_arch_family_specific"@, value: capability })
            &&& arch.suffix == ArchSuffix::Specific ==> all.len() == n + 4 && all[n + 2] == (
            CfgPairView { name: "cuda_arch_specific"@, value: capability }) && all[n + 3] == (
            CfgPairView { name: "cuda_arch_family_specific"@, value: capability })
            &&& forall|i: int, j: int|
                0 <= i < j < n ==> #[trigger] minimums[i] < #[trigger] minimums[j]
            &&& forall|c: u32| #[trigger]
                minimums.contains(c) <==> is_recorded_capability(c) && c <= arch.capability
        }),
{
    let list = capability_list(any_suffix());
    let keep = |c: u32| c <= arch.capability;
    let minimums = capabilities_up_to(arch.capability);
    capability_list_holds(any_suffix(), 0);
    filtered_lists_ascend(list, keep);
    assert forall|c: u32| #[trigger]
        minimums.contains(c) <==> is_recorded_capability(c) && c <= arch.capability by {
        filtered_members(list, keep, c);
        capability_list_holds(any_suffix(), c);
    }
}

/// What is left of an ascending list ascends.
proof fn filtered_lists_ascend(s: Seq<u32>, keep: spec_fn(u32) -> bool)
    requires
        ascending(s, number_less()),
    ensures
        forall|i: int, j: int|
            0 <= i < j < s.filter(keep).len() ==> #[trigger] s.filter(keep)[i]
                < #[trigger] s.filter(keep)[j],
    decreases s.len(),
{
    reveal(Seq::filter);
    if s.len() > 0 {
        let less = number_less();
        let shorter = s.drop_last();
        assert(ascending(shorter, number_less())) by {
            assert forall|i: int, j: int| 0 <= i < j < shorter.len() implies less(
                #[trigger] shorter[i],
                #[trigger] shorter[j],
            ) by {
                assert(less(s[i], s[j]));
            }
        }
        filtered_lists_ascend(shorter, keep);
        let before = shorter.filter(keep);
        let kept = s.filter(keep);
        assert forall|i: int, j: int| 0 <= i < j < kept.len() implies #[trigger] kept[i]
            < #[trigger] kept[j] by {
            assert(kept[i] == before[i]);
            if j < before.len() {
                assert(kept[j] == before[j]);
            } else {
                assert(before.contains(before[i]));
                filtered_members(shorter, keep, before[i]);
                let k = choose|k: int| 0 <= k < shorter.len() && shorter[k] == before[i];
                assert(less(s[k], s[s.len() - 1]));
            }
        }
    }
}

/// The values that are declared, ascending: capabilities on record, names of
/// targets on record, and the capabilities of those that are specific.
pub proof fn declared_values_are_those_on_record(value: Seq<char>)
    ensures
        declared_values("cuda_arch"@) == declared_values("cuda_arch_min"@),
        declared_values("cuda_arch"@).contains(value) <==> exists|c: u32|
            #![trigger decimal(c as nat)]
            is_recorded_capability(c) && value == decimal(c as nat),
        declared_values("cuda_arch_target"@).contains(value) <==> exists|arch: CudaArch|
            #![trigger is_recorded(arch)]
            is_recorded(arch) && value == arch.spelling(),
        declared_values("cuda_arch_specific"@).contains(value) <==> exists|c: u32|
            #![trigger decimal(c as nat)]
            is_recorded(CudaArch { capability: c, suffix: ArchSuffix::Specific }) && value
                == decimal(c as nat),
        declared_values("cuda_arch_family_specific"@).contains(value) <==> exists|c: u32|
            #![trigger decimal(c as nat)]
            (is_recorded(CudaArch { capability: c, suffix: ArchSuffix::Specific }) || is_recorded(
                CudaArch { capability: c, suffix: ArchSuffix::Family },
            )) && value == decimal(c as nat),
{
    names_are_distinct();
    capability_values_are_held(any_suffix(), value);
    capability_values_are_held(specific_suffix(), value);
    capability_values_are_held(family_suffixes(), value);
    let floors = RECORDED_PTX_FLOORS@;
    assert forall|c: u32| #[trigger]
        capabilities_with(floors, specific_suffix()).contains(c) <==> is_recorded(
            CudaArch { capability: c, suffix: ArchSuffix::Specific },
        ) by {
        suffixed_entries_are_recorded(specific_suffix(), c);
    }
    assert forall|c: u32| #[trigger]
        capabilities_with(floors, family_suffixes()).contains(c) <==> (is_recorded(
            CudaArch { capability: c, suffix: ArchSuffix::Specific },
        ) || is_recorded(CudaArch { capability: c, suffix: ArchSuffix::Family })) by {
        suffixed_entries_are_recorded(family_suffixes(), c);
    }
    target_names_are_held(value);
}

/// The lists of capabilities ascend by number and the list of names as texts.
pub proof fn declared_lists_ascend(suffixes: Set<ArchSuffix>)
    ensures
        forall|i: int, j: int|
            0 <= i < j < capability_list(suffixes).len() ==> #[trigger] capability_list(suffixes)[i]
                < #[trigger] capability_list(suffixes)[j],
        ascending(target_list(), text_less()),
{
    capability_list_holds(suffixes, 0);
    let less = number_less();
    let list = capability_list(suffixes);
    assert forall|i: int, j: int| 0 <= i < j < list.len() implies #[trigger] list[i]
        < #[trigger] list[j] by {
        assert(less(list[i], list[j]));
    }
    let floors = RECORDED_PTX_FLOORS@;
    let names = Seq::new(floors.len(), |i: int| target_at(floors, i).spelling());
    named_entries();
    text_order();
    ascending_members_exist(names, text_less());
}

/// The names of the entries on record.
proof fn named_entries()
    ensures
        Seq::new(
            RECORDED_PTX_FLOORS@.len(),
            |i: int| target_at(RECORDED_PTX_FLOORS@, i).spelling(),
        ).to_set() == target_names(RECORDED_PTX_FLOORS@),
{
    let floors = RECORDED_PTX_FLOORS@;
    let names = Seq::new(floors.len(), |i: int| target_at(floors, i).spelling());
    assert forall|name: Seq<char>|
        names.to_set().contains(name) <==> #[trigger] target_names(floors).contains(name) by {
        if names.contains(name) {
            let i = choose|i: int| 0 <= i < names.len() && names[i] == name;
            assert(name == target_at(floors, i).spelling());
        }
        if target_names(floors).contains(name) {
            let i = choose|i: int|
                0 <= i < floors.len() && name == #[trigger] target_at(floors, i).spelling();
            assert(names[i] == name);
        }
    }
    assert(names.to_set() =~= target_names(floors));
}

proof fn capability_values_are_held(suffixes: Set<ArchSuffix>, value: Seq<char>)
    ensures
        decimals(capability_list(suffixes)).contains(value) <==> exists|c: u32|
            #![trigger decimal(c as nat)]
            capabilities_with(RECORDED_PTX_FLOORS@, suffixes).contains(c) && value == decimal(
                c as nat,
            ),
{
    let list = capability_list(suffixes);
    decimals_hold(list, value);
    assert forall|c: u32| list.contains(c) <==> #[trigger] capabilities_with(
        RECORDED_PTX_FLOORS@,
        suffixes,
    ).contains(c) by {
        capability_list_holds(suffixes, c);
    }
    if decimals(list).contains(value) {
        let c = choose|c: u32|
            #![trigger decimal(c as nat)]
            list.contains(c) && value == decimal(c as nat);
        assert(capabilities_with(RECORDED_PTX_FLOORS@, suffixes).contains(c));
    }
    if exists|c: u32|
        #![trigger decimal(c as nat)]
        capabilities_with(RECORDED_PTX_FLOORS@, suffixes).contains(c) && value == decimal(
            c as nat,
        ) {
        let c = choose|c: u32|
            #![trigger decimal(c as nat)]
            capabilities_with(RECORDED_PTX_FLOORS@, suffixes).contains(c) && value == decimal(
                c as nat,
            );
        assert(list.contains(c));
    }
}

proof fn suffixed_entries_are_recorded(suffixes: Set<ArchSuffix>, c: u32)
    ensures
        capabilities_with(RECORDED_PTX_FLOORS@, suffixes).contains(c) <==> exists|s: ArchSuffix|
            #![trigger suffixes.contains(s)]
            suffixes.contains(s) && is_recorded(CudaArch { capability: c, suffix: s }),
{
    let floors = RECORDED_PTX_FLOORS@;
    if capabilities_with(floors, suffixes).contains(c) {
        let i = choose|i: int|
            0 <= i < floors.len() && (#[trigger] floors[i]).0 == c && suffixes.contains(
                floors[i].1,
            );
        assert(target_at(floors, i) == CudaArch { capability: c, suffix: floors[i].1 });
        assert(is_recorded(CudaArch { capability: c, suffix: floors[i].1 }));
    }
    if exists|s: ArchSuffix|
        #![trigger suffixes.contains(s)]
        suffixes.contains(s) && is_recorded(CudaArch { capability: c, suffix: s }) {
        let s = choose|s: ArchSuffix|
            #![trigger suffixes.contains(s)]
            suffixes.contains(s) && is_recorded(CudaArch { capability: c, suffix: s });
        let arch = CudaArch { capability: c, suffix: s };
        let i = choose|i: int| 0 <= i < floors.len() && arch == #[trigger] target_at(floors, i);
        assert(floors[i].0 == c && floors[i].1 == s);
    }
}

/// The capabilities with one of some suffixes are those of the targets on
/// record that have one.
pub proof fn capability_lists_hold_the_recorded(suffixes: Set<ArchSuffix>, c: u32)
    ensures
        capability_list(suffixes).contains(c) <==> exists|s: ArchSuffix|
            #![trigger suffixes.contains(s)]
            suffixes.contains(s) && is_recorded(CudaArch { capability: c, suffix: s }),
{
    capability_list_holds(suffixes, c);
    suffixed_entries_are_recorded(suffixes, c);
}

proof fn target_names_are_held(value: Seq<char>)
    ensures
        target_list().contains(value) <==> exists|arch: CudaArch|
            #![trigger is_recorded(arch)]
            is_recorded(arch) && value == arch.spelling(),
{
    let floors = RECORDED_PTX_FLOORS@;
    let names = Seq::new(floors.len(), |i: int| target_at(floors, i).spelling());
    named_entries();
    text_order();
    ascending_members_exist(names, text_less());
    assert(target_list().contains(value) <==> target_list().to_set().contains(value));
    if target_names(floors).contains(value) {
        let i = choose|i: int|
            0 <= i < floors.len() && value == #[trigger] target_at(floors, i).spelling();
        assert(is_recorded(target_at(floors, i)));
    }
    if exists|arch: CudaArch|
        #![trigger is_recorded(arch)]
        is_recorded(arch) && value == arch.spelling() {
        let arch = choose|arch: CudaArch|
            #![trigger is_recorded(arch)]
            is_recorded(arch) && value == arch.spelling();
        let i = choose|i: int| 0 <= i < floors.len() && arch == #[trigger] target_at(floors, i);
        assert(value == target_at(floors, i).spelling());
    }
}

/// The names of the vocabulary, in order, and how a declaration is written.
pub proof fn declarations_are_written_with_quotes(
    name: Seq<char>,
    a: Seq<char>,
    b: Seq<char>,
    pair: CfgPair,
)
    ensures
        CFG_ARCH@ == "cuda_arch"@,
        CFG_ARCH_MIN@ == "cuda_arch_min"@,
        CFG_ARCH_TARGET@ == "cuda_arch_target"@,
        CFG_ARCH_SPECIFIC@ == "cuda_arch_specific"@,
        CFG_ARCH_FAMILY_SPECIFIC@ == "cuda_arch_family_specific"@,
        ALL_CFG_NAMES@.len() == 5,
        ALL_CFG_NAMES@[0]@ == "cuda_arch"@,
        ALL_CFG_NAMES@[1]@ == "cuda_arch_min"@,
        ALL_CFG_NAMES@[2]@ == "cuda_arch_target"@,
        ALL_CFG_NAMES@[3]@ == "cuda_arch_specific"@,
        ALL_CFG_NAMES@[4]@ == "cuda_arch_family_specific"@,
        quoted(a) == "\""@ + a + "\""@,
        declaration(name, seq![a]) == "cfg("@ + name + ", values("@ + ("\""@ + a + "\""@) + "))"@,
        declaration(name, seq![a, b]) == "cfg("@ + name + ", values("@ + (("\""@ + a + "\""@)
            + ", "@ + ("\""@ + b + "\""@)) + "))"@,
        pair@.name == pair.name@ && pair@.value == pair.value@,
{
    let quote = |value: Seq<char>| quoted(value);
    let one = seq![a].map_values(quote);
    let two = seq![a, b].map_values(quote);
    assert(one =~= seq![quoted(a)]);
    assert(two =~= seq![quoted(a), quoted(b)]);
    assert(two.drop_last() =~= one);
    assert(joined(one, ", "@) == quoted(a));
    assert(joined(two, ", "@) =~= quoted(a) + ", "@ + quoted(b));
}

/// The list in a declaration is its values in quotes, with commas between them.
pub proof fn declared_lists_are_joined(name: Seq<char>, values: Seq<Seq<char>>, i: int)
    requires
        0 <= i < values.len(),
    ensures
        declaration(name, values) == "cfg("@ + name + ", values("@ + joined(
            Seq::new(values.len(), |k: int| "\""@ + values[k] + "\""@),
            ", "@,
        ) + "))"@,
{
    assert(values.map_values(|value: Seq<char>| quoted(value)) =~= Seq::new(
        values.len(),
        |k: int| "\""@ + values[k] + "\""@,
    ));
}

/// Lists of settings are seen one by one.
pub proof fn settings_are_seen_one_by_one(pairs: Seq<CfgPair>)
    ensures
        pair_views(pairs).len() == pairs.len(),
        forall|i: int|
            0 <= i < pairs.len() ==> (#[trigger] pair_views(pairs)[i]).name == pairs[i].name@
                && pair_views(pairs)[i].value == pairs[i].value@,
{
}

} // verus!
