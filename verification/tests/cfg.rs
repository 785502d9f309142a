//! The conditional-compilation vocabulary.

use cuda_oxide::arch::{ArchSuffix, CudaArch, CudaArchError, RECORDED_PTX_FLOORS};
use cuda_oxide::cfg::{
    arch_cfgs, check_cfg_specs, recorded_capabilities, recorded_capabilities_with_suffix, CfgPair,
    ALL_CFG_NAMES, CFG_ARCH, CFG_ARCH_FAMILY_SPECIFIC, CFG_ARCH_MIN, CFG_ARCH_SPECIFIC,
    CFG_ARCH_TARGET,
};

fn values_for(arch: &str, name: &str) -> Vec<String> {
    arch_cfgs(&arch.parse::<CudaArch>().unwrap())
        .into_iter()
        .filter(|pair| pair.name == name)
        .map(|pair| pair.value)
        .collect()
}

fn suffix_of(suffix: ArchSuffix) -> Option<char> {
    match suffix {
        ArchSuffix::Plain => None,
        ArchSuffix::Specific => Some('a'),
        ArchSuffix::Family => Some('f'),
    }
}

#[test]
fn min_set_is_every_recorded_capability_at_or_below_the_target() {
    assert_eq!(
        values_for("sm_86", CFG_ARCH_MIN),
        ["70", "72", "75", "80", "86"]
    );
    assert_eq!(values_for("sm_86", CFG_ARCH), ["86"]);
    assert!(values_for("sm_86", CFG_ARCH_SPECIFIC).is_empty());
    assert!(values_for("sm_86", CFG_ARCH_FAMILY_SPECIFIC).is_empty());
}

/// Numeric ordering, as in CUDA: consumer `sm_120` claims `cuda_arch_min =
/// "100"` even though it is not a datacenter Blackwell part.
#[test]
fn ordering_is_numeric_so_sm_120_satisfies_min_100() {
    let min = values_for("sm_120", CFG_ARCH_MIN);
    assert!(min.contains(&"100".to_string()));
    assert!(min.contains(&"110".to_string()));
    assert_eq!(min.last().unwrap(), "120");
    assert!(values_for("sm_120", CFG_ARCH_SPECIFIC).is_empty());
    assert_eq!(values_for("sm_120", CFG_ARCH_TARGET), ["sm_120"]);
}

#[test]
fn arch_specific_suffix_sets_both_specific_names() {
    assert_eq!(values_for("sm_90a", CFG_ARCH_SPECIFIC), ["90"]);
    assert_eq!(values_for("sm_90a", CFG_ARCH_FAMILY_SPECIFIC), ["90"]);
    assert_eq!(values_for("sm_90a", CFG_ARCH), ["90"]);
}

#[test]
fn family_suffix_sets_only_the_family_name() {
    assert!(values_for("sm_100f", CFG_ARCH_SPECIFIC).is_empty());
    assert_eq!(values_for("sm_100f", CFG_ARCH_FAMILY_SPECIFIC), ["100"]);
}

#[test]
fn target_value_is_normalized_to_the_sm_spelling() {
    assert_eq!(values_for("compute_90a", CFG_ARCH_TARGET), ["sm_90a"]);
    assert_eq!(values_for("compute_120", CFG_ARCH_TARGET), ["sm_120"]);
}

#[test]
fn rendered_pairs_quote_their_values() {
    let pair = CfgPair {
        name: CFG_ARCH_MIN,
        value: "80".to_string(),
    };
    assert_eq!(pair.render(), "cuda_arch_min=\"80\"");
}

/// Anything that a target emits has to be inside the universe that is
/// declared, or the compiler warns about a setting of the build itself.
#[test]
fn every_emitted_value_is_inside_its_declared_universe() {
    let specs = check_cfg_specs();
    assert_eq!(specs.len(), ALL_CFG_NAMES.len());
    let universe = |name: &str| -> String {
        specs
            .iter()
            .find(|spec| spec.starts_with(&format!("cfg({name},")))
            .unwrap_or_else(|| panic!("no --check-cfg spec for {name}"))
            .clone()
    };
    for (capability, suffix) in RECORDED_PTX_FLOORS {
        let arch = CudaArch::new(capability, suffix_of(suffix)).unwrap();
        for pair in arch_cfgs(&arch) {
            let spec = universe(pair.name);
            assert!(
                spec.contains(&format!("\"{}\"", pair.value)),
                "{}: {} not declared in {spec}",
                arch.sm(),
                pair.render(),
            );
        }
    }
}

#[test]
fn check_cfg_specs_cover_exactly_the_owned_names() {
    for (name, spec) in ALL_CFG_NAMES.iter().zip(check_cfg_specs()) {
        assert!(spec.starts_with(&format!("cfg({name}, values(")), "{spec}");
        assert!(spec.ends_with("))"), "{spec}");
    }
}

#[test]
fn settings_come_in_order() {
    let rendered: Vec<String> = arch_cfgs(&"sm_90a".parse::<CudaArch>().unwrap())
        .iter()
        .map(|pair| pair.render())
        .collect();
    assert_eq!(
        rendered,
        [
            "cuda_arch=\"90\"",
            "cuda_arch_min=\"70\"",
            "cuda_arch_min=\"72\"",
            "cuda_arch_min=\"75\"",
            "cuda_arch_min=\"80\"",
            "cuda_arch_min=\"86\"",
            "cuda_arch_min=\"87\"",
            "cuda_arch_min=\"88\"",
            "cuda_arch_min=\"89\"",
            "cuda_arch_min=\"90\"",
            "cuda_arch_target=\"sm_90a\"",
            "cuda_arch_specific=\"90\"",
            "cuda_arch_family_specific=\"90\"",
        ]
    );
}

#[test]
fn declarations_are_exact() {
    let specs = check_cfg_specs();
    assert_eq!(
        specs[3],
        "cfg(cuda_arch_specific, values(\"90\", \"100\", \"101\", \"103\", \"110\", \"120\", \"121\"))"
    );
    assert_eq!(specs[4], specs[3].replace("arch_specific", "arch_family_specific"));
    assert!(specs[2].starts_with("cfg(cuda_arch_target, values(\"sm_100\", \"sm_100a\", \"sm_100f\", "));
    assert!(specs[2].ends_with("\"sm_89\", \"sm_90\", \"sm_90a\"))"));
}

#[test]
fn lists_are_sorted_as_by_the_standard_library() {
    let mut capabilities: Vec<u32> = RECORDED_PTX_FLOORS.iter().map(|entry| entry.0).collect();
    capabilities.sort();
    capabilities.dedup();
    assert_eq!(recorded_capabilities(), capabilities);

    let mut specific: Vec<u32> = RECORDED_PTX_FLOORS
        .iter()
        .filter(|entry| entry.1 == ArchSuffix::Specific)
        .map(|entry| entry.0)
        .collect();
    specific.sort();
    specific.dedup();
    assert_eq!(
        recorded_capabilities_with_suffix(&vec![ArchSuffix::Specific]),
        specific
    );
    assert!(recorded_capabilities_with_suffix(&vec![]).is_empty());

    let mut names: Vec<String> = RECORDED_PTX_FLOORS
        .iter()
        .map(|entry| CudaArch::new(entry.0, suffix_of(entry.1)).unwrap().sm())
        .collect();
    names.sort();
    names.dedup();
    let quoted: Vec<String> = names.iter().map(|name| format!("\"{name}\"")).collect();
    assert_eq!(
        check_cfg_specs()[2],
        format!("cfg(cuda_arch_target, values({}))", quoted.join(", "))
    );
}

#[test]
fn minimums_grow_with_the_capability() {
    let older = values_for("sm_75", CFG_ARCH_MIN);
    let newer = values_for("sm_121f", CFG_ARCH_MIN);
    assert!(older.iter().all(|value| newer.contains(value)));
    assert!(values_for("sm_60", CFG_ARCH_MIN).is_empty());
    assert_eq!(values_for("sm_60", CFG_ARCH), ["60"]);
}

#[test]
fn names_of_targets_read_back() {
    for (capability, suffix) in RECORDED_PTX_FLOORS {
        let arch = CudaArch { capability, suffix };
        assert_eq!(CudaArch::parse(&arch.sm()), Some(arch));
        let rest = arch.sm().replace("sm_", "compute_");
        assert_eq!(CudaArch::parse(&rest), Some(arch));
        assert_eq!(CudaArch::new(arch.capability(), arch.suffix()), Some(arch));
    }
    assert_eq!(
        CudaArch::parse("sm_4294967295"),
        Some(CudaArch {
            capability: u32::MAX,
            suffix: ArchSuffix::Plain
        })
    );
}

#[test]
fn other_texts_name_no_target() {
    for text in [
        "", "sm_", "compute_", "sm_a", "sm_f", "90", "sm-90", "sm_90b", "sm_90aa", "sm_9 0",
        "SM_90", "sm_4294967296", "compute_99999999999999999999", "sm_+90", "sm_\u{0669}",
    ] {
        assert_eq!(CudaArch::parse(text), None, "{text}");
        assert_eq!(text.parse::<CudaArch>(), Err(CudaArchError), "{text}");
    }
    assert_eq!(CudaArch::new(90, Some('b')), None);
}
