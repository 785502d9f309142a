//! The architecture of the settings against the one that is built.

use cuda_oxide::arch::CudaArch;
use cuda_oxide::cfg_consistency::{check, CfgConsistency, PipelineError};

fn arch(target: &str) -> CudaArch {
    target.parse().unwrap()
}

#[test]
fn nothing_to_report_without_cfgs_or_on_agreement() {
    assert!(matches!(
        check(
            None,
            &arch("sm_90a"),
            "feature requirement",
            "CUDA_OXIDE_TARGET"
        ),
        CfgConsistency::Consistent
    ));
    assert!(matches!(
        check(
            Some("sm_90a"),
            &arch("sm_90a"),
            "CUDA_OXIDE_TARGET",
            "CUDA_OXIDE_TARGET"
        ),
        CfgConsistency::Consistent
    ));
}

#[test]
fn a_rejected_gpu_hint_warns_and_names_the_fix() {
    let CfgConsistency::Warn(message) = check(
        Some("sm_86"),
        &arch("sm_100a"),
        "feature requirement",
        "CUDA_OXIDE_TARGET",
    ) else {
        panic!("an overridden hint must warn");
    };
    assert!(message.contains("compiled for sm_86"), "{message}");
    assert!(message.contains("needs sm_100a"), "{message}");
    assert!(message.contains("--arch sm_100a"), "{message}");
}

/// The pin feeds both halves, so disagreement means that they disagree about
/// what was pinned.
#[test]
fn disagreeing_with_an_explicit_pin_is_an_error() {
    let CfgConsistency::Reject(error) = check(
        Some("sm_86"),
        &arch("sm_90a"),
        "CUDA_OXIDE_TARGET",
        "CUDA_OXIDE_TARGET",
    ) else {
        panic!("a pinned mismatch must not be downgraded to a warning");
    };
    let PipelineError::TargetSelection { target, reason } = error;
    assert_eq!(target, "sm_90a");
    assert!(reason.contains("sm_86"), "{reason}");
    assert!(reason.contains("plumbing bug"), "{reason}");
}

#[test]
fn an_unreadable_report_warns_rather_than_failing_the_build() {
    let CfgConsistency::Warn(message) = check(
        Some("not-an-arch"),
        &arch("sm_90a"),
        "feature requirement",
        "CUDA_OXIDE_TARGET",
    ) else {
        panic!("an unparsable report must not fail the build");
    };
    assert!(message.contains("not-an-arch"), "{message}");
    assert!(message.contains("sm_90a"), "{message}");
}

#[test]
fn the_messages_are_exact() {
    assert_eq!(
        check(Some("x"), &arch("sm_90"), "a", "b"),
        CfgConsistency::Warn(
            "warning: could not read the architecture `x` that arch-conditional code was compiled for, so it was not checked against the built target sm_90"
                .to_string()
        )
    );
    assert_eq!(
        check(Some("compute_86"), &arch("sm_100a"), "a", "b"),
        CfgConsistency::Warn(
            "warning: arch-conditional code was compiled for sm_86 (the detected GPU) but this module needs sm_100a and was built for it; pass `--arch sm_100a` to specialize for the built target"
                .to_string()
        )
    );
    assert_eq!(
        check(Some("sm_86"), &arch("sm_90a"), "PIN", "PIN"),
        CfgConsistency::Reject(PipelineError::TargetSelection {
            target: "sm_90a".to_string(),
            reason: "arch-conditional code was compiled for sm_86 but the module is being built for sm_90a (target from PIN); a pinned architecture must produce both, so this is a cuda-oxide plumbing bug rather than a problem with this crate"
                .to_string(),
        })
    );
}

#[test]
fn prefixes_do_not_matter_and_suffixes_do() {
    assert_eq!(
        check(Some("compute_90a"), &arch("sm_90a"), "PIN", "PIN"),
        CfgConsistency::Consistent
    );
    assert!(matches!(
        check(Some("sm_90"), &arch("sm_90a"), "PIN", "PIN"),
        CfgConsistency::Reject(_)
    ));
}
