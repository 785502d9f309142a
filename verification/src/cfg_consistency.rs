//! The architecture that `#[cfg]` selected against the one that is built.
//!
//! The settings are derived from a resolved target, and the compiler has
//! evaluated them before the backend selects the target that it builds for.
//! Mostly the two agree. Where the target was inferred, disagreement is worth a
//! warning: the module is correct, but not the one that the settings describe.
//! Where the target was pinned, the pin feeds both, so disagreement is an
//! error.

use crate::arch::{names_read_back, target_named, CudaArch};
use crate::text::occurs_in;
use vstd::prelude::*;

verus! {

/// Why a module cannot be built.
#[derive(Debug, PartialEq, Eq)]
pub enum PipelineError {
    /// No target can be selected.
    TargetSelection { target: String, reason: String },
}

/// The outcome of the comparison.
#[derive(Debug, PartialEq, Eq)]
pub enum CfgConsistency {
    /// Nothing to report: there are no settings, or they match.
    Consistent,
    /// The build is valid, but not the one that the settings describe.
    Warn(String),
    /// The pin that made the settings should have made this target too.
    Reject(PipelineError),
}

/// [`CfgConsistency`] by what it holds.
pub enum CfgConsistencyView {
    Consistent,
    Warn(Seq<char>),
    Reject { target: Seq<char>, reason: Seq<char> },
}

impl View for CfgConsistency {
    type V = CfgConsistencyView;

    open spec fn view(&self) -> CfgConsistencyView {
        match self {
            CfgConsistency::Consistent => CfgConsistencyView::Consistent,
            CfgConsistency::Warn(message) => CfgConsistencyView::Warn(message@),
            CfgConsistency::Reject(PipelineError::TargetSelection { target, reason }) => {
                CfgConsistencyView::Reject { target: target@, reason: reason@ }
            },
        }
    }
}

/// The warning about a report that names no target.
pub open spec fn unreadable_text(reported: Seq<char>, built: Seq<char>) -> Seq<char> {
    "warning: could not read the architecture `"@ + reported
        + "` that arch-conditional code was compiled for, so it was not checked against the built target "@
        + built
}

/// The reason for which disagreement with a pin is an error.
pub open spec fn pinned_text(
    reported: Seq<char>,
    built: Seq<char>,
    source: Seq<char>,
) -> Seq<char> {
    "arch-conditional code was compiled for "@ + reported
        + " but the module is being built for "@ + built + " (target from "@ + source
        + "); a pinned architecture must produce both, so this is a cuda-oxide plumbing bug rather than a problem with this crate"@
}

/// The warning about an inferred target that the settings do not describe.
pub open spec fn inferred_text(reported: Seq<char>, built: Seq<char>) -> Seq<char> {
    "warning: arch-conditional code was compiled for "@ + reported
        + " (the detected GPU) but this module needs "@ + built
        + " and was built for it; pass `--arch "@ + built + "` to specialize for the built target"@
}

/// The outcome of comparing a reported architecture with the selected target.
pub open spec fn consistency(
    reported: Option<Seq<char>>,
    selected: CudaArch,
    selected_source: Seq<char>,
    explicit_source: Seq<char>,
) -> CfgConsistencyView {
    match reported {
        None => CfgConsistencyView::Consistent,
        Some(text) => match target_named(text) {
            None => CfgConsistencyView::Warn(unreadable_text(text, selected.spelling())),
            Some(arch) => if arch == selected {
                CfgConsistencyView::Consistent
            } else if selected_source == explicit_source {
                CfgConsistencyView::Reject {
                    target: selected.spelling(),
                    reason: pinned_text(arch.spelling(), selected.spelling(), selected_source),
                }
            } else {
                CfgConsistencyView::Warn(inferred_text(arch.spelling(), selected.spelling()))
            },
        },
    }
}

/// Compares the reported architecture with the selected target.
///
/// `selected_source` says where the target came from, and `explicit_source` is
/// what it says of a pinned one.
pub fn check(
    cfg_arch: Option<&str>,
    selected: &CudaArch,
    selected_source: &str,
    explicit_source: &str,
) -> (r: CfgConsistency)
    ensures
        r@ == consistency(
            (match cfg_arch {
                Some(text) => Some(text@),
                None => None,
            }),
            *selected,
            selected_source@,
            explicit_source@,
        ),
{
    let text = match cfg_arch {
        Some(text) => text,
        None => {
            return CfgConsistency::Consistent;
        },
    };
    let built = selected.sm();
    let parsed = match CudaArch::parse(text) {
        Some(arch) => arch,
        None => {
            let message = "warning: could not read the architecture `".to_owned().concat(
                text,
            ).concat(
                "` that arch-conditional code was compiled for, so it was not checked against the built target ",
            ).concat(built.as_str());
            return CfgConsistency::Warn(message);
        },
    };
    if parsed == *selected {
        return CfgConsistency::Consistent;
    }
    let reported = parsed.sm();
    if selected_source.to_owned() == explicit_source.to_owned() {
        let reason = "arch-conditional code was compiled for ".to_owned().concat(
            reported.as_str(),
        ).concat(" but the module is being built for ").concat(built.as_str()).concat(
            " (target from ",
        ).concat(selected_source).concat(
            "); a pinned architecture must produce both, so this is a cuda-oxide plumbing bug rather than a problem with this crate",
        );
        return CfgConsistency::Reject(PipelineError::TargetSelection { target: built, reason });
    }
    let message = "warning: arch-conditional code was compiled for ".to_owned().concat(
        reported.as_str(),
    ).concat(" (the detected GPU) but this module needs ").concat(built.as_str()).concat(
        " and was built for it; pass `--arch ",
    ).concat(built.as_str()).concat("` to specialize for the built target");
    CfgConsistency::Warn(message)
}

/// The name of the selected target, as it is or with the other prefix, is
/// always consistent with it, and the absence of a report is too.
pub proof fn agreement_is_consistent(
    selected: CudaArch,
    text: Seq<char>,
    selected_source: Seq<char>,
    explicit_source: Seq<char>,
)
    requires
        target_named(text) == Some(selected),
    ensures
        consistency(None, selected, selected_source, explicit_source)
            == CfgConsistencyView::Consistent,
        consistency(Some(text), selected, selected_source, explicit_source)
            == CfgConsistencyView::Consistent,
        consistency(Some(selected.spelling()), selected, selected_source, explicit_source)
            == CfgConsistencyView::Consistent,
{
    names_read_back(selected);
}

/// A build is rejected exactly if a report names another target than the one
/// that was pinned.
pub proof fn only_a_pin_is_rejected(
    text: Seq<char>,
    selected: CudaArch,
    selected_source: Seq<char>,
    explicit_source: Seq<char>,
)
    ensures
        consistency(Some(text), selected, selected_source, explicit_source) is Reject <==> {
            &&& target_named(text) is Some
            &&& target_named(text) != Some(selected)
            &&& selected_source == explicit_source
        },
{
}

/// A warning about an inferred target names the reported target, the built
/// one, and the option that specializes for it.
pub proof fn warnings_name_the_fix(reported: CudaArch, selected: CudaArch)
    ensures
        occurs_in(
            "compiled for "@ + reported.spelling(),
            inferred_text(reported.spelling(), selected.spelling()),
        ),
        occurs_in(
            "needs "@ + selected.spelling(),
            inferred_text(reported.spelling(), selected.spelling()),
        ),
        occurs_in(
            "--arch "@ + selected.spelling(),
            inferred_text(reported.spelling(), selected.spelling()),
        ),
{
    let a = reported.spelling();
    let b = selected.spelling();
    let whole = inferred_text(a, b);
    reveal_strlit("warning: arch-conditional code was compiled for ");
    reveal_strlit(" (the detected GPU) but this module needs ");
    reveal_strlit(" and was built for it; pass `--arch ");
    reveal_strlit("compiled for ");
    reveal_strlit("needs ");
    reveal_strlit("--arch ");
    let x = "compiled for "@ + a;
    let y = "needs "@ + b;
    let z = "--arch "@ + b;
    let first = "warning: arch-conditional code was compiled for "@;
    let second = " (the detected GPU) but this module needs "@;
    let third = " and was built for it; pass `--arch "@;
    let at_x = first.len() - "compiled for "@.len();
    let at_y = first.len() + a.len() + second.len() - "needs "@.len();
    let at_z = first.len() + a.len() + second.len() + b.len() + third.len() - "--arch "@.len();
    assert(x =~= whole.subrange(at_x, at_x + x.len()));
    assert(y =~= whole.subrange(at_y, at_y + y.len()));
    assert(z =~= whole.subrange(at_z, at_z + z.len()));
}

/// What comes of each report: none, and one of the built target, need no word;
/// one that names no target is warned about; and one of another target is an
/// error if the target was pinned, and warned about if it was inferred.
pub proof fn reports_are_told_apart(
    text: Seq<char>,
    selected: CudaArch,
    selected_source: Seq<char>,
    explicit_source: Seq<char>,
)
    ensures
        ({
            let said = consistency(Some(text), selected, selected_source, explicit_source);
            let built = selected.spelling();
            &&& consistency(None, selected, selected_source, explicit_source)
                == CfgConsistencyView::Consistent
            &&& said is Consistent <==> target_named(text) == Some(selected)
            &&& target_named(text) is None ==> said == CfgConsistencyView::Warn(
                "warning: could not read the architecture `"@ + text
                    + "` that arch-conditional code was compiled for, so it was not checked against the built target "@
                    + built,
            )
            &&& target_named(text) is Some && target_named(text) != Some(selected)
                && selected_source != explicit_source ==> said == CfgConsistencyView::Warn(
                "warning: arch-conditional code was compiled for "@ + target_named(
                    text,
                )->0.spelling() + " (the detected GPU) but this module needs "@ + built
                    + " and was built for it; pass `--arch "@ + built
                    + "` to specialize for the built target"@,
            )
            &&& target_named(text) is Some && target_named(text) != Some(selected)
                && selected_source == explicit_source ==> said == (CfgConsistencyView::Reject {
                target: built,
                reason: "arch-conditional code was compiled for "@ + target_named(
                    text,
                )->0.spelling() + " but the module is being built for "@ + built
                    + " (target from "@ + selected_source
                    + "); a pinned architecture must produce both, so this is a cuda-oxide plumbing bug rather than a problem with this crate"@,
            })
        }),
{
}

/// Outcomes are seen with their texts.
pub proof fn outcomes_are_seen_with_their_texts(outcome: CfgConsistency)
    ensures
        match outcome {
            CfgConsistency::Consistent => outcome@ == CfgConsistencyView::Consistent,
            CfgConsistency::Warn(message) => outcome@ == CfgConsistencyView::Warn(message@),
            CfgConsistency::Reject(PipelineError::TargetSelection { target, reason }) => outcome@
                == (CfgConsistencyView::Reject { target: target@, reason: reason@ }),
        },
{
}

} // verus!
