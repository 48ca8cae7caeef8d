//! The top of the engine: one pure function from the externally supplied
//! inputs to the resolved build plan.
//!
//! The guard runs first: a wrong target triple or a missing SDK root is a
//! fatal environment error; the SDK version check only ever yields a
//! warning. Feature validation follows: a conflicted feature set aborts
//! before a single header job exists, so nothing is ever generated from
//! it. On success the result carries the warning, the ordered header
//! generation jobs, and the assembled build plan; the embedding program
//! performs the file writes and tool invocations in that order.

use vstd::prelude::*;
use vstd::string::*;

use crate::assemble::{assemble, spec_assemble, BuildPlan};
use crate::catalog::Catalog;
use crate::config::{ItemModel, Overrides};
use crate::features::{
    basic_config_items, exactly_one_address_mode, exactly_one_sleep_mode, item_models,
    modules_config_items, profiles_config_items, spec_advanced_items, spec_basic_items,
    spec_feature_conflict, spec_modules_items, spec_profiles_items, spec_user_items,
    user_config_items, ConfigConflict, FeatureSet,
};
use crate::version::{
    check_target, parse_sdk_version, spec_mismatch_warning, spec_parse_version,
    spec_required_target, spec_version_error_text, version_warning, EnvError,
};

verus! {

/// Mathematical model of a fatal engine error.
pub ghost enum ErrorModel {
    WrongTarget(Seq<char>),
    MissingSdkPath,
    Conflict(ConfigConflict),
}

/// A fatal engine error: either the environment guard or feature
/// validation failed. The version check never raises one.
#[derive(Debug)]
pub enum EngineError {
    /// The environment guard failed.
    Env(EnvError),
    /// A feature-group invariant is violated.
    Conflict(ConfigConflict),
}

impl View for EngineError {
    type V = ErrorModel;

    open spec fn view(&self) -> ErrorModel {
        match self {
            EngineError::Env(EnvError::WrongTarget(t)) => ErrorModel::WrongTarget(t@),
            EngineError::Env(EnvError::MissingSdkPath) => ErrorModel::MissingSdkPath,
            EngineError::Conflict(c) => ErrorModel::Conflict(*c),
        }
    }
}

impl EngineError {
    /// A human-readable description of the error.
    pub fn message(&self) -> (r: String)
        ensures
            r@ == match self {
                EngineError::Env(e) => match e {
                    EnvError::WrongTarget(t) => "Invalid target `"@ + t@
                        + "` for this crate. Only `thumbv6m-none-eabi` is valid"@,
                    EnvError::MissingSdkPath => {
                        "SDK_PATH is missing. Must be set to DA145XX SDK path"@
                    },
                },
                EngineError::Conflict(c) => match c {
                    ConfigConflict::AddressModeNone => {
                        "One address mode feature flag has to be set!"@
                    },
                    ConfigConflict::AddressModeMany => {
                        "Only one address mode feature flag can be set!"@
                    },
                    ConfigConflict::SleepModeNone => {
                        "One sleep mode feature flag has to be set!"@
                    },
                    ConfigConflict::SleepModeMany => {
                        "Only one sleep mode feature flag can be set!"@
                    },
                },
            },
    {
        match self {
            EngineError::Env(e) => e.message(),
            EngineError::Conflict(c) => c.message(),
        }
    }
}

/// One header to generate: the output file name and the ordered config
/// items substituted into its template.
pub struct HeaderJob {
    pub file_name: String,
    pub items: Vec<crate::config::ConfigItem>,
}

impl View for HeaderJob {
    type V = (Seq<char>, Seq<ItemModel>);

    open spec fn view(&self) -> (Seq<char>, Seq<ItemModel>) {
        (self.file_name@, item_models(self.items@))
    }
}

impl DeepView for HeaderJob {
    type V = (Seq<char>, Seq<ItemModel>);

    open spec fn deep_view(&self) -> (Seq<char>, Seq<ItemModel>) {
        self.view()
    }
}

/// The resolved outcome of a successful engine run.
pub struct EnginePlan {
    /// The advisory warning of the version guard, if any.
    pub warning: Option<String>,
    /// The header generation jobs, in generation order.
    pub header_jobs: Vec<HeaderJob>,
    /// The assembled include/define/source set.
    pub plan: BuildPlan,
}

/// The fatal error owed to the guard and feature validation, if any: a
/// wrong target first, then a missing SDK root, then a feature conflict.
pub open spec fn spec_guard_error(
    target: Seq<char>,
    sdk_present: bool,
    fs: FeatureSet,
) -> Option<ErrorModel> {
    if target != spec_required_target() {
        Some(ErrorModel::WrongTarget(target))
    } else if !sdk_present {
        Some(ErrorModel::MissingSdkPath)
    } else {
        match spec_feature_conflict(fs) {
            Some(c) => Some(ErrorModel::Conflict(c)),
            None => None,
        }
    }
}

/// The warning owed to the version guard: unreadable header, parse
/// failure, or a version other than the known-good one.
pub open spec fn spec_version_guard_warning(contents: Option<Seq<char>>) -> Option<Seq<char>> {
    match contents {
        None => Some("could not read SDK version header"@),
        Some(s) => match spec_parse_version(s) {
            Err(e) => Some(spec_version_error_text(e)),
            Ok(t) => if crate::version::part_or_zero(t, 0) == 6 && crate::version::part_or_zero(
                t,
                1,
            ) == 0 && crate::version::part_or_zero(t, 2) == 22 && crate::version::part_or_zero(
                t,
                3,
            ) == 1401 {
                None
            } else {
                Some(spec_mismatch_warning())
            },
        },
    }
}

/// The five header generation jobs, in generation order, each pairing an
/// output file name with its ordered item list. Defined only for
/// conflict-free feature sets.
pub open spec fn spec_header_jobs(fs: FeatureSet, ov: Seq<(Seq<char>, Seq<char>)>) -> Seq<
    (Seq<char>, Seq<ItemModel>),
> {
    seq![
        ("user_config.h"@, spec_user_items(fs, ov)),
        ("user_modules_config.h"@, spec_modules_items(fs, ov)),
        ("user_profiles_config.h"@, spec_profiles_items(fs, ov)),
        ("da14531_config_basic.h"@, spec_basic_items(fs, ov)),
        ("da14531_config_advanced.h"@, spec_advanced_items(ov)),
    ]
}

/// Resolves the whole build: guard, feature validation, header item
/// resolution and source/include assembly. Fails fatally, producing no
/// artifact description at all, on a bad environment or a conflicted
/// feature set; version trouble only ever sets the warning.
pub fn plan_build(
    target: &str,
    sdk_path: &Option<String>,
    out_dir: &str,
    local_include: &str,
    catalog: &Catalog,
    fs: &FeatureSet,
    overrides: &Overrides,
    version_header: &Option<String>,
) -> (r: Result<EnginePlan, EngineError>)
    ensures
        match spec_guard_error(
            target@,
            sdk_path is Some,
            *fs,
        ) {
            Some(e) => r matches Err(err) && err@ == e,
            None => r matches Ok(p) && {
                &&& p.plan@ == spec_assemble(
                    catalog@,
                    *fs,
                    sdk_path->Some_0@,
                    local_include@,
                    out_dir@,
                )
                &&& p.header_jobs.deep_view() == spec_header_jobs(*fs, overrides@)
                &&& (match spec_version_guard_warning(
                    match version_header {
                        Some(s) => Some(s@),
                        None => None,
                    },
                ) {
                    Some(w) => p.warning matches Some(msg) && msg@ == w,
                    None => p.warning is None,
                })
            },
        },
{
    // Environment guard: target triple and SDK root are hard requirements.
    match check_target(target) {
        Err(e) => {
            return Err(EngineError::Env(e));
        },
        Ok(()) => {},
    }
    let sdk = match sdk_path {
        Some(s) => s,
        None => {
            return Err(EngineError::Env(EnvError::MissingSdkPath));
        },
    };
    // Version guard: advisory only.
    let warning: Option<String> = match version_header {
        None => Some(String::from_str("could not read SDK version header")),
        Some(contents) => {
            let parsed = parse_sdk_version(contents.as_str());
            version_warning(&parsed)
        },
    };
    // Feature validation and header item resolution. The conflict check
    // runs before any job is built.
    let user_items = match user_config_items(fs, overrides) {
        Err(c) => {
            return Err(EngineError::Conflict(c));
        },
        Ok(v) => v,
    };
    let modules_items = modules_config_items(fs, overrides);
    let profiles_items = profiles_config_items(fs, overrides);
    let basic_items = basic_config_items(fs, overrides);
    let advanced_items = crate::features::advanced_config_items(overrides);
    let mut header_jobs: Vec<HeaderJob> = Vec::new();
    header_jobs.push(
        HeaderJob { file_name: String::from_str("user_config.h"), items: user_items },
    );
    header_jobs.push(
        HeaderJob { file_name: String::from_str("user_modules_config.h"), items: modules_items },
    );
    header_jobs.push(
        HeaderJob {
            file_name: String::from_str("user_profiles_config.h"),
            items: profiles_items,
        },
    );
    header_jobs.push(
        HeaderJob { file_name: String::from_str("da14531_config_basic.h"), items: basic_items },
    );
    header_jobs.push(
        HeaderJob {
            file_name: String::from_str("da14531_config_advanced.h"),
            items: advanced_items,
        },
    );
    proof {
        assert(header_jobs.deep_view() =~~= spec_header_jobs(*fs, overrides@));
    }
    // The source/include set.
    let plan = assemble(catalog, fs, sdk.as_str(), local_include, out_dir);
    Ok(EnginePlan { warning, header_jobs, plan })
}

/// A feature set whose "exactly one" groups are violated is refused before
/// anything is generated: under a sound environment, the engine's outcome
/// for such a set is a configuration conflict, never a plan, so no header
/// job and no artifact description exists for it.
pub proof fn lemma_conflict_blocks_pipeline(target: Seq<char>, fs: FeatureSet)
    requires
        target == spec_required_target(),
        !(exactly_one_address_mode(fs) && exactly_one_sleep_mode(fs)),
    ensures
        spec_guard_error(target, true, fs) matches Some(e) && e is Conflict,
{
}

/// The version guard is advisory: a version header that fails to parse
/// yields exactly the parse failure's description as a warning, and under
/// a sound environment and a conflict-free feature set the engine still
/// succeeds, since its fatal outcome never depends on the version header
/// at all.
pub proof fn lemma_version_guard_is_advisory(
    target: Seq<char>,
    fs: FeatureSet,
    contents: Seq<char>,
)
    requires
        target == spec_required_target(),
        exactly_one_address_mode(fs),
        exactly_one_sleep_mode(fs),
        spec_parse_version(contents) is Err,
    ensures
        spec_guard_error(target, true, fs) is None,
        spec_version_guard_warning(Some(contents)) == Some(
            spec_version_error_text(spec_parse_version(contents)->Err_0),
        ),
{
}

} // verus!
