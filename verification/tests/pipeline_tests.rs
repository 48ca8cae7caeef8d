use da14531_sdk::catalog::default_catalog;
use da14531_sdk::config::Overrides;
use da14531_sdk::features::{validate_features, ConfigConflict, FeatureSet};
use da14531_sdk::pipeline::{plan_build, EngineError};

fn base_features() -> FeatureSet {
    let mut fs = FeatureSet::all_off();
    fs.address_mode_static = true;
    fs.sleep_mode_off = true;
    fs
}

fn run(fs: &FeatureSet) -> Result<da14531_sdk::pipeline::EnginePlan, EngineError> {
    let catalog = default_catalog();
    plan_build(
        "thumbv6m-none-eabi",
        &Some("/opt/sdk".to_string()),
        "/work/out",
        "/work/include",
        &catalog,
        fs,
        &Overrides::none(),
        &Some("#define SDK_VERSION \"v_6.0.22.1401\"".to_string()),
    )
}

// A feature set with address-mode=static, sleep-mode=off and no optional
// profiles resolves to the expected macro values, and no profile-gated
// source is in the plan.
#[test]
fn static_address_and_sleep_off_resolve() {
    let plan = run(&base_features()).unwrap();
    assert!(plan.warning.is_none());
    let user_job = &plan.header_jobs[0];
    assert_eq!(user_job.file_name, "user_config.h");
    let rendered: Vec<String> = user_job.items.iter().map(|i| i.render()).collect();
    assert!(rendered.contains(&"#define USER_CFG_ADDRESS_MODE APP_CFG_ADDR_STATIC".to_string()));
    assert!(rendered.contains(&"#define USER_CFG_ARCH_SLEEP_MODE ARCH_SLEEP_OFF".to_string()));
    assert!(!plan.plan.c_sources.iter().any(|s| s.ends_with("app_gattc.c")));
}

#[test]
fn public_address_mode_resolves() {
    let mut fs = FeatureSet::all_off();
    fs.address_mode_public = true;
    fs.sleep_mode_ext_on = true;
    let plan = run(&fs).unwrap();
    let rendered: Vec<String> = plan.header_jobs[0].items.iter().map(|i| i.render()).collect();
    assert!(rendered.contains(&"#define USER_CFG_ADDRESS_MODE APP_CFG_ADDR_PUB".to_string()));
    assert!(rendered.contains(&"#define USER_CFG_ARCH_SLEEP_MODE ARCH_EXT_SLEEP_ON".to_string()));
}

// Both address modes at once abort with a configuration conflict before
// any header job exists.
#[test]
fn conflicting_address_modes_abort() {
    let mut fs = base_features();
    fs.address_mode_public = true;
    match run(&fs) {
        Err(EngineError::Conflict(ConfigConflict::AddressModeMany)) => {},
        _ => panic!("expected an address mode conflict"),
    }
}

#[test]
fn missing_address_mode_aborts() {
    let mut fs = base_features();
    fs.address_mode_static = false;
    match run(&fs) {
        Err(EngineError::Conflict(ConfigConflict::AddressModeNone)) => {},
        _ => panic!("expected a missing address mode conflict"),
    }
}

#[test]
fn conflicting_sleep_modes_abort() {
    let mut fs = base_features();
    fs.sleep_mode_ext_otp_copy_on = true;
    match run(&fs) {
        Err(EngineError::Conflict(ConfigConflict::SleepModeMany)) => {},
        _ => panic!("expected a sleep mode conflict"),
    }
}

#[test]
fn missing_sleep_mode_aborts() {
    let mut fs = base_features();
    fs.sleep_mode_off = false;
    match run(&fs) {
        Err(EngineError::Conflict(ConfigConflict::SleepModeNone)) => {},
        _ => panic!("expected a missing sleep mode conflict"),
    }
}

#[test]
fn validate_features_mirrors_the_groups() {
    assert!(validate_features(&base_features()).is_ok());
    let mut fs = base_features();
    fs.sleep_mode_ext_on = true;
    assert_eq!(validate_features(&fs), Err(ConfigConflict::SleepModeMany));
}

#[test]
fn wrong_target_aborts_first() {
    let catalog = default_catalog();
    let r = plan_build(
        "x86_64-unknown-linux-gnu",
        &Some("/opt/sdk".to_string()),
        "/work/out",
        "/work/include",
        &catalog,
        &base_features(),
        &Overrides::none(),
        &None,
    );
    match r {
        Err(e @ EngineError::Env(_)) => {
            assert_eq!(
                e.message(),
                "Invalid target `x86_64-unknown-linux-gnu` for this crate. \
                 Only `thumbv6m-none-eabi` is valid"
            );
        },
        _ => panic!("expected an environment error"),
    }
}

#[test]
fn missing_sdk_path_aborts() {
    let catalog = default_catalog();
    let r = plan_build(
        "thumbv6m-none-eabi",
        &None,
        "/work/out",
        "/work/include",
        &catalog,
        &base_features(),
        &Overrides::none(),
        &None,
    );
    match r {
        Err(e @ EngineError::Env(_)) => {
            assert_eq!(e.message(), "SDK_PATH is missing. Must be set to DA145XX SDK path");
        },
        _ => panic!("expected an environment error"),
    }
}

// A version header missing the expected prefix is advisory only: the
// pipeline proceeds to a full plan, carrying the warning.
#[test]
fn version_trouble_is_only_a_warning() {
    let catalog = default_catalog();
    let plan = plan_build(
        "thumbv6m-none-eabi",
        &Some("/opt/sdk".to_string()),
        "/work/out",
        "/work/include",
        &catalog,
        &base_features(),
        &Overrides::none(),
        &Some("#define WRONG 1".to_string()),
    )
    .unwrap();
    assert_eq!(
        plan.warning.as_deref(),
        Some("could not strip prefix #define SDK_VERSION \"v_")
    );
    assert_eq!(plan.header_jobs.len(), 5);
    assert!(!plan.plan.c_sources.is_empty());
    // An unreadable header behaves the same way.
    let plan = plan_build(
        "thumbv6m-none-eabi",
        &Some("/opt/sdk".to_string()),
        "/work/out",
        "/work/include",
        &catalog,
        &base_features(),
        &Overrides::none(),
        &None,
    )
    .unwrap();
    assert_eq!(plan.warning.as_deref(), Some("could not read SDK version header"));
    assert_eq!(plan.header_jobs.len(), 5);
}

#[test]
fn header_jobs_come_in_generation_order() {
    let plan = run(&base_features()).unwrap();
    let names: Vec<&str> = plan.header_jobs.iter().map(|j| j.file_name.as_str()).collect();
    assert_eq!(
        names,
        vec![
            "user_config.h",
            "user_modules_config.h",
            "user_profiles_config.h",
            "da14531_config_basic.h",
            "da14531_config_advanced.h",
        ]
    );
    // Every group renders: spot-check one item of each.
    let modules: Vec<String> = plan.header_jobs[1].items.iter().map(|i| i.render()).collect();
    assert!(modules.contains(&"#define EXCLUDE_DLG_GAP (0)".to_string()));
    assert!(modules.contains(&"#define EXCLUDE_DLG_DISS (1)".to_string()));
    let profiles: Vec<String> = plan.header_jobs[2].items.iter().map(|i| i.render()).collect();
    assert!(profiles.contains(&"#undef CFG_PRF_DISS".to_string()));
    let basic: Vec<String> = plan.header_jobs[3].items.iter().map(|i| i.render()).collect();
    assert!(basic.contains(&"#define CFG_MAX_CONNECTIONS (1)".to_string()));
    let advanced: Vec<String> = plan.header_jobs[4].items.iter().map(|i| i.render()).collect();
    assert!(advanced.contains(&"#define CFG_TRNG".to_string()));
}

#[test]
fn profile_features_toggle_their_items() {
    let mut fs = base_features();
    fs.profile_dis_server = true;
    let plan = run(&fs).unwrap();
    let modules: Vec<String> = plan.header_jobs[1].items.iter().map(|i| i.render()).collect();
    assert!(modules.contains(&"#define EXCLUDE_DLG_DISS (0)".to_string()));
    let profiles: Vec<String> = plan.header_jobs[2].items.iter().map(|i| i.render()).collect();
    assert!(profiles.contains(&"#define CFG_PRF_DISS".to_string()));
}

#[test]
fn conflict_messages_match() {
    assert_eq!(
        EngineError::Conflict(ConfigConflict::AddressModeMany).message(),
        "Only one address mode feature flag can be set!"
    );
    assert_eq!(
        EngineError::Conflict(ConfigConflict::SleepModeNone).message(),
        "One sleep mode feature flag has to be set!"
    );
}
