use da14531_sdk::version::{
    check_target, known_version, parse_sdk_version, version_warning, EnvError, SdkVersion,
    VersionError,
};

#[test]
fn known_good_version_parses_clean() {
    let parsed = parse_sdk_version("#define SDK_VERSION \"v_6.0.22.1401\"");
    assert_eq!(
        parsed,
        Ok(SdkVersion { major: 6, minor: 0, patch: 22, build: 1401 })
    );
    assert_eq!(parsed.unwrap(), known_version());
    // The exact known-good constant produces no warning.
    assert!(version_warning(&parsed).is_none());
}

#[test]
fn other_wellformed_version_warns_only() {
    let parsed = parse_sdk_version("#define SDK_VERSION \"v_6.0.14.1114\"");
    assert_eq!(
        parsed,
        Ok(SdkVersion { major: 6, minor: 0, patch: 14, build: 1114 })
    );
    let warning = version_warning(&parsed).unwrap();
    assert_eq!(warning, "SDK has only been tested with 6.0.22.1401");
}

#[test]
fn only_first_line_is_read() {
    let contents = "#define SDK_VERSION \"v_6.0.22.1401\"\n#define OTHER 1\n";
    assert_eq!(parse_sdk_version(contents).unwrap(), known_version());
    // A Windows line ending is tolerated.
    let contents = "#define SDK_VERSION \"v_6.0.22.1401\"\r\nrest";
    assert_eq!(parse_sdk_version(contents).unwrap(), known_version());
}

#[test]
fn missing_prefix_is_a_parse_error() {
    let parsed = parse_sdk_version("#define OTHER_THING \"v_6.0.22.1401\"");
    assert_eq!(parsed, Err(VersionError::MissingPrefix));
    let warning = version_warning(&parsed).unwrap();
    assert_eq!(warning, "could not strip prefix #define SDK_VERSION \"v_");
}

#[test]
fn missing_suffix_is_a_parse_error() {
    let parsed = parse_sdk_version("#define SDK_VERSION \"v_6.0.22.1401");
    assert_eq!(parsed, Err(VersionError::MissingSuffix));
    let warning = version_warning(&parsed).unwrap();
    assert_eq!(warning, "could not strip suffix \"");
}

#[test]
fn empty_file_is_a_parse_error() {
    assert_eq!(parse_sdk_version(""), Err(VersionError::EmptyFile));
}

#[test]
fn bad_component_is_a_parse_error() {
    assert_eq!(
        parse_sdk_version("#define SDK_VERSION \"v_6.0.x.1401\""),
        Err(VersionError::BadComponent)
    );
    // A trailing dot leaves an empty component.
    assert_eq!(
        parse_sdk_version("#define SDK_VERSION \"v_6.\""),
        Err(VersionError::BadComponent)
    );
}

#[test]
fn too_many_components_is_a_parse_error() {
    assert_eq!(
        parse_sdk_version("#define SDK_VERSION \"v_6.0.22.1401.7\""),
        Err(VersionError::TooManyComponents)
    );
}

#[test]
fn short_versions_pad_with_zero() {
    assert_eq!(
        parse_sdk_version("#define SDK_VERSION \"v_6.1\""),
        Ok(SdkVersion { major: 6, minor: 1, patch: 0, build: 0 })
    );
}

#[test]
fn target_triple_is_enforced() {
    assert!(check_target("thumbv6m-none-eabi").is_ok());
    match check_target("x86_64-unknown-linux-gnu") {
        Err(EnvError::WrongTarget(t)) => assert_eq!(t, "x86_64-unknown-linux-gnu"),
        _ => panic!("expected a wrong-target error"),
    }
}

#[test]
fn env_error_messages() {
    let err = check_target("armv7").unwrap_err();
    assert_eq!(
        err.message(),
        "Invalid target `armv7` for this crate. Only `thumbv6m-none-eabi` is valid"
    );
    assert_eq!(
        EnvError::MissingSdkPath.message(),
        "SDK_PATH is missing. Must be set to DA145XX SDK path"
    );
}
