use da14531_sdk::config::{
    overrides_from_env, parse_override, ConfigItem, ConfigItemValue, Overrides,
};

fn no_overrides() -> Overrides {
    Overrides::none()
}

fn render_with_default(name: &str, default: ConfigItemValue) -> String {
    ConfigItem::new(name, default, &no_overrides()).render()
}

#[test]
fn render_undefined() {
    assert_eq!(render_with_default("CFG_PRINTF", ConfigItemValue::Undefined), "#undef CFG_PRINTF");
}

#[test]
fn render_defined() {
    assert_eq!(render_with_default("CFG_APP", ConfigItemValue::Defined), "#define CFG_APP");
}

#[test]
fn render_number() {
    assert_eq!(
        render_with_default("CFG_MAX_CONNECTIONS", ConfigItemValue::Number(1)),
        "#define CFG_MAX_CONNECTIONS (1)"
    );
}

#[test]
fn render_negative_number() {
    assert_eq!(render_with_default("CFG_X", ConfigItemValue::Number(-5)), "#define CFG_X (-5)");
}

#[test]
fn render_extreme_numbers() {
    assert_eq!(
        render_with_default("CFG_X", ConfigItemValue::Number(i32::MIN)),
        "#define CFG_X (-2147483648)"
    );
    assert_eq!(
        render_with_default("CFG_X", ConfigItemValue::Number(i32::MAX)),
        "#define CFG_X (2147483647)"
    );
}

#[test]
fn render_raw() {
    assert_eq!(
        render_with_default(
            "USER_CFG_ADDRESS_MODE",
            ConfigItemValue::Raw(String::from("APP_CFG_ADDR_PUB"))
        ),
        "#define USER_CFG_ADDRESS_MODE APP_CFG_ADDR_PUB"
    );
}

// The override string mapping is total: every string maps to some value.
#[test]
fn override_keywords() {
    assert!(matches!(parse_override("undefined"), ConfigItemValue::Undefined));
    assert!(matches!(parse_override("defined"), ConfigItemValue::Defined));
    // The keywords are recognized without regard to ASCII case.
    assert!(matches!(parse_override("UNDEFINED"), ConfigItemValue::Undefined));
    assert!(matches!(parse_override("Defined"), ConfigItemValue::Defined));
}

#[test]
fn override_numbers() {
    assert!(matches!(parse_override("17"), ConfigItemValue::Number(17)));
    assert!(matches!(parse_override("-4"), ConfigItemValue::Number(-4)));
    assert!(matches!(parse_override("+9"), ConfigItemValue::Number(9)));
    assert!(matches!(parse_override("0000000000000042"), ConfigItemValue::Number(42)));
    assert!(matches!(parse_override("-2147483648"), ConfigItemValue::Number(i32::MIN)));
}

#[test]
fn override_raw_fallback() {
    match parse_override("hello world") {
        ConfigItemValue::Raw(s) => assert_eq!(s, "\"hello world\""),
        _ => panic!("expected a raw value"),
    }
    // An out-of-range number is not a number.
    match parse_override("2147483648") {
        ConfigItemValue::Raw(s) => assert_eq!(s, "\"2147483648\""),
        _ => panic!("expected a raw value"),
    }
    // The empty string becomes an empty quoted literal.
    match parse_override("") {
        ConfigItemValue::Raw(s) => assert_eq!(s, "\"\""),
        _ => panic!("expected a raw value"),
    }
}

#[test]
fn override_replaces_default() {
    let overrides = Overrides {
        entries: vec![("CFG_TRNG".to_string(), "Undefined".to_string())],
    };
    let item = ConfigItem::new("CFG_TRNG", ConfigItemValue::Defined, &overrides);
    assert_eq!(item.render(), "#undef CFG_TRNG");
    // A name without an entry keeps its default.
    let item = ConfigItem::new("CFG_USE_AES", ConfigItemValue::Defined, &overrides);
    assert_eq!(item.render(), "#define CFG_USE_AES");
}

#[test]
fn override_total_for_any_string() {
    // Arbitrary junk never fails; it renders as a quoted raw literal.
    let overrides = Overrides {
        entries: vec![("CFG_TRNG".to_string(), "!! not ~ a number !!".to_string())],
    };
    let item = ConfigItem::new("CFG_TRNG", ConfigItemValue::Defined, &overrides);
    assert_eq!(item.render(), "#define CFG_TRNG \"!! not ~ a number !!\"");
}

#[test]
fn env_pairs_are_filtered_and_stripped() {
    let pairs = vec![
        ("PATH".to_string(), "/usr/bin".to_string()),
        ("DA14531_CFG_TRNG".to_string(), "undefined".to_string()),
        ("DA14531_DB_HEAP_SZ".to_string(), "1024".to_string()),
        ("OTHER_CFG".to_string(), "defined".to_string()),
    ];
    let overrides = overrides_from_env(&pairs);
    assert_eq!(overrides.entries.len(), 2);
    assert_eq!(overrides.entries[0].0, "CFG_TRNG");
    assert_eq!(overrides.entries[1].0, "DB_HEAP_SZ");
    assert!(overrides.get("CFG_TRNG").is_some());
    assert!(overrides.get("PATH").is_none());
}

#[test]
fn override_lookup_first_match_wins() {
    let overrides = Overrides {
        entries: vec![
            ("CFG_TRNG".to_string(), "1".to_string()),
            ("CFG_TRNG".to_string(), "2".to_string()),
        ],
    };
    assert_eq!(overrides.get("CFG_TRNG").unwrap(), "1");
}
