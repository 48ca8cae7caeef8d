use da14531_sdk::config::{ConfigItem, ConfigItemValue, Overrides};
use da14531_sdk::template::{substitute, template_input_name, TemplateError};

fn items() -> Vec<ConfigItem> {
    let overrides = Overrides::none();
    vec![
        ConfigItem::new("CFG_APP", ConfigItemValue::Defined, &overrides),
        ConfigItem::new("CFG_PRINTF", ConfigItemValue::Undefined, &overrides),
        ConfigItem::new("CFG_MAX_CONNECTIONS", ConfigItemValue::Number(1), &overrides),
    ]
}

#[test]
fn substitutes_each_placeholder() {
    let template = "${CFG_APP}\n${CFG_PRINTF}\n${CFG_MAX_CONNECTIONS}\n";
    let out = substitute(template, &items()).unwrap();
    assert_eq!(out, "#define CFG_APP\n#undef CFG_PRINTF\n#define CFG_MAX_CONNECTIONS (1)\n");
}

#[test]
fn unknown_placeholders_pass_through() {
    let template = "${CFG_APP} and ${SOMETHING_ELSE} stay";
    let out = substitute(template, &items()).unwrap();
    assert_eq!(out, "#define CFG_APP and ${SOMETHING_ELSE} stay");
}

#[test]
fn plain_text_is_untouched() {
    let template = "// no placeholders here { } \n#include <x.h>\n";
    let out = substitute(template, &items()).unwrap();
    assert_eq!(out, template);
}

#[test]
fn unterminated_placeholder_is_an_error() {
    let template = "${CFG_APP";
    assert_eq!(substitute(template, &items()), Err(TemplateError::UnterminatedPlaceholder));
}

#[test]
fn delimiter_in_item_is_an_error() {
    let overrides = Overrides {
        entries: vec![("CFG_APP".to_string(), "{bad}".to_string())],
    };
    let bad = vec![ConfigItem::new("CFG_APP", ConfigItemValue::Defined, &overrides)];
    assert_eq!(substitute("${CFG_APP}", &bad), Err(TemplateError::InvalidItem));
}

// Rendering the same template with the same items twice produces
// byte-identical output.
#[test]
fn substitution_is_deterministic() {
    let template = "${CFG_APP} x ${CFG_PRINTF} ${NOPE}";
    let one = substitute(template, &items()).unwrap();
    let two = substitute(template, &items()).unwrap();
    assert_eq!(one, two);
}

// Feeding a successful output back through the same items changes nothing.
#[test]
fn substitution_is_idempotent_on_its_output() {
    let template = "${CFG_APP} x ${CFG_PRINTF} ${NOPE} tail";
    let once = substitute(template, &items()).unwrap();
    let twice = substitute(&once, &items()).unwrap();
    assert_eq!(once, twice);
}

#[test]
fn template_input_name_appends_in() {
    assert_eq!(template_input_name("user_config.h"), "user_config.h.in");
}
