//! Feature resolution and validation.
//!
//! A feature set is a fixed catalog of build-time toggles. Two invariant
//! groups are enforced before any header is generated: exactly one address
//! mode must be selected, and exactly one sleep mode. Violations are fatal
//! configuration conflicts, raised before any artifact is produced; they
//! are never silently resolved.
//!
//! Each logical config group maps to an ordered list of config items that
//! drives one generated header.

use vstd::prelude::*;
use vstd::string::*;

use crate::config::{
    is_c_macro_identifier, spec_resolve_value, ConfigItem, ConfigItemValue, ItemModel, Overrides,
    ValueModel,
};

verus! {

/// The build-time feature selections driving conditional configuration.
#[derive(Clone, Copy, Debug, PartialEq, Eq, Structural)]
pub struct FeatureSet {
    pub app_security: bool,
    pub profile_dis_server: bool,
    pub profile_prox_reporter: bool,
    pub profile_batt_server: bool,
    pub profile_findme_locator: bool,
    pub profile_findme_target: bool,
    pub profile_suota_receiver: bool,
    pub profile_custom_server1: bool,
    pub profile_custom_server2: bool,
    pub profile_gatt_client: bool,
    pub address_mode_public: bool,
    pub address_mode_static: bool,
    pub sleep_mode_off: bool,
    pub sleep_mode_ext_on: bool,
    pub sleep_mode_ext_otp_copy_on: bool,
    pub no_main: bool,
    pub driver_spi: bool,
    pub driver_spi_flash: bool,
}

impl FeatureSet {
    /// A feature set with every toggle off.
    pub fn all_off() -> (r: FeatureSet)
        ensures
            r == (FeatureSet {
                app_security: false,
                profile_dis_server: false,
                profile_prox_reporter: false,
                profile_batt_server: false,
                profile_findme_locator: false,
                profile_findme_target: false,
                profile_suota_receiver: false,
                profile_custom_server1: false,
                profile_custom_server2: false,
                profile_gatt_client: false,
                address_mode_public: false,
                address_mode_static: false,
                sleep_mode_off: false,
                sleep_mode_ext_on: false,
                sleep_mode_ext_otp_copy_on: false,
                no_main: false,
                driver_spi: false,
                driver_spi_flash: false,
            }),
    {
        FeatureSet {
            app_security: false,
            profile_dis_server: false,
            profile_prox_reporter: false,
            profile_batt_server: false,
            profile_findme_locator: false,
            profile_findme_target: false,
            profile_suota_receiver: false,
            profile_custom_server1: false,
            profile_custom_server2: false,
            profile_gatt_client: false,
            address_mode_public: false,
            address_mode_static: false,
            sleep_mode_off: false,
            sleep_mode_ext_on: false,
            sleep_mode_ext_otp_copy_on: false,
            no_main: false,
            driver_spi: false,
            driver_spi_flash: false,
        }
    }
}

/// A violated feature-group invariant: a fatal configuration conflict.
#[derive(Clone, Copy, Debug, PartialEq, Eq, Structural)]
pub enum ConfigConflict {
    /// No address mode flag is set.
    AddressModeNone,
    /// More than one address mode flag is set.
    AddressModeMany,
    /// No sleep mode flag is set.
    SleepModeNone,
    /// More than one sleep mode flag is set.
    SleepModeMany,
}

impl ConfigConflict {
    /// A human-readable description of the conflict.
    pub fn message(&self) -> (r: String)
        ensures
            r@ == match self {
                ConfigConflict::AddressModeNone => "One address mode feature flag has to be set!"@,
                ConfigConflict::AddressModeMany => "Only one address mode feature flag can be set!"@,
                ConfigConflict::SleepModeNone => "One sleep mode feature flag has to be set!"@,
                ConfigConflict::SleepModeMany => "Only one sleep mode feature flag can be set!"@,
            },
    {
        match self {
            ConfigConflict::AddressModeNone => String::from_str(
                "One address mode feature flag has to be set!",
            ),
            ConfigConflict::AddressModeMany => String::from_str(
                "Only one address mode feature flag can be set!",
            ),
            ConfigConflict::SleepModeNone => String::from_str(
                "One sleep mode feature flag has to be set!",
            ),
            ConfigConflict::SleepModeMany => String::from_str(
                "Only one sleep mode feature flag can be set!",
            ),
        }
    }
}

/// How many sleep mode flags are active.
pub open spec fn sleep_mode_count(fs: FeatureSet) -> int {
    (if fs.sleep_mode_off {
        1int
    } else {
        0int
    }) + (if fs.sleep_mode_ext_on {
        1int
    } else {
        0int
    }) + (if fs.sleep_mode_ext_otp_copy_on {
        1int
    } else {
        0int
    })
}

/// Whether exactly one address mode flag is active.
pub open spec fn exactly_one_address_mode(fs: FeatureSet) -> bool {
    fs.address_mode_public != fs.address_mode_static
}

/// Whether exactly one sleep mode flag is active.
pub open spec fn exactly_one_sleep_mode(fs: FeatureSet) -> bool {
    sleep_mode_count(fs) == 1
}

/// The conflict raised by a feature set, if any: the address mode group is
/// examined first, then the sleep mode group; in each group an
/// over-specification is reported before an under-specification.
pub open spec fn spec_feature_conflict(fs: FeatureSet) -> Option<ConfigConflict> {
    if fs.address_mode_public && fs.address_mode_static {
        Some(ConfigConflict::AddressModeMany)
    } else if !fs.address_mode_public && !fs.address_mode_static {
        Some(ConfigConflict::AddressModeNone)
    } else if sleep_mode_count(fs) > 1 {
        Some(ConfigConflict::SleepModeMany)
    } else if sleep_mode_count(fs) == 0 {
        Some(ConfigConflict::SleepModeNone)
    } else {
        None
    }
}

/// Checks the mutual-exclusion invariant groups of the feature set.
/// Succeeds exactly when one address mode and one sleep mode are selected.
pub fn validate_features(fs: &FeatureSet) -> (r: Result<(), ConfigConflict>)
    ensures
        match spec_feature_conflict(*fs) {
            Some(e) => r == Err::<(), ConfigConflict>(e),
            None => r is Ok,
        },
        r is Ok <==> exactly_one_address_mode(*fs) && exactly_one_sleep_mode(*fs),
{
    if fs.address_mode_public && fs.address_mode_static {
        return Err(ConfigConflict::AddressModeMany);
    }
    if !fs.address_mode_public && !fs.address_mode_static {
        return Err(ConfigConflict::AddressModeNone);
    }
    let sleep_count: u32 = (if fs.sleep_mode_off {
        1
    } else {
        0
    }) + (if fs.sleep_mode_ext_on {
        1
    } else {
        0
    }) + (if fs.sleep_mode_ext_otp_copy_on {
        1
    } else {
        0
    });
    if sleep_count > 1 {
        return Err(ConfigConflict::SleepModeMany);
    }
    if sleep_count == 0 {
        return Err(ConfigConflict::SleepModeNone);
    }
    Ok(())
}

/// The item models carried by an executable item list.
pub open spec fn item_models(items: Seq<ConfigItem>) -> Seq<ItemModel> {
    items.map_values(|it: ConfigItem| it@)
}

/// The C macro value selected by the active address mode flag.
pub open spec fn spec_address_mode_value(fs: FeatureSet) -> Seq<char> {
    if fs.address_mode_public {
        "APP_CFG_ADDR_PUB"@
    } else {
        "APP_CFG_ADDR_STATIC"@
    }
}

/// The C macro value selected by the active sleep mode flag.
pub open spec fn spec_sleep_mode_value(fs: FeatureSet) -> Seq<char> {
    if fs.sleep_mode_off {
        "ARCH_SLEEP_OFF"@
    } else if fs.sleep_mode_ext_on {
        "ARCH_EXT_SLEEP_ON"@
    } else {
        "ARCH_EXT_SLEEP_OTP_COPY_ON"@
    }
}

/// One resolved item model: the named default, overridden when the
/// override set carries the name.
pub open spec fn resolved(
    name: Seq<char>,
    default: ValueModel,
    ov: Seq<(Seq<char>, Seq<char>)>,
) -> ItemModel {
    ItemModel { name, value: spec_resolve_value(name, default, ov) }
}

/// `Defined` when the flag is set, `Undefined` otherwise.
pub open spec fn defined_if(flag: bool) -> ValueModel {
    if flag {
        ValueModel::Defined
    } else {
        ValueModel::Undefined
    }
}

/// `Number(0)` when the flag is set, `Number(1)` otherwise: the module
/// exclusion convention, where zero means "keep".
pub open spec fn excluded_unless(flag: bool) -> ValueModel {
    if flag {
        ValueModel::Number(0)
    } else {
        ValueModel::Number(1)
    }
}

/// The ordered item list of the basic config group.
pub open spec fn spec_basic_items(fs: FeatureSet, ov: Seq<(Seq<char>, Seq<char>)>) -> Seq<
    ItemModel,
> {
    seq![
        resolved("CFG_APP"@, ValueModel::Defined, ov),
        resolved("CFG_APP_SECURITY"@, defined_if(fs.app_security), ov),
        resolved("CFG_WDOG"@, ValueModel::Defined, ov),
        resolved("CFG_WDG_TRIGGER_HW_RESET_IN_PRODUCTION_MODE"@, ValueModel::Undefined, ov),
        resolved("CFG_MAX_CONNECTIONS"@, ValueModel::Number(1), ov),
        resolved("CFG_DEVELOPMENT_DEBUG"@, ValueModel::Defined, ov),
        resolved("CFG_PRINTF"@, ValueModel::Undefined, ov),
        resolved("CFG_UART1_SDK"@, ValueModel::Undefined, ov),
        resolved("CFG_SPI_FLASH_ENABLE"@, ValueModel::Undefined, ov),
        resolved("CFG_I2C_EEPROM_ENABLE"@, ValueModel::Undefined, ov),
        resolved("CFG_UART_DMA_SUPPORT"@, ValueModel::Undefined, ov),
        resolved("CFG_SPI_DMA_SUPPORT"@, ValueModel::Undefined, ov),
        resolved("CFG_I2C_DMA_SUPPORT"@, ValueModel::Undefined, ov),
        resolved("CFG_ADC_DMA_SUPPORT"@, ValueModel::Undefined, ov),
        resolved("CFG_POWER_MODE_BYPASS"@, ValueModel::Undefined, ov),
    ]
}

/// Builds the basic config group.
pub fn basic_config_items(fs: &FeatureSet, overrides: &Overrides) -> (r: Vec<ConfigItem>)
    ensures
        item_models(r@) == spec_basic_items(*fs, overrides@),
{
    let mut r: Vec<ConfigItem> = Vec::new();
    r.push(ConfigItem::new("CFG_APP", ConfigItemValue::Defined, overrides));
    let security = if fs.app_security {
        ConfigItemValue::Defined
    } else {
        ConfigItemValue::Undefined
    };
    r.push(ConfigItem::new("CFG_APP_SECURITY", security, overrides));
    r.push(ConfigItem::new("CFG_WDOG", ConfigItemValue::Defined, overrides));
    r.push(
        ConfigItem::new(
            "CFG_WDG_TRIGGER_HW_RESET_IN_PRODUCTION_MODE",
            ConfigItemValue::Undefined,
            overrides,
        ),
    );
    r.push(ConfigItem::new("CFG_MAX_CONNECTIONS", ConfigItemValue::Number(1), overrides));
    r.push(ConfigItem::new("CFG_DEVELOPMENT_DEBUG", ConfigItemValue::Defined, overrides));
    r.push(ConfigItem::new("CFG_PRINTF", ConfigItemValue::Undefined, overrides));
    r.push(ConfigItem::new("CFG_UART1_SDK", ConfigItemValue::Undefined, overrides));
    r.push(ConfigItem::new("CFG_SPI_FLASH_ENABLE", ConfigItemValue::Undefined, overrides));
    r.push(ConfigItem::new("CFG_I2C_EEPROM_ENABLE", ConfigItemValue::Undefined, overrides));
    r.push(ConfigItem::new("CFG_UART_DMA_SUPPORT", ConfigItemValue::Undefined, overrides));
    r.push(ConfigItem::new("CFG_SPI_DMA_SUPPORT", ConfigItemValue::Undefined, overrides));
    r.push(ConfigItem::new("CFG_I2C_DMA_SUPPORT", ConfigItemValue::Undefined, overrides));
    r.push(ConfigItem::new("CFG_ADC_DMA_SUPPORT", ConfigItemValue::Undefined, overrides));
    r.push(ConfigItem::new("CFG_POWER_MODE_BYPASS", ConfigItemValue::Undefined, overrides));
    proof {
        assert(item_models(r@) =~= spec_basic_items(*fs, overrides@));
    }
    r
}

/// The ordered item list of the advanced config group.
pub open spec fn spec_advanced_items(ov: Seq<(Seq<char>, Seq<char>)>) -> Seq<ItemModel> {
    seq![
        resolved("CFG_TRNG"@, ValueModel::Defined, ov),
        resolved("CFG_USE_CHACHA20_RAND"@, ValueModel::Undefined, ov),
        resolved("DB_HEAP_SZ"@, ValueModel::Undefined, ov),
        resolved("ENV_HEAP_SZ"@, ValueModel::Undefined, ov),
        resolved("MSG_HEAP_SZ"@, ValueModel::Undefined, ov),
        resolved("NON_RET_HEAP_SZ"@, ValueModel::Undefined, ov),
        resolved("CFG_USE_AES"@, ValueModel::Defined, ov),
        resolved("CFG_AES_DECRYPT"@, ValueModel::Defined, ov),
    ]
}

/// Builds the advanced config group.
pub fn advanced_config_items(overrides: &Overrides) -> (r: Vec<ConfigItem>)
    ensures
        item_models(r@) == spec_advanced_items(overrides@),
{
    let mut r: Vec<ConfigItem> = Vec::new();
    r.push(ConfigItem::new("CFG_TRNG", ConfigItemValue::Defined, overrides));
    r.push(ConfigItem::new("CFG_USE_CHACHA20_RAND", ConfigItemValue::Undefined, overrides));
    r.push(ConfigItem::new("DB_HEAP_SZ", ConfigItemValue::Undefined, overrides));
    r.push(ConfigItem::new("ENV_HEAP_SZ", ConfigItemValue::Undefined, overrides));
    r.push(ConfigItem::new("MSG_HEAP_SZ", ConfigItemValue::Undefined, overrides));
    r.push(ConfigItem::new("NON_RET_HEAP_SZ", ConfigItemValue::Undefined, overrides));
    r.push(ConfigItem::new("CFG_USE_AES", ConfigItemValue::Defined, overrides));
    r.push(ConfigItem::new("CFG_AES_DECRYPT", ConfigItemValue::Defined, overrides));
    proof {
        assert(item_models(r@) =~= spec_advanced_items(overrides@));
    }
    r
}

/// The ordered item list of the module-exclusion config group.
pub open spec fn spec_modules_items(fs: FeatureSet, ov: Seq<(Seq<char>, Seq<char>)>) -> Seq<
    ItemModel,
> {
    seq![
        resolved("EXCLUDE_DLG_GAP"@, ValueModel::Number(0), ov),
        resolved("EXCLUDE_DLG_TIMER"@, ValueModel::Number(0), ov),
        resolved("EXCLUDE_DLG_MSG"@, ValueModel::Number(1), ov),
        resolved("EXCLUDE_DLG_SEC"@, ValueModel::Number(1), ov),
        resolved("EXCLUDE_DLG_DISS"@, excluded_unless(fs.profile_dis_server), ov),
        resolved("EXCLUDE_DLG_PROXR"@, excluded_unless(fs.profile_prox_reporter), ov),
        resolved("EXCLUDE_DLG_BASS"@, excluded_unless(fs.profile_batt_server), ov),
        resolved("EXCLUDE_DLG_FINDL"@, excluded_unless(fs.profile_findme_locator), ov),
        resolved("EXCLUDE_DLG_FINDT"@, excluded_unless(fs.profile_findme_target), ov),
        resolved("EXCLUDE_DLG_SUOTAR"@, excluded_unless(fs.profile_suota_receiver), ov),
        resolved("EXCLUDE_DLG_CUSTS1"@, excluded_unless(fs.profile_custom_server1), ov),
        resolved("EXCLUDE_DLG_CUSTS2"@, excluded_unless(fs.profile_custom_server2), ov),
    ]
}

/// `0` keeps a module when its profile flag is set; `1` excludes it.
fn exclusion_value(flag: bool) -> (r: ConfigItemValue)
    ensures
        r@ == excluded_unless(flag),
{
    if flag {
        ConfigItemValue::Number(0)
    } else {
        ConfigItemValue::Number(1)
    }
}

/// Builds the module-exclusion config group.
pub fn modules_config_items(fs: &FeatureSet, overrides: &Overrides) -> (r: Vec<ConfigItem>)
    ensures
        item_models(r@) == spec_modules_items(*fs, overrides@),
{
    let mut r: Vec<ConfigItem> = Vec::new();
    r.push(ConfigItem::new("EXCLUDE_DLG_GAP", ConfigItemValue::Number(0), overrides));
    r.push(ConfigItem::new("EXCLUDE_DLG_TIMER", ConfigItemValue::Number(0), overrides));
    r.push(ConfigItem::new("EXCLUDE_DLG_MSG", ConfigItemValue::Number(1), overrides));
    r.push(ConfigItem::new("EXCLUDE_DLG_SEC", ConfigItemValue::Number(1), overrides));
    r.push(ConfigItem::new("EXCLUDE_DLG_DISS", exclusion_value(fs.profile_dis_server), overrides));
    r.push(
        ConfigItem::new("EXCLUDE_DLG_PROXR", exclusion_value(fs.profile_prox_reporter), overrides),
    );
    r.push(ConfigItem::new("EXCLUDE_DLG_BASS", exclusion_value(fs.profile_batt_server), overrides));
    r.push(
        ConfigItem::new("EXCLUDE_DLG_FINDL", exclusion_value(fs.profile_findme_locator), overrides),
    );
    r.push(
        ConfigItem::new("EXCLUDE_DLG_FINDT", exclusion_value(fs.profile_findme_target), overrides),
    );
    r.push(
        ConfigItem::new("EXCLUDE_DLG_SUOTAR", exclusion_value(fs.profile_suota_receiver), overrides),
    );
    r.push(
        ConfigItem::new("EXCLUDE_DLG_CUSTS1", exclusion_value(fs.profile_custom_server1), overrides),
    );
    r.push(
        ConfigItem::new("EXCLUDE_DLG_CUSTS2", exclusion_value(fs.profile_custom_server2), overrides),
    );
    proof {
        assert(item_models(r@) =~= spec_modules_items(*fs, overrides@));
    }
    r
}

/// The ordered item list of the profile config group.
pub open spec fn spec_profiles_items(fs: FeatureSet, ov: Seq<(Seq<char>, Seq<char>)>) -> Seq<
    ItemModel,
> {
    seq![
        resolved("CFG_PRF_CUST1"@, defined_if(fs.profile_custom_server1), ov),
        resolved("CFG_PRF_CUST2"@, defined_if(fs.profile_custom_server2), ov),
        resolved("CFG_PRF_DISS"@, defined_if(fs.profile_dis_server), ov),
        resolved("CFG_PRF_PXPR"@, defined_if(fs.profile_prox_reporter), ov),
        resolved("CFG_PRF_BASS"@, defined_if(fs.profile_batt_server), ov),
        resolved("CFG_PRF_SUOTAR"@, defined_if(fs.profile_suota_receiver), ov),
        resolved("CFG_PRF_FMPT"@, defined_if(fs.profile_findme_target), ov),
        resolved("CFG_PRF_FMPL"@, defined_if(fs.profile_findme_locator), ov),
        resolved("CFG_PRF_GATTC"@, defined_if(fs.profile_gatt_client), ov),
    ]
}

/// `Defined` when the flag is set, `Undefined` otherwise.
fn presence_value(flag: bool) -> (r: ConfigItemValue)
    ensures
        r@ == defined_if(flag),
{
    if flag {
        ConfigItemValue::Defined
    } else {
        ConfigItemValue::Undefined
    }
}

/// Builds the profile config group.
pub fn profiles_config_items(fs: &FeatureSet, overrides: &Overrides) -> (r: Vec<ConfigItem>)
    ensures
        item_models(r@) == spec_profiles_items(*fs, overrides@),
{
    let mut r: Vec<ConfigItem> = Vec::new();
    r.push(ConfigItem::new("CFG_PRF_CUST1", presence_value(fs.profile_custom_server1), overrides));
    r.push(ConfigItem::new("CFG_PRF_CUST2", presence_value(fs.profile_custom_server2), overrides));
    r.push(ConfigItem::new("CFG_PRF_DISS", presence_value(fs.profile_dis_server), overrides));
    r.push(ConfigItem::new("CFG_PRF_PXPR", presence_value(fs.profile_prox_reporter), overrides));
    r.push(ConfigItem::new("CFG_PRF_BASS", presence_value(fs.profile_batt_server), overrides));
    r.push(ConfigItem::new("CFG_PRF_SUOTAR", presence_value(fs.profile_suota_receiver), overrides));
    r.push(ConfigItem::new("CFG_PRF_FMPT", presence_value(fs.profile_findme_target), overrides));
    r.push(ConfigItem::new("CFG_PRF_FMPL", presence_value(fs.profile_findme_locator), overrides));
    r.push(ConfigItem::new("CFG_PRF_GATTC", presence_value(fs.profile_gatt_client), overrides));
    proof {
        assert(item_models(r@) =~= spec_profiles_items(*fs, overrides@));
    }
    r
}

/// The ordered item list of the user config group, defined only for
/// conflict-free feature sets.
pub open spec fn spec_user_items(fs: FeatureSet, ov: Seq<(Seq<char>, Seq<char>)>) -> Seq<
    ItemModel,
> {
    seq![
        resolved("USER_CFG_ADDRESS_MODE"@, ValueModel::Raw(spec_address_mode_value(fs)), ov),
        resolved(
            "USER_CFG_CNTL_PRIV_MODE"@,
            ValueModel::Raw("APP_CFG_CNTL_PRIV_MODE_NETWORK"@),
            ov,
        ),
        resolved("USER_CFG_ARCH_SLEEP_MODE"@, ValueModel::Raw(spec_sleep_mode_value(fs)), ov),
        resolved("USER_DEVICE_NAME"@, ValueModel::Raw("\"\""@), ov),
    ]
}

/// Builds the user config group, first enforcing the mutual-exclusion
/// invariants: a conflicted feature set yields the conflict and no items.
pub fn user_config_items(fs: &FeatureSet, overrides: &Overrides) -> (r: Result<
    Vec<ConfigItem>,
    ConfigConflict,
>)
    ensures
        match spec_feature_conflict(*fs) {
            Some(e) => r == Err::<Vec<ConfigItem>, ConfigConflict>(e),
            None => r matches Ok(v) && item_models(v@) == spec_user_items(*fs, overrides@),
        },
{
    match validate_features(fs) {
        Err(e) => Err(e),
        Ok(()) => {
            let address_mode = if fs.address_mode_public {
                String::from_str("APP_CFG_ADDR_PUB")
            } else {
                String::from_str("APP_CFG_ADDR_STATIC")
            };
            let sleep_mode = if fs.sleep_mode_off {
                String::from_str("ARCH_SLEEP_OFF")
            } else if fs.sleep_mode_ext_on {
                String::from_str("ARCH_EXT_SLEEP_ON")
            } else {
                String::from_str("ARCH_EXT_SLEEP_OTP_COPY_ON")
            };
            let mut r: Vec<ConfigItem> = Vec::new();
            r.push(
                ConfigItem::new(
                    "USER_CFG_ADDRESS_MODE",
                    ConfigItemValue::Raw(address_mode),
                    overrides,
                ),
            );
            r.push(
                ConfigItem::new(
                    "USER_CFG_CNTL_PRIV_MODE",
                    ConfigItemValue::Raw(String::from_str("APP_CFG_CNTL_PRIV_MODE_NETWORK")),
                    overrides,
                ),
            );
            r.push(
                ConfigItem::new(
                    "USER_CFG_ARCH_SLEEP_MODE",
                    ConfigItemValue::Raw(sleep_mode),
                    overrides,
                ),
            );
            r.push(
                ConfigItem::new(
                    "USER_DEVICE_NAME",
                    ConfigItemValue::Raw(String::from_str("\"\"")),
                    overrides,
                ),
            );
            proof {
                assert(item_models(r@) =~= spec_user_items(*fs, overrides@));
            }
            Ok(r)
        },
    }
}

/// Every config item name the engine generates, across all five config
/// groups, is a valid C macro identifier.
#[verifier::rlimit(100)]
pub proof fn lemma_generated_names_are_identifiers(fs: FeatureSet, ov: Seq<(Seq<char>, Seq<char>)>)
    ensures
        forall|i: int|
            0 <= i < spec_basic_items(fs, ov).len() ==> is_c_macro_identifier(
                (#[trigger] spec_basic_items(fs, ov)[i]).name,
            ),
        forall|i: int|
            0 <= i < spec_advanced_items(ov).len() ==> is_c_macro_identifier(
                (#[trigger] spec_advanced_items(ov)[i]).name,
            ),
        forall|i: int|
            0 <= i < spec_modules_items(fs, ov).len() ==> is_c_macro_identifier(
                (#[trigger] spec_modules_items(fs, ov)[i]).name,
            ),
        forall|i: int|
            0 <= i < spec_profiles_items(fs, ov).len() ==> is_c_macro_identifier(
                (#[trigger] spec_profiles_items(fs, ov)[i]).name,
            ),
        forall|i: int|
            0 <= i < spec_user_items(fs, ov).len() ==> is_c_macro_identifier(
                (#[trigger] spec_user_items(fs, ov)[i]).name,
            ),
{
    reveal_strlit("CFG_APP");
    reveal_strlit("CFG_APP_SECURITY");
    reveal_strlit("CFG_WDOG");
    reveal_strlit("CFG_WDG_TRIGGER_HW_RESET_IN_PRODUCTION_MODE");
    reveal_strlit("CFG_MAX_CONNECTIONS");
    reveal_strlit("CFG_DEVELOPMENT_DEBUG");
    reveal_strlit("CFG_PRINTF");
    reveal_strlit("CFG_UART1_SDK");
    reveal_strlit("CFG_SPI_FLASH_ENABLE");
    reveal_strlit("CFG_I2C_EEPROM_ENABLE");
    reveal_strlit("CFG_UART_DMA_SUPPORT");
    reveal_strlit("CFG_SPI_DMA_SUPPORT");
    reveal_strlit("CFG_I2C_DMA_SUPPORT");
    reveal_strlit("CFG_ADC_DMA_SUPPORT");
    reveal_strlit("CFG_POWER_MODE_BYPASS");
    reveal_strlit("CFG_TRNG");
    reveal_strlit("CFG_USE_CHACHA20_RAND");
    reveal_strlit("DB_HEAP_SZ");
    reveal_strlit("ENV_HEAP_SZ");
    reveal_strlit("MSG_HEAP_SZ");
    reveal_strlit("NON_RET_HEAP_SZ");
    reveal_strlit("CFG_USE_AES");
    reveal_strlit("CFG_AES_DECRYPT");
    reveal_strlit("EXCLUDE_DLG_GAP");
    reveal_strlit("EXCLUDE_DLG_TIMER");
    reveal_strlit("EXCLUDE_DLG_MSG");
    reveal_strlit("EXCLUDE_DLG_SEC");
    reveal_strlit("EXCLUDE_DLG_DISS");
    reveal_strlit("EXCLUDE_DLG_PROXR");
    reveal_strlit("EXCLUDE_DLG_BASS");
    reveal_strlit("EXCLUDE_DLG_FINDL");
    reveal_strlit("EXCLUDE_DLG_FINDT");
    reveal_strlit("EXCLUDE_DLG_SUOTAR");
    reveal_strlit("EXCLUDE_DLG_CUSTS1");
    reveal_strlit("EXCLUDE_DLG_CUSTS2");
    reveal_strlit("CFG_PRF_CUST1");
    reveal_strlit("CFG_PRF_CUST2");
    reveal_strlit("CFG_PRF_DISS");
    reveal_strlit("CFG_PRF_PXPR");
    reveal_strlit("CFG_PRF_BASS");
    reveal_strlit("CFG_PRF_SUOTAR");
    reveal_strlit("CFG_PRF_FMPT");
    reveal_strlit("CFG_PRF_FMPL");
    reveal_strlit("CFG_PRF_GATTC");
    reveal_strlit("USER_CFG_ADDRESS_MODE");
    reveal_strlit("USER_CFG_CNTL_PRIV_MODE");
    reveal_strlit("USER_CFG_ARCH_SLEEP_MODE");
    reveal_strlit("USER_DEVICE_NAME");
    assert(is_c_macro_identifier("CFG_APP"@));
    assert(is_c_macro_identifier("CFG_APP_SECURITY"@));
    assert(is_c_macro_identifier("CFG_WDOG"@));
    assert(is_c_macro_identifier("CFG_WDG_TRIGGER_HW_RESET_IN_PRODUCTION_MODE"@));
    assert(is_c_macro_identifier("CFG_MAX_CONNECTIONS"@));
    assert(is_c_macro_identifier("CFG_DEVELOPMENT_DEBUG"@));
    assert(is_c_macro_identifier("CFG_PRINTF"@));
    assert(is_c_macro_identifier("CFG_UART1_SDK"@));
    assert(is_c_macro_identifier("CFG_SPI_FLASH_ENABLE"@));
    assert(is_c_macro_identifier("CFG_I2C_EEPROM_ENABLE"@));
    assert(is_c_macro_identifier("CFG_UART_DMA_SUPPORT"@));
    assert(is_c_macro_identifier("CFG_SPI_DMA_SUPPORT"@));
    assert(is_c_macro_identifier("CFG_I2C_DMA_SUPPORT"@));
    assert(is_c_macro_identifier("CFG_ADC_DMA_SUPPORT"@));
    assert(is_c_macro_identifier("CFG_POWER_MODE_BYPASS"@));
    assert(is_c_macro_identifier("CFG_TRNG"@));
    assert(is_c_macro_identifier("CFG_USE_CHACHA20_RAND"@));
    assert(is_c_macro_identifier("DB_HEAP_SZ"@));
    assert(is_c_macro_identifier("ENV_HEAP_SZ"@));
    assert(is_c_macro_identifier("MSG_HEAP_SZ"@));
    assert(is_c_macro_identifier("NON_RET_HEAP_SZ"@));
    assert(is_c_macro_identifier("CFG_USE_AES"@));
    assert(is_c_macro_identifier("CFG_AES_DECRYPT"@));
    assert(is_c_macro_identifier("EXCLUDE_DLG_GAP"@));
    assert(is_c_macro_identifier("EXCLUDE_DLG_TIMER"@));
    assert(is_c_macro_identifier("EXCLUDE_DLG_MSG"@));
    assert(is_c_macro_identifier("EXCLUDE_DLG_SEC"@));
    assert(is_c_macro_identifier("EXCLUDE_DLG_DISS"@));
    assert(is_c_macro_identifier("EXCLUDE_DLG_PROXR"@));
    assert(is_c_macro_identifier("EXCLUDE_DLG_BASS"@));
    assert(is_c_macro_identifier("EXCLUDE_DLG_FINDL"@));
    assert(is_c_macro_identifier("EXCLUDE_DLG_FINDT"@));
    assert(is_c_macro_identifier("EXCLUDE_DLG_SUOTAR"@));
    assert(is_c_macro_identifier("EXCLUDE_DLG_CUSTS1"@));
    assert(is_c_macro_identifier("EXCLUDE_DLG_CUSTS2"@));
    assert(is_c_macro_identifier("CFG_PRF_CUST1"@));
    assert(is_c_macro_identifier("CFG_PRF_CUST2"@));
    assert(is_c_macro_identifier("CFG_PRF_DISS"@));
    assert(is_c_macro_identifier("CFG_PRF_PXPR"@));
    assert(is_c_macro_identifier("CFG_PRF_BASS"@));
    assert(is_c_macro_identifier("CFG_PRF_SUOTAR"@));
    assert(is_c_macro_identifier("CFG_PRF_FMPT"@));
    assert(is_c_macro_identifier("CFG_PRF_FMPL"@));
    assert(is_c_macro_identifier("CFG_PRF_GATTC"@));
    assert(is_c_macro_identifier("USER_CFG_ADDRESS_MODE"@));
    assert(is_c_macro_identifier("USER_CFG_CNTL_PRIV_MODE"@));
    assert(is_c_macro_identifier("USER_CFG_ARCH_SLEEP_MODE"@));
    assert(is_c_macro_identifier("USER_DEVICE_NAME"@));
}

} // verus!
