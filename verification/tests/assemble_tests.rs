use da14531_sdk::assemble::{assemble, BuildPlan, Define};
use da14531_sdk::catalog::default_catalog;
use da14531_sdk::features::FeatureSet;
use da14531_sdk::toolchain::{
    archive_name, archiver, bindgen_clang_args, binding_entry_header, linker_script_output_name,
    linker_script_source, misc_search_path, ranlib, rustified_enums, vendor_archive_link_directive,
    vendor_archive_search_path,
};

fn base_features() -> FeatureSet {
    let mut fs = FeatureSet::all_off();
    fs.address_mode_static = true;
    fs.sleep_mode_off = true;
    fs
}

fn plan_for(fs: &FeatureSet) -> BuildPlan {
    let catalog = default_catalog();
    assemble(&catalog, fs, "/opt/sdk", "/work/include", "/work/out", )
}

#[test]
fn include_dirs_are_rooted_and_ordered() {
    let plan = plan_for(&base_features());
    assert_eq!(plan.include_dirs[0], "/opt/sdk/sdk/app_modules/api");
    // The local include directory and the output directory come last, in
    // that order, so generated headers take precedence.
    let n = plan.include_dirs.len();
    assert_eq!(plan.include_dirs[n - 2], "/work/include");
    assert_eq!(plan.include_dirs[n - 1], "/work/out");
}

#[test]
fn config_headers_are_forced_last_and_bare() {
    let plan = plan_for(&base_features());
    assert_eq!(
        plan.include_files,
        vec![
            "da1458x_config_basic.h".to_string(),
            "da1458x_config_advanced.h".to_string(),
            "user_config.h".to_string(),
        ]
    );
}

#[test]
fn defines_hold_the_chip_macro() {
    let plan = plan_for(&base_features());
    assert_eq!(plan.defines.len(), 1);
    assert_eq!(plan.defines[0].name, "__DA14531__");
    assert!(plan.defines[0].value.is_none());
}

#[test]
fn optional_drivers_are_filtered_out_by_default() {
    let plan = plan_for(&base_features());
    assert!(!plan.c_sources.iter().any(|s| s.ends_with("spi_531.c")));
    assert!(!plan.c_sources.iter().any(|s| s.ends_with("spi_flash.c")));
    // The stand-alone entry point stays unless a library-only build asks
    // otherwise.
    assert!(plan.c_sources.iter().any(|s| s.ends_with("arch_main.c")));
}

#[test]
fn driver_features_keep_their_sources() {
    let mut fs = base_features();
    fs.driver_spi = true;
    fs.driver_spi_flash = true;
    let plan = plan_for(&fs);
    assert!(plan.c_sources.contains(&"/opt/sdk/sdk/platform/driver/spi/spi_531.c".to_string()));
    assert!(plan.c_sources.contains(
        &"/opt/sdk/sdk/platform/driver/spi_flash/spi_flash.c".to_string()
    ));
}

#[test]
fn no_main_drops_the_entry_point() {
    let mut fs = base_features();
    fs.no_main = true;
    let plan = plan_for(&fs);
    assert!(!plan.c_sources.iter().any(|s| s.ends_with("arch_main.c")));
}

#[test]
fn gatt_client_adds_dir_and_source() {
    let mut fs = base_features();
    fs.profile_gatt_client = true;
    let plan = plan_for(&fs);
    assert!(plan.include_dirs.contains(
        &"/opt/sdk/sdk/ble_stack/profiles/gatt/gatt_client/api".to_string()
    ));
    assert_eq!(
        plan.c_sources.last().unwrap(),
        "/opt/sdk/sdk/app_modules/src/app_gattc/app_gattc.c"
    );
}

#[test]
fn findme_target_adds_dirs_and_forced_header() {
    let mut fs = base_features();
    fs.profile_findme_target = true;
    let plan = plan_for(&fs);
    assert!(plan.include_dirs.contains(
        &"/opt/sdk/sdk/ble_stack/profiles/find/findt/api".to_string()
    ));
    assert!(plan.include_dirs.contains(&"/opt/sdk/sdk/ble_stack/profiles/find".to_string()));
    assert_eq!(plan.include_files[0], "/opt/sdk/sdk/app_modules/api/app_findme.h");
}

#[test]
fn asm_sources_are_rooted() {
    let plan = plan_for(&base_features());
    assert_eq!(
        plan.asm_sources,
        vec![
            "/opt/sdk/sdk/platform/arch/boot/GCC/ivtable_DA14531.S".to_string(),
            "/opt/sdk/sdk/platform/arch/boot/GCC/startup_DA14531.S".to_string(),
        ]
    );
}

// The assembler is deterministic: identical root and features give
// identical ordered lists.
#[test]
fn assembler_is_deterministic() {
    let one = plan_for(&base_features());
    let two = plan_for(&base_features());
    assert_eq!(one.include_dirs, two.include_dirs);
    assert_eq!(one.include_files, two.include_files);
    assert_eq!(one.c_sources, two.c_sources);
    assert_eq!(one.asm_sources, two.asm_sources);
}

#[test]
fn bindgen_args_follow_the_plan() {
    let plan = plan_for(&base_features());
    let args = bindgen_clang_args(&plan, "/toolchain/sysroot");
    assert_eq!(args[0], "-D__SOFTFP__");
    assert_eq!(args[1], "--sysroot=/toolchain/sysroot");
    assert_eq!(args[2], "-Wno-expansion-to-defined");
    assert_eq!(args[3], "-D__DA14531__");
    assert_eq!(args[4], "-I/opt/sdk/sdk/app_modules/api");
    // Each force-included header arrives as an argument pair.
    let n = args.len();
    assert_eq!(args[n - 2], "-include");
    assert_eq!(args[n - 1], "user_config.h");
}

#[test]
fn binding_adapter_constants() {
    assert_eq!(binding_entry_header(), "bindings.h");
    assert_eq!(
        rustified_enums(),
        vec![
            "hl_err".to_string(),
            "process_event_response".to_string(),
            "syscntl_dcdc_level_t".to_string(),
            "APP_MSG".to_string(),
        ]
    );
}

#[test]
fn toolchain_constants() {
    assert_eq!(archive_name(), "da14531_sdk");
    assert_eq!(archiver(), "arm-none-eabi-gcc-ar");
    assert_eq!(ranlib(), "arm-none-eabi-gcc-ranlib");
    assert_eq!(
        vendor_archive_link_directive(),
        "static:+whole-archive,+verbatim=da14531.a"
    );
    assert_eq!(
        vendor_archive_search_path("/opt/sdk"),
        "/opt/sdk/sdk/platform/system_library/output/IAR"
    );
    assert_eq!(
        linker_script_source("/opt/sdk"),
        "/opt/sdk/sdk/common_project_files/ldscripts/ldscript_DA14531.lds.S"
    );
    assert_eq!(linker_script_output_name(), "ldscript_DA14531.lds");
    assert_eq!(misc_search_path("/opt/sdk"), "/opt/sdk/sdk/common_project_files/misc");
}

#[test]
fn define_with_value_becomes_one_argument() {
    let plan = BuildPlan {
        include_dirs: vec![],
        include_files: vec![],
        defines: vec![Define { name: "X".to_string(), value: Some("Y".to_string()) }],
        c_sources: vec![],
        asm_sources: vec![],
    };
    let args = bindgen_clang_args(&plan, "/sr");
    assert_eq!(args, vec!["-D__SOFTFP__", "--sysroot=/sr", "-Wno-expansion-to-defined", "-DX=Y"]);
}
