//! The fixed catalog of SDK-relative paths that seeds the source/include
//! assembler: include directories, force-included config headers, C
//! sources and assembly sources. The catalog is explicit configuration
//! data handed to the assembler, not ambient state; every path is relative
//! to the SDK root until the assembler roots it there.

use vstd::prelude::*;
use vstd::string::*;

verus! {

/// Mathematical model of a catalog.
pub ghost struct CatalogModel {
    pub include_paths: Seq<Seq<char>>,
    pub config_headers: Seq<Seq<char>>,
    pub c_sources: Seq<Seq<char>>,
    pub asm_sources: Seq<Seq<char>>,
}

/// The table of SDK-relative paths the assembler starts from.
pub struct Catalog {
    pub include_paths: Vec<String>,
    pub config_headers: Vec<String>,
    pub c_sources: Vec<String>,
    pub asm_sources: Vec<String>,
}

impl View for Catalog {
    type V = CatalogModel;

    open spec fn view(&self) -> CatalogModel {
        CatalogModel {
            include_paths: self.include_paths.deep_view(),
            config_headers: self.config_headers.deep_view(),
            c_sources: self.c_sources.deep_view(),
            asm_sources: self.asm_sources.deep_view(),
        }
    }
}

/// Appends one path literal to a path list.
fn push_path(v: &mut Vec<String>, s: &str)
    ensures
        final(v).deep_view() == old(v).deep_view().push(s@),
{
    v.push(String::from_str(s));
    proof {
        assert(v.deep_view() =~= old(v).deep_view().push(s@));
    }
}

/// The include directories of the default catalog.
pub open spec fn spec_default_include_paths() -> Seq<Seq<char>> {
    seq![
        "/sdk/app_modules/api"@,
        "/sdk/ble_stack/controller/em"@,
        "/sdk/ble_stack/controller/llc"@,
        "/sdk/ble_stack/controller/lld"@,
        "/sdk/ble_stack/controller/llm"@,
        "/sdk/ble_stack/ea/api"@,
        "/sdk/ble_stack/em/api"@,
        "/sdk/ble_stack/hci/api"@,
        "/sdk/ble_stack/hci/src"@,
        "/sdk/ble_stack/host/att"@,
        "/sdk/ble_stack/host/att/attc"@,
        "/sdk/ble_stack/host/att/attm"@,
        "/sdk/ble_stack/host/att/atts"@,
        "/sdk/ble_stack/host/gap"@,
        "/sdk/ble_stack/host/gap/gapc"@,
        "/sdk/ble_stack/host/gap/gapm"@,
        "/sdk/ble_stack/host/gatt"@,
        "/sdk/ble_stack/host/gatt/gattc"@,
        "/sdk/ble_stack/host/gatt/gattm"@,
        "/sdk/ble_stack/host/l2c/l2cc"@,
        "/sdk/ble_stack/host/l2c/l2cm"@,
        "/sdk/ble_stack/host/smp"@,
        "/sdk/ble_stack/host/smp/smpc"@,
        "/sdk/ble_stack/host/smp/smpm"@,
        "/sdk/ble_stack/profiles"@,
        "/sdk/ble_stack/profiles/custom"@,
        "/sdk/ble_stack/profiles/custom/custs/api"@,
        "/sdk/ble_stack/profiles/dis/diss/api"@,
        "/sdk/ble_stack/rwble"@,
        "/sdk/ble_stack/rwble_hl"@,
        "/sdk/common_project_files"@,
        "/sdk/platform/arch"@,
        "/sdk/platform/arch/boot"@,
        "/sdk/platform/arch/boot/GCC"@,
        "/sdk/platform/arch/compiler"@,
        "/sdk/platform/arch/compiler/GCC"@,
        "/sdk/platform/arch/ll"@,
        "/sdk/platform/arch/main"@,
        "/sdk/platform/core_modules/arch_console"@,
        "/sdk/platform/core_modules/common/api"@,
        "/sdk/platform/core_modules/crypto"@,
        "/sdk/platform/core_modules/dbg/api"@,
        "/sdk/platform/core_modules/gtl/api"@,
        "/sdk/platform/core_modules/gtl/src"@,
        "/sdk/platform/core_modules/h4tl/api"@,
        "/sdk/platform/core_modules/ke/api"@,
        "/sdk/platform/core_modules/ke/src"@,
        "/sdk/platform/core_modules/nvds/api"@,
        "/sdk/platform/core_modules/rf/api"@,
        "/sdk/platform/core_modules/rwip/api"@,
        "/sdk/platform/core_modules/rwip/api"@,
        "/sdk/platform/driver/adc"@,
        "/sdk/platform/driver/ble"@,
        "/sdk/platform/driver/dma"@,
        "/sdk/platform/driver/gpio"@,
        "/sdk/platform/driver/hw_otpc"@,
        "/sdk/platform/driver/i2c"@,
        "/sdk/platform/driver/i2c_eeprom"@,
        "/sdk/platform/driver/reg"@,
        "/sdk/platform/driver/spi"@,
        "/sdk/platform/driver/spi_flash"@,
        "/sdk/platform/driver/syscntl"@,
        "/sdk/platform/driver/trng"@,
        "/sdk/platform/driver/uart"@,
        "/sdk/platform/include"@,
        "/sdk/platform/include/CMSIS/5.9.0/CMSIS/Core/Include"@,
        "/sdk/platform/system_library/include"@,
        "/sdk/platform/utilities/otp_cs"@,
        "/sdk/platform/utilities/otp_hdr"@,
        "/third_party/hash"@,
        "/third_party/irng"@,
        "/third_party/rand"@,
    ]
}

/// The force-included config headers of the default catalog; the generated
/// headers they pull in come last in include order.
pub open spec fn spec_default_config_headers() -> Seq<Seq<char>> {
    seq!["da1458x_config_basic.h"@, "da1458x_config_advanced.h"@, "user_config.h"@]
}

/// The C sources of the default catalog.
pub open spec fn spec_default_c_sources() -> Seq<Seq<char>> {
    seq![
        "/sdk/app_modules/src/app_common/app_msg_utils.c"@,
        "/sdk/app_modules/src/app_common/app_task.c"@,
        "/sdk/app_modules/src/app_custs/app_customs_task.c"@,
        "/sdk/app_modules/src/app_default_hnd/app_default_handlers.c"@,
        "/sdk/app_modules/src/app_entry/app_entry_point.c"@,
        "/sdk/ble_stack/profiles/custom/custs/src/custs1_task.c"@,
        "/sdk/ble_stack/profiles/prf.c"@,
        "/sdk/ble_stack/rwble/rwble.c"@,
        "/sdk/platform/arch/boot/system_DA14531.c"@,
        "/sdk/platform/arch/main/arch_main.c"@,
        "/sdk/platform/arch/main/arch_rom.c"@,
        "/sdk/platform/arch/main/arch_sleep.c"@,
        "/sdk/platform/arch/main/arch_system.c"@,
        "/sdk/platform/arch/main/hardfault_handler.c"@,
        "/sdk/platform/arch/main/jump_table.c"@,
        "/sdk/platform/arch/main/nmi_handler.c"@,
        "/sdk/platform/core_modules/crypto/aes.c"@,
        "/sdk/platform/core_modules/crypto/aes_api.c"@,
        "/sdk/platform/core_modules/crypto/aes_cbc.c"@,
        "/sdk/platform/core_modules/crypto/aes_task.c"@,
        "/sdk/platform/core_modules/crypto/sw_aes.c"@,
        "/sdk/platform/core_modules/nvds/src/nvds.c"@,
        "/sdk/platform/core_modules/rf/src/ble_arp.c"@,
        "/sdk/platform/core_modules/rf/src/rf_531.c"@,
        "/sdk/platform/core_modules/rwip/src/rwip.c"@,
        "/sdk/platform/driver/adc/adc_531.c"@,
        "/sdk/platform/driver/gpio/gpio.c"@,
        "/sdk/platform/driver/hw_otpc/hw_otpc_531.c"@,
        "/sdk/platform/driver/spi/spi_531.c"@,
        "/sdk/platform/driver/spi_flash/spi_flash.c"@,
        "/sdk/platform/driver/syscntl/syscntl.c"@,
        "/sdk/platform/driver/trng/trng.c"@,
        "/sdk/platform/system_library/src/DA14531/system_library_531.c"@,
        "/sdk/platform/utilities/otp_cs/otp_cs.c"@,
        "/sdk/platform/utilities/otp_hdr/otp_hdr.c"@,
        "/third_party/rand/chacha20.c"@,
    ]
}

/// The assembly sources of the default catalog.
pub open spec fn spec_default_asm_sources() -> Seq<Seq<char>> {
    seq![
        "/sdk/platform/arch/boot/GCC/ivtable_DA14531.S"@,
        "/sdk/platform/arch/boot/GCC/startup_DA14531.S"@,
    ]
}

/// The whole default catalog.
pub open spec fn spec_default_catalog() -> CatalogModel {
    CatalogModel {
        include_paths: spec_default_include_paths(),
        config_headers: spec_default_config_headers(),
        c_sources: spec_default_c_sources(),
        asm_sources: spec_default_asm_sources(),
    }
}

/// Builds the default catalog.
#[verifier::rlimit(100)]
pub fn default_catalog() -> (r: Catalog)
    ensures
        r@ == spec_default_catalog(),
{
    let mut include_paths: Vec<String> = Vec::new();
    push_path(&mut include_paths, "/sdk/app_modules/api");
    push_path(&mut include_paths, "/sdk/ble_stack/controller/em");
    push_path(&mut include_paths, "/sdk/ble_stack/controller/llc");
    push_path(&mut include_paths, "/sdk/ble_stack/controller/lld");
    push_path(&mut include_paths, "/sdk/ble_stack/controller/llm");
    push_path(&mut include_paths, "/sdk/ble_stack/ea/api");
    push_path(&mut include_paths, "/sdk/ble_stack/em/api");
    push_path(&mut include_paths, "/sdk/ble_stack/hci/api");
    push_path(&mut include_paths, "/sdk/ble_stack/hci/src");
    push_path(&mut include_paths, "/sdk/ble_stack/host/att");
    push_path(&mut include_paths, "/sdk/ble_stack/host/att/attc");
    push_path(&mut include_paths, "/sdk/ble_stack/host/att/attm");
    push_path(&mut include_paths, "/sdk/ble_stack/host/att/atts");
    push_path(&mut include_paths, "/sdk/ble_stack/host/gap");
    push_path(&mut include_paths, "/sdk/ble_stack/host/gap/gapc");
    push_path(&mut include_paths, "/sdk/ble_stack/host/gap/gapm");
    push_path(&mut include_paths, "/sdk/ble_stack/host/gatt");
    push_path(&mut include_paths, "/sdk/ble_stack/host/gatt/gattc");
    push_path(&mut include_paths, "/sdk/ble_stack/host/gatt/gattm");
    push_path(&mut include_paths, "/sdk/ble_stack/host/l2c/l2cc");
    push_path(&mut include_paths, "/sdk/ble_stack/host/l2c/l2cm");
    push_path(&mut include_paths, "/sdk/ble_stack/host/smp");
    push_path(&mut include_paths, "/sdk/ble_stack/host/smp/smpc");
    push_path(&mut include_paths, "/sdk/ble_stack/host/smp/smpm");
    push_path(&mut include_paths, "/sdk/ble_stack/profiles");
    push_path(&mut include_paths, "/sdk/ble_stack/profiles/custom");
    push_path(&mut include_paths, "/sdk/ble_stack/profiles/custom/custs/api");
    push_path(&mut include_paths, "/sdk/ble_stack/profiles/dis/diss/api");
    push_path(&mut include_paths, "/sdk/ble_stack/rwble");
    push_path(&mut include_paths, "/sdk/ble_stack/rwble_hl");
    push_path(&mut include_paths, "/sdk/common_project_files");
    push_path(&mut include_paths, "/sdk/platform/arch");
    push_path(&mut include_paths, "/sdk/platform/arch/boot");
    push_path(&mut include_paths, "/sdk/platform/arch/boot/GCC");
    push_path(&mut include_paths, "/sdk/platform/arch/compiler");
    push_path(&mut include_paths, "/sdk/platform/arch/compiler/GCC");
    push_path(&mut include_paths, "/sdk/platform/arch/ll");
    push_path(&mut include_paths, "/sdk/platform/arch/main");
    push_path(&mut include_paths, "/sdk/platform/core_modules/arch_console");
    push_path(&mut include_paths, "/sdk/platform/core_modules/common/api");
    push_path(&mut include_paths, "/sdk/platform/core_modules/crypto");
    push_path(&mut include_paths, "/sdk/platform/core_modules/dbg/api");
    push_path(&mut include_paths, "/sdk/platform/core_modules/gtl/api");
    push_path(&mut include_paths, "/sdk/platform/core_modules/gtl/src");
    push_path(&mut include_paths, "/sdk/platform/core_modules/h4tl/api");
    push_path(&mut include_paths, "/sdk/platform/core_modules/ke/api");
    push_path(&mut include_paths, "/sdk/platform/core_modules/ke/src");
    push_path(&mut include_paths, "/sdk/platform/core_modules/nvds/api");
    push_path(&mut include_paths, "/sdk/platform/core_modules/rf/api");
    push_path(&mut include_paths, "/sdk/platform/core_modules/rwip/api");
    push_path(&mut include_paths, "/sdk/platform/core_modules/rwip/api");
    push_path(&mut include_paths, "/sdk/platform/driver/adc");
    push_path(&mut include_paths, "/sdk/platform/driver/ble");
    push_path(&mut include_paths, "/sdk/platform/driver/dma");
    push_path(&mut include_paths, "/sdk/platform/driver/gpio");
    push_path(&mut include_paths, "/sdk/platform/driver/hw_otpc");
    push_path(&mut include_paths, "/sdk/platform/driver/i2c");
    push_path(&mut include_paths, "/sdk/platform/driver/i2c_eeprom");
    push_path(&mut include_paths, "/sdk/platform/driver/reg");
    push_path(&mut include_paths, "/sdk/platform/driver/spi");
    push_path(&mut include_paths, "/sdk/platform/driver/spi_flash");
    push_path(&mut include_paths, "/sdk/platform/driver/syscntl");
    push_path(&mut include_paths, "/sdk/platform/driver/trng");
    push_path(&mut include_paths, "/sdk/platform/driver/uart");
    push_path(&mut include_paths, "/sdk/platform/include");
    push_path(&mut include_paths, "/sdk/platform/include/CMSIS/5.9.0/CMSIS/Core/Include");
    push_path(&mut include_paths, "/sdk/platform/system_library/include");
    push_path(&mut include_paths, "/sdk/platform/utilities/otp_cs");
    push_path(&mut include_paths, "/sdk/platform/utilities/otp_hdr");
    push_path(&mut include_paths, "/third_party/hash");
    push_path(&mut include_paths, "/third_party/irng");
    push_path(&mut include_paths, "/third_party/rand");
    proof {
        assert(include_paths.deep_view() =~= spec_default_include_paths());
    }
    let mut config_headers: Vec<String> = Vec::new();
    push_path(&mut config_headers, "da1458x_config_basic.h");
    push_path(&mut config_headers, "da1458x_config_advanced.h");
    push_path(&mut config_headers, "user_config.h");
    proof {
        assert(config_headers.deep_view() =~= spec_default_config_headers());
    }
    let mut c_sources: Vec<String> = Vec::new();
    push_path(&mut c_sources, "/sdk/app_modules/src/app_common/app_msg_utils.c");
    push_path(&mut c_sources, "/sdk/app_modules/src/app_common/app_task.c");
    push_path(&mut c_sources, "/sdk/app_modules/src/app_custs/app_customs_task.c");
    push_path(&mut c_sources, "/sdk/app_modules/src/app_default_hnd/app_default_handlers.c");
    push_path(&mut c_sources, "/sdk/app_modules/src/app_entry/app_entry_point.c");
    push_path(&mut c_sources, "/sdk/ble_stack/profiles/custom/custs/src/custs1_task.c");
    push_path(&mut c_sources, "/sdk/ble_stack/profiles/prf.c");
    push_path(&mut c_sources, "/sdk/ble_stack/rwble/rwble.c");
    push_path(&mut c_sources, "/sdk/platform/arch/boot/system_DA14531.c");
    push_path(&mut c_sources, "/sdk/platform/arch/main/arch_main.c");
    push_path(&mut c_sources, "/sdk/platform/arch/main/arch_rom.c");
    push_path(&mut c_sources, "/sdk/platform/arch/main/arch_sleep.c");
    push_path(&mut c_sources, "/sdk/platform/arch/main/arch_system.c");
    push_path(&mut c_sources, "/sdk/platform/arch/main/hardfault_handler.c");
    push_path(&mut c_sources, "/sdk/platform/arch/main/jump_table.c");
    push_path(&mut c_sources, "/sdk/platform/arch/main/nmi_handler.c");
    push_path(&mut c_sources, "/sdk/platform/core_modules/crypto/aes.c");
    push_path(&mut c_sources, "/sdk/platform/core_modules/crypto/aes_api.c");
    push_path(&mut c_sources, "/sdk/platform/core_modules/crypto/aes_cbc.c");
    push_path(&mut c_sources, "/sdk/platform/core_modules/crypto/aes_task.c");
    push_path(&mut c_sources, "/sdk/platform/core_modules/crypto/sw_aes.c");
    push_path(&mut c_sources, "/sdk/platform/core_modules/nvds/src/nvds.c");
    push_path(&mut c_sources, "/sdk/platform/core_modules/rf/src/ble_arp.c");
    push_path(&mut c_sources, "/sdk/platform/core_modules/rf/src/rf_531.c");
    push_path(&mut c_sources, "/sdk/platform/core_modules/rwip/src/rwip.c");
    push_path(&mut c_sources, "/sdk/platform/driver/adc/adc_531.c");
    push_path(&mut c_sources, "/sdk/platform/driver/gpio/gpio.c");
    push_path(&mut c_sources, "/sdk/platform/driver/hw_otpc/hw_otpc_531.c");
    push_path(&mut c_sources, "/sdk/platform/driver/spi/spi_531.c");
    push_path(&mut c_sources, "/sdk/platform/driver/spi_flash/spi_flash.c");
    push_path(&mut c_sources, "/sdk/platform/driver/syscntl/syscntl.c");
    push_path(&mut c_sources, "/sdk/platform/driver/trng/trng.c");
    push_path(&mut c_sources, "/sdk/platform/system_library/src/DA14531/system_library_531.c");
    push_path(&mut c_sources, "/sdk/platform/utilities/otp_cs/otp_cs.c");
    push_path(&mut c_sources, "/sdk/platform/utilities/otp_hdr/otp_hdr.c");
    push_path(&mut c_sources, "/third_party/rand/chacha20.c");
    proof {
        assert(c_sources.deep_view() =~= spec_default_c_sources());
    }
    let mut asm_sources: Vec<String> = Vec::new();
    push_path(&mut asm_sources, "/sdk/platform/arch/boot/GCC/ivtable_DA14531.S");
    push_path(&mut asm_sources, "/sdk/platform/arch/boot/GCC/startup_DA14531.S");
    proof {
        assert(asm_sources.deep_view() =~= spec_default_asm_sources());
    }
    Catalog { include_paths, config_headers, c_sources, asm_sources }
}

} // verus!
