//! Argument builders for the external tools: the binding generator, the
//! cross compiler with its archiver, and the linker-script preprocessor.
//! Each function computes, as a pure value, exactly what one invocation is
//! handed; performing the invocations is the embedding program's work.

use vstd::prelude::*;
use vstd::string::*;

use crate::assemble::{BuildPlan, PlanModel};
use crate::text::str_concat;

verus! {

/// The preprocessor argument of one define: `-DNAME` or `-DNAME=VALUE`.
pub open spec fn spec_define_arg(d: (Seq<char>, Option<Seq<char>>)) -> Seq<char> {
    match d.1 {
        Some(v) => "-D"@ + d.0 + "="@ + v,
        None => "-D"@ + d.0,
    }
}

/// The `-include` argument pairs of the force-included headers, in order.
pub open spec fn spec_include_file_args(files: Seq<Seq<char>>) -> Seq<Seq<char>>
    decreases files.len(),
{
    if files.len() == 0 {
        Seq::empty()
    } else {
        spec_include_file_args(files.drop_last()) + seq!["-include"@, files.last()]
    }
}

/// The whole argument list handed to the binding generator's preprocessor:
/// the soft-float define, the compiler's system root, a silenced warning,
/// then every define, every include directory and every force-included
/// header of the plan, in plan order.
pub open spec fn spec_bindgen_clang_args(p: PlanModel, sysroot: Seq<char>) -> Seq<Seq<char>> {
    seq!["-D__SOFTFP__"@, "--sysroot="@ + sysroot, "-Wno-expansion-to-defined"@]
        + p.defines.map_values(|d: (Seq<char>, Option<Seq<char>>)| spec_define_arg(d))
        + p.include_dirs.map_values(|d: Seq<char>| "-I"@ + d) + spec_include_file_args(
        p.include_files,
    )
}

/// The preprocessor argument of one define.
fn define_arg(name: &str, value: &Option<String>) -> (r: String)
    ensures
        r@ == spec_define_arg(
            (
                name@,
                match value {
                    Some(v) => Some(v@),
                    None => None,
                },
            ),
        ),
{
    match value {
        Some(v) => {
            let mut r = String::from_str("-D");
            r.append(name);
            r.append("=");
            r.append(v.as_str());
            r
        },
        None => str_concat("-D", name),
    }
}

/// Builds the binding generator's preprocessor arguments from the plan and
/// the detected compiler system root.
pub fn bindgen_clang_args(plan: &BuildPlan, sysroot: &str) -> (r: Vec<String>)
    ensures
        r.deep_view() == spec_bindgen_clang_args(plan@, sysroot@),
{
    let ghost defines_mapped = plan@.defines.map_values(
        |d: (Seq<char>, Option<Seq<char>>)| spec_define_arg(d),
    );
    let ghost dirs_mapped = plan@.include_dirs.map_values(|d: Seq<char>| "-I"@ + d);
    let mut r: Vec<String> = Vec::new();
    r.push(String::from_str("-D__SOFTFP__"));
    r.push(str_concat("--sysroot=", sysroot));
    r.push(String::from_str("-Wno-expansion-to-defined"));
    let ghost head = seq!["-D__SOFTFP__"@, "--sysroot="@ + sysroot@, "-Wno-expansion-to-defined"@];
    proof {
        assert(r.deep_view() =~~= head);
    }
    let mut i: usize = 0;
    while i < plan.defines.len()
        invariant
            i <= plan.defines@.len(),
            defines_mapped == plan@.defines.map_values(
                |d: (Seq<char>, Option<Seq<char>>)| spec_define_arg(d),
            ),
            head == seq![
                "-D__SOFTFP__"@,
                "--sysroot="@ + sysroot@,
                "-Wno-expansion-to-defined"@,
            ],
            r.deep_view() == head + defines_mapped.take(i as int),
        decreases plan.defines@.len() - i,
    {
        let ghost before = r.deep_view();
        let arg = define_arg(plan.defines[i].name.as_str(), &plan.defines[i].value);
        r.push(arg);
        proof {
            assert(plan@.defines[i as int] == plan.defines@[i as int]@);
            assert(defines_mapped.take(i + 1 as int).drop_last() =~= defines_mapped.take(
                i as int,
            ));
            assert(r.deep_view() =~~= before.push(arg@));
            assert(before.push(arg@) =~~= head + defines_mapped.take(i + 1 as int));
        }
        i = i + 1;
    }
    proof {
        assert(defines_mapped.take(plan.defines@.len() as int) =~= defines_mapped);
    }
    let ghost with_defines = head + defines_mapped;
    let mut i: usize = 0;
    while i < plan.include_dirs.len()
        invariant
            i <= plan.include_dirs@.len(),
            dirs_mapped == plan@.include_dirs.map_values(|d: Seq<char>| "-I"@ + d),
            with_defines == head + defines_mapped,
            r.deep_view() == with_defines + dirs_mapped.take(i as int),
        decreases plan.include_dirs@.len() - i,
    {
        let ghost before = r.deep_view();
        let arg = str_concat("-I", plan.include_dirs[i].as_str());
        r.push(arg);
        proof {
            assert(plan@.include_dirs[i as int] == plan.include_dirs@[i as int]@);
            assert(dirs_mapped.take(i + 1 as int).drop_last() =~= dirs_mapped.take(i as int));
            assert(r.deep_view() =~~= before.push(arg@));
            assert(before.push(arg@) =~~= with_defines + dirs_mapped.take(i + 1 as int));
        }
        i = i + 1;
    }
    proof {
        assert(dirs_mapped.take(plan.include_dirs@.len() as int) =~= dirs_mapped);
    }
    let ghost with_dirs = with_defines + dirs_mapped;
    let mut i: usize = 0;
    while i < plan.include_files.len()
        invariant
            i <= plan.include_files@.len(),
            with_dirs == head + defines_mapped + dirs_mapped,
            r.deep_view() == with_dirs + spec_include_file_args(
                plan@.include_files.take(i as int),
            ),
        decreases plan.include_files@.len() - i,
    {
        let ghost before = r.deep_view();
        let ghost taken = plan@.include_files.take(i + 1 as int);
        let f = plan.include_files[i].clone();
        r.push(String::from_str("-include"));
        r.push(f);
        proof {
            assert(plan@.include_files[i as int] == plan.include_files@[i as int]@);
            assert(taken.drop_last() =~= plan@.include_files.take(i as int));
            assert(r.deep_view() =~~= before.push("-include"@).push(
                plan.include_files@[i as int]@,
            ));
            assert(before.push("-include"@).push(plan.include_files@[i as int]@) =~~= with_dirs
                + spec_include_file_args(taken));
        }
        i = i + 1;
    }
    proof {
        assert(plan@.include_files.take(plan.include_files@.len() as int)
            =~= plan@.include_files);
        assert(r.deep_view() =~~= spec_bindgen_clang_args(plan@, sysroot@));
    }
    r
}

/// The enumeration type names treated as closed, exhaustive variants by
/// the binding generator.
pub fn rustified_enums() -> (r: Vec<String>)
    ensures
        r.deep_view() == seq![
            "hl_err"@,
            "process_event_response"@,
            "syscntl_dcdc_level_t"@,
            "APP_MSG"@,
        ],
{
    let mut r: Vec<String> = Vec::new();
    r.push(String::from_str("hl_err"));
    r.push(String::from_str("process_event_response"));
    r.push(String::from_str("syscntl_dcdc_level_t"));
    r.push(String::from_str("APP_MSG"));
    proof {
        assert(r.deep_view() =~~= seq![
            "hl_err"@,
            "process_event_response"@,
            "syscntl_dcdc_level_t"@,
            "APP_MSG"@,
        ]);
    }
    r
}

/// The fixed entry header the binding generator starts from.
pub fn binding_entry_header() -> (r: String)
    ensures
        r@ == "bindings.h"@,
{
    String::from_str("bindings.h")
}

/// The flags of the assembly phase of the native build.
pub fn asm_build_flags() -> (r: Vec<String>)
    ensures
        r.deep_view() == seq!["-specs=nano.specs"@, "-specs=nosys.specs"@, "-flto"@],
{
    let mut r: Vec<String> = Vec::new();
    r.push(String::from_str("-specs=nano.specs"));
    r.push(String::from_str("-specs=nosys.specs"));
    r.push(String::from_str("-flto"));
    proof {
        assert(r.deep_view() =~~= seq!["-specs=nano.specs"@, "-specs=nosys.specs"@, "-flto"@]);
    }
    r
}

/// The flags of the C compilation phase of the native build.
pub fn c_build_flags() -> (r: Vec<String>)
    ensures
        r.deep_view() == seq![
            "-march=armv6-m"@,
            "-Wno-expansion-to-defined"@,
            "-Wno-unused-parameter"@,
            "-fstack-usage"@,
            "-ffunction-sections"@,
            "-fdata-sections"@,
            "-specs=nano.specs"@,
            "-specs=nosys.specs"@,
            "-flto"@,
        ],
{
    let mut r: Vec<String> = Vec::new();
    r.push(String::from_str("-march=armv6-m"));
    r.push(String::from_str("-Wno-expansion-to-defined"));
    r.push(String::from_str("-Wno-unused-parameter"));
    r.push(String::from_str("-fstack-usage"));
    r.push(String::from_str("-ffunction-sections"));
    r.push(String::from_str("-fdata-sections"));
    r.push(String::from_str("-specs=nano.specs"));
    r.push(String::from_str("-specs=nosys.specs"));
    r.push(String::from_str("-flto"));
    proof {
        assert(r.deep_view() =~~= seq![
            "-march=armv6-m"@,
            "-Wno-expansion-to-defined"@,
            "-Wno-unused-parameter"@,
            "-fstack-usage"@,
            "-ffunction-sections"@,
            "-fdata-sections"@,
            "-specs=nano.specs"@,
            "-specs=nosys.specs"@,
            "-flto"@,
        ]);
    }
    r
}

/// The flags of the linker-script preprocessor run.
pub fn linker_preprocess_flags() -> (r: Vec<String>)
    ensures
        r.deep_view() == seq![
            "-Wno-expansion-to-defined"@,
            "-Wno-unused-parameter"@,
            "-specs=nano.specs"@,
            "-specs=nosys.specs"@,
        ],
{
    let mut r: Vec<String> = Vec::new();
    r.push(String::from_str("-Wno-expansion-to-defined"));
    r.push(String::from_str("-Wno-unused-parameter"));
    r.push(String::from_str("-specs=nano.specs"));
    r.push(String::from_str("-specs=nosys.specs"));
    proof {
        assert(r.deep_view() =~~= seq![
            "-Wno-expansion-to-defined"@,
            "-Wno-unused-parameter"@,
            "-specs=nano.specs"@,
            "-specs=nosys.specs"@,
        ]);
    }
    r
}

/// The name under which the compiled SDK objects are archived.
pub fn archive_name() -> (r: String)
    ensures
        r@ == "da14531_sdk"@,
{
    String::from_str("da14531_sdk")
}

/// The archiver matching the cross toolchain.
pub fn archiver() -> (r: String)
    ensures
        r@ == "arm-none-eabi-gcc-ar"@,
{
    String::from_str("arm-none-eabi-gcc-ar")
}

/// The ranlib matching the cross toolchain.
pub fn ranlib() -> (r: String)
    ensures
        r@ == "arm-none-eabi-gcc-ranlib"@,
{
    String::from_str("arm-none-eabi-gcc-ranlib")
}

/// The optimization level of the C compilation phase.
pub fn opt_level() -> (r: String)
    ensures
        r@ == "z"@,
{
    String::from_str("z")
}

/// The linkage modifier keeping every archived symbol.
pub fn link_lib_modifier() -> (r: String)
    ensures
        r@ == "+whole-archive"@,
{
    String::from_str("+whole-archive")
}

/// The link directive for the vendor-supplied binary archive, linked whole
/// so no symbol is stripped as unused.
pub fn vendor_archive_link_directive() -> (r: String)
    ensures
        r@ == "static:+whole-archive,+verbatim=da14531.a"@,
{
    String::from_str("static:+whole-archive,+verbatim=da14531.a")
}

/// The native search path holding the vendor binary archive.
pub fn vendor_archive_search_path(sdk_path: &str) -> (r: String)
    ensures
        r@ == sdk_path@ + "/sdk/platform/system_library/output/IAR"@,
{
    str_concat(sdk_path, "/sdk/platform/system_library/output/IAR")
}

/// The templated linker script below the SDK root.
pub fn linker_script_source(sdk_path: &str) -> (r: String)
    ensures
        r@ == sdk_path@ + "/sdk/common_project_files/ldscripts/ldscript_DA14531.lds.S"@,
{
    str_concat(sdk_path, "/sdk/common_project_files/ldscripts/ldscript_DA14531.lds.S")
}

/// The name of the expanded linker script in the build output directory.
pub fn linker_script_output_name() -> (r: String)
    ensures
        r@ == "ldscript_DA14531.lds"@,
{
    String::from_str("ldscript_DA14531.lds")
}

/// The vendor directory registered as a linker search path for the symbol
/// definitions the expanded script refers to.
pub fn misc_search_path(sdk_path: &str) -> (r: String)
    ensures
        r@ == sdk_path@ + "/sdk/common_project_files/misc"@,
{
    str_concat(sdk_path, "/sdk/common_project_files/misc")
}

} // verus!
