//! The source/include set assembler.
//!
//! From the fixed catalog, the SDK root path and the feature set, the
//! assembler computes the final build plan: include directories,
//! force-included headers, macro defines, and the C and assembly source
//! lists. Feature-gated paths are appended, feature-gated sources are
//! filtered out by suffix, and the local include directory and build
//! output directory come last so generated headers take precedence.
//! The result is a pure function of its inputs, so repeated invocations
//! with the same root and features yield identical ordered lists.

use vstd::prelude::*;
use vstd::string::*;

use crate::catalog::{Catalog, CatalogModel};
use crate::features::FeatureSet;
use crate::text::{spec_ends_with, str_concat, str_ends_with};

verus! {

/// One preprocessor define: a macro name with an optional value.
pub struct Define {
    pub name: String,
    pub value: Option<String>,
}

impl View for Define {
    type V = (Seq<char>, Option<Seq<char>>);

    open spec fn view(&self) -> (Seq<char>, Option<Seq<char>>) {
        (
            self.name@,
            match self.value {
                Some(ref v) => Some(v@),
                None => None,
            },
        )
    }
}

impl DeepView for Define {
    type V = (Seq<char>, Option<Seq<char>>);

    open spec fn deep_view(&self) -> (Seq<char>, Option<Seq<char>>) {
        self.view()
    }
}

/// Mathematical model of a build plan.
pub ghost struct PlanModel {
    pub include_dirs: Seq<Seq<char>>,
    pub include_files: Seq<Seq<char>>,
    pub defines: Seq<(Seq<char>, Option<Seq<char>>)>,
    pub c_sources: Seq<Seq<char>>,
    pub asm_sources: Seq<Seq<char>>,
}

/// The fully resolved build plan: what binding generation, compilation and
/// linker-script expansion consume.
pub struct BuildPlan {
    pub include_dirs: Vec<String>,
    pub include_files: Vec<String>,
    pub defines: Vec<Define>,
    pub c_sources: Vec<String>,
    pub asm_sources: Vec<String>,
}

impl View for BuildPlan {
    type V = PlanModel;

    open spec fn view(&self) -> PlanModel {
        PlanModel {
            include_dirs: self.include_dirs.deep_view(),
            include_files: self.include_files.deep_view(),
            defines: self.defines.deep_view(),
            c_sources: self.c_sources.deep_view(),
            asm_sources: self.asm_sources.deep_view(),
        }
    }
}

/// Every path prefixed with the SDK root.
pub open spec fn prefix_all(sdk: Seq<char>, paths: Seq<Seq<char>>) -> Seq<Seq<char>> {
    paths.map_values(|p: Seq<char>| sdk + p)
}

/// Whether a source file stays in the plan under the given features: the
/// stand-alone entry point, the SPI driver and the SPI flash driver are
/// dropped unless asked for.
pub open spec fn spec_keep_source(p: Seq<char>, fs: FeatureSet) -> bool {
    &&& !(fs.no_main && spec_ends_with(p, "arch_main.c"@))
    &&& !(!fs.driver_spi && spec_ends_with(p, "spi_531.c"@))
    &&& !(!fs.driver_spi_flash && spec_ends_with(p, "spi_flash.c"@))
}

/// The kept sources, in order, each prefixed with the SDK root.
pub open spec fn spec_sources_kept(
    paths: Seq<Seq<char>>,
    fs: FeatureSet,
    sdk: Seq<char>,
) -> Seq<Seq<char>>
    decreases paths.len(),
{
    if paths.len() == 0 {
        Seq::empty()
    } else {
        let rest = spec_sources_kept(paths.drop_last(), fs, sdk);
        if spec_keep_source(paths.last(), fs) {
            rest.push(sdk + paths.last())
        } else {
            rest
        }
    }
}

/// The include directory list: the catalog's directories and the
/// feature-gated additions, all rooted at the SDK path, then the local
/// include directory and the build output directory.
pub open spec fn spec_include_dirs(
    c: CatalogModel,
    fs: FeatureSet,
    sdk: Seq<char>,
    local_include: Seq<char>,
    out_dir: Seq<char>,
) -> Seq<Seq<char>> {
    prefix_all(sdk, c.include_paths) + (if fs.profile_gatt_client {
        seq![sdk + "/sdk/ble_stack/profiles/gatt/gatt_client/api"@]
    } else {
        Seq::empty()
    }) + (if fs.profile_prox_reporter {
        seq![sdk + "/sdk/ble_stack/profiles/prox/proxr/api"@]
    } else {
        Seq::empty()
    }) + (if fs.profile_batt_server {
        seq![sdk + "/sdk/ble_stack/profiles/bas/bass/api"@]
    } else {
        Seq::empty()
    }) + (if fs.profile_findme_target {
        seq![
            sdk + "/sdk/ble_stack/profiles/find/findt/api"@,
            sdk + "/sdk/ble_stack/profiles/find"@,
        ]
    } else {
        Seq::empty()
    }) + seq![local_include, out_dir]
}

/// The force-included header list: feature-gated headers rooted at the SDK
/// path, then the bare config header names, which resolve late in include
/// order.
pub open spec fn spec_include_files(c: CatalogModel, fs: FeatureSet, sdk: Seq<char>) -> Seq<
    Seq<char>,
> {
    (if fs.profile_prox_reporter {
        seq![sdk + "/sdk/app_modules/api/app_proxr.h"@]
    } else {
        Seq::empty()
    }) + (if fs.profile_batt_server {
        seq![sdk + "/sdk/app_modules/api/app_bass.h"@]
    } else {
        Seq::empty()
    }) + (if fs.profile_findme_target {
        seq![sdk + "/sdk/app_modules/api/app_findme.h"@]
    } else {
        Seq::empty()
    }) + c.config_headers
}

/// The C source list: the catalog's sources plus the feature-gated
/// addition, filtered by `spec_keep_source` and rooted at the SDK path.
pub open spec fn spec_c_sources(c: CatalogModel, fs: FeatureSet, sdk: Seq<char>) -> Seq<
    Seq<char>,
> {
    spec_sources_kept(
        c.c_sources + (if fs.profile_gatt_client {
            seq!["/sdk/app_modules/src/app_gattc/app_gattc.c"@]
        } else {
            Seq::empty()
        }),
        fs,
        sdk,
    )
}

/// The single always-on define.
pub open spec fn spec_defines() -> Seq<(Seq<char>, Option<Seq<char>>)> {
    seq![("__DA14531__"@, None)]
}

/// The whole assembled plan.
pub open spec fn spec_assemble(
    c: CatalogModel,
    fs: FeatureSet,
    sdk: Seq<char>,
    local_include: Seq<char>,
    out_dir: Seq<char>,
) -> PlanModel {
    PlanModel {
        include_dirs: spec_include_dirs(c, fs, sdk, local_include, out_dir),
        include_files: spec_include_files(c, fs, sdk),
        defines: spec_defines(),
        c_sources: spec_c_sources(c, fs, sdk),
        asm_sources: prefix_all(sdk, c.asm_sources),
    }
}

/// Each path of `paths`, prefixed with the SDK root.
fn prefix_paths(sdk: &str, paths: &Vec<String>) -> (r: Vec<String>)
    ensures
        r.deep_view() == prefix_all(sdk@, paths.deep_view()),
{
    let mut r: Vec<String> = Vec::new();
    let mut i: usize = 0;
    while i < paths.len()
        invariant
            i <= paths@.len(),
            r@.len() == i,
            forall|j: int| 0 <= j < i ==> (#[trigger] r@[j])@ == sdk@ + paths@[j]@,
        decreases paths@.len() - i,
    {
        r.push(str_concat(sdk, paths[i].as_str()));
        i = i + 1;
    }
    proof {
        assert(r.deep_view() =~= prefix_all(sdk@, paths.deep_view()));
    }
    r
}

/// Whether one source file stays under the given features.
fn keep_source(p: &str, fs: &FeatureSet) -> (r: bool)
    ensures
        r == spec_keep_source(p@, *fs),
{
    if fs.no_main && str_ends_with(p, "arch_main.c") {
        return false;
    }
    if !fs.driver_spi && str_ends_with(p, "spi_531.c") {
        return false;
    }
    if !fs.driver_spi_flash && str_ends_with(p, "spi_flash.c") {
        return false;
    }
    true
}

/// Assembles the build plan from the catalog, the SDK root, the local
/// include directory, the build output directory and the feature set.
/// Deterministic: the plan is a pure function of these inputs.
pub fn assemble(
    catalog: &Catalog,
    fs: &FeatureSet,
    sdk_path: &str,
    local_include: &str,
    out_dir: &str,
) -> (r: BuildPlan)
    ensures
        r@ == spec_assemble(catalog@, *fs, sdk_path@, local_include@, out_dir@),
{
    // Include directories.
    let mut include_dirs = prefix_paths(sdk_path, &catalog.include_paths);
    if fs.profile_gatt_client {
        include_dirs.push(str_concat(sdk_path, "/sdk/ble_stack/profiles/gatt/gatt_client/api"));
    }
    if fs.profile_prox_reporter {
        include_dirs.push(str_concat(sdk_path, "/sdk/ble_stack/profiles/prox/proxr/api"));
    }
    if fs.profile_batt_server {
        include_dirs.push(str_concat(sdk_path, "/sdk/ble_stack/profiles/bas/bass/api"));
    }
    if fs.profile_findme_target {
        include_dirs.push(str_concat(sdk_path, "/sdk/ble_stack/profiles/find/findt/api"));
        include_dirs.push(str_concat(sdk_path, "/sdk/ble_stack/profiles/find"));
    }
    include_dirs.push(String::from_str(local_include));
    include_dirs.push(String::from_str(out_dir));
    proof {
        assert(include_dirs.deep_view() =~= spec_include_dirs(
            catalog@,
            *fs,
            sdk_path@,
            local_include@,
            out_dir@,
        ));
    }
    // Force-included headers.
    let mut include_files: Vec<String> = Vec::new();
    if fs.profile_prox_reporter {
        include_files.push(str_concat(sdk_path, "/sdk/app_modules/api/app_proxr.h"));
    }
    if fs.profile_batt_server {
        include_files.push(str_concat(sdk_path, "/sdk/app_modules/api/app_bass.h"));
    }
    if fs.profile_findme_target {
        include_files.push(str_concat(sdk_path, "/sdk/app_modules/api/app_findme.h"));
    }
    let ghost gated_files = include_files.deep_view();
    let mut h: usize = 0;
    while h < catalog.config_headers.len()
        invariant
            h <= catalog.config_headers@.len(),
            include_files.deep_view() == gated_files + catalog.config_headers.deep_view().take(
                h as int,
            ),
        decreases catalog.config_headers@.len() - h,
    {
        let ghost before = include_files.deep_view();
        let header = catalog.config_headers[h].clone();
        include_files.push(header);
        proof {
            assert(header@ == catalog.config_headers.deep_view()[h as int]);
            assert(include_files.deep_view() =~~= before.push(header@));
            assert(before.push(header@) =~~= gated_files
                + catalog.config_headers.deep_view().take(h + 1 as int));
        }
        h = h + 1;
    }
    proof {
        assert(catalog.config_headers.deep_view().take(catalog.config_headers@.len() as int)
            =~= catalog.config_headers.deep_view());
        assert(include_files.deep_view() =~= spec_include_files(catalog@, *fs, sdk_path@));
    }
    // C sources, filtered by feature and rooted at the SDK path.
    let mut c_sources: Vec<String> = Vec::new();
    let mut s: usize = 0;
    while s < catalog.c_sources.len()
        invariant
            s <= catalog.c_sources@.len(),
            c_sources.deep_view() == spec_sources_kept(
                catalog.c_sources.deep_view().take(s as int),
                *fs,
                sdk_path@,
            ),
        decreases catalog.c_sources@.len() - s,
    {
        let ghost taken = catalog.c_sources.deep_view().take(s + 1 as int);
        proof {
            assert(taken.drop_last() =~= catalog.c_sources.deep_view().take(s as int));
            assert(taken.last() == catalog.c_sources.deep_view()[s as int]);
        }
        if keep_source(catalog.c_sources[s].as_str(), fs) {
            c_sources.push(str_concat(sdk_path, catalog.c_sources[s].as_str()));
            proof {
                assert(c_sources.deep_view() =~= spec_sources_kept(taken, *fs, sdk_path@));
            }
        }
        s = s + 1;
    }
    proof {
        assert(catalog.c_sources.deep_view().take(catalog.c_sources@.len() as int)
            =~= catalog.c_sources.deep_view());
    }
    let ghost all_sources = catalog.c_sources.deep_view() + (if fs.profile_gatt_client {
        seq!["/sdk/app_modules/src/app_gattc/app_gattc.c"@]
    } else {
        Seq::<Seq<char>>::empty()
    });
    if fs.profile_gatt_client {
        proof {
            assert(all_sources.drop_last() =~= catalog.c_sources.deep_view());
            assert(all_sources.last() == "/sdk/app_modules/src/app_gattc/app_gattc.c"@);
        }
        if keep_source("/sdk/app_modules/src/app_gattc/app_gattc.c", fs) {
            c_sources.push(str_concat(sdk_path, "/sdk/app_modules/src/app_gattc/app_gattc.c"));
        }
        proof {
            assert(c_sources.deep_view() =~= spec_sources_kept(all_sources, *fs, sdk_path@));
        }
    } else {
        proof {
            assert(all_sources =~= catalog.c_sources.deep_view());
        }
    }
    proof {
        assert(c_sources.deep_view() =~= spec_c_sources(catalog@, *fs, sdk_path@));
    }
    // Assembly sources and defines.
    let asm_sources = prefix_paths(sdk_path, &catalog.asm_sources);
    let mut defines: Vec<Define> = Vec::new();
    defines.push(Define { name: String::from_str("__DA14531__"), value: None });
    proof {
        assert(defines.deep_view() =~= spec_defines());
    }
    BuildPlan { include_dirs, include_files, defines, c_sources, asm_sources }
}

/// The assembler is deterministic: two plans assembled from the same
/// catalog, SDK root and feature set are identical, ordered lists included.
pub proof fn lemma_assembler_deterministic(
    c: CatalogModel,
    fs: FeatureSet,
    sdk: Seq<char>,
    local_include: Seq<char>,
    out_dir: Seq<char>,
    p1: PlanModel,
    p2: PlanModel,
)
    requires
        p1 == spec_assemble(c, fs, sdk, local_include, out_dir),
        p2 == spec_assemble(c, fs, sdk, local_include, out_dir),
    ensures
        p1 == p2,
{
}

} // verus!
