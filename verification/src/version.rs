//! The environment and version guard.
//!
//! Two hard checks run before anything is generated: the cross-compilation
//! target must be the single supported triple, and the SDK root path must
//! be supplied. A third, soft check parses the SDK version header; a parse
//! failure or a version other than the known-good one is advisory only and
//! surfaces as a warning while the pipeline proceeds.

use vstd::prelude::*;
use vstd::string::*;

use crate::numbers::{format_u32, spec_nat_chars, spec_parse_u32};
use crate::text::{
    chars_slice, chars_start_with, chars_to_string, find_char, lemma_spec_find_props,
    lemma_spec_find_shift, push_all, spec_find, str_to_chars,
};

verus! {

/// The only cross-compilation target this engine accepts.
pub open spec fn spec_required_target() -> Seq<char> {
    "thumbv6m-none-eabi"@
}

/// A fatal environment error: wrong target triple or missing SDK path.
#[derive(Debug)]
pub enum EnvError {
    /// The active target is not the supported triple; holds what was found.
    WrongTarget(String),
    /// The SDK root path was not supplied.
    MissingSdkPath,
}

impl EnvError {
    /// A human-readable description of the error.
    pub fn message(&self) -> (r: String)
        ensures
            r@ == match self {
                EnvError::WrongTarget(t) => "Invalid target `"@ + t@
                    + "` for this crate. Only `thumbv6m-none-eabi` is valid"@,
                EnvError::MissingSdkPath => "SDK_PATH is missing. Must be set to DA145XX SDK path"@,
            },
    {
        match self {
            EnvError::WrongTarget(t) => {
                let mut r = String::from_str("Invalid target `");
                r.append(t.as_str());
                r.append("` for this crate. Only `thumbv6m-none-eabi` is valid");
                r
            },
            EnvError::MissingSdkPath => String::from_str(
                "SDK_PATH is missing. Must be set to DA145XX SDK path",
            ),
        }
    }
}

/// Accepts exactly the supported target triple.
pub fn check_target(target: &str) -> (r: Result<(), EnvError>)
    ensures
        r is Ok <==> target@ == spec_required_target(),
        r is Err ==> (r->Err_0 matches EnvError::WrongTarget(t) && t@ == target@),
{
    if crate::text::str_eq(target, "thumbv6m-none-eabi") {
        Ok(())
    } else {
        Err(EnvError::WrongTarget(String::from_str(target)))
    }
}

/// The SDK version read from the version header.
#[derive(Clone, Copy, Debug, PartialEq, Eq, Structural)]
pub struct SdkVersion {
    pub major: u32,
    pub minor: u32,
    pub patch: u32,
    pub build: u32,
}

/// The one SDK version this engine is known to work with.
pub open spec fn spec_known_version() -> SdkVersion {
    SdkVersion { major: 6, minor: 0, patch: 22, build: 1401 }
}

/// The version this engine is known to work with.
pub fn known_version() -> (r: SdkVersion)
    ensures
        r == spec_known_version(),
{
    SdkVersion { major: 6, minor: 0, patch: 22, build: 1401 }
}

/// Why the version header could not be parsed. Advisory only: surfaced as
/// a warning, never a hard failure.
#[derive(Clone, Copy, Debug, PartialEq, Eq, Structural)]
pub enum VersionError {
    /// The version file holds no text at all.
    EmptyFile,
    /// The first line does not begin with the expected define.
    MissingPrefix,
    /// The version text is not closed by a double quote.
    MissingSuffix,
    /// A dot-separated component is not an unsigned 32-bit number.
    BadComponent,
    /// More than four dot-separated components.
    TooManyComponents,
}

/// The description of a version parse failure.
pub open spec fn spec_version_error_text(e: VersionError) -> Seq<char> {
    match e {
        VersionError::EmptyFile => "version file empty"@,
        VersionError::MissingPrefix => "could not strip prefix #define SDK_VERSION \"v_"@,
        VersionError::MissingSuffix => "could not strip suffix \""@,
        VersionError::BadComponent => "could not parse version component"@,
        VersionError::TooManyComponents => "too many version components"@,
    }
}

impl VersionError {
    /// A human-readable description of the parse failure.
    pub fn message(&self) -> (r: String)
        ensures
            r@ == spec_version_error_text(*self),
    {
        match self {
            VersionError::EmptyFile => String::from_str("version file empty"),
            VersionError::MissingPrefix => String::from_str(
                "could not strip prefix #define SDK_VERSION \"v_",
            ),
            VersionError::MissingSuffix => String::from_str("could not strip suffix \""),
            VersionError::BadComponent => String::from_str("could not parse version component"),
            VersionError::TooManyComponents => String::from_str("too many version components"),
        }
    }
}

/// The first line of `s`: the text before the first line feed, with a
/// trailing carriage return removed.
pub open spec fn spec_first_line(s: Seq<char>) -> Seq<char> {
    let line = match spec_find(s, '\n', 0) {
        Some(j) => s.take(j),
        None => s,
    };
    if line.len() > 0 && line.last() == '\r' {
        line.drop_last()
    } else {
        line
    }
}

/// The dot-separated components of `s` starting at component index `idx`,
/// read left to right: a component that is no `u32` fails, and a fifth
/// component fails, each at the first position where it is seen.
pub open spec fn spec_parse_components(s: Seq<char>, idx: int) -> Result<Seq<int>, VersionError>
    decreases s.len(),
{
    match spec_find(s, '.', 0) {
        None => match spec_parse_u32(s) {
            None => Err(VersionError::BadComponent),
            Some(v) => if idx >= 4 {
                Err(VersionError::TooManyComponents)
            } else {
                Ok(seq![v])
            },
        },
        Some(j) => if 0 <= j < s.len() {
            match spec_parse_u32(s.take(j)) {
                None => Err(VersionError::BadComponent),
                Some(v) => if idx >= 4 {
                    Err(VersionError::TooManyComponents)
                } else {
                    match spec_parse_components(s.skip(j + 1), idx + 1) {
                        Err(e) => Err(e),
                        Ok(t) => Ok(seq![v] + t),
                    }
                },
            }
        } else {
            Err(VersionError::BadComponent)
        },
    }
}

/// Component `k` of the parsed list, or zero when fewer were given.
pub open spec fn part_or_zero(t: Seq<int>, k: int) -> int {
    if 0 <= k < t.len() {
        t[k]
    } else {
        0
    }
}

/// How the version header parses: the first line must read
/// `#define SDK_VERSION "v_A.B.C.D"`; up to four dot-separated components
/// are accepted and missing ones default to zero.
pub open spec fn spec_parse_version(s: Seq<char>) -> Result<Seq<int>, VersionError> {
    if s.len() == 0 {
        Err(VersionError::EmptyFile)
    } else {
        let line = spec_first_line(s);
        if !crate::text::spec_starts_with(line, "#define SDK_VERSION \"v_"@) {
            Err(VersionError::MissingPrefix)
        } else {
            let stripped = line.skip("#define SDK_VERSION \"v_"@.len() as int);
            if !(stripped.len() > 0 && stripped.last() == '"') {
                Err(VersionError::MissingSuffix)
            } else {
                spec_parse_components(stripped.drop_last(), 0)
            }
        }
    }
}

/// Reads the dot-separated components of `mid[pos..]`, appending each to
/// `parts`.
fn parse_components(mid: &Vec<char>, pos: usize, parts: &mut Vec<u32>) -> (r: Result<
    (),
    VersionError,
>)
    requires
        pos <= mid@.len(),
        old(parts)@.len() <= 4,
    ensures
        match spec_parse_components(mid@.skip(pos as int), old(parts)@.len() as int) {
            Err(e) => r == Err::<(), VersionError>(e),
            Ok(t) => r is Ok && final(parts)@.map_values(|x: u32| x as int) == old(
                parts,
            )@.map_values(|x: u32| x as int) + t && final(parts)@.len() <= 4,
        },
    decreases mid@.len() - pos,
{
    let ghost s = mid@.skip(pos as int);
    let ghost idx = old(parts)@.len() as int;
    proof {
        lemma_spec_find_shift(mid@, '.', pos as int, 0);
    }
    match find_char(mid, '.', pos) {
        None => {
            let comp = chars_slice(mid, pos, mid.len());
            proof {
                assert(comp@ =~= s);
            }
            match crate::numbers::parse_u32(&comp) {
                None => Err(VersionError::BadComponent),
                Some(v) => {
                    if parts.len() >= 4 {
                        Err(VersionError::TooManyComponents)
                    } else {
                        parts.push(v);
                        proof {
                            assert(parts@.map_values(|x: u32| x as int) =~= old(
                                parts,
                            )@.map_values(|x: u32| x as int) + seq![v as int]);
                        }
                        Ok(())
                    }
                },
            }
        },
        Some(j) => {
            let n = mid.len();
            proof {
                lemma_spec_find_props(mid@, '.', pos as int);
                assert(spec_find(s, '.', 0) == Some(j - pos as int));
                assert(j < n);
            }
            let comp = chars_slice(mid, pos, j);
            proof {
                assert(comp@ =~= s.take(j - pos as int));
            }
            match crate::numbers::parse_u32(&comp) {
                None => Err(VersionError::BadComponent),
                Some(v) => {
                    if parts.len() >= 4 {
                        Err(VersionError::TooManyComponents)
                    } else {
                        parts.push(v);
                        let ghost mapped = parts@.map_values(|x: u32| x as int);
                        proof {
                            assert(mid@.skip(j + 1 as int) =~= s.skip(j - pos + 1 as int));
                            assert(mapped =~= old(parts)@.map_values(|x: u32| x as int) + seq![
                                v as int,
                            ]);
                        }
                        let inner = parse_components(mid, j + 1, parts);
                        match inner {
                            Err(e) => Err(e),
                            Ok(()) => {
                                proof {
                                    match spec_parse_components(
                                        s.skip(j - pos + 1 as int),
                                        idx + 1,
                                    ) {
                                        Ok(t) => {
                                            assert(parts@.map_values(|x: u32| x as int) =~= old(
                                                parts,
                                            )@.map_values(|x: u32| x as int) + (seq![v as int]
                                                + t));
                                        },
                                        Err(_) => {},
                                    }
                                }
                                Ok(())
                            },
                        }
                    }
                },
            }
        },
    }
}

/// Parses the contents of the SDK version header. Total over all strings;
/// any failure is reported as a `VersionError`, to be treated as advisory.
pub fn parse_sdk_version(contents: &str) -> (r: Result<SdkVersion, VersionError>)
    ensures
        match spec_parse_version(contents@) {
            Err(e) => r == Err::<SdkVersion, VersionError>(e),
            Ok(t) => r matches Ok(v) && v.major as int == part_or_zero(t, 0) && v.minor as int
                == part_or_zero(t, 1) && v.patch as int == part_or_zero(t, 2) && v.build as int
                == part_or_zero(t, 3),
        },
{
    let chars = str_to_chars(contents);
    if chars.len() == 0 {
        return Err(VersionError::EmptyFile);
    }
    // Cut out the first line.
    proof {
        lemma_spec_find_props(chars@, '\n', 0);
    }
    let line_end = match find_char(&chars, '\n', 0) {
        Some(j) => j,
        None => chars.len(),
    };
    let mut line = chars_slice(&chars, 0, line_end);
    if line.len() > 0 && line[line.len() - 1] == '\r' {
        let shorter = chars_slice(&line, 0, line.len() - 1);
        proof {
            assert(shorter@ =~= line@.drop_last());
        }
        line = shorter;
    }
    proof {
        assert(chars@.take(chars@.len() as int) =~= chars@);
        assert(line@ == spec_first_line(contents@));
    }
    // The define prefix.
    let prefix = str_to_chars("#define SDK_VERSION \"v_");
    if !chars_start_with(&line, &prefix) {
        return Err(VersionError::MissingPrefix);
    }
    let stripped = chars_slice(&line, prefix.len(), line.len());
    proof {
        assert(stripped@ =~= line@.skip("#define SDK_VERSION \"v_"@.len() as int));
    }
    // The closing quote.
    if stripped.len() == 0 || stripped[stripped.len() - 1] != '"' {
        return Err(VersionError::MissingSuffix);
    }
    let mid = chars_slice(&stripped, 0, stripped.len() - 1);
    proof {
        assert(mid@ =~= stripped@.drop_last());
    }
    // The dot-separated components.
    let mut parts: Vec<u32> = Vec::new();
    proof {
        assert(mid@.skip(0) =~= mid@);
    }
    match parse_components(&mid, 0, &mut parts) {
        Err(e) => Err(e),
        Ok(()) => {
            let major = if parts.len() > 0 {
                parts[0]
            } else {
                0
            };
            let minor = if parts.len() > 1 {
                parts[1]
            } else {
                0
            };
            let patch = if parts.len() > 2 {
                parts[2]
            } else {
                0
            };
            let build = if parts.len() > 3 {
                parts[3]
            } else {
                0
            };
            Ok(SdkVersion { major, minor, patch, build })
        },
    }
}

/// The mismatch warning text.
pub open spec fn spec_mismatch_warning() -> Seq<char> {
    "SDK has only been tested with 6.0.22.1401"@
}

/// The warning owed to a version check outcome: none for the known-good
/// version, the mismatch text for any other parsed version, and the parse
/// failure's description when parsing failed. Never a hard error.
pub fn version_warning(checked: &Result<SdkVersion, VersionError>) -> (r: Option<String>)
    ensures
        match checked {
            Ok(v) => if *v == spec_known_version() {
                r is None
            } else {
                r matches Some(w) && w@ == spec_mismatch_warning()
            },
            Err(e) => r matches Some(w) && w@ == spec_version_error_text(*e),
        },
{
    match checked {
        Ok(v) => {
            if v.major == 6 && v.minor == 0 && v.patch == 22 && v.build == 1401 {
                None
            } else {
                Some(String::from_str("SDK has only been tested with 6.0.22.1401"))
            }
        },
        Err(e) => Some(e.message()),
    }
}

/// The location of the version header below the SDK root.
pub fn sdk_version_header_rel_path() -> (r: String)
    ensures
        r@ == "sdk/platform/include/sdk_version.h"@,
{
    String::from_str("sdk/platform/include/sdk_version.h")
}

/// Renders a version as its dotted decimal text.
pub fn version_text(v: &SdkVersion) -> (r: String)
    ensures
        r@ == spec_nat_chars(v.major as nat) + "."@ + spec_nat_chars(v.minor as nat) + "."@
            + spec_nat_chars(v.patch as nat) + "."@ + spec_nat_chars(v.build as nat),
{
    let mut out: Vec<char> = Vec::new();
    let mut a = format_u32(v.major);
    push_all(&mut out, &a);
    out.push('.');
    let b = format_u32(v.minor);
    push_all(&mut out, &b);
    out.push('.');
    let c = format_u32(v.patch);
    push_all(&mut out, &c);
    out.push('.');
    let d = format_u32(v.build);
    push_all(&mut out, &d);
    proof {
        reveal_strlit(".");
        assert(out@ =~= spec_nat_chars(v.major as nat) + "."@ + spec_nat_chars(v.minor as nat)
            + "."@ + spec_nat_chars(v.patch as nat) + "."@ + spec_nat_chars(v.build as nat));
    }
    chars_to_string(&out)
}

} // verus!
