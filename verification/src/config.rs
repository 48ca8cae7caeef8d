//! The config item model: one generated C preprocessor entry with a typed
//! value, plus resolution of environment-driven overrides.
//!
//! An override string is re-parsed into a value by a total function: the
//! keywords `undefined` / `defined` (compared without regard to ASCII case)
//! select those variants, a parseable `i32` becomes a number, and anything
//! else becomes a raw literal wrapped in double quotes. Parsing an override
//! never fails.

use vstd::prelude::*;
use vstd::string::*;

use crate::numbers::{format_i32, parse_i32, spec_int_chars, spec_parse_i32};
use crate::text::{chars_slice, chars_start_with, chars_to_string, str_concat, str_to_chars};

verus! {

/// Mathematical model of a config item value.
pub ghost enum ValueModel {
    Undefined,
    Defined,
    Number(int),
    Raw(Seq<char>),
}

/// The typed value of one generated preprocessor entry.
pub enum ConfigItemValue {
    /// Rendered as `#undef NAME`.
    Undefined,
    /// Rendered as `#define NAME`.
    Defined,
    /// Rendered as `#define NAME (n)`.
    Number(i32),
    /// Rendered as `#define NAME text`.
    Raw(String),
}

impl View for ConfigItemValue {
    type V = ValueModel;

    open spec fn view(&self) -> ValueModel {
        match self {
            ConfigItemValue::Undefined => ValueModel::Undefined,
            ConfigItemValue::Defined => ValueModel::Defined,
            ConfigItemValue::Number(n) => ValueModel::Number(*n as int),
            ConfigItemValue::Raw(s) => ValueModel::Raw(s@),
        }
    }
}

/// Mathematical model of a config item.
pub ghost struct ItemModel {
    pub name: Seq<char>,
    pub value: ValueModel,
}

/// One generated preprocessor entry: a C macro name and its typed value.
pub struct ConfigItem {
    pub name: String,
    pub value: ConfigItemValue,
}

impl View for ConfigItem {
    type V = ItemModel;

    open spec fn view(&self) -> ItemModel {
        ItemModel { name: self.name@, value: self.value@ }
    }
}

/// The ASCII-lowercased code point of `c`.
pub open spec fn lower_code(c: char) -> int {
    if 65 <= c as int && c as int <= 90 {
        c as int + 32
    } else {
        c as int
    }
}

/// Character-wise equality of two texts, ignoring ASCII case.
pub open spec fn spec_eq_ignore_case(a: Seq<char>, b: Seq<char>) -> bool {
    a.len() == b.len() && (forall|i: int|
        0 <= i < a.len() ==> lower_code(#[trigger] a[i]) == lower_code(b[i]))
}

/// The ASCII-lowercased form of `c`.
fn lower_char(c: char) -> (r: char)
    ensures
        r as int == lower_code(c),
{
    match c {
        'A' => 'a',
        'B' => 'b',
        'C' => 'c',
        'D' => 'd',
        'E' => 'e',
        'F' => 'f',
        'G' => 'g',
        'H' => 'h',
        'I' => 'i',
        'J' => 'j',
        'K' => 'k',
        'L' => 'l',
        'M' => 'm',
        'N' => 'n',
        'O' => 'o',
        'P' => 'p',
        'Q' => 'q',
        'R' => 'r',
        'S' => 's',
        'T' => 't',
        'U' => 'u',
        'V' => 'v',
        'W' => 'w',
        'X' => 'x',
        'Y' => 'y',
        'Z' => 'z',
        _ => c,
    }
}

/// Compares two character vectors, ignoring ASCII case.
fn chars_eq_ignore_case(a: &Vec<char>, b: &Vec<char>) -> (r: bool)
    ensures
        r == spec_eq_ignore_case(a@, b@),
{
    if a.len() != b.len() {
        return false;
    }
    let mut i: usize = 0;
    while i < a.len()
        invariant
            i <= a@.len(),
            a@.len() == b@.len(),
            forall|j: int| 0 <= j < i ==> lower_code(#[trigger] a@[j]) == lower_code(b@[j]),
        decreases a@.len() - i,
    {
        let la = lower_char(a[i]);
        let lb = lower_char(b[i]);
        if la != lb {
            return false;
        }
        i = i + 1;
    }
    true
}

/// How an override string is read into a value: a total function over all
/// strings.
pub open spec fn spec_parse_override(s: Seq<char>) -> ValueModel {
    if spec_eq_ignore_case(s, "undefined"@) {
        ValueModel::Undefined
    } else if spec_eq_ignore_case(s, "defined"@) {
        ValueModel::Defined
    } else {
        match spec_parse_i32(s) {
            Some(n) => ValueModel::Number(n),
            None => ValueModel::Raw("\""@ + s + "\""@),
        }
    }
}

/// Re-parses an environment override string into a config item value.
/// Total: never fails, whatever the string holds.
pub fn parse_override(s: &str) -> (r: ConfigItemValue)
    ensures
        r@ == spec_parse_override(s@),
{
    let v = str_to_chars(s);
    let undefined_kw = str_to_chars("undefined");
    let defined_kw = str_to_chars("defined");
    if chars_eq_ignore_case(&v, &undefined_kw) {
        ConfigItemValue::Undefined
    } else if chars_eq_ignore_case(&v, &defined_kw) {
        ConfigItemValue::Defined
    } else {
        match parse_i32(&v) {
            Some(n) => ConfigItemValue::Number(n),
            None => {
                let mut quoted = String::from_str("\"");
                quoted.append(s);
                quoted.append("\"");
                ConfigItemValue::Raw(quoted)
            },
        }
    }
}

/// The rendered preprocessor line of an item.
pub open spec fn spec_render(m: ItemModel) -> Seq<char> {
    match m.value {
        ValueModel::Undefined => "#undef "@ + m.name,
        ValueModel::Defined => "#define "@ + m.name,
        ValueModel::Number(n) => "#define "@ + m.name + " ("@ + spec_int_chars(n) + ")"@,
        ValueModel::Raw(s) => "#define "@ + m.name + " "@ + s,
    }
}

impl ConfigItem {
    /// Renders the item as its C preprocessor directive; a pure function of
    /// the item's name and value.
    pub fn render(&self) -> (r: String)
        ensures
            r@ == spec_render(self@),
    {
        match &self.value {
            ConfigItemValue::Undefined => str_concat("#undef ", self.name.as_str()),
            ConfigItemValue::Defined => str_concat("#define ", self.name.as_str()),
            ConfigItemValue::Number(n) => {
                let mut r = String::from_str("#define ");
                r.append(self.name.as_str());
                r.append(" (");
                let digits = chars_to_string(&format_i32(*n));
                r.append(digits.as_str());
                r.append(")");
                r
            },
            ConfigItemValue::Raw(s) => {
                let mut r = String::from_str("#define ");
                r.append(self.name.as_str());
                r.append(" ");
                r.append(s.as_str());
                r
            },
        }
    }
}

/// The environment key prefix joined with each item name to look up an
/// override.
pub open spec fn spec_override_prefix() -> Seq<char> {
    "DA14531_"@
}

/// First-match lookup of `name` among override entries.
pub open spec fn spec_lookup(ov: Seq<(Seq<char>, Seq<char>)>, name: Seq<char>) -> Option<
    Seq<char>,
>
    decreases ov.len(),
{
    if ov.len() == 0 {
        None
    } else if ov[0].0 == name {
        Some(ov[0].1)
    } else {
        spec_lookup(ov.skip(1), name)
    }
}

/// The set of environment overrides in force for one engine run, keyed by
/// bare item name (the fixed prefix already stripped).
pub struct Overrides {
    pub entries: Vec<(String, String)>,
}

impl View for Overrides {
    type V = Seq<(Seq<char>, Seq<char>)>;

    open spec fn view(&self) -> Seq<(Seq<char>, Seq<char>)> {
        Seq::new(self.entries@.len(), |i: int| (self.entries@[i].0@, self.entries@[i].1@))
    }
}

impl Overrides {
    /// An empty override set.
    pub fn none() -> (r: Overrides)
        ensures
            r@ == Seq::<(Seq<char>, Seq<char>)>::empty(),
    {
        let r = Overrides { entries: Vec::new() };
        proof {
            assert(r@ =~= Seq::<(Seq<char>, Seq<char>)>::empty());
        }
        r
    }

    /// Looks `name` up among the entries; the first match wins.
    pub fn get(&self, name: &str) -> (r: Option<String>)
        ensures
            match r {
                Some(v) => spec_lookup(self@, name@) == Some(v@),
                None => spec_lookup(self@, name@) is None,
            },
    {
        let mut i: usize = 0;
        proof {
            assert(self@.skip(0) =~= self@);
        }
        while i < self.entries.len()
            invariant
                i <= self.entries@.len(),
                spec_lookup(self@, name@) == spec_lookup(self@.skip(i as int), name@),
            decreases self.entries@.len() - i,
        {
            let entry_name = str_to_chars(self.entries[i].0.as_str());
            let query = str_to_chars(name);
            if crate::text::chars_eq(&entry_name, &query) {
                proof {
                    assert(self@.skip(i as int)[0] == (self.entries@[i as int].0@,
                    self.entries@[i as int].1@));
                }
                return Some(self.entries[i].1.clone());
            }
            proof {
                assert(self@.skip(i as int).skip(1) =~= self@.skip(i + 1 as int));
            }
            i = i + 1;
        }
        None
    }
}

/// The override entries carried by a sequence of raw environment pairs:
/// those whose key starts with the fixed prefix, in order, with the prefix
/// stripped from the key.
pub open spec fn spec_env_overrides(pairs: Seq<(Seq<char>, Seq<char>)>) -> Seq<
    (Seq<char>, Seq<char>),
>
    decreases pairs.len(),
{
    if pairs.len() == 0 {
        Seq::empty()
    } else {
        let rest = spec_env_overrides(pairs.drop_last());
        let last = pairs.last();
        if crate::text::spec_starts_with(last.0, spec_override_prefix()) {
            rest.push((last.0.skip(spec_override_prefix().len() as int), last.1))
        } else {
            rest
        }
    }
}

/// Builds the override set from raw environment pairs: keeps the pairs
/// whose key starts with the fixed prefix and strips that prefix.
pub fn overrides_from_env(pairs: &Vec<(String, String)>) -> (r: Overrides)
    ensures
        r@ == spec_env_overrides(
            Seq::new(pairs@.len(), |i: int| (pairs@[i].0@, pairs@[i].1@)),
        ),
{
    let ghost pv = Seq::new(pairs@.len(), |i: int| (pairs@[i].0@, pairs@[i].1@));
    proof {
        reveal_strlit("DA14531_");
    }
    let prefix = str_to_chars("DA14531_");
    let mut entries: Vec<(String, String)> = Vec::new();
    let mut i: usize = 0;
    while i < pairs.len()
        invariant
            i <= pairs@.len(),
            pv == Seq::new(pairs@.len(), |j: int| (pairs@[j].0@, pairs@[j].1@)),
            prefix@ == spec_override_prefix(),
            Seq::new(entries@.len(), |j: int| (entries@[j].0@, entries@[j].1@))
                == spec_env_overrides(pv.take(i as int)),
        decreases pairs@.len() - i,
    {
        proof {
            reveal_strlit("DA14531_");
        }
        let key = str_to_chars(pairs[i].0.as_str());
        if chars_start_with(&key, &prefix) {
            let stripped = chars_slice(&key, 8, key.len());
            proof {
                assert(stripped@ =~= pv[i as int].0.skip(spec_override_prefix().len() as int));
            }
            let name = chars_to_string(&stripped);
            entries.push((name, pairs[i].1.clone()));
        }
        proof {
            assert(pv.take(i + 1 as int).drop_last() =~= pv.take(i as int));
            assert(pv.take(i + 1 as int).last() == pv[i as int]);
            assert(Seq::new(entries@.len(), |j: int| (entries@[j].0@, entries@[j].1@))
                =~= spec_env_overrides(pv.take(i + 1 as int)));
        }
        i = i + 1;
    }
    proof {
        assert(pv.take(pairs@.len() as int) =~= pv);
    }
    let r = Overrides { entries };
    r
}

/// What the value of an item named `name` resolves to under the given
/// overrides: the parsed override when one is present, the default
/// otherwise.
pub open spec fn spec_resolve_value(
    name: Seq<char>,
    default: ValueModel,
    ov: Seq<(Seq<char>, Seq<char>)>,
) -> ValueModel {
    match spec_lookup(ov, name) {
        Some(s) => spec_parse_override(s),
        None => default,
    }
}

impl ConfigItem {
    /// Constructs an item, replacing the default value by the re-parsed
    /// override when the override set carries the item's name.
    pub fn new(name: &str, default: ConfigItemValue, overrides: &Overrides) -> (r: ConfigItem)
        ensures
            r@ == (ItemModel {
                name: name@,
                value: spec_resolve_value(name@, default@, overrides@),
            }),
    {
        let value = match overrides.get(name) {
            Some(s) => parse_override(s.as_str()),
            None => default,
        };
        ConfigItem { name: String::from_str(name), value }
    }
}

/// Whether `c` may begin a C identifier: a letter or an underscore.
pub open spec fn is_c_ident_start(c: char) -> bool {
    (65 <= c as int && c as int <= 90) || (97 <= c as int && c as int <= 122) || c == '_'
}

/// Whether `c` may continue a C identifier: a letter, a digit or an
/// underscore.
pub open spec fn is_c_ident_char(c: char) -> bool {
    is_c_ident_start(c) || (48 <= c as int && c as int <= 57)
}

/// Whether `s` is a valid C macro identifier: nonempty, starting with a
/// letter or underscore, continuing with letters, digits and underscores.
pub open spec fn is_c_macro_identifier(s: Seq<char>) -> bool {
    s.len() > 0 && is_c_ident_start(s[0]) && (forall|i: int|
        0 <= i < s.len() ==> is_c_ident_char(#[trigger] s[i]))
}

} // verus!
