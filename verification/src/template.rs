//! The template substitution engine.
//!
//! A template is plain text with `${NAME}` placeholders. Substitution
//! replaces each placeholder whose name matches a config item by that
//! item's rendered directive, left to right; placeholders naming no item
//! pass through untouched, which is a deliberate compatibility policy:
//! unknown placeholders are not errors. A placeholder that is opened but
//! never closed is ill-formed, and an item whose name or rendered text
//! holds one of the placeholder delimiters cannot be substituted safely;
//! both fail with a `TemplateError`.

use vstd::prelude::*;
use vstd::string::*;

use crate::config::{spec_lookup, spec_render, ConfigItem};
use crate::text::{
    chars_eq, chars_slice, chars_to_string, lemma_spec_find_extend, lemma_spec_find_props,
    lemma_spec_find_shift, lemma_spec_find_take, push_all, spec_find, str_to_chars,
};

verus! {

/// Why a substitution failed.
#[derive(Clone, Copy, Debug, PartialEq, Eq, Structural)]
pub enum TemplateError {
    /// An item name or rendered text holds `$`, `{` or `}`.
    InvalidItem,
    /// A `${` was opened but never closed by `}`.
    UnterminatedPlaceholder,
}

/// Whether `c` is one of the placeholder delimiter characters.
pub open spec fn is_delim(c: char) -> bool {
    c == '$' || c == '{' || c == '}'
}

/// Whether `s` holds any placeholder delimiter character.
pub open spec fn has_delim(s: Seq<char>) -> bool {
    exists|i: int| 0 <= i < s.len() && is_delim(#[trigger] s[i])
}

/// The name-to-replacement pairs induced by a list of config items: each
/// item's name mapped to its rendered directive.
pub open spec fn spec_bindings(items: Seq<ConfigItem>) -> Seq<(Seq<char>, Seq<char>)> {
    Seq::new(items.len(), |i: int| (items[i]@.name, spec_render(items[i]@)))
}

/// Whether every binding is free of placeholder delimiters.
pub open spec fn spec_valid_bindings(bs: Seq<(Seq<char>, Seq<char>)>) -> bool {
    forall|i: int|
        0 <= i < bs.len() ==> !has_delim((#[trigger] bs[i]).0) && !has_delim(bs[i].1)
}

/// The substituted text, or `None` when a placeholder is opened and never
/// closed. One left-to-right pass: at `${`, the text up to the next `}` is
/// the placeholder name; a known name is replaced by its text, an unknown
/// placeholder is emitted unchanged.
pub open spec fn spec_subst(t: Seq<char>, bs: Seq<(Seq<char>, Seq<char>)>) -> Option<Seq<char>>
    decreases t.len(),
{
    if t.len() == 0 {
        Some(Seq::empty())
    } else if t[0] == '$' && t.len() >= 2 && t[1] == '{' {
        match spec_find(t, '}', 2) {
            None => None,
            Some(j) => if 2 <= j && j < t.len() {
                let name = t.subrange(2, j);
                let rest = t.skip(j + 1);
                match spec_subst(rest, bs) {
                    None => None,
                    Some(u) => match spec_lookup(bs, name) {
                        Some(v) => Some(v + u),
                        None => Some(t.take(j + 1) + u),
                    },
                }
            } else {
                None
            },
        }
    } else {
        match spec_subst(t.skip(1), bs) {
            None => None,
            Some(u) => Some(seq![t[0]] + u),
        }
    }
}

/// The pairs carried by an executable binding table.
pub open spec fn binds_view(b: Seq<(Vec<char>, Vec<char>)>) -> Seq<(Seq<char>, Seq<char>)> {
    Seq::new(b.len(), |i: int| (b[i].0@, b[i].1@))
}

/// Whether `v` holds a placeholder delimiter.
fn scan_delim(v: &Vec<char>) -> (r: bool)
    ensures
        r == has_delim(v@),
{
    let mut i: usize = 0;
    while i < v.len()
        invariant
            i <= v@.len(),
            forall|j: int| 0 <= j < i ==> !is_delim(#[trigger] v@[j]),
        decreases v@.len() - i,
    {
        let c = v[i];
        if c == '$' || c == '{' || c == '}' {
            return true;
        }
        i = i + 1;
    }
    false
}

/// Whether every entry of the binding table is free of delimiters.
fn validate_bindings(b: &Vec<(Vec<char>, Vec<char>)>) -> (r: bool)
    ensures
        r == spec_valid_bindings(binds_view(b@)),
{
    let ghost bs = binds_view(b@);
    let mut k: usize = 0;
    while k < b.len()
        invariant
            k <= b@.len(),
            bs == binds_view(b@),
            forall|j: int| 0 <= j < k ==> !has_delim((#[trigger] bs[j]).0) && !has_delim(bs[j].1),
        decreases b@.len() - k,
    {
        proof {
            assert(bs[k as int] == (b@[k as int].0@, b@[k as int].1@));
        }
        if scan_delim(&b[k].0) || scan_delim(&b[k].1) {
            proof {
                assert(has_delim(bs[k as int].0) || has_delim(bs[k as int].1));
                assert(bs.len() == b@.len());
                assert(0 <= k < bs.len());
                if spec_valid_bindings(bs) {
                    assert(!has_delim(bs[k as int].0) && !has_delim(bs[k as int].1));
                }
            }
            return false;
        }
        k = k + 1;
    }
    proof {
        assert(bs.len() == b@.len());
    }
    true
}

/// First-match lookup of `name` in the binding table; reports the index.
fn lookup_binding(b: &Vec<(Vec<char>, Vec<char>)>, name: &Vec<char>) -> (r: Option<usize>)
    ensures
        match r {
            Some(k) => 0 <= k < b@.len() && spec_lookup(binds_view(b@), name@) == Some(
                b@[k as int].1@,
            ),
            None => spec_lookup(binds_view(b@), name@) is None,
        },
{
    let ghost bs = binds_view(b@);
    let mut i: usize = 0;
    proof {
        assert(bs.skip(0) =~= bs);
    }
    while i < b.len()
        invariant
            i <= b@.len(),
            bs == binds_view(b@),
            spec_lookup(bs, name@) == spec_lookup(bs.skip(i as int), name@),
        decreases b@.len() - i,
    {
        if chars_eq(&b[i].0, name) {
            proof {
                assert(bs.skip(i as int)[0] == bs[i as int]);
            }
            return Some(i);
        }
        proof {
            assert(bs.skip(i as int)[0] == bs[i as int]);
            assert(bs.skip(i as int).skip(1) =~= bs.skip(i + 1 as int));
        }
        i = i + 1;
    }
    None
}

/// Renders the items and substitutes them into `template`.
///
/// The result is a function of the template text and the item list alone:
/// rendering the same template with the same items twice yields the same
/// output. Unknown placeholders pass through; an unterminated `${` or an
/// item carrying a delimiter character is an error.
pub fn substitute(template: &str, items: &Vec<ConfigItem>) -> (r: Result<
    String,
    TemplateError,
>)
    ensures
        (r == Err::<String, TemplateError>(TemplateError::InvalidItem) <==> !spec_valid_bindings(
            spec_bindings(items@),
        )),
        spec_valid_bindings(spec_bindings(items@)) ==> match spec_subst(
            template@,
            spec_bindings(items@),
        ) {
            None => r == Err::<String, TemplateError>(TemplateError::UnterminatedPlaceholder),
            Some(u) => r matches Ok(out) && out@ == u,
        },
{
    let ghost bs = spec_bindings(items@);
    // Render each item once into an executable binding table.
    let mut binds: Vec<(Vec<char>, Vec<char>)> = Vec::new();
    let mut k: usize = 0;
    while k < items.len()
        invariant
            k <= items@.len(),
            binds@.len() == k,
            forall|j: int|
                0 <= j < k ==> (#[trigger] binds@[j]).0@ == items@[j]@.name && binds@[j].1@
                    == spec_render(items@[j]@),
        decreases items@.len() - k,
    {
        let name = str_to_chars(items[k].name.as_str());
        let rendered = items[k].render();
        let text = str_to_chars(rendered.as_str());
        binds.push((name, text));
        k = k + 1;
    }
    proof {
        assert(binds_view(binds@) =~= bs);
    }
    // Refuse items that could themselves form or break placeholders.
    if !validate_bindings(&binds) {
        return Err(TemplateError::InvalidItem);
    }
    // One left-to-right pass over the template.
    let t = str_to_chars(template);
    let mut out: Vec<char> = Vec::new();
    let mut i: usize = 0;
    proof {
        assert(t@.skip(0) =~= t@);
        assert(out@ + spec_subst(t@, bs)->Some_0 =~= spec_subst(t@, bs)->Some_0);
    }
    while i < t.len()
        invariant
            i <= t@.len(),
            t@ == template@,
            bs == spec_bindings(items@),
            binds_view(binds@) == bs,
            spec_valid_bindings(bs),
            spec_subst(t@, bs) == match spec_subst(t@.skip(i as int), bs) {
                None => None::<Seq<char>>,
                Some(u) => Some(out@ + u),
            },
        decreases t@.len() - i,
    {
        let ghost suffix = t@.skip(i as int);
        let c = t[i];
        proof {
            assert(suffix[0] == t@[i as int]);
            assert(suffix.len() == t@.len() - i);
        }
        if c == '$' && i + 1 < t.len() && t[i + 1] == '{' {
            proof {
                assert(suffix[1] == t@[i + 1]);
                lemma_spec_find_shift(t@, '}', i as int, 2);
            }
            match crate::text::find_char(&t, '}', i + 2) {
                None => {
                    proof {
                        assert(spec_find(suffix, '}', 2) is None);
                        assert(spec_subst(suffix, bs) is None);
                    }
                    return Err(TemplateError::UnterminatedPlaceholder);
                },
                Some(j) => {
                    proof {
                        lemma_spec_find_props(t@, '}', i + 2);
                        assert(spec_find(suffix, '}', 2) == Some(j - i as int));
                    }
                    let name = chars_slice(&t, i + 2, j);
                    proof {
                        assert(name@ =~= suffix.subrange(2, j - i as int));
                        assert(suffix.skip(j - i + 1 as int) =~= t@.skip(j + 1 as int));
                    }
                    match lookup_binding(&binds, &name) {
                        Some(kk) => {
                            let ghost out0 = out@;
                            push_all(&mut out, &binds[kk].1);
                            proof {
                                lemma_frame_step(
                                    t@,
                                    bs,
                                    i as int,
                                    j as int,
                                    out0,
                                    binds@[kk as int].1@,
                                );
                            }
                        },
                        None => {
                            let chunk = chars_slice(&t, i, j + 1);
                            let ghost out0 = out@;
                            push_all(&mut out, &chunk);
                            proof {
                                assert(chunk@ =~= suffix.take(j - i + 1 as int));
                                lemma_frame_step(t@, bs, i as int, j as int, out0, chunk@);
                            }
                        },
                    }
                    i = j + 1;
                },
            }
        } else {
            let ghost out0 = out@;
            out.push(c);
            proof {
                assert(suffix.skip(1) =~= t@.skip(i + 1 as int));
                match spec_subst(suffix.skip(1), bs) {
                    Some(u) => {
                        assert(spec_subst(suffix, bs) == Some(seq![suffix[0]] + u));
                        assert(out@ + u =~= out0 + (seq![suffix[0]] + u));
                    },
                    None => {},
                }
            }
            i = i + 1;
        }
    }
    proof {
        assert(t@.skip(t@.len() as int) =~= Seq::<char>::empty());
        assert(out@ + Seq::<char>::empty() =~= out@);
    }
    Ok(chars_to_string(&out))
}

/// Substitution is deterministic: rendering the same template with the
/// same items twice produces byte-identical output.
pub proof fn lemma_substitute_deterministic(
    t: Seq<char>,
    bs: Seq<(Seq<char>, Seq<char>)>,
    r1: Seq<char>,
    r2: Seq<char>,
)
    requires
        spec_subst(t, bs) == Some(r1),
        spec_subst(t, bs) == Some(r2),
    ensures
        r1 == r2,
{
}

/// Whether every `$` in `t` immediately opens a placeholder.
pub open spec fn dollars_open(t: Seq<char>) -> bool {
    forall|i: int|
        0 <= i < t.len() && #[trigger] t[i] == '$' ==> i + 1 < t.len() && t[i + 1] == '{'
}

/// The placeholder-opening discipline carries over to every suffix.
proof fn lemma_dollars_open_suffix(t: Seq<char>, k: int)
    requires
        dollars_open(t),
        0 <= k <= t.len(),
    ensures
        dollars_open(t.skip(k)),
{
    let s = t.skip(k);
    assert forall|i: int| 0 <= i < s.len() && #[trigger] s[i] == '$' implies i + 1 < s.len()
        && s[i + 1] == '{' by {
        assert(s[i] == t[k + i]);
        assert(t[k + i] == '$');
        assert(k + i + 1 < t.len() && t[k + i + 1] == '{');
        assert(s[i + 1] == t[k + i + 1]);
    }
}

/// A value looked up among valid bindings is itself free of delimiters.
proof fn lemma_lookup_value_no_delim(bs: Seq<(Seq<char>, Seq<char>)>, name: Seq<char>)
    requires
        spec_valid_bindings(bs),
        spec_lookup(bs, name) is Some,
    ensures
        !has_delim(spec_lookup(bs, name)->Some_0),
    decreases bs.len(),
{
    if bs.len() > 0 {
        if bs[0].0 == name {
            assert(!has_delim(bs[0].1));
        } else {
            assert forall|j: int| 0 <= j < bs.skip(1).len() implies !has_delim(
                (#[trigger] bs.skip(1)[j]).0,
            ) && !has_delim(bs.skip(1)[j].1) by {
                assert(bs.skip(1)[j] == bs[j + 1]);
            }
            lemma_lookup_value_no_delim(bs.skip(1), name);
        }
    }
}

/// Text free of `$` passes through substitution unchanged, in front of
/// whatever follows it.
proof fn lemma_subst_literal_prefix(p: Seq<char>, s: Seq<char>, bs: Seq<(Seq<char>, Seq<char>)>)
    requires
        forall|i: int| 0 <= i < p.len() ==> #[trigger] p[i] != '$',
    ensures
        spec_subst(p + s, bs) == match spec_subst(s, bs) {
            None => None::<Seq<char>>,
            Some(u) => Some(p + u),
        },
    decreases p.len(),
{
    if p.len() == 0 {
        assert(p + s =~= s);
        match spec_subst(s, bs) {
            None => {},
            Some(u) => {
                assert(p + u =~= u);
            },
        }
    } else {
        assert((p + s)[0] == p[0]);
        assert(p[0] != '$');
        assert((p + s).skip(1) =~= p.skip(1) + s);
        assert(forall|i: int|
            0 <= i < p.skip(1).len() ==> #[trigger] p.skip(1)[i] != '$');
        lemma_subst_literal_prefix(p.skip(1), s, bs);
        match spec_subst(s, bs) {
            None => {},
            Some(u) => {
                assert(spec_subst(p + s, bs) == Some(seq![p[0]] + (p.skip(1) + u)));
                assert(seq![p[0]] + (p.skip(1) + u) =~= p + u);
            },
        }
    }
}

/// Substitution is idempotent: feeding a successful substitution's output
/// back through the same items leaves it unchanged, provided every `$` in
/// the template opens a placeholder.
pub proof fn lemma_substitute_idempotent(t: Seq<char>, bs: Seq<(Seq<char>, Seq<char>)>)
    requires
        spec_valid_bindings(bs),
        dollars_open(t),
        spec_subst(t, bs) is Some,
    ensures
        spec_subst(spec_subst(t, bs)->Some_0, bs) == spec_subst(t, bs),
    decreases t.len(),
{
    let u = spec_subst(t, bs)->Some_0;
    if t.len() == 0 {
        assert(u =~= Seq::<char>::empty());
    } else if t[0] == '$' {
        assert(t.len() >= 2 && t[1] == '{');
        match spec_find(t, '}', 2) {
            None => {
                assert(false);
            },
            Some(j) => {
                lemma_spec_find_props(t, '}', 2);
                let name = t.subrange(2, j);
                let rest = t.skip(j + 1);
                let u1 = spec_subst(rest, bs)->Some_0;
                lemma_dollars_open_suffix(t, j + 1);
                lemma_substitute_idempotent(rest, bs);
                match spec_lookup(bs, name) {
                    Some(v) => {
                        assert(u == v + u1);
                        lemma_lookup_value_no_delim(bs, name);
                        assert forall|i: int| 0 <= i < v.len() implies #[trigger] v[i]
                            != '$' by {
                            if v[i] == '$' {
                                assert(is_delim(v[i]));
                                assert(has_delim(v));
                            }
                        }
                        lemma_subst_literal_prefix(v, u1, bs);
                    },
                    None => {
                        let c = t.take(j + 1);
                        assert(u == c + u1);
                        let w = c + u1;
                        assert(w.len() == j + 1 + u1.len());
                        assert(w[0] == t[0]);
                        assert(w[1] == t[1]);
                        lemma_spec_find_take(t, '}', 2, j);
                        lemma_spec_find_extend(c, u1, '}', 2, j);
                        assert(spec_find(w, '}', 2) == Some(j));
                        assert(w.subrange(2, j) =~= name);
                        assert(w.skip(j + 1) =~= u1);
                        assert(spec_subst(w, bs) == Some(w.take(j + 1) + u1));
                        assert(w.take(j + 1) =~= c);
                        assert(spec_subst(w, bs) == Some(c + u1));
                    },
                }
            },
        }
    } else {
        let u1 = spec_subst(t.skip(1), bs)->Some_0;
        assert(u == seq![t[0]] + u1);
        lemma_dollars_open_suffix(t, 1);
        lemma_substitute_idempotent(t.skip(1), bs);
        let p = seq![t[0]];
        assert(forall|i: int| 0 <= i < p.len() ==> #[trigger] p[i] != '$');
        lemma_subst_literal_prefix(p, u1, bs);
    }
}

/// One placeholder step of the scan preserves the framing invariant used by
/// `substitute`: consuming `t[i..j+1]` and emitting `piece` agrees with the
/// recursive specification.
proof fn lemma_frame_step(
    t: Seq<char>,
    bs: Seq<(Seq<char>, Seq<char>)>,
    i: int,
    j: int,
    out0: Seq<char>,
    piece: Seq<char>,
)
    requires
        0 <= i,
        i + 1 < t.len(),
        t[i] == '$',
        t[i + 1] == '{',
        i + 2 <= j < t.len(),
        spec_find(t.skip(i), '}', 2) == Some(j - i),
        ({
            let suffix = t.skip(i);
            let name = suffix.subrange(2, j - i);
            match spec_lookup(bs, name) {
                Some(v) => piece == v,
                None => piece == suffix.take(j - i + 1),
            }
        }),
    ensures
        (match spec_subst(t.skip(i), bs) {
            None => None::<Seq<char>>,
            Some(u) => Some(out0 + u),
        }) == (match spec_subst(t.skip(j + 1), bs) {
            None => None::<Seq<char>>,
            Some(u) => Some((out0 + piece) + u),
        }),
{
    let suffix = t.skip(i);
    let name = suffix.subrange(2, j - i);
    assert(suffix[0] == '$');
    assert(suffix[1] == '{');
    assert(suffix.len() >= 2);
    assert(suffix.skip(j - i + 1) =~= t.skip(j + 1));
    match spec_subst(t.skip(j + 1), bs) {
        None => {
            assert(spec_subst(suffix, bs) is None);
        },
        Some(u) => {
            match spec_lookup(bs, name) {
                Some(v) => {
                    assert(spec_subst(suffix, bs) == Some(v + u));
                    assert(out0 + (v + u) =~= (out0 + piece) + u);
                },
                None => {
                    assert(spec_subst(suffix, bs) == Some(suffix.take(j - i + 1) + u));
                    assert(out0 + (suffix.take(j - i + 1) + u) =~= (out0 + piece) + u);
                },
            }
        },
    }
}

/// The template file name a generated file is rendered from: the output
/// name with `.in` appended.
pub fn template_input_name(name: &str) -> (r: String)
    ensures
        r@ == name@ + ".in"@,
{
    crate::text::str_concat(name, ".in")
}

} // verus!
