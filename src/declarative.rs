//! The standalone declaration grammar:
//! `Name { T1, T2, ... }` or `Name < Capability < { T1, T2, ... } > >`,
//! where each member is an identifier naming both the variant and its type,
//! and the capability is any text up to the `<` that opens the member set.
use vstd::prelude::*;
use crate::generate::{generate, generated, is_ident_char, is_ident_start};
use crate::model::{
    BundleError, Declaration, DeclarationView, Fields, FieldsView, Options, OptionsView, Variant,
    VariantView, opt_view,
};

verus! {

pub open spec fn is_ws(c: char) -> bool {
    c == ' ' || c == '\t' || c == '\n' || c == '\r'
}

/// The number of whitespace characters from index `i` on.
pub open spec fn ws_run(s: Seq<char>, i: int) -> nat
    decreases s.len() - i,
{
    if 0 <= i < s.len() && is_ws(s[i]) {
        1 + ws_run(s, i + 1)
    } else {
        0
    }
}

/// The number of identifier characters from index `i` on.
pub open spec fn word_run(s: Seq<char>, i: int) -> nat
    decreases s.len() - i,
{
    if 0 <= i < s.len() && is_ident_char(s[i]) {
        1 + word_run(s, i + 1)
    } else {
        0
    }
}

/// The members from just after `{` at `i` up to the closing `}`: identifiers
/// separated by commas, with an optional trailing comma. Gives the members
/// and the index after `}`, or the index of the first unexpected character.
pub open spec fn members_from(s: Seq<char>, i: int) -> Result<(Seq<Seq<char>>, int), int>
    decreases s.len() - i,
{
    let j = i + ws_run(s, i);
    if j >= s.len() {
        Err(j)
    } else if s[j] == '}' {
        Ok((Seq::empty(), j + 1))
    } else if !is_ident_start(s[j]) {
        Err(j)
    } else {
        let e = j + word_run(s, j);
        let k = e + ws_run(s, e);
        if k >= s.len() {
            Err(k)
        } else if s[k] == '}' {
            Ok((seq![s.subrange(j, e)], k + 1))
        } else if s[k] == ',' {
            match members_from(s, k + 1) {
                Ok((ms, end)) => Ok((seq![s.subrange(j, e)] + ms, end)),
                Err(p) => Err(p),
            }
        } else {
            Err(k)
        }
    }
}

/// Whether the `<` at `i` opens the member set: the next non-blank is `{`.
pub open spec fn opens_members(s: Seq<char>, i: int) -> bool {
    &&& 0 <= i < s.len()
    &&& s[i] == '<'
    &&& i + 1 + ws_run(s, i + 1) < s.len()
    &&& s[i + 1 + ws_run(s, i + 1)] == '{'
}

/// The first index from `i` on where a `<` opens the member set, or the end.
pub open spec fn capability_end(s: Seq<char>, i: int) -> int
    decreases s.len() - i,
{
    if i < 0 || i >= s.len() {
        s.len() as int
    } else if opens_members(s, i) {
        i
    } else {
        capability_end(s, i + 1)
    }
}

/// The end of `s[lo..hi]` once trailing whitespace is dropped.
pub open spec fn trim_end(s: Seq<char>, lo: int, hi: int) -> int
    decreases hi - lo,
{
    if lo < hi && is_ws(s[hi - 1]) {
        trim_end(s, lo, hi - 1)
    } else {
        hi
    }
}

/// What follows the member set: `>` once per level of nesting, then only
/// whitespace. Gives the index of the first unexpected character, if any.
pub open spec fn closing_from(s: Seq<char>, i: int, levels: nat) -> Option<int>
    decreases levels,
{
    let j = i + ws_run(s, i);
    if levels == 0 {
        if j == s.len() {
            None
        } else {
            Some(j)
        }
    } else if j < s.len() && s[j] == '>' {
        closing_from(s, j + 1, (levels - 1) as nat)
    } else {
        Some(j)
    }
}

/// A parsed declaration: its capability, name and members, or the index of
/// the first character that does not fit the grammar.
pub open spec fn declarative(s: Seq<char>) -> Result<
    (Option<Seq<char>>, Seq<char>, Seq<Seq<char>>),
    int,
> {
    let j = ws_run(s, 0) as int;
    if j >= s.len() || !is_ident_start(s[j]) {
        Err(j)
    } else {
        let e = j + word_run(s, j);
        let name = s.subrange(j, e);
        let k = e + ws_run(s, e);
        if k < s.len() && s[k] == '{' {
            match members_from(s, k + 1) {
                Ok((ms, end)) => match closing_from(s, end, 0) {
                    None => Ok((None, name, ms)),
                    Some(p) => Err(p),
                },
                Err(p) => Err(p),
            }
        } else if k < s.len() && s[k] == '<' {
            let c0 = k + 1 + ws_run(s, k + 1);
            let c = capability_end(s, c0);
            let c1 = trim_end(s, c0, c);
            if c >= s.len() {
                Err(c)
            } else if c1 == c0 {
                Err(c0)
            } else {
                let b = c + 1 + ws_run(s, c + 1);
                match members_from(s, b + 1) {
                    Ok((ms, end)) => match closing_from(s, end, 2) {
                        None => Ok((Some(s.subrange(c0, c1)), name, ms)),
                        Some(p) => Err(p),
                    },
                    Err(p) => Err(p),
                }
            }
        } else {
            Err(k)
        }
    }
}

/// The declaration that a name and members stand for: a public enum whose
/// variants are bare tags, each carrying the type of the same name.
pub open spec fn declaration_of(name: Seq<char>, ms: Seq<Seq<char>>) -> DeclarationView {
    DeclarationView {
        attrs: Seq::empty(),
        vis: "pub"@,
        name,
        impl_generics: Seq::empty(),
        ty_generics: Seq::empty(),
        where_clause: Seq::empty(),
        variants: ms.map_values(
            |m: Seq<char>|
                VariantView { attrs: Seq::empty(), name: m, fields: FieldsView::Unit, discriminant: None },
        ),
    }
}

/// A declaration read from the standalone grammar.
pub struct Declarative {
    pub capability: Option<String>,
    pub declaration: Declaration,
}

fn is_ws_char(c: char) -> (r: bool)
    ensures
        r == is_ws(c),
{
    c == ' ' || c == '\t' || c == '\n' || c == '\r'
}

fn is_word_char(c: char) -> (r: bool)
    ensures
        r == is_ident_char(c),
{
    ('a' <= c && c <= 'z') || ('A' <= c && c <= 'Z') || c == '_' || ('0' <= c && c <= '9')
}

fn is_word_start(c: char) -> (r: bool)
    ensures
        r == is_ident_start(c),
{
    ('a' <= c && c <= 'z') || ('A' <= c && c <= 'Z') || c == '_'
}

fn skip_ws(s: &str, n: usize, i: usize) -> (r: usize)
    requires
        n == s@.len(),
        i <= n,
    ensures
        r == i + ws_run(s@, i as int),
        r <= n,
{
    let mut j = i;
    while j < n
        invariant
            i <= j <= n,
            n == s@.len(),
            i + ws_run(s@, i as int) == j + ws_run(s@, j as int),
        decreases n - j,
    {
        if !is_ws_char(s.get_char(j)) {
            return j;
        }
        j = j + 1;
    }
    j
}

fn skip_word(s: &str, n: usize, i: usize) -> (r: usize)
    requires
        n == s@.len(),
        i <= n,
    ensures
        r == i + word_run(s@, i as int),
        r <= n,
{
    let mut j = i;
    while j < n
        invariant
            i <= j <= n,
            n == s@.len(),
            i + word_run(s@, i as int) == j + word_run(s@, j as int),
        decreases n - j,
    {
        if !is_word_char(s.get_char(j)) {
            return j;
        }
        j = j + 1;
    }
    j
}

fn find_capability_end(s: &str, n: usize, i: usize) -> (r: usize)
    requires
        n == s@.len(),
        i <= n,
    ensures
        r == capability_end(s@, i as int),
        i <= r <= n,
        r < n ==> opens_members(s@, r as int),
{
    let mut c = i;
    while c < n
        invariant
            i <= c <= n,
            n == s@.len(),
            capability_end(s@, i as int) == capability_end(s@, c as int),
        decreases n - c,
    {
        if s.get_char(c) == '<' {
            let b = skip_ws(s, n, c + 1);
            if b < n && s.get_char(b) == '{' {
                return c;
            }
        }
        c = c + 1;
    }
    c
}

fn trim_ws_end(s: &str, n: usize, lo: usize, hi: usize) -> (r: usize)
    requires
        n == s@.len(),
        lo <= hi <= n,
    ensures
        r == trim_end(s@, lo as int, hi as int),
        lo <= r <= hi,
{
    let mut h = hi;
    while h > lo
        invariant
            lo <= h <= hi,
            hi <= n,
            n == s@.len(),
            trim_end(s@, lo as int, hi as int) == trim_end(s@, lo as int, h as int),
        decreases h - lo,
    {
        if !is_ws_char(s.get_char(h - 1)) {
            return h;
        }
        h = h - 1;
    }
    h
}

fn text(s: &str, n: usize, from: usize, to: usize) -> (r: String)
    requires
        n == s@.len(),
        from <= to <= n,
    ensures
        r@ == s@.subrange(from as int, to as int),
{
    String::from_str(s.substring_char(from, to))
}

fn members(s: &str, n: usize, i: usize) -> (r: Result<(Vec<String>, usize), usize>)
    requires
        n == s@.len(),
        i <= n,
    ensures
        match r {
            Ok((v, end)) => members_from(s@, i as int) == Ok::<(Seq<Seq<char>>, int), int>(
                (v.deep_view(), end as int),
            ) && end <= n,
            Err(p) => members_from(s@, i as int) == Err::<(Seq<Seq<char>>, int), int>(p as int),
        },
    decreases n - i,
{
    let j = skip_ws(s, n, i);
    if j >= n {
        return Err(j);
    }
    let cj = s.get_char(j);
    if cj == '}' {
        let v: Vec<String> = Vec::new();
        assert(v.deep_view() =~= Seq::<Seq<char>>::empty());
        return Ok((v, j + 1));
    }
    if !is_word_start(cj) {
        return Err(j);
    }
    let e = skip_word(s, n, j);
    let k = skip_ws(s, n, e);
    if k >= n {
        return Err(k);
    }
    let ck = s.get_char(k);
    let w = text(s, n, j, e);
    if ck == '}' {
        let v: Vec<String> = vec![w];
        assert(v.deep_view() =~= seq![s@.subrange(j as int, e as int)]);
        Ok((v, k + 1))
    } else if ck == ',' {
        match members(s, n, k + 1) {
            Ok((rest, end)) => {
                let ghost old_rest = rest.deep_view();
                let mut v = rest;
                v.insert(0, w);
                assert(v.deep_view() =~= seq![s@.subrange(j as int, e as int)] + old_rest);
                Ok((v, end))
            },
            Err(p) => Err(p),
        }
    } else {
        Err(k)
    }
}

fn closing(s: &str, n: usize, i: usize, levels: usize) -> (r: Option<usize>)
    requires
        n == s@.len(),
        i <= n,
    ensures
        match r {
            Some(p) => closing_from(s@, i as int, levels as nat) == Some(p as int),
            None => closing_from(s@, i as int, levels as nat) == None::<int>,
        },
    decreases levels,
{
    let j = skip_ws(s, n, i);
    if levels == 0 {
        if j == n {
            None
        } else {
            Some(j)
        }
    } else if j < n && s.get_char(j) == '>' {
        closing(s, n, j + 1, levels - 1)
    } else {
        Some(j)
    }
}

fn unit_variants(ms: &Vec<String>) -> (r: Vec<Variant>)
    ensures
        r@.map_values(|v: Variant| v@) == declaration_of(Seq::empty(), ms.deep_view()).variants,
{
    let mut r: Vec<Variant> = Vec::new();
    let mut i: usize = 0;
    while i < ms.len()
        invariant
            i <= ms@.len(),
            r@.len() == i,
            forall|k: int|
                0 <= k < i ==> (#[trigger] r@[k])@ == (VariantView {
                    attrs: Seq::empty(),
                    name: ms@[k]@,
                    fields: FieldsView::Unit,
                    discriminant: None,
                }),
        decreases ms@.len() - i,
    {
        r.push(
            Variant {
                attrs: String::new(),
                name: ms[i].clone(),
                fields: Fields::Unit,
                discriminant: None,
            },
        );
        i = i + 1;
    }
    assert(r@.map_values(|v: Variant| v@) =~= declaration_of(Seq::empty(), ms.deep_view()).variants);
    r
}

/// Reads a declaration written in the standalone grammar, or gives the index
/// of the first character that does not fit it.
pub fn parse_declarative(src: &str) -> (r: Result<Declarative, BundleError>)
    ensures
        match declarative(src@) {
            Ok((cap, name, ms)) => match r {
                Ok(d) => opt_view(d.capability) == cap && d.declaration@ == declaration_of(name, ms),
                Err(_) => false,
            },
            Err(p) => r == Err::<Declarative, BundleError>(BundleError::Malformed(p as usize)),
        },
{
    let n = src.unicode_len();
    let j = skip_ws(src, n, 0);
    if j >= n || !is_word_start(src.get_char(j)) {
        return Err(BundleError::Malformed(j));
    }
    let e = skip_word(src, n, j);
    let name = text(src, n, j, e);
    let k = skip_ws(src, n, e);
    let (capability, ms) = if k < n && src.get_char(k) == '{' {
        let (ms, end) = match members(src, n, k + 1) {
            Ok(found) => found,
            Err(p) => return Err(BundleError::Malformed(p)),
        };
        match closing(src, n, end, 0) {
            Some(p) => return Err(BundleError::Malformed(p)),
            None => {},
        }
        (None, ms)
    } else if k < n && src.get_char(k) == '<' {
        let c0 = skip_ws(src, n, k + 1);
        let c = find_capability_end(src, n, c0);
        if c >= n {
            return Err(BundleError::Malformed(c));
        }
        let c1 = trim_ws_end(src, n, c0, c);
        if c1 == c0 {
            return Err(BundleError::Malformed(c0));
        }
        let b = skip_ws(src, n, c + 1);
        let (ms, end) = match members(src, n, b + 1) {
            Ok(found) => found,
            Err(p) => return Err(BundleError::Malformed(p)),
        };
        match closing(src, n, end, 2) {
            Some(p) => return Err(BundleError::Malformed(p)),
            None => {},
        }
        (Some(text(src, n, c0, c1)), ms)
    } else {
        return Err(BundleError::Malformed(k));
    };
    let variants = unit_variants(&ms);
    let declaration = Declaration {
        attrs: String::new(),
        vis: String::from_str("pub"),
        name,
        impl_generics: String::new(),
        ty_generics: String::new(),
        where_clause: String::new(),
        variants,
    };
    Ok(Declarative { capability, declaration })
}

/// Generates a bundle from the standalone grammar: the declaration is read,
/// validated and rendered, with an `inner` method when a capability is named.
pub fn bundle_declarative(src: &str) -> (r: Result<String, BundleError>)
    ensures
        match declarative(src@) {
            Ok((cap, name, ms)) => {
                let o = OptionsView { export: false, capability: cap };
                match r {
                    Ok(t) => generated(o, declaration_of(name, ms)) == Ok::<Seq<char>, BundleError>(t@),
                    Err(e) => generated(o, declaration_of(name, ms)) == Err::<Seq<char>, BundleError>(e),
                }
            },
            Err(p) => r == Err::<String, BundleError>(BundleError::Malformed(p as usize)),
        },
{
    match parse_declarative(src) {
        Ok(d) => {
            let o = Options { export: false, capability: d.capability };
            generate(&o, &d.declaration)
        },
        Err(e) => Err(e),
    }
}

} // verus!
