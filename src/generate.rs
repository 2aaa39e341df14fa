//! The generator: attribute argument, validation and emission together.
use vstd::prelude::*;
use crate::emit::{render, rendered};
use crate::model::{BundleError, Declaration, DeclarationView, Options, OptionsView};
use crate::naming::{snake_case_of, snake_name};
use crate::validate::{validate, validated};

verus! {

pub open spec fn is_ident_start(c: char) -> bool {
    ('a' <= c && c <= 'z') || ('A' <= c && c <= 'Z') || c == '_'
}

pub open spec fn is_ident_char(c: char) -> bool {
    is_ident_start(c) || ('0' <= c && c <= '9')
}

/// An ASCII identifier: a letter or `_`, then letters, digits or `_`.
pub open spec fn is_identifier(s: Seq<char>) -> bool {
    &&& s.len() > 0
    &&& is_ident_start(s[0])
    &&& forall|i: int| 0 <= i < s.len() ==> is_ident_char(#[trigger] s[i])
}

/// What the attribute argument asks for: nothing, `export`, or a capability.
pub open spec fn options_of(a: Seq<char>) -> Result<OptionsView, BundleError> {
    if a.len() == 0 {
        Ok(OptionsView { export: false, capability: None })
    } else if a == "export"@ {
        Ok(OptionsView { export: true, capability: None })
    } else if is_identifier(a) {
        Ok(OptionsView { export: false, capability: Some(a) })
    } else {
        Err(BundleError::BadArgument)
    }
}

/// The source generated for declaration `d`, or the first violation in it.
pub open spec fn generated(o: OptionsView, d: DeclarationView) -> Result<Seq<char>, BundleError> {
    match validated(d) {
        Ok(b) => Ok(rendered(b, o, snake_case_of(b.name))),
        Err(e) => Err(e),
    }
}

/// Checks that `s` is an identifier.
pub fn check_identifier(s: &str) -> (r: bool)
    ensures
        r == is_identifier(s@),
{
    let n = s.unicode_len();
    if n == 0 {
        return false;
    }
    let first = s.get_char(0);
    if !(('a' <= first && first <= 'z') || ('A' <= first && first <= 'Z') || first == '_') {
        return false;
    }
    let mut i: usize = 0;
    while i < n
        invariant
            i <= n,
            n == s@.len(),
            forall|k: int| 0 <= k < i ==> is_ident_char(#[trigger] s@[k]),
        decreases n - i,
    {
        let c = s.get_char(i);
        if !(('a' <= c && c <= 'z') || ('A' <= c && c <= 'Z') || c == '_' || ('0' <= c && c
            <= '9')) {
            return false;
        }
        i = i + 1;
    }
    true
}

/// Reads the attribute argument: empty for plain dispatch macros, `export`
/// to export them, or an identifier naming the shared capability.
pub fn parse_options(attr: &str) -> (r: Result<Options, BundleError>)
    ensures
        match r {
            Ok(o) => options_of(attr@) == Ok::<OptionsView, BundleError>(o@),
            Err(e) => options_of(attr@) == Err::<OptionsView, BundleError>(e),
        },
{
    if attr.unicode_len() == 0 {
        return Ok(Options { export: false, capability: None });
    }
    let a = String::from_str(attr);
    if a == String::from_str("export") {
        return Ok(Options { export: true, capability: None });
    }
    if check_identifier(attr) {
        Ok(Options { export: false, capability: Some(a) })
    } else {
        Err(BundleError::BadArgument)
    }
}

/// Validates `d` and renders the generated source, or gives the first violation.
pub fn generate(o: &Options, d: &Declaration) -> (r: Result<String, BundleError>)
    ensures
        match r {
            Ok(t) => generated(o@, d@) == Ok::<Seq<char>, BundleError>(t@),
            Err(e) => generated(o@, d@) == Err::<Seq<char>, BundleError>(e),
        },
{
    match validate(d) {
        Ok(b) => {
            let snake = snake_name(b.name.as_str());
            Ok(render(&b, o, snake.as_str()))
        },
        Err(e) => Err(e),
    }
}

/// Turns a declaration into a bundle: reads the attribute argument, then
/// validates and renders. Fails at the first violation, producing nothing.
pub fn bundle(attr: &str, d: &Declaration) -> (r: Result<String, BundleError>)
    ensures
        match options_of(attr@) {
            Err(e) => r == Err::<String, BundleError>(e),
            Ok(o) => match r {
                Ok(t) => generated(o, d@) == Ok::<Seq<char>, BundleError>(t@),
                Err(e) => generated(o, d@) == Err::<Seq<char>, BundleError>(e),
            },
        },
{
    match parse_options(attr) {
        Ok(o) => generate(&o, d),
        Err(e) => Err(e),
    }
}

} // verus!
