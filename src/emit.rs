//! Emission of the generated source: the union, one conversion per member,
//! the dispatch macros and, with a capability, the `inner` method.
use vstd::prelude::*;
use crate::model::{BundleSpec, BundleView, Member, MemberView, Options, OptionsView};

verus! {

/// The per-member pieces of the generated source.
#[derive(Clone, Copy, PartialEq, Eq, Structural)]
pub enum Piece {
    /// The variant line in the union's definition.
    Variant,
    /// The conversion from the member type into the union.
    Conversion,
    /// The arm of the `use_` macro, binding the payload to the caller's name.
    UseArm,
    /// The arm of the `match_` macro, aliasing the member type.
    MatchArm,
    /// The arm of the `inner` method, viewing the payload through the capability.
    InnerArm,
}

pub open spec fn discriminant_text(d: Option<Seq<char>>) -> Seq<char> {
    match d {
        Some(t) => " = "@ + t,
        None => Seq::empty(),
    }
}

/// The text that one piece contributes for member `m` of bundle `b`.
pub open spec fn piece(k: Piece, b: BundleView, m: MemberView) -> Seq<char> {
    match k {
        Piece::Variant => "    "@ + m.attrs + m.tag + "("@ + m.ty + ")"@
            + discriminant_text(m.discriminant) + ",\n"@,
        Piece::Conversion => "impl"@ + b.impl_generics + " Into<"@ + b.name + b.ty_generics
            + "> for "@ + m.ty + " "@ + b.where_clause + " {\n    #[inline]\n    fn into(self) -> "@
            + b.name + b.ty_generics + " {\n        "@ + b.name + "::"@ + m.tag
            + "(self)\n    }\n}\n"@,
        Piece::UseArm => "            "@ + b.name + "::"@ + m.tag + "($LOCAL) => $CODE,\n"@,
        Piece::MatchArm => "            $KIND::"@ + m.tag + " => {\n                type $ALIAS = "@
            + m.ty + ";\n                $MATCH\n            }\n"@,
        Piece::InnerArm => "            "@ + b.name + "::"@ + m.tag + "(value) => value,\n"@,
    }
}

/// One piece for each of `ms`, in order.
pub open spec fn pieces(k: Piece, b: BundleView, ms: Seq<MemberView>) -> Seq<char>
    decreases ms.len(),
{
    if ms.len() == 0 {
        Seq::empty()
    } else {
        pieces(k, b, ms.drop_last()) + piece(k, b, ms.last())
    }
}

/// The union's definition: one variant per member, in declaration order.
pub open spec fn union_text(b: BundleView) -> Seq<char> {
    b.attrs + "\n"@ + b.vis + " enum "@ + b.name + b.impl_generics + " "@ + b.where_clause
        + " {\n"@ + pieces(Piece::Variant, b, b.members) + "}\n"@
}

pub open spec fn export_text(o: OptionsView) -> Seq<char> {
    if o.export {
        "#[macro_export]\n"@
    } else {
        Seq::empty()
    }
}

/// The `use_<snake>` macro: runs a block with the active payload bound to a name.
pub open spec fn use_macro_text(b: BundleView, o: OptionsView, snake: Seq<char>) -> Seq<char> {
    export_text(o) + "#[allow(unused)]\nmacro_rules! use_"@ + snake
        + " {\n    ($BUNDLE:expr, |$LOCAL:ident| $CODE:block) => {\n        match $BUNDLE {\n"@
        + pieces(Piece::UseArm, b, b.members) + "        }\n    };\n}\n"@
}

/// The `match_<snake>` macro: maps a tag of another enum to the member type.
pub open spec fn match_macro_text(b: BundleView, o: OptionsView, snake: Seq<char>) -> Seq<char> {
    export_text(o) + "#[allow(unused)]\nmacro_rules! match_"@ + snake
        + " {\n    ($VALUE:expr, $KIND:ident::$ALIAS:ident => $MATCH:block else $ELSE:block) => {\n        match $VALUE {\n"@
        + pieces(Piece::MatchArm, b, b.members)
        + "            #[allow(unreachable_patterns)]\n            _ => $ELSE,\n        }\n    };\n}\n"@
}

/// The `inner` method, present only when a capability is named.
pub open spec fn inner_text(b: BundleView, o: OptionsView) -> Seq<char> {
    match o.capability {
        Some(c) => "impl"@ + b.impl_generics + " "@ + b.name + b.ty_generics + " "@
            + b.where_clause + " {\n    "@ + b.vis + " fn inner(&mut self) -> &mut dyn "@ + c
            + " {\n        match self {\n"@ + pieces(Piece::InnerArm, b, b.members)
            + "        }\n    }\n}\n"@,
        None => Seq::empty(),
    }
}

/// The whole generated source for bundle `b`, whose name in snake case is `snake`.
#[verifier::opaque]
pub open spec fn rendered(b: BundleView, o: OptionsView, snake: Seq<char>) -> Seq<char> {
    union_text(b) + pieces(Piece::Conversion, b, b.members) + use_macro_text(b, o, snake)
        + match_macro_text(b, o, snake) + inner_text(b, o)
}

proof fn lemma_pieces_step(k: Piece, b: BundleView, ms: Seq<MemberView>, i: int)
    requires
        0 <= i < ms.len(),
    ensures
        pieces(k, b, ms.take(i + 1)) == pieces(k, b, ms.take(i)) + piece(k, b, ms[i]),
{
    assert(ms.take(i + 1).drop_last() =~= ms.take(i));
}

fn push_piece(k: Piece, b: &BundleSpec, m: &Member, out: &mut String)
    ensures
        final(out)@ == old(out)@ + piece(k, b@, m@),
{
    let ghost start = out@;
    match k {
        Piece::Variant => {
            out.append("    ");
            out.append(m.attrs.as_str());
            out.append(m.tag.as_str());
            out.append("(");
            out.append(m.ty.as_str());
            out.append(")");
            match &m.discriminant {
                Some(d) => {
                    out.append(" = ");
                    out.append(d.as_str());
                },
                None => {},
            }
            out.append(",\n");
        },
        Piece::Conversion => {
            out.append("impl");
            out.append(b.impl_generics.as_str());
            out.append(" Into<");
            out.append(b.name.as_str());
            out.append(b.ty_generics.as_str());
            out.append("> for ");
            out.append(m.ty.as_str());
            out.append(" ");
            out.append(b.where_clause.as_str());
            out.append(" {\n    #[inline]\n    fn into(self) -> ");
            out.append(b.name.as_str());
            out.append(b.ty_generics.as_str());
            out.append(" {\n        ");
            out.append(b.name.as_str());
            out.append("::");
            out.append(m.tag.as_str());
            out.append("(self)\n    }\n}\n");
        },
        Piece::UseArm => {
            out.append("            ");
            out.append(b.name.as_str());
            out.append("::");
            out.append(m.tag.as_str());
            out.append("($LOCAL) => $CODE,\n");
        },
        Piece::MatchArm => {
            out.append("            $KIND::");
            out.append(m.tag.as_str());
            out.append(" => {\n                type $ALIAS = ");
            out.append(m.ty.as_str());
            out.append(";\n                $MATCH\n            }\n");
        },
        Piece::InnerArm => {
            out.append("            ");
            out.append(b.name.as_str());
            out.append("::");
            out.append(m.tag.as_str());
            out.append("(value) => value,\n");
        },
    }
    assert(out@ =~= start + piece(k, b@, m@));
}

fn push_pieces(k: Piece, b: &BundleSpec, out: &mut String)
    ensures
        final(out)@ == old(out)@ + pieces(k, b@, b@.members),
{
    let ghost start = out@;
    let ghost ms = b@.members;
    let n = b.members.len();
    let mut i: usize = 0;
    assert(ms.take(0) =~= Seq::<MemberView>::empty());
    assert(out@ =~= start + pieces(k, b@, ms.take(0)));
    while i < n
        invariant
            i <= n,
            n == b.members@.len(),
            ms == b@.members,
            out@ == start + pieces(k, b@, ms.take(i as int)),
        decreases n - i,
    {
        push_piece(k, b, &b.members[i], out);
        proof {
            lemma_pieces_step(k, b@, ms, i as int);
            assert(ms[i as int] == b.members@[i as int]@);
            assert(out@ =~= start + pieces(k, b@, ms.take(i + 1)));
        }
        i = i + 1;
    }
    assert(ms.take(n as int) =~= ms);
}

fn push_export(o: &Options, out: &mut String)
    ensures
        final(out)@ == old(out)@ + export_text(o@),
{
    if o.export {
        out.append("#[macro_export]\n");
    } else {
        assert(out@ =~= out@ + export_text(o@));
    }
}

fn push_union(b: &BundleSpec, out: &mut String)
    ensures
        final(out)@ == old(out)@ + union_text(b@),
{
    let ghost start = out@;
    out.append(b.attrs.as_str());
    out.append("\n");
    out.append(b.vis.as_str());
    out.append(" enum ");
    out.append(b.name.as_str());
    out.append(b.impl_generics.as_str());
    out.append(" ");
    out.append(b.where_clause.as_str());
    out.append(" {\n");
    push_pieces(Piece::Variant, b, out);
    out.append("}\n");
    assert(out@ =~= start + union_text(b@));
}

fn push_use_macro(b: &BundleSpec, o: &Options, snake: &str, out: &mut String)
    ensures
        final(out)@ == old(out)@ + use_macro_text(b@, o@, snake@),
{
    let ghost start = out@;
    push_export(o, out);
    out.append("#[allow(unused)]\nmacro_rules! use_");
    out.append(snake);
    out.append(" {\n    ($BUNDLE:expr, |$LOCAL:ident| $CODE:block) => {\n        match $BUNDLE {\n");
    push_pieces(Piece::UseArm, b, out);
    out.append("        }\n    };\n}\n");
    assert(out@ =~= start + use_macro_text(b@, o@, snake@));
}

fn push_match_macro(b: &BundleSpec, o: &Options, snake: &str, out: &mut String)
    ensures
        final(out)@ == old(out)@ + match_macro_text(b@, o@, snake@),
{
    let ghost start = out@;
    push_export(o, out);
    out.append("#[allow(unused)]\nmacro_rules! match_");
    out.append(snake);
    out.append(" {\n    ($VALUE:expr, $KIND:ident::$ALIAS:ident => $MATCH:block else $ELSE:block) => {\n        match $VALUE {\n");
    push_pieces(Piece::MatchArm, b, out);
    out.append("            #[allow(unreachable_patterns)]\n            _ => $ELSE,\n        }\n    };\n}\n");
    assert(out@ =~= start + match_macro_text(b@, o@, snake@));
}

fn push_inner(b: &BundleSpec, o: &Options, out: &mut String)
    ensures
        final(out)@ == old(out)@ + inner_text(b@, o@),
{
    let ghost start = out@;
    match &o.capability {
        Some(c) => {
            out.append("impl");
            out.append(b.impl_generics.as_str());
            out.append(" ");
            out.append(b.name.as_str());
            out.append(b.ty_generics.as_str());
            out.append(" ");
            out.append(b.where_clause.as_str());
            out.append(" {\n    ");
            out.append(b.vis.as_str());
            out.append(" fn inner(&mut self) -> &mut dyn ");
            out.append(c.as_str());
            out.append(" {\n        match self {\n");
            push_pieces(Piece::InnerArm, b, out);
            out.append("        }\n    }\n}\n");
        },
        None => {},
    }
    assert(out@ =~= start + inner_text(b@, o@));
}

/// Renders the generated source of a bundle whose name in snake case is
/// `snake`: the union, the conversions, the `use_` and `match_` macros and,
/// when a capability is named, the `inner` method.
pub fn render(b: &BundleSpec, o: &Options, snake: &str) -> (r: String)
    ensures
        r@ == rendered(b@, o@, snake@),
{
    let mut out = String::new();
    push_union(b, &mut out);
    push_pieces(Piece::Conversion, b, &mut out);
    push_use_macro(b, o, snake, &mut out);
    push_match_macro(b, o, snake, &mut out);
    push_inner(b, o, &mut out);
    reveal(rendered);
    assert(out@ =~= rendered(b@, o@, snake@));
    out
}

} // verus!
