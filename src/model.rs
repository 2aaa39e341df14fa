//! The declaration a bundle is generated from, and its validated form.
use vstd::prelude::*;

verus! {

/// The payload shape of one variant as it was written.
pub enum Fields {
    /// A bare tag such as `A`, which is read as `A(A)`.
    Unit,
    /// A tuple variant such as `A(T)`, with the text of each field type.
    Unnamed(Vec<String>),
    /// A struct variant such as `A { x: T }`, with the text of each field.
    Named(Vec<String>),
}

/// One variant of a declaration.
pub struct Variant {
    /// Attributes written before the variant, as source text (may be empty).
    pub attrs: String,
    /// The variant's tag.
    pub name: String,
    pub fields: Fields,
    /// The explicit discriminant after `=`, if one was written.
    pub discriminant: Option<String>,
}

/// A bundle declaration: an enum whose variants name the member types.
pub struct Declaration {
    /// Attributes written before the enum, as source text (may be empty).
    pub attrs: String,
    /// Visibility, as source text (empty for private).
    pub vis: String,
    pub name: String,
    /// Generic parameters with their bounds, e.g. `<T: Bar>` (empty if none).
    pub impl_generics: String,
    /// Generic arguments for uses of the type, e.g. `<T>` (empty if none).
    pub ty_generics: String,
    /// The where clause, e.g. `where T: Bar` (empty if none).
    pub where_clause: String,
    pub variants: Vec<Variant>,
}

/// One member of a validated bundle: a tag paired with exactly one payload type.
pub struct Member {
    pub attrs: String,
    pub tag: String,
    pub ty: String,
    pub discriminant: Option<String>,
}

/// A validated bundle: non-empty, every variant holding exactly one type,
/// no tag and no type listed twice.
pub struct BundleSpec {
    pub attrs: String,
    pub vis: String,
    pub name: String,
    pub impl_generics: String,
    pub ty_generics: String,
    pub where_clause: String,
    pub members: Vec<Member>,
}

/// What is generated beside the union.
pub struct Options {
    /// Make the dispatch macros visible outside the declaring crate.
    pub export: bool,
    /// The shared capability; when present an `inner` method is generated
    /// that views the active payload through it.
    pub capability: Option<String>,
}

/// Why a declaration was refused. Indices count variants from zero.
#[derive(Clone, Copy, Debug, PartialEq, Eq, Structural)]
pub enum BundleError {
    /// The declaration text cannot be read; the index is the offending character.
    Malformed(usize),
    /// The attribute argument is neither `export` nor a capability name.
    BadArgument,
    /// The declaration has no variants.
    Empty,
    /// The variant at this index has named fields.
    StructVariant(usize),
    /// The variant at this index holds zero or several types.
    FieldCount(usize),
    /// The variant at this index repeats an earlier tag or type.
    Duplicate(usize),
}

pub enum FieldsView {
    Unit,
    Unnamed(Seq<Seq<char>>),
    Named(Seq<Seq<char>>),
}

pub struct VariantView {
    pub attrs: Seq<char>,
    pub name: Seq<char>,
    pub fields: FieldsView,
    pub discriminant: Option<Seq<char>>,
}

pub struct DeclarationView {
    pub attrs: Seq<char>,
    pub vis: Seq<char>,
    pub name: Seq<char>,
    pub impl_generics: Seq<char>,
    pub ty_generics: Seq<char>,
    pub where_clause: Seq<char>,
    pub variants: Seq<VariantView>,
}

pub struct MemberView {
    pub attrs: Seq<char>,
    pub tag: Seq<char>,
    pub ty: Seq<char>,
    pub discriminant: Option<Seq<char>>,
}

pub struct BundleView {
    pub attrs: Seq<char>,
    pub vis: Seq<char>,
    pub name: Seq<char>,
    pub impl_generics: Seq<char>,
    pub ty_generics: Seq<char>,
    pub where_clause: Seq<char>,
    pub members: Seq<MemberView>,
}

pub struct OptionsView {
    pub export: bool,
    pub capability: Option<Seq<char>>,
}

pub open spec fn opt_view(o: Option<String>) -> Option<Seq<char>> {
    match o {
        Some(s) => Some(s@),
        None => None,
    }
}

impl View for Fields {
    type V = FieldsView;

    open spec fn view(&self) -> FieldsView {
        match self {
            Fields::Unit => FieldsView::Unit,
            Fields::Unnamed(ts) => FieldsView::Unnamed(ts.deep_view()),
            Fields::Named(ts) => FieldsView::Named(ts.deep_view()),
        }
    }
}

impl View for Variant {
    type V = VariantView;

    open spec fn view(&self) -> VariantView {
        VariantView {
            attrs: self.attrs@,
            name: self.name@,
            fields: self.fields@,
            discriminant: opt_view(self.discriminant),
        }
    }
}

impl View for Declaration {
    type V = DeclarationView;

    open spec fn view(&self) -> DeclarationView {
        DeclarationView {
            attrs: self.attrs@,
            vis: self.vis@,
            name: self.name@,
            impl_generics: self.impl_generics@,
            ty_generics: self.ty_generics@,
            where_clause: self.where_clause@,
            variants: self.variants@.map_values(|v: Variant| v@),
        }
    }
}

impl View for Member {
    type V = MemberView;

    open spec fn view(&self) -> MemberView {
        MemberView {
            attrs: self.attrs@,
            tag: self.tag@,
            ty: self.ty@,
            discriminant: opt_view(self.discriminant),
        }
    }
}

impl View for BundleSpec {
    type V = BundleView;

    open spec fn view(&self) -> BundleView {
        BundleView {
            attrs: self.attrs@,
            vis: self.vis@,
            name: self.name@,
            impl_generics: self.impl_generics@,
            ty_generics: self.ty_generics@,
            where_clause: self.where_clause@,
            members: self.members@.map_values(|m: Member| m@),
        }
    }
}

impl View for Options {
    type V = OptionsView;

    open spec fn view(&self) -> OptionsView {
        OptionsView { export: self.export, capability: opt_view(self.capability) }
    }
}

} // verus!
