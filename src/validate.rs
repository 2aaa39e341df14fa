//! Normalization and validation of a declaration into a bundle.
use vstd::prelude::*;
use crate::model::{
    BundleError, BundleSpec, BundleView, Declaration, DeclarationView, Fields, FieldsView,
    Member, MemberView, Variant, VariantView, opt_view,
};

verus! {

/// A variant is acceptable when it is a bare tag or holds exactly one type.
pub open spec fn shape_ok(v: VariantView) -> bool {
    match v.fields {
        FieldsView::Unit => true,
        FieldsView::Unnamed(ts) => ts.len() == 1,
        FieldsView::Named(_) => false,
    }
}

/// The error for an unacceptable variant at index `i`.
pub open spec fn shape_error(v: VariantView, i: int) -> BundleError {
    match v.fields {
        FieldsView::Named(_) => BundleError::StructVariant(i as usize),
        _ => BundleError::FieldCount(i as usize),
    }
}

/// The member a variant stands for: a bare tag `X` carries the type `X`.
pub open spec fn member_of(v: VariantView) -> MemberView {
    MemberView {
        attrs: v.attrs,
        tag: v.name,
        ty: match v.fields {
            FieldsView::Unnamed(ts) => ts[0],
            _ => v.name,
        },
        discriminant: v.discriminant,
    }
}

/// Two members clash when they share a tag or a payload type.
pub open spec fn clashes(a: MemberView, b: MemberView) -> bool {
    a.tag == b.tag || a.ty == b.ty
}

pub open spec fn repeats_earlier(ms: Seq<MemberView>, j: int) -> bool {
    exists|i: int| 0 <= i < j && clashes(#[trigger] ms[i], ms[j])
}

pub open spec fn has_bad_shape(vs: Seq<VariantView>) -> bool {
    exists|i: int| 0 <= i < vs.len() && !shape_ok(#[trigger] vs[i])
}

/// The index of the first unacceptable variant.
pub open spec fn first_bad_shape(vs: Seq<VariantView>) -> int {
    choose|i: int|
        0 <= i < vs.len() && !shape_ok(#[trigger] vs[i]) && forall|k: int|
            0 <= k < i ==> shape_ok(#[trigger] vs[k])
}

pub open spec fn has_repeat(ms: Seq<MemberView>) -> bool {
    exists|j: int| 0 <= j < ms.len() && #[trigger] repeats_earlier(ms, j)
}

/// The index of the first member that repeats an earlier one.
pub open spec fn first_repeat(ms: Seq<MemberView>) -> int {
    choose|j: int|
        0 <= j < ms.len() && #[trigger] repeats_earlier(ms, j) && forall|k: int|
            0 <= k < j ==> !#[trigger] repeats_earlier(ms, k)
}

pub open spec fn members_of(vs: Seq<VariantView>) -> Seq<MemberView> {
    vs.map_values(|v: VariantView| member_of(v))
}

/// The declaration with every bare tag turned into a one-type variant.
pub open spec fn normalized(d: DeclarationView) -> BundleView {
    BundleView {
        attrs: d.attrs,
        vis: d.vis,
        name: d.name,
        impl_generics: d.impl_generics,
        ty_generics: d.ty_generics,
        where_clause: d.where_clause,
        members: members_of(d.variants),
    }
}

/// What validation gives: the first violation, checked in the order
/// emptiness, variant shapes, uniqueness; otherwise the normalized bundle.
pub open spec fn validated(d: DeclarationView) -> Result<BundleView, BundleError> {
    if d.variants.len() == 0 {
        Err(BundleError::Empty)
    } else if has_bad_shape(d.variants) {
        let i = first_bad_shape(d.variants);
        Err(shape_error(d.variants[i], i))
    } else if has_repeat(members_of(d.variants)) {
        Err(BundleError::Duplicate(first_repeat(members_of(d.variants)) as usize))
    } else {
        Ok(normalized(d))
    }
}

/// A bundle that can be emitted: at least one member, and no two members
/// sharing a tag or a type.
pub open spec fn well_formed(b: BundleView) -> bool {
    &&& b.members.len() > 0
    &&& forall|i: int, j: int|
        0 <= i < j < b.members.len() ==> !clashes(#[trigger] b.members[i], #[trigger] b.members[j])
}

proof fn lemma_first_bad_shape(vs: Seq<VariantView>, i: int)
    requires
        0 <= i < vs.len(),
        !shape_ok(vs[i]),
        forall|k: int| 0 <= k < i ==> shape_ok(#[trigger] vs[k]),
    ensures
        has_bad_shape(vs),
        first_bad_shape(vs) == i,
{
    let c = first_bad_shape(vs);
    if c < i {
        assert(shape_ok(vs[c]));
    } else if c > i {
        assert(shape_ok(vs[i]));
    }
}

proof fn lemma_first_repeat(ms: Seq<MemberView>, j: int)
    requires
        0 <= j < ms.len(),
        repeats_earlier(ms, j),
        forall|k: int| 0 <= k < j ==> !#[trigger] repeats_earlier(ms, k),
    ensures
        has_repeat(ms),
        first_repeat(ms) == j,
{
    let c = first_repeat(ms);
    if c < j {
        assert(!repeats_earlier(ms, c));
    } else if c > j {
        assert(!repeats_earlier(ms, j));
    }
}

/// Some variant of unacceptable shape at or before `i` comes first.
pub proof fn lemma_first_bad_shape_at_most(vs: Seq<VariantView>, i: int)
    requires
        0 <= i < vs.len(),
        !shape_ok(vs[i]),
    ensures
        has_bad_shape(vs),
        0 <= first_bad_shape(vs) <= i,
        !shape_ok(vs[first_bad_shape(vs)]),
{
    lemma_least_bad_shape(vs, i);
    let k = first_bad_shape(vs);
    if k > i {
        assert(shape_ok(vs[i]));
    }
}

proof fn lemma_least_bad_shape(vs: Seq<VariantView>, i: int)
    requires
        0 <= i < vs.len(),
        !shape_ok(vs[i]),
    ensures
        exists|k: int|
            0 <= k < vs.len() && !shape_ok(#[trigger] vs[k]) && forall|x: int|
                0 <= x < k ==> shape_ok(#[trigger] vs[x]),
    decreases i,
{
    if exists|x: int| 0 <= x < i && !shape_ok(#[trigger] vs[x]) {
        let x = choose|x: int| 0 <= x < i && !shape_ok(#[trigger] vs[x]);
        lemma_least_bad_shape(vs, x);
    } else {
        assert(forall|x: int| 0 <= x < i ==> shape_ok(#[trigger] vs[x]));
    }
}

proof fn lemma_least_repeat(ms: Seq<MemberView>, j: int)
    requires
        0 <= j < ms.len(),
        repeats_earlier(ms, j),
    ensures
        exists|k: int|
            0 <= k < ms.len() && #[trigger] repeats_earlier(ms, k) && forall|x: int|
                0 <= x < k ==> !#[trigger] repeats_earlier(ms, x),
    decreases j,
{
    if exists|x: int| 0 <= x < j && #[trigger] repeats_earlier(ms, x) {
        let x = choose|x: int| 0 <= x < j && #[trigger] repeats_earlier(ms, x);
        lemma_least_repeat(ms, x);
    } else {
        assert(forall|x: int| 0 <= x < j ==> !#[trigger] repeats_earlier(ms, x));
    }
}

/// Members `i` and `j` clash, so some member at or before `j` repeats an earlier one.
pub proof fn lemma_first_repeat_at_most(ms: Seq<MemberView>, i: int, j: int)
    requires
        0 <= i < j < ms.len(),
        clashes(ms[i], ms[j]),
    ensures
        has_repeat(ms),
        0 <= first_repeat(ms) <= j,
{
    assert(repeats_earlier(ms, j));
    assert(has_repeat(ms));
    lemma_least_repeat(ms, j);
    let k = first_repeat(ms);
    if k > j {
        assert(!repeats_earlier(ms, j));
    }
}

fn clone_opt(o: &Option<String>) -> (r: Option<String>)
    ensures
        opt_view(r) == opt_view(*o),
{
    match o {
        Some(s) => Some(s.clone()),
        None => None,
    }
}

/// The member that a variant of acceptable shape stands for.
pub fn member(v: &Variant) -> (r: Member)
    requires
        shape_ok(v@),
    ensures
        r@ == member_of(v@),
{
    let ty = match &v.fields {
        Fields::Unnamed(ts) => {
            assert(ts.deep_view()[0] == ts@[0]@);
            ts[0].clone()
        },
        _ => v.name.clone(),
    };
    Member {
        attrs: v.attrs.clone(),
        tag: v.name.clone(),
        ty,
        discriminant: clone_opt(&v.discriminant),
    }
}

/// Checks that a variant is a bare tag or holds exactly one type.
pub fn check_shape(v: &Variant) -> (r: bool)
    ensures
        r == shape_ok(v@),
{
    match &v.fields {
        Fields::Unit => true,
        Fields::Unnamed(ts) => ts.len() == 1,
        Fields::Named(_) => false,
    }
}

fn clash(a: &Member, b: &Member) -> (r: bool)
    ensures
        r == clashes(a@, b@),
{
    a.tag == b.tag || a.ty == b.ty
}

/// The first of `members` that clashes with `m`, if any.
fn find_clash(members: &Vec<Member>, m: &Member) -> (r: Option<usize>)
    ensures
        match r {
            Some(k) => k < members@.len() && clashes(members@[k as int]@, m@),
            None => forall|x: int| 0 <= x < members@.len() ==> !clashes(#[trigger] members@[x]@, m@),
        },
{
    let mut k: usize = 0;
    while k < members.len()
        invariant
            k <= members@.len(),
            forall|x: int| 0 <= x < k ==> !clashes(#[trigger] members@[x]@, m@),
        decreases members@.len() - k,
    {
        if clash(&members[k], m) {
            return Some(k);
        }
        k = k + 1;
    }
    None
}

/// Validates a declaration and normalizes it into a bundle, failing at the
/// first violation.
pub fn validate(d: &Declaration) -> (r: Result<BundleSpec, BundleError>)
    ensures
        match r {
            Ok(b) => validated(d@) == Ok::<BundleView, BundleError>(b@),
            Err(e) => validated(d@) == Err::<BundleView, BundleError>(e),
        },
{
    let ghost vs = d@.variants;
    let n = d.variants.len();
    if n == 0 {
        return Err(BundleError::Empty);
    }
    let mut i: usize = 0;
    while i < n
        invariant
            i <= n,
            n == d.variants@.len(),
            vs == d@.variants,
            forall|k: int| 0 <= k < i ==> shape_ok(#[trigger] vs[k]),
        decreases n - i,
    {
        if !check_shape(&d.variants[i]) {
            proof {
                assert(vs[i as int] == d.variants@[i as int]@);
                lemma_first_bad_shape(vs, i as int);
            }
            return Err(
                match &d.variants[i].fields {
                    Fields::Named(_) => BundleError::StructVariant(i),
                    _ => BundleError::FieldCount(i),
                },
            );
        }
        i = i + 1;
    }
    assert(!has_bad_shape(vs));
    let ghost ms = members_of(vs);
    let mut members: Vec<Member> = Vec::new();
    let mut j: usize = 0;
    while j < n
        invariant
            j <= n,
            n == d.variants@.len(),
            vs == d@.variants,
            ms == members_of(vs),
            ms.len() == n,
            !has_bad_shape(vs),
            members@.len() == j,
            forall|k: int| 0 <= k < j ==> (#[trigger] members@[k])@ == ms[k],
            forall|k: int| 0 <= k < j ==> !#[trigger] repeats_earlier(ms, k),
        decreases n - j,
    {
        assert(shape_ok(vs[j as int]));
        let m = member(&d.variants[j]);
        match find_clash(&members, &m) {
            Some(k) => {
                proof {
                    assert(clashes(ms[k as int], ms[j as int]));
                    lemma_first_repeat(ms, j as int);
                    assert(validated(d@) == Err::<BundleView, BundleError>(BundleError::Duplicate(j)));
                }
                return Err(BundleError::Duplicate(j));
            },
            None => {},
        }
        assert forall|x: int| 0 <= x < j implies !clashes(#[trigger] ms[x], ms[j as int]) by {
            assert(members@[x]@ == ms[x]);
        }
        assert(!repeats_earlier(ms, j as int));
        members.push(m);
        j = j + 1;
    }
    let b = BundleSpec {
        attrs: d.attrs.clone(),
        vis: d.vis.clone(),
        name: d.name.clone(),
        impl_generics: d.impl_generics.clone(),
        ty_generics: d.ty_generics.clone(),
        where_clause: d.where_clause.clone(),
        members,
    };
    assert(!has_repeat(ms));
    assert(b@.members =~= ms);
    Ok(b)
}

} // verus!
