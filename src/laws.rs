//! What holds of every generated bundle, stated over the emitted structure.
use vstd::prelude::*;
use crate::generate::generated;
use crate::model::{BundleError, BundleView, DeclarationView, FieldsView, OptionsView};
use crate::validate::{
    clashes, has_bad_shape, has_repeat, lemma_first_bad_shape_at_most,
    lemma_first_repeat_at_most, member_of, members_of, repeats_earlier, shape_error, shape_ok,
    validated, well_formed,
};

verus! {

/// A value of a generated union: the active variant's tag and its payload.
pub struct UnionValue<V> {
    pub tag: Seq<char>,
    pub payload: V,
}

/// The index of the member whose payload type is `ty`.
pub open spec fn type_index(b: BundleView, ty: Seq<char>) -> int {
    choose|i: int| 0 <= i < b.members.len() && (#[trigger] b.members[i]).ty == ty
}

/// The index of the dispatch arm whose pattern carries `tag`.
pub open spec fn arm_index(b: BundleView, tag: Seq<char>) -> int {
    choose|i: int| 0 <= i < b.members.len() && (#[trigger] b.members[i]).tag == tag
}

/// What the generated conversion from `ty` does: it builds the variant whose
/// payload type is `ty`, holding `v`.
pub open spec fn wrap<V>(b: BundleView, ty: Seq<char>, v: V) -> UnionValue<V> {
    UnionValue { tag: b.members[type_index(b, ty)].tag, payload: v }
}

/// What a generated dispatch does: the arm matching the value's tag binds the
/// payload, seen under that arm's member type.
pub open spec fn dispatch<V>(b: BundleView, u: UnionValue<V>) -> (Seq<char>, V) {
    (b.members[arm_index(b, u.tag)].ty, u.payload)
}

proof fn lemma_indices(b: BundleView, i: int)
    requires
        well_formed(b),
        0 <= i < b.members.len(),
    ensures
        type_index(b, b.members[i].ty) == i,
        arm_index(b, b.members[i].tag) == i,
{
    let t = type_index(b, b.members[i].ty);
    if t != i {
        if t < i {
            assert(!clashes(b.members[t], b.members[i]));
        } else {
            assert(!clashes(b.members[i], b.members[t]));
        }
    }
    let a = arm_index(b, b.members[i].tag);
    if a != i {
        if a < i {
            assert(!clashes(b.members[a], b.members[i]));
        } else {
            assert(!clashes(b.members[i], b.members[a]));
        }
    }
}

proof fn lemma_validated_well_formed(d: DeclarationView)
    requires
        validated(d) is Ok,
    ensures
        well_formed(validated(d)->Ok_0),
        validated(d)->Ok_0.members == members_of(d.variants),
{
    let ms = members_of(d.variants);
    assert forall|i: int, j: int| 0 <= i < j < ms.len() implies !clashes(
        #[trigger] ms[i],
        #[trigger] ms[j],
    ) by {
        if clashes(ms[i], ms[j]) {
            assert(repeats_earlier(ms, j));
            assert(has_repeat(ms));
        }
    }
}

/// Every dispatch construct has exactly one arm per declared variant, in
/// declaration order, and each arm is reached: the conversion from the arm's
/// member type produces the arm's tag, and no other arm carries that tag.
pub proof fn law_exhaustive(d: DeclarationView)
    requires
        validated(d) is Ok,
    ensures
        ({
            let b = validated(d)->Ok_0;
            &&& b.members.len() == d.variants.len()
            &&& forall|i: int| 0 <= i < b.members.len() ==> (#[trigger] b.members[i]).tag == d.variants[i].name
            &&& forall|i: int| 0 <= i < b.members.len()
                ==> #[trigger] arm_index(b, wrap(b, b.members[i].ty, 0int).tag) == i
            &&& forall|i: int, j: int| 0 <= i < j < b.members.len()
                ==> #[trigger] b.members[i].tag != #[trigger] b.members[j].tag
        }),
{
    lemma_validated_well_formed(d);
    let b = validated(d)->Ok_0;
    assert forall|i: int| 0 <= i < b.members.len() implies #[trigger] arm_index(
        b,
        wrap(b, b.members[i].ty, 0int).tag,
    ) == i by {
        lemma_indices(b, i);
    }
    assert forall|i: int, j: int| 0 <= i < j < b.members.len() implies #[trigger] b.members[i].tag
        != #[trigger] b.members[j].tag by {
        assert(!clashes(b.members[i], b.members[j]));
    }
}

/// Wrapping a value of a member type into the union and dispatching it back
/// hands the caller the very same value.
pub proof fn law_round_trip<V>(b: BundleView, i: int, v: V)
    requires
        well_formed(b),
        0 <= i < b.members.len(),
    ensures
        dispatch(b, wrap(b, b.members[i].ty, v)).1 == v,
{
    lemma_indices(b, i);
}

/// A union built by the conversion from member type `T` is always dispatched
/// to the arm that sees its payload as exactly `T`.
pub proof fn law_tag_payload_pairing<V>(b: BundleView, i: int, v: V)
    requires
        well_formed(b),
        0 <= i < b.members.len(),
    ensures
        wrap(b, b.members[i].ty, v).tag == b.members[i].tag,
        dispatch(b, wrap(b, b.members[i].ty, v)).0 == b.members[i].ty,
{
    lemma_indices(b, i);
}

/// Every bundle that validation accepts can be emitted.
pub proof fn law_validated_well_formed(d: DeclarationView)
    requires
        validated(d) is Ok,
    ensures
        well_formed(validated(d)->Ok_0),
{
    lemma_validated_well_formed(d);
}

/// A declaration with no variants is refused; no empty union is generated.
pub proof fn law_rejects_empty(o: OptionsView, d: DeclarationView)
    requires
        d.variants.len() == 0,
    ensures
        generated(o, d) == Err::<Seq<char>, BundleError>(BundleError::Empty),
{
}

/// A declaration that lists the same tag or type twice is refused, and when
/// every variant has an acceptable shape the refusal is a uniqueness error
/// at or before the second listing.
pub proof fn law_rejects_duplicates(o: OptionsView, d: DeclarationView, i: int, j: int)
    requires
        0 <= i < j < d.variants.len(),
        clashes(member_of(d.variants[i]), member_of(d.variants[j])),
    ensures
        generated(o, d) is Err,
        !has_bad_shape(d.variants) ==> match generated(o, d) {
            Err(BundleError::Duplicate(k)) => k <= j,
            _ => false,
        },
{
    let ms = members_of(d.variants);
    assert(ms[i] == member_of(d.variants[i]) && ms[j] == member_of(d.variants[j]));
    lemma_first_repeat_at_most(ms, i, j);
}

/// A declaration with a variant holding zero or several types, or named
/// fields, is refused with a shape error at or before that variant.
pub proof fn law_rejects_malformed(o: OptionsView, d: DeclarationView, i: int)
    requires
        0 <= i < d.variants.len(),
        !shape_ok(d.variants[i]),
    ensures
        exists|k: int|
            0 <= k <= i && !shape_ok(#[trigger] d.variants[k]) && generated(o, d) == Err::<
                Seq<char>,
                BundleError,
            >(shape_error(d.variants[k], k)),
{
    lemma_first_bad_shape_at_most(d.variants, i);
}

} // verus!
