//! What the emitted implementations compute, stated over a model of enum
//! values, with the laws that follow from it.
//!
//! The emitted `eq` compares `::std::mem::discriminant` of its two arguments,
//! and the emitted `hash` feeds the hasher that discriminant alone. A value is
//! modelled here by the index of its active variant and its payload; a hasher
//! by what it has been fed, so that any hash it finishes with is a function of
//! that sequence. The functions below compute the same thing at run time, on
//! the model, for any payload type.

use vstd::prelude::*;

verus! {

/// A value of an enum: the index of its active variant in declaration order,
/// and the data that variant carries.
pub struct EnumValue<P> {
    pub variant: usize,
    pub payload: P,
}

/// What the emitted `eq` returns on `x` and `y`.
pub open spec fn equals<P>(x: EnumValue<P>, y: EnumValue<P>) -> bool {
    x.variant == y.variant
}

/// What the emitted `hash` feeds the hasher for `x`: one datum, the
/// discriminant.
pub open spec fn hashed_data<P>(x: EnumValue<P>) -> Seq<usize> {
    seq![x.variant]
}

/// The hash of `x` under a hasher whose result is `finish` of all it was fed,
/// starting from the data `before`.
pub open spec fn hash_of<P>(finish: spec_fn(Seq<usize>) -> u64, before: Seq<usize>, x: EnumValue<P>) -> u64 {
    finish(before + hashed_data(x))
}

/// Compares two values as the emitted `eq` does.
pub fn discriminant_eq<P>(x: &EnumValue<P>, y: &EnumValue<P>) -> (r: bool)
    ensures
        r == equals(*x, *y),
{
    x.variant == y.variant
}

/// Feeds `state` what the emitted `hash` feeds a hasher for `x`.
pub fn discriminant_hash<P>(x: &EnumValue<P>, state: &mut Vec<usize>)
    ensures
        final(state)@ == old(state)@ + hashed_data(*x),
{
    state.push(x.variant);
    assert(final(state)@ =~= old(state)@ + hashed_data(*x));
}

/// Two values of one variant are equal whatever their payloads; values of
/// two different variants are not, whatever their payloads. No bound is asked
/// of the payload type.
pub proof fn lemma_equality_ignores_payload<P>(a: usize, b: usize, p: P, q: P)
    requires
        a != b,
    ensures
        equals(EnumValue { variant: a, payload: p }, EnumValue { variant: a, payload: q }),
        !equals(EnumValue { variant: a, payload: p }, EnumValue { variant: b, payload: q }),
{
}

/// Two values of one variant hash alike whatever their payloads, under every
/// hasher and from every state of it. No bound is asked of the payload type.
pub proof fn lemma_hash_ignores_payload<P>(
    finish: spec_fn(Seq<usize>) -> u64,
    before: Seq<usize>,
    a: usize,
    p: P,
    q: P,
)
    ensures
        hashed_data(EnumValue { variant: a, payload: p }) == hashed_data(
            EnumValue { variant: a, payload: q },
        ),
        hash_of(finish, before, EnumValue { variant: a, payload: p }) == hash_of(
            finish,
            before,
            EnumValue { variant: a, payload: q },
        ),
{
}

/// Values that the emitted `eq` calls equal have equal hashes, under every
/// hasher and from every state of it.
pub proof fn lemma_equal_values_hash_alike<P>(
    finish: spec_fn(Seq<usize>) -> u64,
    before: Seq<usize>,
    x: EnumValue<P>,
    y: EnumValue<P>,
)
    requires
        equals(x, y),
    ensures
        hashed_data(x) == hashed_data(y),
        hash_of(finish, before, x) == hash_of(finish, before, y),
{
}

/// Values of different variants feed the hasher different data, so a hasher
/// tells them apart unless its own algorithm collides.
pub proof fn lemma_variants_feed_distinct_data<P>(x: EnumValue<P>, y: EnumValue<P>)
    requires
        !equals(x, y),
    ensures
        hashed_data(x) != hashed_data(y),
{
    assert(hashed_data(x)[0] != hashed_data(y)[0]);
}

} // verus!
