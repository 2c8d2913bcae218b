//! The guess at a common type.

use vstd::prelude::*;

use crate::scalar::{ScalarType, MAX_DECIMAL_PRECISION};

verus! {

/// How much a type is preferred as the target of implicit casts. Numbers come
/// first, from the narrowest to the widest, then dates and timestamps, and then
/// all other types alike.
pub open spec fn spec_preference(t: &ScalarType) -> u8 {
    match *t {
        ScalarType::Int32 => 0,
        ScalarType::Int64 => 1,
        ScalarType::Decimal(_, _) => 2,
        ScalarType::Float32 => 3,
        ScalarType::Float64 => 4,
        ScalarType::Date => 5,
        ScalarType::Timestamp => 6,
        ScalarType::TimestampTz => 7,
        _ => 8,
    }
}

/// Returns how much a type is preferred as the target of implicit casts.
#[verifier::when_used_as_spec(spec_preference)]
fn preference(t: &ScalarType) -> (p: u8)
    ensures
        p == spec_preference(t),
{
    match t {
        // The numbers, each of which casts implicitly to those after it.
        ScalarType::Int32 => 0,
        ScalarType::Int64 => 1,
        ScalarType::Decimal(_, _) => 2,
        ScalarType::Float32 => 3,
        ScalarType::Float64 => 4,
        // Dates and timestamps, of which the same holds.
        ScalarType::Date => 5,
        ScalarType::Timestamp => 6,
        ScalarType::TimestampTz => 7,
        _ => 8,
    }
}

/// The types among `types` that are known, in their order.
pub open spec fn known_types(types: Seq<Option<ScalarType>>) -> Seq<ScalarType>
    decreases types.len(),
{
    if types.len() == 0 {
        Seq::empty()
    } else {
        match types.last() {
            Some(t) => known_types(types.drop_last()).push(t),
            None => known_types(types.drop_last()),
        }
    }
}

/// Whether all of `types` are equal.
pub open spec fn all_equal(types: Seq<ScalarType>) -> bool {
    forall|i: int| 0 <= i < types.len() ==> #[trigger] types[i] == types[0]
}

/// Whether the type at `i` is the one that is most preferred among `types`, the
/// last one where several are preferred alike.
pub open spec fn most_preferred_at(types: Seq<ScalarType>, i: int) -> bool {
    &&& 0 <= i < types.len()
    &&& forall|j: int|
        0 <= j < types.len() ==> spec_preference(&#[trigger] types[j]) <= spec_preference(&types[i])
    &&& forall|j: int|
        i < j < types.len() ==> spec_preference(&#[trigger] types[j]) < spec_preference(&types[i])
}

/// The type that is most preferred among `types`, the last one where several are
/// preferred alike.
pub open spec fn most_preferred(types: Seq<ScalarType>) -> ScalarType
    recommends
        types.len() > 0,
    decreases types.len(),
{
    if types.len() <= 1 {
        types[0]
    } else {
        let t = most_preferred(types.drop_last());
        if spec_preference(&types.last()) >= spec_preference(&t) {
            types.last()
        } else {
            t
        }
    }
}

/// The largest scale of the decimals among `types`; zero if there are none.
pub open spec fn largest_scale(types: Seq<ScalarType>) -> u8
    decreases types.len(),
{
    if types.len() == 0 {
        0
    } else {
        let s = largest_scale(types.drop_last());
        if types.last().scale() > s {
            types.last().scale()
        } else {
            s
        }
    }
}

/// Whether all of `types` are `Time` or `Interval`.
pub open spec fn times_and_intervals(types: Seq<ScalarType>) -> bool {
    forall|i: int|
        0 <= i < types.len() ==> #[trigger] types[i] is Time || types[i] is Interval
}

/// The guess at a type that all of `known` can be cast to. Times cast to
/// intervals, though neither is preferred to the other.
pub open spec fn best_common_type(known: Seq<ScalarType>) -> ScalarType {
    if known.len() == 0 {
        ScalarType::String
    } else if all_equal(known) {
        known[0]
    } else if times_and_intervals(known) {
        ScalarType::Interval
    } else if most_preferred(known) is Decimal {
        ScalarType::Decimal(MAX_DECIMAL_PRECISION, largest_scale(known))
    } else {
        most_preferred(known)
    }
}

/// The most preferred type stands where no other type is preferred more, and no
/// later one as much.
pub proof fn lemma_most_preferred(types: Seq<ScalarType>, i: int)
    requires
        most_preferred_at(types, i),
    ensures
        most_preferred(types) == types[i],
    decreases types.len(),
{
    if types.len() > 1 {
        let init = types.drop_last();
        if i < types.len() - 1 {
            assert(most_preferred_at(init, i)) by {
                assert forall|j: int| 0 <= j < init.len() implies spec_preference(
                    &#[trigger] init[j],
                ) <= spec_preference(&init[i]) by {
                    assert(init[j] == types[j]);
                }
                assert forall|j: int| i < j < init.len() implies spec_preference(
                    &#[trigger] init[j],
                ) < spec_preference(&init[i]) by {
                    assert(init[j] == types[j]);
                }
            }
            lemma_most_preferred(init, i);
        } else {
            let k = lemma_some_most_preferred(init);
            lemma_most_preferred(init, k);
            assert(types[k] == init[k]);
        }
    }
}

/// Among one or more types there is a most preferred one.
pub proof fn lemma_some_most_preferred(types: Seq<ScalarType>) -> (i: int)
    requires
        types.len() > 0,
    ensures
        most_preferred_at(types, i),
    decreases types.len(),
{
    let last = types.len() - 1;
    if last == 0 {
        last
    } else {
        let init = types.drop_last();
        let k = lemma_some_most_preferred(init);
        assert forall|j: int| 0 <= j < last implies #[trigger] types[j] == init[j] by {}
        if spec_preference(&types[last]) >= spec_preference(&types[k]) {
            last
        } else {
            k
        }
    }
}

/// The pick over two groups joined is the pick of the two picks.
pub proof fn lemma_most_preferred_of_joined(a: Seq<ScalarType>, b: Seq<ScalarType>)
    requires
        a.len() > 0,
        b.len() > 0,
    ensures
        most_preferred(a + b) == most_preferred(seq![most_preferred(a), most_preferred(b)]),
    decreases b.len(),
{
    let x = most_preferred(a);
    let y = most_preferred(b);
    assert(seq![x, y].drop_last() =~= seq![x]);
    reveal_with_fuel(most_preferred, 2);
    if b.len() == 1 {
        assert((a + b).drop_last() =~= a);
    } else {
        let init = b.drop_last();
        let z = most_preferred(init);
        assert((a + b).drop_last() =~= a + init);
        assert(seq![x, z].drop_last() =~= seq![x]);
        lemma_most_preferred_of_joined(a, init);
    }
}

/// The largest scale is that of one of the types, or zero, and no type's scale
/// is larger.
pub proof fn lemma_largest_scale(types: Seq<ScalarType>)
    ensures
        forall|i: int|
            0 <= i < types.len() ==> (#[trigger] types[i]).scale() <= largest_scale(types),
        largest_scale(types) > 0 ==> exists|i: int|
            0 <= i < types.len() && (#[trigger] types[i]).scale() == largest_scale(types),
    decreases types.len(),
{
    if types.len() > 0 {
        let init = types.drop_last();
        lemma_largest_scale(init);
        assert forall|i: int| 0 <= i < types.len() implies (#[trigger] types[i]).scale()
            <= largest_scale(types) by {
            if i < init.len() {
                assert(init[i] == types[i]);
            }
        }
        if types.last().scale() > largest_scale(init) {
            assert(types[types.len() - 1].scale() == largest_scale(types));
        } else if largest_scale(types) > 0 {
            let i = choose|i: int|
                0 <= i < init.len() && (#[trigger] init[i]).scale() == largest_scale(init);
            assert(types[i] == init[i]);
        }
    }
}

/// Returns the type that is most preferred as the target of implicit casts,
/// whatever the categories of the types; the last one where several are
/// preferred alike.
fn guess_compatible_cast_type(types: &[ScalarType]) -> (t: Option<&ScalarType>)
    ensures
        match t {
            Some(t) => {
                &&& *t == most_preferred(types@)
                &&& exists|i: int| most_preferred_at(types@, i) && *t == types@[i]
            },
            None => types@.len() == 0,
        },
{
    if types.len() == 0 {
        return None;
    }
    let mut best: usize = 0;
    let mut n: usize = 1;
    while n < types.len()
        invariant
            best < n <= types@.len(),
            forall|j: int|
                0 <= j < n ==> spec_preference(&#[trigger] types@[j]) <= spec_preference(
                    &types@[best as int],
                ),
            forall|j: int|
                best < j < n ==> spec_preference(&#[trigger] types@[j]) < spec_preference(
                    &types@[best as int],
                ),
        decreases types@.len() - n,
    {
        if preference(&types[n]) >= preference(&types[best]) {
            best = n;
        }
        n = n + 1;
    }
    proof {
        assert(most_preferred_at(types@, best as int));
        lemma_most_preferred(types@, best as int);
    }
    Some(&types[best])
}

/// Guesses the most-common type among a set of [`ScalarType`]s that all members
/// can be cast to. Members whose type is not known are left out; without any
/// known one, the guess is `ScalarType::String`.
///
/// The returned type is not guaranteed to be accurate because type categories
/// are ignored, e.g. on input `[ScalarType::Date, ScalarType::Int32]`, `Date` is
/// guessed to be the common type.
///
/// However, if there is a type that all known members can be cast to implicitly,
/// the guess is such a type: there are false positives, but no false negatives,
/// as `lemma_guess_has_no_false_negatives` states.
pub fn guess_best_common_type(types: &[Option<ScalarType>]) -> (t: Option<ScalarType>)
    ensures
        t == Some(best_common_type(known_types(types@))),
{
    // Remove unknown types.
    let mut known: Vec<ScalarType> = Vec::new();
    let mut i: usize = 0;
    while i < types.len()
        invariant
            i <= types@.len(),
            known@ == known_types(types@.take(i as int)),
        decreases types@.len() - i,
    {
        assert(types@.take(i + 1).drop_last() =~= types@.take(i as int));
        if let Some(t) = types[i] {
            known.push(t);
        }
        i = i + 1;
    }
    assert(types@.take(types@.len() as int) =~= types@);
    if known.len() == 0 {
        return Some(ScalarType::String);
    }
    let mut same: usize = 1;
    while same < known.len() && known[same] == known[0]
        invariant
            1 <= same <= known@.len(),
            forall|j: int| 0 <= j < same ==> #[trigger] known@[j] == known@[0],
        decreases known@.len() - same,
    {
        same = same + 1;
    }
    if same == known.len() {
        return Some(known[0]);
    }
    assert(known@[same as int] != known@[0]);
    // Times can be cast to intervals, but not the other way round.
    let mut spans: usize = 0;
    while spans < known.len() && (known[spans] == ScalarType::Time || known[spans]
        == ScalarType::Interval)
        invariant
            spans <= known@.len(),
            forall|j: int|
                0 <= j < spans ==> #[trigger] known@[j] is Time || known@[j] is Interval,
        decreases known@.len() - spans,
    {
        spans = spans + 1;
    }
    if spans == known.len() {
        return Some(ScalarType::Interval);
    }
    assert(!(known@[spans as int] is Time) && !(known@[spans as int] is Interval));
    // Determine best cast type among known types.
    if let Some(btt) = guess_compatible_cast_type(known.as_slice()) {
        if let ScalarType::Decimal(_, _) = btt {
            // Determine best decimal scale (i.e. largest).
            let mut max_s: u8 = 0;
            let mut j: usize = 0;
            while j < known.len()
                invariant
                    j <= known@.len(),
                    max_s == largest_scale(known@.take(j as int)),
                decreases known@.len() - j,
            {
                assert(known@.take(j + 1).drop_last() =~= known@.take(j as int));
                if let ScalarType::Decimal(_, s) = known[j] {
                    if s > max_s {
                        max_s = s;
                    }
                }
                j = j + 1;
            }
            assert(known@.take(known@.len() as int) =~= known@);
            return Some(ScalarType::Decimal(MAX_DECIMAL_PRECISION, max_s));
        } else {
            return Some(*btt);
        }
    }
    None
}

} // verus!
