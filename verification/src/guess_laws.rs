//! What the guess at a common type makes of its input, member by member.

use vstd::prelude::*;

use crate::common_type::{
    all_equal, best_common_type, known_types, largest_scale, lemma_largest_scale,
    lemma_most_preferred, lemma_some_most_preferred, most_preferred_at, spec_preference,
    times_and_intervals,
};
use crate::laws::{
    casts_implicitly, is_date_time, is_numeric, lemma_guess_has_no_false_negatives,
};
use crate::scalar::ScalarType;

verus! {

/// The known types of two groups joined are those of the first and then those of
/// the second; a known type alone is kept, an unknown one is not.
pub proof fn lemma_known_types_of_joined(
    a: Seq<Option<ScalarType>>,
    b: Seq<Option<ScalarType>>,
    t: ScalarType,
)
    ensures
        known_types(a + b) == known_types(a) + known_types(b),
        known_types(seq![Some(t)]) == seq![t],
        known_types(seq![None]) == Seq::<ScalarType>::empty(),
        known_types(Seq::empty()) == Seq::<ScalarType>::empty(),
    decreases b.len(),
{
    reveal_with_fuel(known_types, 2);
    assert(seq![Some(t)].drop_last() =~= Seq::<Option<ScalarType>>::empty());
    assert(seq![None::<ScalarType>].drop_last() =~= Seq::<Option<ScalarType>>::empty());
    if b.len() == 0 {
        assert(a + b =~= a);
        assert(known_types(a) + known_types(b) =~= known_types(a));
    } else {
        assert((a + b).drop_last() =~= a + b.drop_last());
        lemma_known_types_of_joined(a, b.drop_last(), t);
        assert(known_types(a + b) =~= known_types(a) + known_types(b));
    }
}

/// The number of members of `types` whose type is known.
pub open spec fn count_known(types: Seq<Option<ScalarType>>) -> nat {
    types.filter(|t: Option<ScalarType>| t is Some).len()
}

/// Every member whose type is known is counted once: its type stands behind those
/// of the known members before it, and there are as many known types as known
/// members.
pub proof fn lemma_every_known_type_counts(types: Seq<Option<ScalarType>>)
    ensures
        known_types(types).len() == count_known(types),
        forall|i: int|
            0 <= i < types.len() && #[trigger] types[i] is Some ==> {
                let k = known_types(types.take(i)).len() as int;
                k < known_types(types).len() && Some(known_types(types)[k]) == types[i]
            },
        forall|t: ScalarType|
            #[trigger] known_types(types).contains(t) <==> types.contains(Some(t)),
    decreases types.len(),
{
    let known = known_types(types);
    reveal(Seq::filter);
    if types.len() > 0 {
        lemma_every_known_type_counts(types.drop_last());
    }
    assert forall|i: int| 0 <= i < types.len() && #[trigger] types[i] is Some implies {
        let k = known_types(types.take(i)).len() as int;
        k < known.len() && Some(known[k]) == types[i]
    } by {
        lemma_member_counts(types, i);
    }
    assert forall|t: ScalarType| #[trigger] known.contains(t) <==> types.contains(Some(t)) by {
        if known.contains(t) {
            let k = choose|k: int| 0 <= k < known.len() && known[k] == t;
            let i = lemma_member_of_known(types, k);
            assert(types[i] == Some(t));
        }
        if types.contains(Some(t)) {
            let i = choose|i: int| 0 <= i < types.len() && types[i] == Some(t);
            lemma_member_counts(types, i);
        }
    }
}

/// A known member's type stands behind those of the known members before it.
proof fn lemma_member_counts(types: Seq<Option<ScalarType>>, i: int)
    requires
        0 <= i < types.len(),
        types[i] is Some,
    ensures
        ({
            let k = known_types(types.take(i)).len() as int;
            &&& k < known_types(types).len()
            &&& Some(known_types(types)[k]) == types[i]
            &&& known_types(types.take(i + 1)).len() == k + 1
        }),
{
    let t = types[i]->0;
    let before = types.take(i);
    let after = types.skip(i + 1);
    assert(types =~= before + seq![Some(t)] + after);
    assert(types.take(i + 1) =~= before + seq![Some(t)]);
    lemma_known_types_of_joined(before, seq![Some(t)], t);
    lemma_known_types_of_joined(before + seq![Some(t)], after, t);
}

/// A known type is that of a member with as many known members before it.
proof fn lemma_member_of_known(types: Seq<Option<ScalarType>>, k: int) -> (i: int)
    requires
        0 <= k < known_types(types).len(),
    ensures
        0 <= i < types.len(),
        types[i] == Some(known_types(types)[k]),
        known_types(types.take(i)).len() == k,
    decreases types.len(),
{
    let init = types.drop_last();
    let last = types.len() - 1;
    assert(types.take(last) =~= init);
    if k < known_types(init).len() {
        let i = lemma_member_of_known(init, k);
        assert(init.take(i) =~= types.take(i));
        i
    } else {
        last
    }
}

/// A later known member's type stands later among the known types.
proof fn lemma_later_member(types: Seq<Option<ScalarType>>, i: int, j: int)
    requires
        0 <= i < j < types.len(),
        types[i] is Some,
        types[j] is Some,
    ensures
        known_types(types.take(i)).len() < known_types(types.take(j)).len(),
{
    lemma_member_counts(types, i);
    let between = types.subrange(i + 1, j);
    assert(types.take(j) =~= types.take(i + 1) + between);
    lemma_known_types_of_joined(types.take(i + 1), between, types[i]->0);
}

/// Without a member whose type is known, the guess is `String`; where all known
/// members have one type, it is that type, parameters included.
pub proof fn lemma_guess_without_choice(types: Seq<Option<ScalarType>>, t: ScalarType)
    ensures
        (forall|i: int| 0 <= i < types.len() ==> #[trigger] types[i] is None)
            ==> best_common_type(known_types(types)) == ScalarType::String,
        types.contains(Some(t)) && (forall|i: int|
            0 <= i < types.len() ==> #[trigger] types[i] is None || types[i] == Some(t))
            ==> best_common_type(known_types(types)) == t,
{
    let known = known_types(types);
    lemma_every_known_type_counts(types);
    if forall|i: int| 0 <= i < types.len() ==> #[trigger] types[i] is None {
        if known.len() > 0 {
            let i = lemma_member_of_known(types, 0);
        }
    }
    if types.contains(Some(t)) && (forall|i: int|
        0 <= i < types.len() ==> #[trigger] types[i] is None || types[i] == Some(t)) {
        assert(known.contains(t));
        assert forall|k: int| 0 <= k < known.len() implies #[trigger] known[k] == t by {
            let i = lemma_member_of_known(types, k);
        }
        assert(all_equal(known));
    }
}

/// If there is a type that every member whose type is known can be cast to
/// implicitly, then every such member can be cast implicitly to the guess; and
/// where a member has that type, so has the guess, but for the parameters of a
/// decimal.
pub proof fn lemma_guess_suits_every_member(types: Seq<Option<ScalarType>>, common: ScalarType)
    requires
        forall|i: int|
            0 <= i < types.len() ==> (#[trigger] types[i] matches Some(t) ==> casts_implicitly(
                t,
                common,
            )),
    ensures
        forall|i: int|
            0 <= i < types.len() ==> (#[trigger] types[i] matches Some(t) ==> casts_implicitly(
                t,
                best_common_type(known_types(types)),
            )),
        types.contains(Some(common)) ==> {
            let guess = best_common_type(known_types(types));
            guess == common || (guess is Decimal && common is Decimal)
        },
{
    let known = known_types(types);
    lemma_every_known_type_counts(types);
    assert forall|k: int| 0 <= k < known.len() implies casts_implicitly(
        #[trigger] known[k],
        common,
    ) by {
        let i = lemma_member_of_known(types, k);
    }
    lemma_guess_has_no_false_negatives(types, common);
    assert forall|i: int| 0 <= i < types.len() implies (#[trigger] types[i] matches Some(t)
        ==> casts_implicitly(t, best_common_type(known))) by {
        if types[i] is Some {
            let k = known_types(types.take(i)).len() as int;
            assert(casts_implicitly(known[k], best_common_type(known)));
        }
    }
}

/// Whether the member at `i` is the last of those whose types are preferred most.
pub open spec fn decides(types: Seq<Option<ScalarType>>, i: int) -> bool {
    &&& 0 <= i < types.len()
    &&& types[i] matches Some(t) && forall|j: int|
        0 <= j < types.len() ==> (#[trigger] types[j] matches Some(u) ==> spec_preference(&u)
            <= spec_preference(&t) && (j > i ==> spec_preference(&u) < spec_preference(&t)))
}

/// Whether `s` is the largest scale of a decimal among the members.
pub open spec fn is_largest_scale(types: Seq<Option<ScalarType>>, s: u8) -> bool {
    &&& forall|i: int|
        0 <= i < types.len() ==> (#[trigger] types[i] matches Some(ScalarType::Decimal(_, u)) ==> u
            <= s)
    &&& exists|i: int|
        0 <= i < types.len() && (#[trigger] types[i] matches Some(ScalarType::Decimal(_, u)) && u
            == s)
}

/// Whether two members differ in their types.
pub open spec fn types_differ(types: Seq<Option<ScalarType>>) -> bool {
    exists|i: int, j: int|
        0 <= i < types.len() && 0 <= j < types.len() && #[trigger] types[i] is Some
            && #[trigger] types[j] is Some && types[i] != types[j]
}

/// Where members differ in their types and all of these are times and intervals,
/// the guess is `Interval`.
pub proof fn lemma_guess_among_times_and_intervals(types: Seq<Option<ScalarType>>)
    requires
        types_differ(types),
        forall|i: int|
            0 <= i < types.len() ==> (#[trigger] types[i] matches Some(t) ==> t is Time
                || t is Interval),
    ensures
        best_common_type(known_types(types)) == ScalarType::Interval,
{
    let known = known_types(types);
    lemma_every_known_type_counts(types);
    lemma_types_differ(types);
    assert forall|k: int| 0 <= k < known.len() implies #[trigger] known[k] is Time
        || known[k] is Interval by {
        let i = lemma_member_of_known(types, k);
    }
}

/// Members that differ in their types make for known types that differ.
proof fn lemma_types_differ(types: Seq<Option<ScalarType>>)
    requires
        types_differ(types),
    ensures
        known_types(types).len() > 0,
        !all_equal(known_types(types)),
{
    let known = known_types(types);
    let (i, j) = choose|i: int, j: int|
        0 <= i < types.len() && 0 <= j < types.len() && #[trigger] types[i] is Some
            && #[trigger] types[j] is Some && types[i] != types[j];
    lemma_member_counts(types, i);
    lemma_member_counts(types, j);
    let k = known_types(types.take(i)).len() as int;
    let l = known_types(types.take(j)).len() as int;
    assert(known[k] != known[l]);
}

/// Where members differ in their types, and not just in being times or intervals,
/// the last of those that are preferred most decides: the guess is its type, or,
/// if that is a decimal, the widest decimal with the largest scale of any member.
pub proof fn lemma_guess_among_others(types: Seq<Option<ScalarType>>, i: int)
    requires
        types_differ(types),
        exists|j: int|
            0 <= j < types.len() && (#[trigger] types[j] matches Some(t) && !(t is Time)
                && !(t is Interval)),
        decides(types, i),
    ensures
        ({
            let guess = best_common_type(known_types(types));
            &&& !(types[i]->0 is Decimal) ==> Some(guess) == types[i]
            &&& types[i]->0 is Decimal ==> (guess matches ScalarType::Decimal(p, s) && p == 38
                && is_largest_scale(types, s))
        }),
{
    let known = known_types(types);
    let guess = best_common_type(known);
    lemma_every_known_type_counts(types);
    lemma_types_differ(types);
    let k = known_types(types.take(i)).len() as int;
    lemma_member_counts(types, i);
    assert(most_preferred_at(known, k)) by {
        assert forall|l: int| 0 <= l < known.len() implies spec_preference(&#[trigger] known[l])
            <= spec_preference(&known[k]) && (l > k ==> spec_preference(&known[l])
            < spec_preference(&known[k])) by {
            let j = lemma_member_of_known(types, l);
            if l > k && j < i {
                lemma_later_member(types, j, i);
            }
        }
    }
    lemma_most_preferred(known, k);
    let j = choose|j: int|
        0 <= j < types.len() && (#[trigger] types[j] matches Some(t) && !(t is Time)
            && !(t is Interval));
    let l = known_types(types.take(j)).len() as int;
    assert(!(known[l] is Time) && !(known[l] is Interval));
    assert(!times_and_intervals(known));
    if types[i]->0 is Decimal {
        let s = largest_scale(known);
        lemma_largest_scale(known);
        assert forall|j: int| 0 <= j < types.len() implies (
        #[trigger] types[j] matches Some(ScalarType::Decimal(_, u)) ==> u <= s) by {
            if types[j] is Some {
                let l = known_types(types.take(j)).len() as int;
                assert(known[l].scale() <= s);
            }
        }
        assert(exists|j: int|
            0 <= j < types.len() && (#[trigger] types[j] matches Some(ScalarType::Decimal(_, u))
                && u == s)) by {
            if s > 0 {
                let l = choose|l: int|
                    0 <= l < known.len() && (#[trigger] known[l]).scale() == s;
                let j = lemma_member_of_known(types, l);
                assert(types[j] matches Some(ScalarType::Decimal(_, u)) && u == s);
            } else {
                assert(known[k].scale() <= s);
                assert(types[i] matches Some(ScalarType::Decimal(_, u)) && u == s);
            }
        }
    }
}

/// Where any member's type is known, one of the members decides.
pub proof fn lemma_some_member_decides(types: Seq<Option<ScalarType>>) -> (i: int)
    requires
        exists|j: int| 0 <= j < types.len() && #[trigger] types[j] is Some,
    ensures
        decides(types, i),
{
    let known = known_types(types);
    lemma_every_known_type_counts(types);
    let j = choose|j: int| 0 <= j < types.len() && #[trigger] types[j] is Some;
    lemma_member_counts(types, j);
    let k = lemma_some_most_preferred(known);
    let i = lemma_member_of_known(types, k);
    assert forall|j: int| 0 <= j < types.len() implies (#[trigger] types[j] matches Some(u)
        ==> spec_preference(&u) <= spec_preference(&types[i]->0) && (j > i ==> spec_preference(&u)
        < spec_preference(&types[i]->0))) by {
        if types[j] is Some {
            lemma_member_counts(types, j);
            let l = known_types(types.take(j)).len() as int;
            assert(spec_preference(&known[l]) <= spec_preference(&known[k]));
            if j > i {
                lemma_later_member(types, i, j);
            }
        }
    }
    i
}

/// Numbers are preferred least, then dates and timestamps; all other types are
/// preferred most, and alike. Types of one of the first two groups are preferred
/// alike only if they are equal or both decimals.
pub proof fn lemma_order_of_preference(a: ScalarType, b: ScalarType)
    ensures
        is_numeric(a) && !is_numeric(b) ==> spec_preference(&a) < spec_preference(&b),
        is_date_time(a) && !is_numeric(b) && !is_date_time(b) ==> spec_preference(&a)
            < spec_preference(&b),
        !is_numeric(a) && !is_date_time(a) && !is_numeric(b) && !is_date_time(b)
            ==> spec_preference(&a) == spec_preference(&b),
        (is_numeric(a) && is_numeric(b)) || (is_date_time(a) && is_date_time(b)) ==> (
        spec_preference(&a) <= spec_preference(&b) <==> casts_implicitly(a, b)),
        (is_numeric(a) || is_date_time(a)) && spec_preference(&a) == spec_preference(&b) ==> (a == b
            || (a is Decimal && b is Decimal)),
{
}

} // verus!
