//! What holds of types, casts and guesses together.

use vstd::arithmetic::div_mod::lemma_div_multiples_vanish;
use vstd::arithmetic::mul::lemma_mul_basics;
use vstd::arithmetic::power::{lemma_pow0, pow};
use vstd::prelude::*;

use crate::cast::{cast_between, CastFn, CastOp, CastTo};
use crate::catalog::valid_casts;
use crate::common_type::{
    all_equal, best_common_type, known_types, largest_scale, lemma_largest_scale,
    lemma_most_preferred, lemma_some_most_preferred, spec_preference,
    times_and_intervals,
};
use crate::expr::{BinaryFunc, Datum, ExprContext, ScalarExpr, UnaryFunc};
use crate::rescale::{lemma_powers_of_ten_fit, rescaled, scales_in_reach};
use crate::scalar::ScalarType;

verus! {

/// Whether there is an implicit cast from `from` to `to`.
pub open spec fn casts_implicitly(from: ScalarType, to: ScalarType) -> bool {
    cast_between(from, CastTo::Implicit(to)) is Some
}

/// Whether there is a cast from `from` to `to`, implicit or explicit.
pub open spec fn casts_explicitly(from: ScalarType, to: ScalarType) -> bool {
    cast_between(from, CastTo::Explicit(to)) is Some
}

/// Whether `t` is a type of numbers.
pub open spec fn is_numeric(t: ScalarType) -> bool {
    t is Int32 || t is Int64 || t is Decimal || t is Float32 || t is Float64
}

/// Whether `t` is a type of dates or timestamps.
pub open spec fn is_date_time(t: ScalarType) -> bool {
    t is Date || t is Timestamp || t is TimestampTz
}

/// A cast from a type to itself leaves the expression as it is.
pub proof fn lemma_cast_to_same_type(ecx: ExprContext, e: ScalarExpr, t: ScalarType)
    ensures
        cast_between(t, CastTo::Implicit(t)) == Some(CastOp::F(CastFn::Noop)),
        cast_between(t, CastTo::Explicit(t)) == Some(CastOp::F(CastFn::Noop)),
        CastOp::F(CastFn::Noop).applies(ecx, e, CastTo::Implicit(t)),
        CastOp::F(CastFn::Noop).applies(ecx, e, CastTo::Explicit(t)),
        CastOp::F(CastFn::Noop).cast_expr(ecx, e, CastTo::Implicit(t)) == e,
        CastOp::F(CastFn::Noop).cast_expr(ecx, e, CastTo::Explicit(t)) == e,
{
}

/// An explicit target allows every implicit cast, and finds the same one.
pub proof fn lemma_implicit_is_explicit(from: ScalarType, to: ScalarType)
    requires
        casts_implicitly(from, to),
    ensures
        cast_between(from, CastTo::Explicit(to)) == cast_between(from, CastTo::Implicit(to)),
{
}

/// Two implicit casts in a row can be made in one.
pub proof fn lemma_implicit_casts_chain(t1: ScalarType, t2: ScalarType, t3: ScalarType)
    requires
        casts_implicitly(t1, t2),
        casts_implicitly(t2, t3),
    ensures
        casts_implicitly(t1, t3),
{
}

/// Types that cast implicitly to one another are the same but for the
/// parameters of a decimal.
pub proof fn lemma_implicit_casts_lead_one_way(t1: ScalarType, t2: ScalarType)
    requires
        casts_implicitly(t1, t2),
        casts_implicitly(t2, t1),
    ensures
        t1.desaturate() == t2.desaturate(),
{
}

/// Within numbers, and within dates and timestamps, the implicit casts are those
/// to a type that is preferred as much or more; none lead from one category to
/// the other.
pub proof fn lemma_implicit_casts_follow_preference(from: ScalarType, to: ScalarType)
    ensures
        is_numeric(from) && is_numeric(to) ==> (casts_implicitly(from, to) <==> spec_preference(
            &from,
        ) <= spec_preference(&to)),
        is_date_time(from) && is_date_time(to) ==> (casts_implicitly(from, to)
            <==> spec_preference(&from) <= spec_preference(&to)),
        is_numeric(from) && is_date_time(to) ==> !casts_implicitly(from, to),
        is_date_time(from) && is_numeric(to) ==> !casts_implicitly(from, to),
{
}

/// Every type can be cast to `String`, and `String` to every type.
pub proof fn lemma_strings_reach_every_type(t: ScalarType)
    ensures
        casts_explicitly(t, ScalarType::String),
        casts_explicitly(ScalarType::String, t),
{
}

/// Every type can be cast to a JSONB element.
pub proof fn lemma_every_type_has_jsonb_form(from: ScalarType)
    ensures
        cast_between(from, CastTo::JsonbAny) is Some,
{
}

/// The precision and scale of a decimal have no say in whether there is a cast.
pub proof fn lemma_parameters_do_not_decide(
    from1: ScalarType,
    from2: ScalarType,
    to1: ScalarType,
    to2: ScalarType,
)
    requires
        from1.desaturate() == from2.desaturate(),
        to1.desaturate() == to2.desaturate(),
    ensures
        casts_implicitly(from1, to1) <==> casts_implicitly(from2, to2),
        casts_explicitly(from1, to1) <==> casts_explicitly(from2, to2),
{
}

/// No two entries of the table, one implicit and one explicit, compete for the
/// same pair of types.
pub proof fn lemma_table_entries_do_not_compete(from: ScalarType, to: ScalarType)
    ensures
        valid_casts(from, CastTo::Implicit(to)) is None || valid_casts(
            from,
            CastTo::Explicit(to),
        ) is None,
{
}

/// A function that stands in the table takes the type that it is listed under
/// and returns the type that it is listed for.
pub proof fn lemma_table_functions_fit(from: ScalarType, cast_to: CastTo)
    ensures
        valid_casts(from, cast_to) matches Some(CastOp::U(u)) ==> u.accepts(from)
            && u.output_type() == cast_to.scalar_type(),
{
}

/// The cast that a detour looks up on its way is no detour itself.
pub proof fn lemma_detours_end(from: ScalarType, cast_to: CastTo)
    ensures
        cast_between(from, CastTo::Explicit(ScalarType::String)) matches Some(op)
            ==> !op.is_detour(),
        cast_between(from, CastTo::Explicit(ScalarType::Float64)) matches Some(op)
            ==> !op.is_detour(),
        cast_between(ScalarType::Float64, cast_to) matches Some(op) ==> !op.is_detour(),
{
}

/// The casts that are found are fit for the expressions that they are found for,
/// but for those that would move a decimal over more digits than it has room for.
pub proof fn lemma_found_cast_applies(
    ecx: ExprContext,
    e: ScalarExpr,
    from: ScalarType,
    cast_to: CastTo,
)
    requires
        ecx.type_of(e) == Some(from),
        cast_between(from, cast_to) is Some,
    ensures
        ({
            let op = cast_between(from, cast_to)->0;
            op.applies(ecx, e, cast_to) <==> (op.rescales() ==> scales_in_reach(
                from.scale(),
                cast_to.scalar_type().scale(),
            ))
        }),
{
    lemma_detours_end(from, cast_to);
}

/// A decimal that is moved from its scale to another one has that other scale.
pub proof fn lemma_rescaled_type(ecx: ExprContext, e: ScalarExpr, s1: u8, s2: u8)
    requires
        ecx.type_of(e) matches Some(ScalarType::Decimal(_, s)) && s == s1,
    ensures
        ecx.type_of(rescaled(e, s1, s2)) matches Some(ScalarType::Decimal(_, s)) && s == s2,
        ecx.fits(e) ==> ecx.fits(rescaled(e, s1, s2)),
{
    reveal_with_fuel(ExprContext::type_of, 3);
    reveal_with_fuel(ExprContext::fits, 3);
}

/// The quotient of `a` and `b`, rounded toward zero.
pub open spec fn quotient(a: int, b: int) -> int {
    if a >= 0 {
        a / b
    } else {
        -((-a) / b)
    }
}

/// The digits, without the decimal point, of the decimal that `e` computes:
/// products and quotients of constants and of what `leaf` gives for everything
/// else.
pub open spec fn digits_of(e: ScalarExpr, leaf: spec_fn(ScalarExpr) -> int) -> int
    decreases e,
{
    match e {
        ScalarExpr::Literal(Datum::Decimal(d), _) => d as int,
        ScalarExpr::CallBinary { func: BinaryFunc::MulDecimal, expr1, expr2 } => {
            digits_of(*expr1, leaf) * digits_of(*expr2, leaf)
        },
        ScalarExpr::CallBinary { func: BinaryFunc::DivDecimal, expr1, expr2 } => {
            quotient(digits_of(*expr1, leaf), digits_of(*expr2, leaf))
        },
        _ => leaf(e),
    }
}

/// Moving a decimal to another scale adds as many zeros to its digits as it
/// gains places behind the point, or drops as many digits as it loses places.
pub proof fn lemma_rescaled_digits(
    e: ScalarExpr,
    leaf: spec_fn(ScalarExpr) -> int,
    s1: u8,
    s2: u8,
)
    requires
        scales_in_reach(s1, s2),
    ensures
        s1 <= s2 ==> digits_of(rescaled(e, s1, s2), leaf) == digits_of(e, leaf) * pow(
            10,
            (s2 - s1) as nat,
        ),
        s1 > s2 ==> digits_of(rescaled(e, s1, s2), leaf) == quotient(
            digits_of(e, leaf),
            pow(10, (s1 - s2) as nat),
        ),
{
    reveal_with_fuel(digits_of, 3);
    if s1 == s2 {
        lemma_pow0(10);
        lemma_mul_basics(digits_of(e, leaf));
    } else if s1 < s2 {
        lemma_powers_of_ten_fit((s2 - s1) as nat);
    } else {
        lemma_powers_of_ten_fit((s1 - s2) as nat);
    }
}

/// A decimal that is moved to a larger scale and back has the digits that it
/// had.
pub proof fn lemma_rescaling_up_can_be_undone(
    e: ScalarExpr,
    leaf: spec_fn(ScalarExpr) -> int,
    s1: u8,
    s2: u8,
)
    requires
        s1 <= s2,
        scales_in_reach(s1, s2),
    ensures
        digits_of(rescaled(rescaled(e, s1, s2), s2, s1), leaf) == digits_of(e, leaf),
{
    let up = rescaled(e, s1, s2);
    let n = digits_of(e, leaf);
    let p = pow(10, (s2 - s1) as nat);
    lemma_rescaled_digits(e, leaf, s1, s2);
    lemma_rescaled_digits(up, leaf, s2, s1);
    lemma_powers_of_ten_fit((s2 - s1) as nat);
    if s1 < s2 {
        if n >= 0 {
            lemma_div_multiples_vanish(n, p);
            assert(p * n == n * p && n * p >= 0) by (nonlinear_arith)
                requires
                    n >= 0,
                    p > 0,
            ;
        } else {
            lemma_div_multiples_vanish(-n, p);
            assert(p * (-n) == -(n * p) && n * p < 0) by (nonlinear_arith)
                requires
                    n < 0,
                    p > 0,
            ;
        }
    }
}

/// What a direct cast makes of an expression has the type that was asked for,
/// and calls its functions on what they are meant for.
proof fn lemma_direct_expr(ecx: ExprContext, e: ScalarExpr, from: ScalarType, cast_to: CastTo)
    requires
        ecx.type_of(e) == Some(from),
        cast_between(from, cast_to) matches Some(op) && op.applies_directly(ecx, e, cast_to),
    ensures
        ({
            let r = cast_between(from, cast_to)->0.direct_expr(ecx, e, cast_to);
            &&& ecx.type_of(r) matches Some(t) && t.agrees_with(cast_to.scalar_type())
            &&& ecx.fits(e) ==> ecx.fits(r)
        }),
{
    reveal_with_fuel(ExprContext::type_of, 4);
    reveal_with_fuel(ExprContext::fits, 4);
    let op = cast_between(from, cast_to)->0;
    let to_scale = cast_to.scalar_type().scale();
    match op {
        CastOp::F(CastFn::Int32ToDecimal) => {
            lemma_rescaled_type(
                ecx,
                e.call_unary(UnaryFunc::CastInt32ToDecimal),
                0,
                to_scale,
            );
        },
        CastOp::F(CastFn::Int64ToDecimal) => {
            lemma_rescaled_type(
                ecx,
                e.call_unary(UnaryFunc::CastInt64ToDecimal),
                0,
                to_scale,
            );
        },
        CastOp::F(CastFn::DecimalToInt32)
        | CastOp::F(CastFn::DecimalToInt64)
        | CastOp::F(CastFn::DecimalToDecimal) => {
            lemma_rescaled_type(ecx, e, from.scale(), to_scale);
        },
        _ => {},
    }
}

/// The expression that a cast generates has the type that the cast was asked
/// for, but for the precision of a decimal.
pub proof fn lemma_cast_leads_to_target(
    ecx: ExprContext,
    e: ScalarExpr,
    from: ScalarType,
    cast_to: CastTo,
)
    requires
        ecx.type_of(e) == Some(from),
        cast_between(from, cast_to) matches Some(op) && op.applies(ecx, e, cast_to),
    ensures
        ({
            let r = cast_between(from, cast_to)->0.cast_expr(ecx, e, cast_to);
            ecx.type_of(r) matches Some(t) && t.agrees_with(cast_to.scalar_type())
        }),
{
    lemma_cast_expr(ecx, e, from, cast_to);
}

/// The functions that a generated expression calls are meant for the types of
/// what they are called on, if that held of the expression before the cast.
pub proof fn lemma_cast_keeps_calls_fitting(
    ecx: ExprContext,
    e: ScalarExpr,
    from: ScalarType,
    cast_to: CastTo,
)
    requires
        ecx.type_of(e) == Some(from),
        cast_between(from, cast_to) matches Some(op) && op.applies(ecx, e, cast_to),
        ecx.fits(e),
    ensures
        ecx.fits(cast_between(from, cast_to)->0.cast_expr(ecx, e, cast_to)),
{
    lemma_cast_expr(ecx, e, from, cast_to);
}

/// What a cast makes of an expression, be it direct or a detour.
proof fn lemma_cast_expr(ecx: ExprContext, e: ScalarExpr, from: ScalarType, cast_to: CastTo)
    requires
        ecx.type_of(e) == Some(from),
        cast_between(from, cast_to) matches Some(op) && op.applies(ecx, e, cast_to),
    ensures
        ({
            let r = cast_between(from, cast_to)->0.cast_expr(ecx, e, cast_to);
            &&& ecx.type_of(r) matches Some(t) && t.agrees_with(cast_to.scalar_type())
            &&& ecx.fits(e) ==> ecx.fits(r)
        }),
{
    let op = cast_between(from, cast_to)->0;
    reveal_with_fuel(ExprContext::type_of, 2);
    reveal_with_fuel(ExprContext::fits, 2);
    match op {
        CastOp::F(CastFn::ToJsonbAnyString) => {
            lemma_direct_expr(ecx, e, from, CastTo::Explicit(ScalarType::String));
        },
        CastOp::F(CastFn::ToJsonbAnyF64) => {
            lemma_direct_expr(ecx, e, from, CastTo::Explicit(ScalarType::Float64));
        },
        CastOp::F(CastFn::FromJsonbF64) => {
            let f = e.call_unary(UnaryFunc::CastJsonbToFloat64);
            if cast_to == CastTo::Explicit(ScalarType::Float32) {
                reveal_with_fuel(ExprContext::type_of, 4);
                reveal_with_fuel(ExprContext::fits, 4);
            } else {
                lemma_direct_expr(ecx, f, ScalarType::Float64, cast_to);
            }
        },
        _ => {
            lemma_direct_expr(ecx, e, from, cast_to);
        },
    }
}

/// If there is a type that all known types can be cast to implicitly, then they
/// can all be cast implicitly to the guess, and where that type is one of them,
/// the guess is that type, but for the parameters of a decimal.
pub proof fn lemma_guess_has_no_false_negatives(types: Seq<Option<ScalarType>>, common: ScalarType)
    requires
        forall|i: int|
            0 <= i < known_types(types).len() ==> casts_implicitly(
                #[trigger] known_types(types)[i],
                common,
            ),
    ensures
        forall|i: int|
            0 <= i < known_types(types).len() ==> casts_implicitly(
                #[trigger] known_types(types)[i],
                best_common_type(known_types(types)),
            ),
        known_types(types).contains(common) ==> best_common_type(known_types(types)).desaturate()
            == common.desaturate(),
{
    let known = known_types(types);
    if known.len() > 0 {
        let k = lemma_some_most_preferred(known);
        lemma_most_preferred(known, k);
        let guess = best_common_type(known);
        assert forall|i: int| 0 <= i < known.len() implies casts_implicitly(
            #[trigger] known[i],
            guess,
        ) by {
        }
        if known.contains(common) {
            let c = choose|c: int| 0 <= c < known.len() && known[c] == common;
            assert(casts_implicitly(known[c], guess));
        }
    }
}

/// The guess is one of the known types, but for the parameters of a decimal.
pub proof fn lemma_guess_is_known(types: Seq<Option<ScalarType>>)
    requires
        known_types(types).len() > 0,
    ensures
        exists|i: int|
            0 <= i < known_types(types).len() && (#[trigger] known_types(types)[i]).desaturate()
                == best_common_type(known_types(types)).desaturate(),
{
    let known = known_types(types);
    let k = lemma_some_most_preferred(known);
    lemma_most_preferred(known, k);
    if all_equal(known) {
        assert(known[0].desaturate() == best_common_type(known).desaturate());
    } else if times_and_intervals(known) {
        let d = choose|d: int| 0 <= d < known.len() && #[trigger] known[d] != known[0];
        assert(known[0] is Interval || known[d] is Interval);
    } else {
        assert(known[k].desaturate() == best_common_type(known).desaturate());
    }
}

/// A guess that is a decimal has room for the digits behind the point of every
/// known type, and has no more of them than one of these needs.
pub proof fn lemma_guess_keeps_scales(types: Seq<Option<ScalarType>>)
    requires
        best_common_type(known_types(types)) is Decimal,
    ensures
        forall|i: int|
            0 <= i < known_types(types).len() ==> (#[trigger] known_types(types)[i]).scale()
                <= best_common_type(known_types(types)).scale(),
        exists|i: int|
            0 <= i < known_types(types).len() && (#[trigger] known_types(types)[i]).scale()
                == best_common_type(known_types(types)).scale(),
{
    let known = known_types(types);
    lemma_largest_scale(known);
    let k = lemma_some_most_preferred(known);
    lemma_most_preferred(known, k);
    if all_equal(known) {
        assert(known[0].scale() == best_common_type(known).scale());
    } else if largest_scale(known) == 0 {
        assert(known[k].scale() == best_common_type(known).scale());
    }
}

/// A member whose type is not known has no say in the guess, wherever it stands.
pub proof fn lemma_unknown_types_are_left_out(
    before: Seq<Option<ScalarType>>,
    after: Seq<Option<ScalarType>>,
)
    ensures
        known_types(before + seq![None] + after) == known_types(before + after),
    decreases after.len(),
{
    let with = before + seq![None] + after;
    let without = before + after;
    if after.len() == 0 {
        assert(with.drop_last() =~= before);
        assert(without =~= before);
    } else {
        assert(with.drop_last() =~= before + seq![None] + after.drop_last());
        assert(without.drop_last() =~= before + after.drop_last());
        lemma_unknown_types_are_left_out(before, after.drop_last());
    }
}

} // verus!
