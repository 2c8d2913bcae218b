//! What lookups find, and what the generated expressions compute.

use vstd::arithmetic::mul::lemma_mul_basics;
use vstd::arithmetic::power::{lemma_pow0, pow};
use vstd::prelude::*;

use crate::cast::{cast_between, CastFn, CastOp, CastTo};
use crate::catalog::valid_casts;
use crate::expr::{BinaryFunc, Datum, ExprContext, ScalarExpr, UnaryFunc};
use crate::laws::{
    casts_explicitly, casts_implicitly, digits_of, is_date_time, is_numeric, lemma_rescaled_digits,
    quotient,
};
use crate::rescale::{lemma_powers_of_ten_fit, rescaled};
use crate::scalar::{ColumnType, ScalarType};

verus! {

/// Two types have the same name in the table if and only if they are equal or
/// both decimals, and that name stands for itself.
pub proof fn lemma_names_in_table(t1: ScalarType, t2: ScalarType)
    ensures
        t1.desaturate() == t2.desaturate() <==> (t1 == t2 || (t1 is Decimal && t2 is Decimal)),
        t1.desaturate().desaturate() == t1.desaturate(),
        !(t1 is Decimal) ==> t1.desaturate() == t1,
        t1 is Decimal ==> t1.desaturate() == ScalarType::Decimal(0, 0),
{
}

/// A cast leads to the type that it names, be it implicit or explicit, and to
/// `Jsonb` where it names none.
pub proof fn lemma_target_types(t: ScalarType)
    ensures
        CastTo::Implicit(t).scalar_type() == t,
        CastTo::Explicit(t).scalar_type() == t,
        CastTo::JsonbAny.scalar_type() == ScalarType::Jsonb,
{
}

/// Between different types, a lookup finds what the table lists under their
/// names, and nothing else: for an implicit target the implicit entry, for an
/// explicit one the explicit entry or else the implicit one.
pub proof fn lemma_lookup_follows_table(from: ScalarType, to: ScalarType)
    ensures
        from != to ==> cast_between(from, CastTo::Implicit(to)) == valid_casts(
            from.desaturate(),
            CastTo::Implicit(to.desaturate()),
        ),
        from != to && valid_casts(from.desaturate(), CastTo::Explicit(to.desaturate())) is Some
            ==> cast_between(from, CastTo::Explicit(to)) == valid_casts(
            from.desaturate(),
            CastTo::Explicit(to.desaturate()),
        ),
        from != to && valid_casts(from.desaturate(), CastTo::Explicit(to.desaturate())) is None
            ==> cast_between(from, CastTo::Explicit(to)) == valid_casts(
            from.desaturate(),
            CastTo::Implicit(to.desaturate()),
        ),
        !(from is Jsonb) ==> cast_between(from, CastTo::JsonbAny) == valid_casts(
            from.desaturate(),
            CastTo::JsonbAny,
        ),
        from is Jsonb ==> cast_between(from, CastTo::JsonbAny) == Some(CastOp::F(CastFn::Noop)),
{
}

/// The table lists decimals without precision and scale, and only so.
pub proof fn lemma_table_lists_bare_decimals(p: u8, s: u8, t: ScalarType, cast_to: CastTo)
    requires
        p != 0 || s != 0,
    ensures
        valid_casts(ScalarType::Decimal(p, s), cast_to) is None,
        valid_casts(t, CastTo::Implicit(ScalarType::Decimal(p, s))) is None,
        valid_casts(t, CastTo::Explicit(ScalarType::Decimal(p, s))) is None,
{
}

/// Whoever casts implicitly one way among dates and timestamps, or among times
/// and intervals, casts explicitly back.
pub proof fn lemma_implicit_time_casts_lead_back(from: ScalarType, to: ScalarType)
    requires
        is_date_time(from) || from is Time || from is Interval,
        casts_implicitly(from, to),
    ensures
        casts_explicitly(to, from),
{
}

/// Among the types of numbers, every explicit cast leads to where an implicit
/// one leads too, or back from there.
pub proof fn lemma_number_casts_lead_along_implicit_casts(from: ScalarType, to: ScalarType)
    requires
        is_numeric(from),
        is_numeric(to),
        casts_explicitly(from, to),
    ensures
        casts_implicitly(from, to) || casts_implicitly(to, from),
{
}

/// What builds an expression keeps all that it was given.
pub proof fn lemma_builders_keep_their_parts(
    e: ScalarExpr,
    other: ScalarExpr,
    u: UnaryFunc,
    b: BinaryFunc,
    datum: Datum,
    t: ScalarType,
)
    ensures
        e.call_unary(u) matches ScalarExpr::CallUnary { func, expr } && func == u && *expr == e,
        e.call_binary(other, b) matches ScalarExpr::CallBinary { func, expr1, expr2 } && func == b
            && *expr1 == e && *expr2 == other,
        ScalarExpr::literal(datum, ColumnType::new(t)) matches ScalarExpr::Literal(d, typ) && d
            == datum && typ.scalar_type == t,
        <CastOp as vstd::std_specs::convert::FromSpec<UnaryFunc>>::from_spec(u) == CastOp::U(u),
{
}

/// The types of expressions: a column has its own, a constant the one that it
/// carries; a call has a type where its arguments have one, which is the
/// function's, and for decimals the one whose scale is the sum or the difference
/// of theirs, where that is a scale.
pub proof fn lemma_types_of_expressions(
    ecx: ExprContext,
    i: usize,
    datum: Datum,
    t: ScalarType,
    e1: ScalarExpr,
    e2: ScalarExpr,
    u: UnaryFunc,
)
    ensures
        ecx.type_of(ScalarExpr::Column(i)) is Some <==> i < ecx.column_types@.len(),
        i < ecx.column_types@.len() ==> ecx.type_of(ScalarExpr::Column(i)) == Some(
            ecx.column_types@[i as int].scalar_type,
        ),
        ecx.type_of(ScalarExpr::Literal(datum, ColumnType { scalar_type: t })) == Some(t),
        ecx.type_of(ScalarExpr::CallUnary { func: u, expr: Box::new(e1) }) is Some <==> ecx.type_of(
            e1,
        ) is Some,
        ecx.type_of(e1) is Some ==> ecx.type_of(
            ScalarExpr::CallUnary { func: u, expr: Box::new(e1) },
        ) == Some(u.output_type()),
        ecx.type_of(e1) matches Some(t1) ==> (ecx.type_of(e2) matches Some(t2) ==> {
            let call = |func: BinaryFunc|
                ecx.type_of(
                    ScalarExpr::CallBinary { func, expr1: Box::new(e1), expr2: Box::new(e2) },
                );
            &&& call(BinaryFunc::DivFloat32) == Some(ScalarType::Float32)
            &&& call(BinaryFunc::DivFloat64) == Some(ScalarType::Float64)
            &&& call(BinaryFunc::CastFloat32ToDecimal) == Some(t2)
            &&& call(BinaryFunc::CastFloat64ToDecimal) == Some(t2)
            &&& call(BinaryFunc::MulDecimal) is Some <==> (t1 matches ScalarType::Decimal(_, s1)
                && t2 matches ScalarType::Decimal(_, s2) && s1 + s2 <= 255)
            &&& call(BinaryFunc::DivDecimal) is Some <==> (t1 matches ScalarType::Decimal(_, s1)
                && t2 matches ScalarType::Decimal(_, s2) && s1 >= s2)
            &&& t1 matches ScalarType::Decimal(_, s1) ==> (t2 matches ScalarType::Decimal(_, s2)
                ==> {
                &&& call(BinaryFunc::MulDecimal) matches Some(r) ==> (r matches ScalarType::Decimal(
                    p,
                    s,
                ) && p == 38 && s == s1 + s2)
                &&& call(BinaryFunc::DivDecimal) matches Some(r) ==> (r matches ScalarType::Decimal(
                    p,
                    s,
                ) && p == 38 && s == s1 - s2)
            })
        }),
{
    reveal_with_fuel(ExprContext::type_of, 2);
}

/// A function that returns a decimal returns one of full precision: one that reads
/// a string has the scale that it carries, one that takes an integer has none.
pub proof fn lemma_functions_return_full_precision(u: UnaryFunc, s: u8)
    ensures
        u.output_type() matches ScalarType::Decimal(p, _) ==> p == 38,
        UnaryFunc::CastStringToDecimal(s).output_type() == ScalarType::Decimal(38, s),
        UnaryFunc::CastInt32ToDecimal.output_type() == ScalarType::Decimal(38, 0),
        UnaryFunc::CastInt64ToDecimal.output_type() == ScalarType::Decimal(38, 0),
{
}

/// Whether `factor` is the number one, written as a decimal of full precision
/// with `n` digits behind its point.
pub open spec fn is_one_with_places(factor: ScalarExpr, n: int) -> bool {
    &&& factor matches ScalarExpr::Literal(Datum::Decimal(digits), typ)
    &&& typ.scalar_type matches ScalarType::Decimal(p, s)
    &&& p == 38
    &&& s == n
    &&& n >= 0
    &&& digits == pow(10, n as nat)
}

/// Whether `r` is the decimal `e` of scale `s1`, moved to scale `s2` by one
/// product or quotient, if by any.
pub open spec fn is_moved(r: ScalarExpr, e: ScalarExpr, s1: int, s2: int) -> bool {
    &&& s1 == s2 ==> r == e
    &&& s1 < s2 ==> {
        &&& r matches ScalarExpr::CallBinary { func, expr1, expr2 }
        &&& func == BinaryFunc::MulDecimal
        &&& *expr1 == e
        &&& is_one_with_places(*expr2, s2 - s1)
    }
    &&& s1 > s2 ==> {
        &&& r matches ScalarExpr::CallBinary { func, expr1, expr2 }
        &&& func == BinaryFunc::DivDecimal
        &&& *expr1 == e
        &&& is_one_with_places(*expr2, s1 - s2)
    }
}

/// The digits that the digits `n` of a decimal become when it is moved from scale
/// `s1` to scale `s2`.
pub open spec fn moved_digits(n: int, s1: int, s2: int) -> int {
    if s1 <= s2 {
        n * pow(10, (s2 - s1) as nat)
    } else {
        quotient(n, pow(10, (s1 - s2) as nat))
    }
}

/// A rescaling is one product or quotient with a one of as many places as the
/// scales lie apart, or nothing where they are equal; it multiplies or divides
/// the digits by that power of ten.
pub proof fn lemma_rescaling_moves(
    e: ScalarExpr,
    leaf: spec_fn(ScalarExpr) -> int,
    s1: u8,
    s2: u8,
)
    requires
        -38 <= s1 - s2 <= 38,
    ensures
        is_moved(rescaled(e, s1, s2), e, s1 as int, s2 as int),
        digits_of(rescaled(e, s1, s2), leaf) == moved_digits(
            digits_of(e, leaf),
            s1 as int,
            s2 as int,
        ),
{
    lemma_rescaled_digits(e, leaf, s1, s2);
    if s1 < s2 {
        lemma_powers_of_ten_fit((s2 - s1) as nat);
    } else if s1 > s2 {
        lemma_powers_of_ten_fit((s1 - s2) as nat);
    }
}

/// A cast that names a function calls that function on the expression, whatever
/// the target, and no other; one that does nothing returns the expression.
pub proof fn lemma_named_function_is_called(
    ecx: ExprContext,
    e: ScalarExpr,
    cast_to: CastTo,
    u: UnaryFunc,
)
    ensures
        CastOp::U(u).applies(ecx, e, cast_to),
        CastOp::U(u).cast_expr(ecx, e, cast_to) matches ScalarExpr::CallUnary { func, expr }
            && func == u && *expr == e,
        CastOp::F(CastFn::Noop).applies(ecx, e, cast_to),
        CastOp::F(CastFn::Noop).cast_expr(ecx, e, cast_to) == e,
{
}

/// An integer that is cast to a decimal of scale `s` is made a decimal without
/// places, and then its digits are multiplied by ten to the power of `s`.
pub proof fn lemma_integer_to_decimal(
    ecx: ExprContext,
    e: ScalarExpr,
    leaf: spec_fn(ScalarExpr) -> int,
    cast_to: CastTo,
    p: u8,
    s: u8,
)
    requires
        cast_to == CastTo::Implicit(ScalarType::Decimal(p, s)) || cast_to == CastTo::Explicit(
            ScalarType::Decimal(p, s),
        ),
        s <= 38,
    ensures
        ({
            let op = CastOp::F(CastFn::Int32ToDecimal);
            let whole = ScalarExpr::CallUnary {
                func: UnaryFunc::CastInt32ToDecimal,
                expr: Box::new(e),
            };
            let r = op.cast_expr(ecx, e, cast_to);
            &&& op.applies(ecx, e, cast_to)
            &&& is_moved(r, whole, 0, s as int)
            &&& digits_of(r, leaf) == leaf(whole) * pow(10, s as nat)
        }),
        ({
            let op = CastOp::F(CastFn::Int64ToDecimal);
            let whole = ScalarExpr::CallUnary {
                func: UnaryFunc::CastInt64ToDecimal,
                expr: Box::new(e),
            };
            let r = op.cast_expr(ecx, e, cast_to);
            &&& op.applies(ecx, e, cast_to)
            &&& is_moved(r, whole, 0, s as int)
            &&& digits_of(r, leaf) == leaf(whole) * pow(10, s as nat)
        }),
{
    lemma_rescaling_moves(e.call_unary(UnaryFunc::CastInt32ToDecimal), leaf, 0, s);
    lemma_rescaling_moves(e.call_unary(UnaryFunc::CastInt64ToDecimal), leaf, 0, s);
}

/// Whether `r` calls `u` on the decimal `e` of scale `s` without its places: its
/// digits divided by ten to the power of `s`, rounded toward zero.
pub open spec fn calls_on_whole_part(
    r: ScalarExpr,
    u: UnaryFunc,
    e: ScalarExpr,
    leaf: spec_fn(ScalarExpr) -> int,
    s: int,
) -> bool {
    &&& r matches ScalarExpr::CallUnary { func, expr }
    &&& func == u
    &&& is_moved(*expr, e, s, 0)
    &&& digits_of(*expr, leaf) == quotient(digits_of(e, leaf), pow(10, s as nat))
}

/// A decimal that is cast to an integer loses all its places, and no other
/// digits.
pub proof fn lemma_decimal_to_integer(
    ecx: ExprContext,
    e: ScalarExpr,
    leaf: spec_fn(ScalarExpr) -> int,
    cast_to: CastTo,
    p: u8,
    s: u8,
)
    requires
        ecx.type_of(e) == Some(ScalarType::Decimal(p, s)),
        s <= 38,
    ensures
        CastOp::F(CastFn::DecimalToInt32).applies(ecx, e, cast_to),
        CastOp::F(CastFn::DecimalToInt64).applies(ecx, e, cast_to),
        calls_on_whole_part(
            CastOp::F(CastFn::DecimalToInt32).cast_expr(ecx, e, cast_to),
            UnaryFunc::CastDecimalToInt32,
            e,
            leaf,
            s as int,
        ),
        calls_on_whole_part(
            CastOp::F(CastFn::DecimalToInt64).cast_expr(ecx, e, cast_to),
            UnaryFunc::CastDecimalToInt64,
            e,
            leaf,
            s as int,
        ),
{
    lemma_rescaling_moves(e, leaf, s, 0);
    if s == 0 {
        lemma_pow0(10);
        lemma_mul_basics(digits_of(e, leaf));
    }
}

/// A decimal that is cast to a decimal of another scale is moved from the scale
/// of its type to that of the target.
pub proof fn lemma_decimal_to_decimal(
    ecx: ExprContext,
    e: ScalarExpr,
    leaf: spec_fn(ScalarExpr) -> int,
    cast_to: CastTo,
    p1: u8,
    s1: u8,
    p2: u8,
    s2: u8,
)
    requires
        ecx.type_of(e) == Some(ScalarType::Decimal(p1, s1)),
        cast_to == CastTo::Implicit(ScalarType::Decimal(p2, s2)) || cast_to == CastTo::Explicit(
            ScalarType::Decimal(p2, s2),
        ),
        -38 <= s1 - s2 <= 38,
    ensures
        ({
            let op = CastOp::F(CastFn::DecimalToDecimal);
            let r = op.cast_expr(ecx, e, cast_to);
            &&& op.applies(ecx, e, cast_to)
            &&& is_moved(r, e, s1 as int, s2 as int)
            &&& digits_of(r, leaf) == moved_digits(digits_of(e, leaf), s1 as int, s2 as int)
        }),
{
    lemma_rescaling_moves(e, leaf, s1, s2);
}

/// The number that `e` computes, as a numerator and a denominator: quotients of
/// powers of ten, of the digits of decimals, and of what `leaf` gives for
/// everything else.
pub open spec fn fraction_of(e: ScalarExpr, leaf: spec_fn(ScalarExpr) -> int) -> (int, int)
    decreases e,
{
    match e {
        ScalarExpr::Literal(Datum::Float32PowerOfTen(n), _) => (pow(10, n as nat), 1),
        ScalarExpr::Literal(Datum::Float64PowerOfTen(n), _) => (pow(10, n as nat), 1),
        ScalarExpr::CallUnary { func: UnaryFunc::CastSignificandToFloat32, expr } => {
            (digits_of(*expr, leaf), 1)
        },
        ScalarExpr::CallUnary { func: UnaryFunc::CastSignificandToFloat64, expr } => {
            (digits_of(*expr, leaf), 1)
        },
        ScalarExpr::CallBinary { func, expr1, expr2 } => {
            let (n1, d1) = fraction_of(*expr1, leaf);
            let (n2, d2) = fraction_of(*expr2, leaf);
            if func == BinaryFunc::DivFloat32 || func == BinaryFunc::DivFloat64 {
                (n1 * d2, d1 * n2)
            } else {
                (leaf(e), 1)
            }
        },
        _ => (leaf(e), 1),
    }
}

/// A decimal that is cast to a float becomes the quotient of its digits and ten
/// to the power of its scale, in the precision of the target.
pub proof fn lemma_decimal_to_float(
    ecx: ExprContext,
    e: ScalarExpr,
    leaf: spec_fn(ScalarExpr) -> int,
    cast_to: CastTo,
    p: u8,
    s: u8,
)
    requires
        ecx.type_of(e) == Some(ScalarType::Decimal(p, s)),
    ensures
        ({
            let op = CastOp::F(CastFn::DecimalToFloat32);
            let r = op.cast_expr(ecx, e, cast_to);
            &&& op.applies(ecx, e, cast_to)
            &&& fraction_of(r, leaf) == (digits_of(e, leaf), pow(10, s as nat))
            &&& r matches ScalarExpr::CallBinary { func, expr1, expr2 }
            &&& func == BinaryFunc::DivFloat32
            &&& *expr1 matches ScalarExpr::CallUnary { func: u, expr }
            &&& u == UnaryFunc::CastSignificandToFloat32
            &&& *expr == e
            &&& *expr2 matches ScalarExpr::Literal(Datum::Float32PowerOfTen(n), typ)
            &&& n == s
            &&& typ.scalar_type is Float32
        }),
        ({
            let op = CastOp::F(CastFn::DecimalToFloat64);
            let r = op.cast_expr(ecx, e, cast_to);
            &&& op.applies(ecx, e, cast_to)
            &&& fraction_of(r, leaf) == (digits_of(e, leaf), pow(10, s as nat))
            &&& r matches ScalarExpr::CallBinary { func, expr1, expr2 }
            &&& func == BinaryFunc::DivFloat64
            &&& *expr1 matches ScalarExpr::CallUnary { func: u, expr }
            &&& u == UnaryFunc::CastSignificandToFloat64
            &&& *expr == e
            &&& *expr2 matches ScalarExpr::Literal(Datum::Float64PowerOfTen(n), typ)
            &&& n == s
            &&& typ.scalar_type is Float32
        }),
{
    reveal_with_fuel(fraction_of, 3);
    lemma_mul_basics(digits_of(e, leaf));
    lemma_mul_basics(pow(10, s as nat));
}

/// A float that is cast to a decimal is rounded to the scale of the target, which
/// a constant of the target's type holds.
pub proof fn lemma_float_to_decimal(
    ecx: ExprContext,
    e: ScalarExpr,
    cast_to: CastTo,
    p: u8,
    s: u8,
)
    requires
        cast_to == CastTo::Implicit(ScalarType::Decimal(p, s)) || cast_to == CastTo::Explicit(
            ScalarType::Decimal(p, s),
        ),
    ensures
        ({
            let op = CastOp::F(CastFn::Float32ToDecimal);
            &&& op.applies(ecx, e, cast_to)
            &&& op.cast_expr(ecx, e, cast_to) matches ScalarExpr::CallBinary { func, expr1, expr2 }
            &&& func == BinaryFunc::CastFloat32ToDecimal
            &&& *expr1 == e
            &&& *expr2 matches ScalarExpr::Literal(Datum::Int32(n), typ)
            &&& n == s
            &&& typ.scalar_type == ScalarType::Decimal(p, s)
        }),
        ({
            let op = CastOp::F(CastFn::Float64ToDecimal);
            &&& op.applies(ecx, e, cast_to)
            &&& op.cast_expr(ecx, e, cast_to) matches ScalarExpr::CallBinary { func, expr1, expr2 }
            &&& func == BinaryFunc::CastFloat64ToDecimal
            &&& *expr1 == e
            &&& *expr2 matches ScalarExpr::Literal(Datum::Int32(n), typ)
            &&& n == s
            &&& typ.scalar_type == ScalarType::Decimal(p, s)
        }),
{
}

/// A decimal is written out with the scale of its type.
pub proof fn lemma_decimal_to_string(
    ecx: ExprContext,
    e: ScalarExpr,
    cast_to: CastTo,
    p: u8,
    s: u8,
)
    requires
        ecx.type_of(e) == Some(ScalarType::Decimal(p, s)),
    ensures
        ({
            let op = CastOp::F(CastFn::DecimalToString);
            &&& op.applies(ecx, e, cast_to)
            &&& op.cast_expr(ecx, e, cast_to) matches ScalarExpr::CallUnary { func, expr }
            &&& func == UnaryFunc::CastDecimalToString(s)
            &&& *expr == e
        }),
{
}

/// A string is read as a decimal of the scale of the target.
pub proof fn lemma_string_to_decimal(
    ecx: ExprContext,
    e: ScalarExpr,
    cast_to: CastTo,
    p: u8,
    s: u8,
)
    requires
        cast_to == CastTo::Implicit(ScalarType::Decimal(p, s)) || cast_to == CastTo::Explicit(
            ScalarType::Decimal(p, s),
        ),
    ensures
        ({
            let op = CastOp::F(CastFn::StringToDecimal);
            &&& op.applies(ecx, e, cast_to)
            &&& op.cast_expr(ecx, e, cast_to) matches ScalarExpr::CallUnary { func, expr }
            &&& func == UnaryFunc::CastStringToDecimal(s)
            &&& *expr == e
        }),
{
}

/// The expression that casts `e` of type `from` to `cast_to` by the cast that a
/// lookup finds.
pub open spec fn cast_of(
    ecx: ExprContext,
    e: ScalarExpr,
    from: ScalarType,
    cast_to: CastTo,
) -> ScalarExpr {
    cast_between(from, cast_to)->0.cast_expr(ecx, e, cast_to)
}

/// Whether `r` makes a JSONB element of `e`, which it does not read as JSON text.
pub open spec fn is_element_of(r: ScalarExpr, e: ScalarExpr) -> bool {
    &&& r matches ScalarExpr::CallUnary { func, expr }
    &&& func == UnaryFunc::CastJsonbOrNullToJsonb
    &&& *expr == e
}

/// A detour to JSONB, of whatever expression, is two casts in a row: the explicit
/// cast to the type on the way, and that type's own cast to a JSONB element.
pub proof fn lemma_jsonb_detours_are_two_casts(
    ecx: ExprContext,
    e: ScalarExpr,
    cast_to: CastTo,
    from: ScalarType,
)
    requires
        ecx.type_of(e) == Some(from),
    ensures
        CastOp::F(CastFn::ToJsonbAnyString).applies(ecx, e, cast_to),
        ({
            let text = cast_of(ecx, e, from, CastTo::Explicit(ScalarType::String));
            let r = CastOp::F(CastFn::ToJsonbAnyString).cast_expr(ecx, e, cast_to);
            &&& is_element_of(r, text)
            &&& r == cast_of(ecx, text, ScalarType::String, CastTo::JsonbAny)
        }),
        CastOp::F(CastFn::ToJsonbAnyF64).applies(ecx, e, cast_to) <==> casts_explicitly(
            from,
            ScalarType::Float64,
        ),
        casts_explicitly(from, ScalarType::Float64) ==> {
            let float = cast_of(ecx, e, from, CastTo::Explicit(ScalarType::Float64));
            let r = CastOp::F(CastFn::ToJsonbAnyF64).cast_expr(ecx, e, cast_to);
            &&& is_element_of(r, float)
            &&& r == cast_of(ecx, float, ScalarType::Float64, CastTo::JsonbAny)
        },
{
}

/// Every value but JSONB itself becomes a JSONB element, as the last thing that
/// is done to it: booleans, `Float64` and strings as they are, other numbers by
/// way of `Float64`, and all other values by way of their text.
pub proof fn lemma_values_become_jsonb_elements(ecx: ExprContext, e: ScalarExpr, from: ScalarType)
    requires
        ecx.type_of(e) == Some(from),
    ensures
        cast_between(from, CastTo::JsonbAny) matches Some(op) && op.applies(
            ecx,
            e,
            CastTo::JsonbAny,
        ),
        ({
            let r = cast_of(ecx, e, from, CastTo::JsonbAny);
            if from is Jsonb {
                r == e
            } else if from is Bool || from is Float64 || from is String {
                is_element_of(r, e)
            } else if is_numeric(from) {
                is_element_of(r, cast_of(ecx, e, from, CastTo::Explicit(ScalarType::Float64)))
            } else {
                is_element_of(r, cast_of(ecx, e, from, CastTo::Explicit(ScalarType::String)))
            }
        }),
{
}

/// JSONB is cast to other numbers by two casts in a row: to `Float64`, and from
/// there to the target; to `Float32` by way of the text of the `Float64`.
pub proof fn lemma_jsonb_numbers_are_cast_through_float64(
    ecx: ExprContext,
    e: ScalarExpr,
    cast_to: CastTo,
)
    ensures
        ({
            let op = CastOp::F(CastFn::FromJsonbF64);
            let float = cast_of(
                ecx,
                e,
                ScalarType::Jsonb,
                CastTo::Explicit(ScalarType::Float64),
            );
            let text = cast_of(
                ecx,
                float,
                ScalarType::Float64,
                CastTo::Explicit(ScalarType::String),
            );
            let to_float32 = CastTo::Explicit(ScalarType::Float32);
            &&& float matches ScalarExpr::CallUnary { func, expr }
            &&& func == UnaryFunc::CastJsonbToFloat64
            &&& *expr == e
            &&& cast_to != to_float32 ==> (op.applies(ecx, e, cast_to) <==> (cast_between(
                ScalarType::Float64,
                cast_to,
            ) matches Some(next) && next.applies(ecx, float, cast_to)))
            &&& cast_to != to_float32 && op.applies(ecx, e, cast_to) ==> op.cast_expr(
                ecx,
                e,
                cast_to,
            ) == cast_of(ecx, float, ScalarType::Float64, cast_to)
            &&& op.applies(ecx, e, to_float32)
            &&& op.cast_expr(ecx, e, to_float32) == cast_of(
                ecx,
                text,
                ScalarType::String,
                to_float32,
            )
        }),
{
}

/// Whether the scale of a type, if it is a decimal, is one that decimals have.
pub open spec fn has_valid_scale(t: ScalarType) -> bool {
    t matches ScalarType::Decimal(_, s) ==> s <= 38
}

/// Between types whose scales decimals have, every cast that is found can be
/// used.
pub proof fn lemma_found_cast_can_be_used(
    ecx: ExprContext,
    e: ScalarExpr,
    from: ScalarType,
    to: ScalarType,
)
    requires
        ecx.type_of(e) == Some(from),
        has_valid_scale(from),
        has_valid_scale(to),
    ensures
        cast_between(from, CastTo::Implicit(to)) matches Some(op) ==> op.applies(
            ecx,
            e,
            CastTo::Implicit(to),
        ),
        cast_between(from, CastTo::Explicit(to)) matches Some(op) ==> op.applies(
            ecx,
            e,
            CastTo::Explicit(to),
        ),
        cast_between(from, CastTo::JsonbAny) matches Some(op) ==> op.applies(
            ecx,
            e,
            CastTo::JsonbAny,
        ),
{
}

} // verus!
