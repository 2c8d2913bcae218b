//! Lookup of a cast and generation of its expression.

use vstd::prelude::*;

use crate::catalog::{valid_cast, valid_casts};
use crate::expr::{BinaryFunc, Datum, ExprContext, ScalarExpr, UnaryFunc};
use crate::rescale::{rescale_decimal, rescaled, scales_in_reach};
use crate::scalar::{ColumnType, ScalarType};

verus! {

/// Describes the context of the cast, the target type.
#[derive(Debug, Clone, Copy, PartialEq, Eq, Hash, Structural)]
pub enum CastTo {
    /// Only allow implicit casts. Typically these are lossless casts, such as
    /// `ScalarType::Int32` to `ScalarType::Int64`.
    Implicit(ScalarType),
    /// Allow either explicit or implicit casts.
    Explicit(ScalarType),
    /// Cast the source to a JSONB element directly, or cast to a compatible
    /// intermediary type (`ScalarType::String`, `ScalarType::Float64`) and then
    /// to a JSONB element.
    JsonbAny,
}

impl CastTo {
    /// The type that the cast leads to.
    pub open spec fn spec_scalar_type(&self) -> ScalarType {
        match *self {
            CastTo::Implicit(t) => t,
            CastTo::Explicit(t) => t,
            CastTo::JsonbAny => ScalarType::Jsonb,
        }
    }

    /// Returns the type that the cast leads to.
    #[verifier::when_used_as_spec(spec_scalar_type)]
    pub fn scalar_type(&self) -> (t: ScalarType)
        ensures
            t == self.spec_scalar_type(),
            *self == CastTo::Implicit(t) || *self == CastTo::Explicit(t) || (*self
                == CastTo::JsonbAny && t == ScalarType::Jsonb),
    {
        match self {
            CastTo::Implicit(t) | CastTo::Explicit(t) => *t,
            CastTo::JsonbAny => ScalarType::Jsonb,
        }
    }
}

/// The casts that take more than the call of one function.
#[derive(Clone, Copy, PartialEq, Eq, Hash, Structural)]
pub enum CastFn {
    /// Leaves the expression as it is.
    Noop,
    /// Casts to `String`, and then to `Jsonb`.
    ToJsonbAnyString,
    /// Casts to `Float64`, and then to `Jsonb`.
    ToJsonbAnyF64,
    /// Casts from `Jsonb` to `Float64`, and then to the target; to `Float32` by
    /// way of `String`, since no function leads there directly.
    FromJsonbF64,
    Int32ToDecimal,
    Int64ToDecimal,
    Float32ToDecimal,
    Float64ToDecimal,
    DecimalToInt32,
    DecimalToInt64,
    DecimalToFloat32,
    DecimalToFloat64,
    DecimalToDecimal,
    DecimalToString,
    StringToDecimal,
}

/// Describes methods of planning a conversion between [`ScalarType`]s, which
/// can be invoked with [`CastOp::gen_expr`].
#[derive(Clone, Copy, PartialEq, Eq, Hash, Structural)]
pub enum CastOp {
    /// A call of this function.
    U(UnaryFunc),
    /// A plan of its own.
    F(CastFn),
}

impl From<UnaryFunc> for CastOp {
    fn from(u: UnaryFunc) -> (op: CastOp) {
        CastOp::U(u)
    }
}

impl vstd::std_specs::convert::FromSpecImpl<UnaryFunc> for CastOp {
    open spec fn obeys_from_spec() -> bool {
        true
    }

    open spec fn from_spec(u: UnaryFunc) -> CastOp {
        CastOp::U(u)
    }
}

/// The cast from one type to another, if there is one: nothing to do where the
/// types are equal; else the table's entry, in which an explicit target falls
/// back on an implicit one.
pub open spec fn cast_between(from: ScalarType, cast_to: CastTo) -> Option<CastOp> {
    if from == cast_to.scalar_type() {
        Some(CastOp::F(CastFn::Noop))
    } else {
        match cast_to {
            CastTo::Implicit(t) => {
                valid_casts(from.desaturate(), CastTo::Implicit(t.desaturate()))
            },
            CastTo::Explicit(t) => match valid_casts(
                from.desaturate(),
                CastTo::Explicit(t.desaturate()),
            ) {
                Some(op) => Some(op),
                None => valid_casts(from.desaturate(), CastTo::Implicit(t.desaturate())),
            },
            CastTo::JsonbAny => valid_casts(from.desaturate(), CastTo::JsonbAny),
        }
    }
}

/// Get a cast, if one exists, from a [`ScalarType`] to another, with control
/// over allowing implicit or explicit casts using [`CastTo`].
///
/// Use the returned [`CastOp`] with [`CastOp::gen_expr`].
pub fn get_cast<'a>(from: &ScalarType, cast_to: &CastTo) -> (op: Option<&'a CastOp>)
    ensures
        match op {
            Some(op) => cast_between(*from, *cast_to) == Some(*op),
            None => cast_between(*from, *cast_to) is None,
        },
{
    if *from == cast_to.scalar_type() {
        return Some(&CastOp::F(CastFn::Noop));
    }
    let cast_to = match cast_to {
        CastTo::Implicit(t) => CastTo::Implicit(t.desaturate()),
        CastTo::Explicit(t) => CastTo::Explicit(t.desaturate()),
        CastTo::JsonbAny => CastTo::JsonbAny,
    };
    let cast = valid_cast(from.desaturate(), cast_to);
    match (cast, cast_to) {
        // If no explicit implementation, look for an implicit one.
        (None, CastTo::Explicit(t)) => valid_cast(from.desaturate(), CastTo::Implicit(t)),
        (c, _) => c,
    }
}

impl CastOp {
    /// Whether the cast goes through another cast.
    pub open spec fn is_detour(self) -> bool {
        ||| self == CastOp::F(CastFn::ToJsonbAnyString)
        ||| self == CastOp::F(CastFn::ToJsonbAnyF64)
        ||| self == CastOp::F(CastFn::FromJsonbF64)
    }

    /// Whether the cast moves a decimal from one scale to another.
    pub open spec fn rescales(self) -> bool {
        ||| self == CastOp::F(CastFn::Int32ToDecimal)
        ||| self == CastOp::F(CastFn::Int64ToDecimal)
        ||| self == CastOp::F(CastFn::DecimalToInt32)
        ||| self == CastOp::F(CastFn::DecimalToInt64)
        ||| self == CastOp::F(CastFn::DecimalToDecimal)
    }

    /// How many casts the cast goes through.
    pub open spec fn detours(self) -> nat {
        if self.is_detour() {
            1
        } else {
            0
        }
    }

    /// Whether a cast that is no detour is fit for casting `e` to `cast_to`:
    /// decimals stand where the plan reads a scale, and their scales lie near
    /// enough.
    pub open spec fn applies_directly(
        self,
        ecx: ExprContext,
        e: ScalarExpr,
        cast_to: CastTo,
    ) -> bool {
        match self {
            CastOp::U(_) => true,
            CastOp::F(CastFn::Noop) => true,
            CastOp::F(CastFn::Int32ToDecimal) | CastOp::F(CastFn::Int64ToDecimal) => {
                cast_to.scalar_type() matches ScalarType::Decimal(_, s) && scales_in_reach(0, s)
            },
            CastOp::F(CastFn::Float32ToDecimal)
            | CastOp::F(CastFn::Float64ToDecimal)
            | CastOp::F(CastFn::StringToDecimal) => cast_to.scalar_type() is Decimal,
            CastOp::F(CastFn::DecimalToInt32) | CastOp::F(CastFn::DecimalToInt64) => {
                ecx.type_of(e) matches Some(ScalarType::Decimal(_, s)) && scales_in_reach(s, 0)
            },
            CastOp::F(CastFn::DecimalToFloat32)
            | CastOp::F(CastFn::DecimalToFloat64)
            | CastOp::F(CastFn::DecimalToString) => {
                ecx.type_of(e) matches Some(ScalarType::Decimal(_, _))
            },
            CastOp::F(CastFn::DecimalToDecimal) => {
                &&& ecx.type_of(e) matches Some(ScalarType::Decimal(_, f))
                &&& cast_to.scalar_type() matches ScalarType::Decimal(_, t)
                &&& scales_in_reach(f, t)
            },
            CastOp::F(CastFn::ToJsonbAnyString)
            | CastOp::F(CastFn::ToJsonbAnyF64)
            | CastOp::F(CastFn::FromJsonbF64) => false,
        }
    }

    /// Whether the cast is fit for casting `e` to `cast_to`: a detour is where
    /// the cast that it goes through exists and is fit. From `Float64` on to
    /// `Float32` there always is a way.
    pub open spec fn applies(self, ecx: ExprContext, e: ScalarExpr, cast_to: CastTo) -> bool {
        match self {
            CastOp::F(CastFn::ToJsonbAnyString) => applies_through(ecx, e, ScalarType::String),
            CastOp::F(CastFn::ToJsonbAnyF64) => applies_through(ecx, e, ScalarType::Float64),
            CastOp::F(CastFn::FromJsonbF64) => {
                ||| cast_to == CastTo::Explicit(ScalarType::Float32)
                ||| {
                    &&& cast_between(ScalarType::Float64, cast_to) matches Some(op)
                    &&& op.applies_directly(
                        ecx,
                        e.call_unary(UnaryFunc::CastJsonbToFloat64),
                        cast_to,
                    )
                }
            },
            _ => self.applies_directly(ecx, e, cast_to),
        }
    }

    /// The expression that a cast which is no detour makes of `e`.
    pub open spec fn direct_expr(
        self,
        ecx: ExprContext,
        e: ScalarExpr,
        cast_to: CastTo,
    ) -> ScalarExpr
        recommends
            self.applies_directly(ecx, e, cast_to),
    {
        let from_scale = ecx.type_of(e)->0.scale();
        let to = cast_to.scalar_type();
        match self {
            CastOp::U(u) => e.call_unary(u),
            CastOp::F(CastFn::Noop) => e,
            CastOp::F(CastFn::Int32ToDecimal) => {
                rescaled(e.call_unary(UnaryFunc::CastInt32ToDecimal), 0, to.scale())
            },
            CastOp::F(CastFn::Int64ToDecimal) => {
                rescaled(e.call_unary(UnaryFunc::CastInt64ToDecimal), 0, to.scale())
            },
            CastOp::F(CastFn::Float32ToDecimal) => {
                e.call_binary(scale_of(to), BinaryFunc::CastFloat32ToDecimal)
            },
            CastOp::F(CastFn::Float64ToDecimal) => {
                e.call_binary(scale_of(to), BinaryFunc::CastFloat64ToDecimal)
            },
            CastOp::F(CastFn::DecimalToInt32) => {
                rescaled(e, from_scale, 0).call_unary(UnaryFunc::CastDecimalToInt32)
            },
            CastOp::F(CastFn::DecimalToInt64) => {
                rescaled(e, from_scale, 0).call_unary(UnaryFunc::CastDecimalToInt64)
            },
            CastOp::F(CastFn::DecimalToFloat32) => {
                e.call_unary(UnaryFunc::CastSignificandToFloat32).call_binary(
                    ScalarExpr::literal(
                        Datum::Float32PowerOfTen(from_scale as i32),
                        ColumnType::new(ScalarType::Float32),
                    ),
                    BinaryFunc::DivFloat32,
                )
            },
            CastOp::F(CastFn::DecimalToFloat64) => {
                e.call_unary(UnaryFunc::CastSignificandToFloat64).call_binary(
                    ScalarExpr::literal(
                        Datum::Float64PowerOfTen(from_scale as i32),
                        ColumnType::new(ScalarType::Float32),
                    ),
                    BinaryFunc::DivFloat64,
                )
            },
            CastOp::F(CastFn::DecimalToDecimal) => rescaled(e, from_scale, to.scale()),
            CastOp::F(CastFn::DecimalToString) => {
                e.call_unary(UnaryFunc::CastDecimalToString(from_scale))
            },
            CastOp::F(CastFn::StringToDecimal) => {
                e.call_unary(UnaryFunc::CastStringToDecimal(to.scale()))
            },
            CastOp::F(CastFn::ToJsonbAnyString)
            | CastOp::F(CastFn::ToJsonbAnyF64)
            | CastOp::F(CastFn::FromJsonbF64) => arbitrary(),
        }
    }

    /// The expression that the cast makes of `e`.
    pub open spec fn cast_expr(
        self,
        ecx: ExprContext,
        e: ScalarExpr,
        cast_to: CastTo,
    ) -> ScalarExpr
        recommends
            self.applies(ecx, e, cast_to),
    {
        match self {
            CastOp::F(CastFn::ToJsonbAnyString) => expr_through(ecx, e, ScalarType::String),
            CastOp::F(CastFn::ToJsonbAnyF64) => expr_through(ecx, e, ScalarType::Float64),
            CastOp::F(CastFn::FromJsonbF64) => {
                let float64 = e.call_unary(UnaryFunc::CastJsonbToFloat64);
                if cast_to == CastTo::Explicit(ScalarType::Float32) {
                    float64_to_float32(float64)
                } else {
                    cast_between(ScalarType::Float64, cast_to)->0.direct_expr(
                        ecx,
                        float64,
                        cast_to,
                    )
                }
            },
            _ => self.direct_expr(ecx, e, cast_to),
        }
    }

    /// Generates the [`ScalarExpr`] to cast between [`ScalarType`]s.
    ///
    /// A cast that [`get_cast`] found for the type of `e` can be used, unless it
    /// moves a decimal over more digits than a decimal has room for
    /// (`lemma_found_cast_applies`).
    pub fn gen_expr(&self, ecx: &ExprContext, e: ScalarExpr, cast_to: CastTo) -> (r: ScalarExpr)
        requires
            self.applies(*ecx, e, cast_to),
        ensures
            r == self.cast_expr(*ecx, e, cast_to),
        decreases self.detours(), 1nat,
    {
        match self {
            CastOp::U(u) => e.call_unary(*u),
            CastOp::F(CastFn::Noop) => noop_cast(ecx, e, cast_to),
            CastOp::F(CastFn::ToJsonbAnyString) => to_jsonb_any_string_cast(ecx, e, cast_to),
            CastOp::F(CastFn::ToJsonbAnyF64) => to_jsonb_any_f64_cast(ecx, e, cast_to),
            CastOp::F(CastFn::FromJsonbF64) => from_jsonb_f64_cast(ecx, e, cast_to),
            CastOp::F(CastFn::Int32ToDecimal) => {
                let (_, s) = cast_to.scalar_type().unwrap_decimal_parts();
                rescale_decimal(e.call_unary(UnaryFunc::CastInt32ToDecimal), 0, s)
            },
            CastOp::F(CastFn::Int64ToDecimal) => {
                let (_, s) = cast_to.scalar_type().unwrap_decimal_parts();
                rescale_decimal(e.call_unary(UnaryFunc::CastInt64ToDecimal), 0, s)
            },
            CastOp::F(CastFn::Float32ToDecimal) => {
                let (_, s) = cast_to.scalar_type().unwrap_decimal_parts();
                let typ = ColumnType::new(cast_to.scalar_type());
                let s = ScalarExpr::literal(Datum::Int32(s as i32), typ);
                e.call_binary(s, BinaryFunc::CastFloat32ToDecimal)
            },
            CastOp::F(CastFn::Float64ToDecimal) => {
                let (_, s) = cast_to.scalar_type().unwrap_decimal_parts();
                let typ = ColumnType::new(cast_to.scalar_type());
                let s = ScalarExpr::literal(Datum::Int32(s as i32), typ);
                e.call_binary(s, BinaryFunc::CastFloat64ToDecimal)
            },
            CastOp::F(CastFn::DecimalToInt32) => {
                let (_, s) = ecx.scalar_type(&e).unwrap_decimal_parts();
                rescale_decimal(e, s, 0).call_unary(UnaryFunc::CastDecimalToInt32)
            },
            CastOp::F(CastFn::DecimalToInt64) => {
                let (_, s) = ecx.scalar_type(&e).unwrap_decimal_parts();
                rescale_decimal(e, s, 0).call_unary(UnaryFunc::CastDecimalToInt64)
            },
            CastOp::F(CastFn::DecimalToFloat32) => {
                let (_, s) = ecx.scalar_type(&e).unwrap_decimal_parts();
                let factor = Datum::Float32PowerOfTen(s as i32);
                let factor = ScalarExpr::literal(factor, ColumnType::new(ScalarType::Float32));
                e.call_unary(UnaryFunc::CastSignificandToFloat32).call_binary(
                    factor,
                    BinaryFunc::DivFloat32,
                )
            },
            CastOp::F(CastFn::DecimalToFloat64) => {
                let (_, s) = ecx.scalar_type(&e).unwrap_decimal_parts();
                let factor = Datum::Float64PowerOfTen(s as i32);
                let factor = ScalarExpr::literal(factor, ColumnType::new(ScalarType::Float32));
                e.call_unary(UnaryFunc::CastSignificandToFloat64).call_binary(
                    factor,
                    BinaryFunc::DivFloat64,
                )
            },
            CastOp::F(CastFn::DecimalToDecimal) => {
                let (_, f) = ecx.scalar_type(&e).unwrap_decimal_parts();
                let (_, t) = cast_to.scalar_type().unwrap_decimal_parts();
                rescale_decimal(e, f, t)
            },
            CastOp::F(CastFn::DecimalToString) => {
                let (_, s) = ecx.scalar_type(&e).unwrap_decimal_parts();
                e.call_unary(UnaryFunc::CastDecimalToString(s))
            },
            CastOp::F(CastFn::StringToDecimal) => {
                let (_, s) = cast_to.scalar_type().unwrap_decimal_parts();
                e.call_unary(UnaryFunc::CastStringToDecimal(s))
            },
        }
    }
}

/// The scale of the decimal type `to`, as a constant that carries that type.
pub open spec fn scale_of(to: ScalarType) -> ScalarExpr {
    ScalarExpr::literal(Datum::Int32(to.scale() as i32), ColumnType::new(to))
}

/// Whether `e` can be cast to `Jsonb` by way of the type `via`.
pub open spec fn applies_through(ecx: ExprContext, e: ScalarExpr, via: ScalarType) -> bool {
    &&& ecx.type_of(e) matches Some(s)
    &&& cast_between(s, CastTo::Explicit(via)) matches Some(op)
    &&& op.applies_directly(ecx, e, CastTo::Explicit(via))
}

/// The expression that casts `e` to the type `via`, and then to `Jsonb`.
pub open spec fn expr_through(ecx: ExprContext, e: ScalarExpr, via: ScalarType) -> ScalarExpr {
    let op = cast_between(ecx.type_of(e)->0, CastTo::Explicit(via))->0;
    op.direct_expr(ecx, e, CastTo::Explicit(via)).call_unary(UnaryFunc::CastJsonbOrNullToJsonb)
}

/// The expression that casts `e` from `Float64` to `Float32`, by way of `String`.
pub open spec fn float64_to_float32(e: ScalarExpr) -> ScalarExpr {
    e.call_unary(UnaryFunc::CastFloat64ToString).call_unary(UnaryFunc::CastStringToFloat32)
}

// Used when the expression is already of the desired type.
fn noop_cast(_ecx: &ExprContext, e: ScalarExpr, _cast_to: CastTo) -> (r: ScalarExpr)
    ensures
        r == e,
{
    e
}

// Cast `e` to `String`, and then to `Jsonb`.
fn to_jsonb_any_string_cast(ecx: &ExprContext, e: ScalarExpr, _cast_to: CastTo) -> (r: ScalarExpr)
    requires
        applies_through(*ecx, e, ScalarType::String),
    ensures
        r == expr_through(*ecx, e, ScalarType::String),
    decreases 1nat, 0nat,
{
    let s = ecx.scalar_type(&e);
    let to = CastTo::Explicit(ScalarType::String);
    let cast_op = get_cast(&s, &to).unwrap();
    cast_op.gen_expr(ecx, e, to).call_unary(UnaryFunc::CastJsonbOrNullToJsonb)
}

// Cast `e` to `Float64`, and then to `Jsonb`.
fn to_jsonb_any_f64_cast(ecx: &ExprContext, e: ScalarExpr, _cast_to: CastTo) -> (r: ScalarExpr)
    requires
        applies_through(*ecx, e, ScalarType::Float64),
    ensures
        r == expr_through(*ecx, e, ScalarType::Float64),
    decreases 1nat, 0nat,
{
    let s = ecx.scalar_type(&e);
    let to = CastTo::Explicit(ScalarType::Float64);
    let cast_op = get_cast(&s, &to).unwrap();
    cast_op.gen_expr(ecx, e, to).call_unary(UnaryFunc::CastJsonbOrNullToJsonb)
}

// Cast `e` (`Jsonb`) to `Float64` and then to `cast_to`.
fn from_jsonb_f64_cast(ecx: &ExprContext, e: ScalarExpr, cast_to: CastTo) -> (r: ScalarExpr)
    requires
        CastOp::F(CastFn::FromJsonbF64).applies(*ecx, e, cast_to),
    ensures
        r == CastOp::F(CastFn::FromJsonbF64).cast_expr(*ecx, e, cast_to),
    decreases 1nat, 0nat,
{
    let e = e.call_unary(UnaryFunc::CastJsonbToFloat64);
    if cast_to == CastTo::Explicit(ScalarType::Float32) {
        return e.call_unary(UnaryFunc::CastFloat64ToString).call_unary(
            UnaryFunc::CastStringToFloat32,
        );
    }
    let from_f64_to_cast = get_cast(&ScalarType::Float64, &cast_to).unwrap();
    from_f64_to_cast.gen_expr(ecx, e, cast_to)
}

} // verus!
