use sql_cast::cast::{get_cast, CastFn, CastOp, CastTo};
use sql_cast::expr::{BinaryFunc, Datum, ExprContext, ScalarExpr, UnaryFunc};
use sql_cast::rescale::rescale_decimal;
use sql_cast::scalar::{ColumnType, ScalarType};

fn context(t: ScalarType) -> ExprContext {
    ExprContext {
        column_types: vec![ColumnType::new(t)],
    }
}

fn column() -> ScalarExpr {
    ScalarExpr::Column(0)
}

fn decimal_literal(digits: i128, scale: u8) -> ScalarExpr {
    ScalarExpr::Literal(
        Datum::Decimal(digits),
        ColumnType::new(ScalarType::Decimal(38, scale)),
    )
}

/// Casts a column of type `from`.
fn cast(from: ScalarType, to: CastTo) -> ScalarExpr {
    get_cast(&from, &to)
        .unwrap()
        .gen_expr(&context(from), column(), to)
}

#[test]
fn a_function_is_called() {
    let e = cast(ScalarType::Int32, CastTo::Implicit(ScalarType::Int64));
    assert_eq!(e, column().call_unary(UnaryFunc::CastInt32ToInt64));
}

#[test]
fn nothing_is_done_to_the_same_type() {
    let e = cast(ScalarType::Date, CastTo::Implicit(ScalarType::Date));
    assert_eq!(e, column());
}

#[test]
fn integers_become_decimals() {
    let to = CastTo::Implicit(ScalarType::Decimal(10, 2));
    assert_eq!(
        cast(ScalarType::Int32, to),
        column()
            .call_unary(UnaryFunc::CastInt32ToDecimal)
            .call_binary(decimal_literal(100, 2), BinaryFunc::MulDecimal)
    );
    assert_eq!(
        cast(ScalarType::Int64, to),
        column()
            .call_unary(UnaryFunc::CastInt64ToDecimal)
            .call_binary(decimal_literal(100, 2), BinaryFunc::MulDecimal)
    );
    let to = CastTo::Implicit(ScalarType::Decimal(10, 0));
    assert_eq!(
        cast(ScalarType::Int32, to),
        column().call_unary(UnaryFunc::CastInt32ToDecimal)
    );
}

#[test]
fn floats_become_decimals() {
    let decimal = ScalarType::Decimal(10, 2);
    let scale = || ScalarExpr::Literal(Datum::Int32(2), ColumnType::new(decimal));
    assert_eq!(
        cast(ScalarType::Float32, CastTo::Explicit(decimal)),
        column().call_binary(scale(), BinaryFunc::CastFloat32ToDecimal)
    );
    assert_eq!(
        cast(ScalarType::Float64, CastTo::Explicit(decimal)),
        column().call_binary(scale(), BinaryFunc::CastFloat64ToDecimal)
    );
}

#[test]
fn decimals_become_integers() {
    let from = ScalarType::Decimal(10, 3);
    let whole = || column().call_binary(decimal_literal(1000, 3), BinaryFunc::DivDecimal);
    assert_eq!(
        cast(from, CastTo::Explicit(ScalarType::Int32)),
        whole().call_unary(UnaryFunc::CastDecimalToInt32)
    );
    assert_eq!(
        cast(from, CastTo::Explicit(ScalarType::Int64)),
        whole().call_unary(UnaryFunc::CastDecimalToInt64)
    );
}

#[test]
fn decimals_become_floats() {
    let from = ScalarType::Decimal(10, 3);
    let float32 = ColumnType::new(ScalarType::Float32);
    assert_eq!(
        cast(from, CastTo::Implicit(ScalarType::Float32)),
        column()
            .call_unary(UnaryFunc::CastSignificandToFloat32)
            .call_binary(
                ScalarExpr::Literal(Datum::Float32PowerOfTen(3), float32),
                BinaryFunc::DivFloat32
            )
    );
    assert_eq!(
        cast(from, CastTo::Implicit(ScalarType::Float64)),
        column()
            .call_unary(UnaryFunc::CastSignificandToFloat64)
            .call_binary(
                ScalarExpr::Literal(Datum::Float64PowerOfTen(3), float32),
                BinaryFunc::DivFloat64
            )
    );
}

#[test]
fn decimals_change_their_scale() {
    let from = ScalarType::Decimal(10, 2);
    assert_eq!(
        cast(from, CastTo::Implicit(ScalarType::Decimal(12, 4))),
        column().call_binary(decimal_literal(100, 2), BinaryFunc::MulDecimal)
    );
    assert_eq!(
        cast(from, CastTo::Implicit(ScalarType::Decimal(12, 1))),
        column().call_binary(decimal_literal(10, 1), BinaryFunc::DivDecimal)
    );
    assert_eq!(
        cast(from, CastTo::Implicit(ScalarType::Decimal(12, 2))),
        column()
    );
}

#[test]
fn decimals_are_written_and_read_with_their_scale() {
    let decimal = ScalarType::Decimal(10, 2);
    assert_eq!(
        cast(decimal, CastTo::Explicit(ScalarType::String)),
        column().call_unary(UnaryFunc::CastDecimalToString(2))
    );
    assert_eq!(
        cast(ScalarType::String, CastTo::Explicit(decimal)),
        column().call_unary(UnaryFunc::CastStringToDecimal(2))
    );
}

#[test]
fn jsonb_is_made_by_way_of_strings() {
    assert_eq!(
        cast(ScalarType::Date, CastTo::JsonbAny),
        column()
            .call_unary(UnaryFunc::CastDateToString)
            .call_unary(UnaryFunc::CastJsonbOrNullToJsonb)
    );
}

#[test]
fn jsonb_is_made_by_way_of_floats() {
    assert_eq!(
        cast(ScalarType::Int32, CastTo::JsonbAny),
        column()
            .call_unary(UnaryFunc::CastInt32ToFloat64)
            .call_unary(UnaryFunc::CastJsonbOrNullToJsonb)
    );
    assert_eq!(
        cast(ScalarType::Decimal(10, 1), CastTo::JsonbAny),
        column()
            .call_unary(UnaryFunc::CastSignificandToFloat64)
            .call_binary(
                ScalarExpr::Literal(
                    Datum::Float64PowerOfTen(1),
                    ColumnType::new(ScalarType::Float32)
                ),
                BinaryFunc::DivFloat64
            )
            .call_unary(UnaryFunc::CastJsonbOrNullToJsonb)
    );
}

#[test]
fn jsonb_is_made_directly() {
    for from in [ScalarType::Bool, ScalarType::Float64, ScalarType::String] {
        assert_eq!(
            cast(from, CastTo::JsonbAny),
            column().call_unary(UnaryFunc::CastJsonbOrNullToJsonb)
        );
    }
    assert_eq!(cast(ScalarType::Jsonb, CastTo::JsonbAny), column());
}

#[test]
fn jsonb_is_left_by_way_of_floats() {
    let float = || column().call_unary(UnaryFunc::CastJsonbToFloat64);
    assert_eq!(
        cast(ScalarType::Jsonb, CastTo::Explicit(ScalarType::Int32)),
        float().call_unary(UnaryFunc::CastFloat64ToInt32)
    );
    assert_eq!(
        cast(ScalarType::Jsonb, CastTo::Explicit(ScalarType::Int64)),
        float().call_unary(UnaryFunc::CastFloat64ToInt64)
    );
    assert_eq!(
        cast(ScalarType::Jsonb, CastTo::Explicit(ScalarType::Float64)),
        float()
    );
    let decimal = ScalarType::Decimal(10, 2);
    let scale = ScalarExpr::Literal(Datum::Int32(2), ColumnType::new(decimal));
    assert_eq!(
        cast(ScalarType::Jsonb, CastTo::Explicit(decimal)),
        float().call_binary(scale, BinaryFunc::CastFloat64ToDecimal)
    );
}

#[test]
fn a_function_can_stand_for_its_cast() {
    let op: CastOp = UnaryFunc::CastTimeToInterval.into();
    assert!(op == CastOp::U(UnaryFunc::CastTimeToInterval));
    let e = op.gen_expr(
        &context(ScalarType::Time),
        column(),
        CastTo::Implicit(ScalarType::Interval),
    );
    assert_eq!(e, column().call_unary(UnaryFunc::CastTimeToInterval));
}

#[test]
fn target_types_of_casts() {
    assert_eq!(
        CastTo::Implicit(ScalarType::Date).scalar_type(),
        ScalarType::Date
    );
    assert_eq!(
        CastTo::Explicit(ScalarType::Decimal(3, 1)).scalar_type(),
        ScalarType::Decimal(3, 1)
    );
    assert_eq!(CastTo::JsonbAny.scalar_type(), ScalarType::Jsonb);
}

#[test]
fn rescaling_takes_powers_of_ten() {
    assert_eq!(rescale_decimal(column(), 7, 7), column());
    assert_eq!(
        rescale_decimal(column(), 0, 1),
        column().call_binary(decimal_literal(10, 1), BinaryFunc::MulDecimal)
    );
    let largest = 100_000_000_000_000_000_000_000_000_000_000_000_000;
    assert_eq!(
        rescale_decimal(column(), 0, 38),
        column().call_binary(decimal_literal(largest, 38), BinaryFunc::MulDecimal)
    );
    assert_eq!(
        rescale_decimal(column(), 38, 0),
        column().call_binary(decimal_literal(largest, 38), BinaryFunc::DivDecimal)
    );
}

#[test]
fn rescaling_up_and_down_multiplies_and_divides_alike() {
    assert_eq!(
        rescale_decimal(rescale_decimal(column(), 1, 3), 3, 1),
        column()
            .call_binary(decimal_literal(100, 2), BinaryFunc::MulDecimal)
            .call_binary(decimal_literal(100, 2), BinaryFunc::DivDecimal)
    );
}

#[test]
fn rescaling_gives_the_scale_asked_for() {
    let ecx = context(ScalarType::Decimal(10, 3));
    let up = rescale_decimal(column(), 3, 5);
    assert_eq!(ecx.scalar_type(&up), ScalarType::Decimal(38, 5));
    let down = rescale_decimal(column(), 3, 1);
    assert_eq!(ecx.scalar_type(&down), ScalarType::Decimal(38, 1));
}

#[test]
fn generated_expressions_have_the_target_type() {
    let types = [
        ScalarType::Bool,
        ScalarType::Int32,
        ScalarType::Int64,
        ScalarType::Float32,
        ScalarType::Float64,
        ScalarType::Decimal(10, 2),
        ScalarType::Decimal(12, 4),
        ScalarType::Date,
        ScalarType::Time,
        ScalarType::Timestamp,
        ScalarType::TimestampTz,
        ScalarType::Interval,
        ScalarType::Bytes,
        ScalarType::String,
        ScalarType::Jsonb,
    ];
    for from in types {
        let mut targets = vec![CastTo::JsonbAny];
        for t in types {
            targets.push(CastTo::Implicit(t));
            targets.push(CastTo::Explicit(t));
        }
        for to in targets {
            if get_cast(&from, &to).is_none() {
                continue;
            }
            let t = context(from).scalar_type(&cast(from, to));
            assert_eq!(t.desaturate(), to.scalar_type().desaturate());
            if let (ScalarType::Decimal(_, got), ScalarType::Decimal(_, want)) =
                (t, to.scalar_type())
            {
                assert_eq!(got, want);
            }
        }
    }
}

#[test]
fn jsonb_becomes_float32_by_way_of_float64() {
    let to = CastTo::Explicit(ScalarType::Float32);
    let op = get_cast(&ScalarType::Jsonb, &to);
    assert!(op == Some(&CastOp::F(CastFn::FromJsonbF64)));
    assert_eq!(
        cast(ScalarType::Jsonb, to),
        column()
            .call_unary(UnaryFunc::CastJsonbToFloat64)
            .call_unary(UnaryFunc::CastFloat64ToString)
            .call_unary(UnaryFunc::CastStringToFloat32)
    );
}

#[test]
fn types_of_expressions() {
    let ecx = context(ScalarType::Date);
    assert_eq!(ecx.scalar_type(&column()), ScalarType::Date);
    assert_eq!(
        ecx.scalar_type(&decimal_literal(5, 2)),
        ScalarType::Decimal(38, 2)
    );
    let product = decimal_literal(5, 2).call_binary(decimal_literal(7, 3), BinaryFunc::MulDecimal);
    assert_eq!(ecx.scalar_type(&product), ScalarType::Decimal(38, 5));
    let ratio = decimal_literal(5, 3).call_binary(decimal_literal(7, 1), BinaryFunc::DivDecimal);
    assert_eq!(ecx.scalar_type(&ratio), ScalarType::Decimal(38, 2));
}

#[test]
fn parts_of_decimals() {
    assert_eq!(ScalarType::Decimal(10, 2).unwrap_decimal_parts(), (10, 2));
    assert_eq!(
        ScalarType::Decimal(10, 2).desaturate(),
        ScalarType::Decimal(0, 0)
    );
    assert_eq!(ScalarType::Bytes.desaturate(), ScalarType::Bytes);
}
