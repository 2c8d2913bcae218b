use sql_cast::cast::{get_cast, CastFn, CastOp, CastTo};
use sql_cast::catalog::valid_cast;
use sql_cast::expr::UnaryFunc;
use sql_cast::scalar::ScalarType;

fn table() -> Vec<(ScalarType, CastTo, CastOp)> {
    vec![
        (ScalarType::Bool, CastTo::Explicit(ScalarType::String), CastOp::U(UnaryFunc::CastBoolToStringExplicit)),
        (ScalarType::Bool, CastTo::JsonbAny, CastOp::U(UnaryFunc::CastJsonbOrNullToJsonb)),
        (ScalarType::Int32, CastTo::Explicit(ScalarType::Bool), CastOp::U(UnaryFunc::CastInt32ToBool)),
        (ScalarType::Int32, CastTo::Implicit(ScalarType::Int64), CastOp::U(UnaryFunc::CastInt32ToInt64)),
        (ScalarType::Int32, CastTo::Implicit(ScalarType::Float32), CastOp::U(UnaryFunc::CastInt32ToFloat32)),
        (ScalarType::Int32, CastTo::Implicit(ScalarType::Float64), CastOp::U(UnaryFunc::CastInt32ToFloat64)),
        (ScalarType::Int32, CastTo::Implicit(ScalarType::Decimal(0, 0)), CastOp::F(CastFn::Int32ToDecimal)),
        (ScalarType::Int32, CastTo::Explicit(ScalarType::String), CastOp::U(UnaryFunc::CastInt32ToString)),
        (ScalarType::Int32, CastTo::JsonbAny, CastOp::F(CastFn::ToJsonbAnyF64)),
        (ScalarType::Int64, CastTo::Explicit(ScalarType::Bool), CastOp::U(UnaryFunc::CastInt64ToBool)),
        (ScalarType::Int64, CastTo::Explicit(ScalarType::Int32), CastOp::U(UnaryFunc::CastInt64ToInt32)),
        (ScalarType::Int64, CastTo::Implicit(ScalarType::Decimal(0, 0)), CastOp::F(CastFn::Int64ToDecimal)),
        (ScalarType::Int64, CastTo::Implicit(ScalarType::Float32), CastOp::U(UnaryFunc::CastInt64ToFloat32)),
        (ScalarType::Int64, CastTo::Implicit(ScalarType::Float64), CastOp::U(UnaryFunc::CastInt64ToFloat64)),
        (ScalarType::Int64, CastTo::Explicit(ScalarType::String), CastOp::U(UnaryFunc::CastInt64ToString)),
        (ScalarType::Int64, CastTo::JsonbAny, CastOp::F(CastFn::ToJsonbAnyF64)),
        (ScalarType::Float32, CastTo::Explicit(ScalarType::Int64), CastOp::U(UnaryFunc::CastFloat32ToInt64)),
        (ScalarType::Float32, CastTo::Implicit(ScalarType::Float64), CastOp::U(UnaryFunc::CastFloat32ToFloat64)),
        (ScalarType::Float32, CastTo::Explicit(ScalarType::Decimal(0, 0)), CastOp::F(CastFn::Float32ToDecimal)),
        (ScalarType::Float32, CastTo::Explicit(ScalarType::String), CastOp::U(UnaryFunc::CastFloat32ToString)),
        (ScalarType::Float32, CastTo::JsonbAny, CastOp::F(CastFn::ToJsonbAnyF64)),
        (ScalarType::Float64, CastTo::Explicit(ScalarType::Int32), CastOp::U(UnaryFunc::CastFloat64ToInt32)),
        (ScalarType::Float64, CastTo::Explicit(ScalarType::Int64), CastOp::U(UnaryFunc::CastFloat64ToInt64)),
        (ScalarType::Float64, CastTo::Explicit(ScalarType::Decimal(0, 0)), CastOp::F(CastFn::Float64ToDecimal)),
        (ScalarType::Float64, CastTo::Explicit(ScalarType::String), CastOp::U(UnaryFunc::CastFloat64ToString)),
        (ScalarType::Float64, CastTo::JsonbAny, CastOp::U(UnaryFunc::CastJsonbOrNullToJsonb)),
        (ScalarType::Decimal(0, 0), CastTo::Explicit(ScalarType::Int32), CastOp::F(CastFn::DecimalToInt32)),
        (ScalarType::Decimal(0, 0), CastTo::Explicit(ScalarType::Int64), CastOp::F(CastFn::DecimalToInt64)),
        (ScalarType::Decimal(0, 0), CastTo::Implicit(ScalarType::Float32), CastOp::F(CastFn::DecimalToFloat32)),
        (ScalarType::Decimal(0, 0), CastTo::Implicit(ScalarType::Float64), CastOp::F(CastFn::DecimalToFloat64)),
        (ScalarType::Decimal(0, 0), CastTo::Implicit(ScalarType::Decimal(0, 0)), CastOp::F(CastFn::DecimalToDecimal)),
        (ScalarType::Decimal(0, 0), CastTo::Explicit(ScalarType::String), CastOp::F(CastFn::DecimalToString)),
        (ScalarType::Decimal(0, 0), CastTo::JsonbAny, CastOp::F(CastFn::ToJsonbAnyF64)),
        (ScalarType::Date, CastTo::Implicit(ScalarType::Timestamp), CastOp::U(UnaryFunc::CastDateToTimestamp)),
        (ScalarType::Date, CastTo::Implicit(ScalarType::TimestampTz), CastOp::U(UnaryFunc::CastDateToTimestampTz)),
        (ScalarType::Date, CastTo::Explicit(ScalarType::String), CastOp::U(UnaryFunc::CastDateToString)),
        (ScalarType::Date, CastTo::JsonbAny, CastOp::F(CastFn::ToJsonbAnyString)),
        (ScalarType::Time, CastTo::Implicit(ScalarType::Interval), CastOp::U(UnaryFunc::CastTimeToInterval)),
        (ScalarType::Time, CastTo::Explicit(ScalarType::String), CastOp::U(UnaryFunc::CastTimeToString)),
        (ScalarType::Time, CastTo::JsonbAny, CastOp::F(CastFn::ToJsonbAnyString)),
        (ScalarType::Timestamp, CastTo::Explicit(ScalarType::Date), CastOp::U(UnaryFunc::CastTimestampToDate)),
        (ScalarType::Timestamp, CastTo::Implicit(ScalarType::TimestampTz), CastOp::U(UnaryFunc::CastTimestampToTimestampTz)),
        (ScalarType::Timestamp, CastTo::Explicit(ScalarType::String), CastOp::U(UnaryFunc::CastTimestampToString)),
        (ScalarType::Timestamp, CastTo::JsonbAny, CastOp::F(CastFn::ToJsonbAnyString)),
        (ScalarType::TimestampTz, CastTo::Explicit(ScalarType::Date), CastOp::U(UnaryFunc::CastTimestampTzToDate)),
        (ScalarType::TimestampTz, CastTo::Explicit(ScalarType::Timestamp), CastOp::U(UnaryFunc::CastTimestampTzToTimestamp)),
        (ScalarType::TimestampTz, CastTo::Explicit(ScalarType::String), CastOp::U(UnaryFunc::CastTimestampTzToString)),
        (ScalarType::TimestampTz, CastTo::JsonbAny, CastOp::F(CastFn::ToJsonbAnyString)),
        (ScalarType::Interval, CastTo::Explicit(ScalarType::Time), CastOp::U(UnaryFunc::CastIntervalToTime)),
        (ScalarType::Interval, CastTo::Explicit(ScalarType::String), CastOp::U(UnaryFunc::CastIntervalToString)),
        (ScalarType::Interval, CastTo::JsonbAny, CastOp::F(CastFn::ToJsonbAnyString)),
        (ScalarType::Bytes, CastTo::Explicit(ScalarType::String), CastOp::U(UnaryFunc::CastBytesToString)),
        (ScalarType::Bytes, CastTo::JsonbAny, CastOp::F(CastFn::ToJsonbAnyString)),
        (ScalarType::String, CastTo::Explicit(ScalarType::Bool), CastOp::U(UnaryFunc::CastStringToBool)),
        (ScalarType::String, CastTo::Explicit(ScalarType::Int32), CastOp::U(UnaryFunc::CastStringToInt32)),
        (ScalarType::String, CastTo::Explicit(ScalarType::Int64), CastOp::U(UnaryFunc::CastStringToInt64)),
        (ScalarType::String, CastTo::Explicit(ScalarType::Float32), CastOp::U(UnaryFunc::CastStringToFloat32)),
        (ScalarType::String, CastTo::Explicit(ScalarType::Float64), CastOp::U(UnaryFunc::CastStringToFloat64)),
        (ScalarType::String, CastTo::Explicit(ScalarType::Decimal(0, 0)), CastOp::F(CastFn::StringToDecimal)),
        (ScalarType::String, CastTo::Explicit(ScalarType::Date), CastOp::U(UnaryFunc::CastStringToDate)),
        (ScalarType::String, CastTo::Explicit(ScalarType::Time), CastOp::U(UnaryFunc::CastStringToTime)),
        (ScalarType::String, CastTo::Explicit(ScalarType::Timestamp), CastOp::U(UnaryFunc::CastStringToTimestamp)),
        (ScalarType::String, CastTo::Explicit(ScalarType::TimestampTz), CastOp::U(UnaryFunc::CastStringToTimestampTz)),
        (ScalarType::String, CastTo::Explicit(ScalarType::Interval), CastOp::U(UnaryFunc::CastStringToInterval)),
        (ScalarType::String, CastTo::Explicit(ScalarType::Bytes), CastOp::U(UnaryFunc::CastStringToBytes)),
        (ScalarType::String, CastTo::Explicit(ScalarType::Jsonb), CastOp::U(UnaryFunc::CastStringToJsonb)),
        (ScalarType::String, CastTo::JsonbAny, CastOp::U(UnaryFunc::CastJsonbOrNullToJsonb)),
        (ScalarType::Jsonb, CastTo::Explicit(ScalarType::Bool), CastOp::U(UnaryFunc::CastJsonbToBool)),
        (ScalarType::Jsonb, CastTo::Explicit(ScalarType::Int32), CastOp::F(CastFn::FromJsonbF64)),
        (ScalarType::Jsonb, CastTo::Explicit(ScalarType::Int64), CastOp::F(CastFn::FromJsonbF64)),
        (ScalarType::Jsonb, CastTo::Explicit(ScalarType::Float32), CastOp::F(CastFn::FromJsonbF64)),
        (ScalarType::Jsonb, CastTo::Explicit(ScalarType::Float64), CastOp::U(UnaryFunc::CastJsonbToFloat64)),
        (ScalarType::Jsonb, CastTo::Explicit(ScalarType::Decimal(0, 0)), CastOp::F(CastFn::FromJsonbF64)),
        (ScalarType::Jsonb, CastTo::Explicit(ScalarType::String), CastOp::U(UnaryFunc::CastJsonbToString)),
        (ScalarType::Jsonb, CastTo::JsonbAny, CastOp::U(UnaryFunc::CastJsonbOrNullToJsonb)),
    ]
}

fn all_types() -> Vec<ScalarType> {
    vec![
        ScalarType::Bool,
        ScalarType::Int32,
        ScalarType::Int64,
        ScalarType::Float32,
        ScalarType::Float64,
        ScalarType::Decimal(0, 0),
        ScalarType::Date,
        ScalarType::Time,
        ScalarType::Timestamp,
        ScalarType::TimestampTz,
        ScalarType::Interval,
        ScalarType::Bytes,
        ScalarType::String,
        ScalarType::Jsonb,
    ]
}

#[test]
fn table_holds_every_entry() {
    for (from, to, op) in table() {
        assert!(valid_cast(from, to) == Some(&op));
    }
}

#[test]
fn table_holds_nothing_else() {
    let mut found = 0;
    for from in all_types() {
        for to in all_types() {
            found += valid_cast(from, CastTo::Implicit(to)).is_some() as usize;
            found += valid_cast(from, CastTo::Explicit(to)).is_some() as usize;
        }
        found += valid_cast(from, CastTo::JsonbAny).is_some() as usize;
    }
    assert_eq!(found, table().len());
    assert_eq!(found, 75);
}

#[test]
fn table_knows_decimals_without_parameters_only() {
    let decimal = ScalarType::Decimal(10, 2);
    assert!(valid_cast(decimal, CastTo::Explicit(ScalarType::String)).is_none());
    assert!(valid_cast(ScalarType::Int32, CastTo::Implicit(decimal)).is_none());
}

#[test]
fn lookup_ignores_decimal_parameters() {
    let decimal = ScalarType::Decimal(10, 2);
    let op = get_cast(&decimal, &CastTo::Explicit(ScalarType::String));
    assert!(op == Some(&CastOp::F(CastFn::DecimalToString)));
    let op = get_cast(&ScalarType::Int32, &CastTo::Implicit(decimal));
    assert!(op == Some(&CastOp::F(CastFn::Int32ToDecimal)));
    let op = get_cast(&decimal, &CastTo::Implicit(ScalarType::Decimal(10, 3)));
    assert!(op == Some(&CastOp::F(CastFn::DecimalToDecimal)));
}

#[test]
fn same_type_is_left_alone() {
    for t in all_types() {
        assert!(get_cast(&t, &CastTo::Implicit(t)) == Some(&CastOp::F(CastFn::Noop)));
        assert!(get_cast(&t, &CastTo::Explicit(t)) == Some(&CastOp::F(CastFn::Noop)));
    }
    let decimal = ScalarType::Decimal(10, 2);
    assert!(get_cast(&decimal, &CastTo::Explicit(decimal)) == Some(&CastOp::F(CastFn::Noop)));
    let jsonb = get_cast(&ScalarType::Jsonb, &CastTo::JsonbAny);
    assert!(jsonb == Some(&CastOp::F(CastFn::Noop)));
}

#[test]
fn explicit_target_falls_back_on_implicit_cast() {
    let implicit = get_cast(&ScalarType::Int32, &CastTo::Implicit(ScalarType::Int64));
    let explicit = get_cast(&ScalarType::Int32, &CastTo::Explicit(ScalarType::Int64));
    assert!(implicit == Some(&CastOp::U(UnaryFunc::CastInt32ToInt64)));
    assert!(explicit == implicit);
}

#[test]
fn implicit_target_shuts_out_explicit_cast() {
    let to = ScalarType::Int32;
    let explicit = get_cast(&ScalarType::Int64, &CastTo::Explicit(to));
    assert!(explicit == Some(&CastOp::U(UnaryFunc::CastInt64ToInt32)));
    assert!(get_cast(&ScalarType::Int64, &CastTo::Implicit(to)).is_none());
}

#[test]
fn some_types_have_no_cast_between_them() {
    let none = get_cast(&ScalarType::Jsonb, &CastTo::Explicit(ScalarType::Date));
    assert!(none.is_none());
    let none = get_cast(&ScalarType::Float64, &CastTo::Explicit(ScalarType::Float32));
    assert!(none.is_none());
}

#[test]
fn implicit_casts_chain_and_lead_one_way() {
    let cast = |a: &ScalarType, b: &ScalarType| get_cast(a, &CastTo::Implicit(*b)).is_some();
    for a in all_types() {
        for b in all_types() {
            for c in all_types() {
                assert!(!(cast(&a, &b) && cast(&b, &c)) || cast(&a, &c));
            }
            assert!(!(cast(&a, &b) && cast(&b, &a)) || a == b);
        }
    }
}

#[test]
fn strings_and_jsonb_reach_every_type() {
    for t in all_types() {
        assert!(get_cast(&t, &CastTo::Explicit(ScalarType::String)).is_some());
        assert!(get_cast(&ScalarType::String, &CastTo::Explicit(t)).is_some());
        assert!(get_cast(&t, &CastTo::JsonbAny).is_some());
    }
}

#[test]
fn table_functions_return_the_type_they_are_listed_for() {
    for (_, to, op) in table() {
        if let CastOp::U(u) = op {
            assert_eq!(u.output_type(), to.scalar_type());
        }
    }
}
