use sql_cast::cast::{CastFn, CastOp, CastTo};
use sql_cast::expr::UnaryFunc;
use sql_cast::scalar::ScalarType;

#[test]
fn targets_are_shown_by_their_type() {
    assert_eq!(CastTo::Implicit(ScalarType::Int32).display_text(), "i32");
    assert_eq!(
        CastTo::Explicit(ScalarType::TimestampTz).display_text(),
        "timestamptz"
    );
    assert_eq!(
        CastTo::Explicit(ScalarType::Decimal(38, 7)).display_text(),
        "decimal(38, 7)"
    );
    assert_eq!(CastTo::JsonbAny.display_text(), "jsonbany");
}

#[test]
fn numerals_have_up_to_three_digits() {
    assert_eq!(
        ScalarType::Decimal(255, 100).display_text(),
        "decimal(255, 100)"
    );
    assert_eq!(ScalarType::Decimal(0, 9).display_text(), "decimal(0, 9)");
    assert_eq!(ScalarType::Decimal(10, 90).display_text(), "decimal(10, 90)");
}

#[test]
fn functions_are_shown_as_they_are_named() {
    for u in [
        UnaryFunc::CastBoolToStringExplicit,
        UnaryFunc::CastDecimalToString(12),
        UnaryFunc::CastStringToDecimal(205),
        UnaryFunc::CastJsonbOrNullToJsonb,
    ] {
        assert_eq!(u.debug_text(), format!("{:?}", u));
    }
}

#[test]
fn casts_are_shown_by_their_function() {
    assert_eq!(
        CastOp::U(UnaryFunc::CastInt32ToInt64).debug_text(),
        "CastOp::U(CastInt32ToInt64)"
    );
    assert_eq!(
        CastOp::U(UnaryFunc::CastDecimalToString(2)).debug_text(),
        "CastOp::U(CastDecimalToString(2))"
    );
    assert_eq!(CastOp::F(CastFn::Noop).debug_text(), "CastOp::F");
}
