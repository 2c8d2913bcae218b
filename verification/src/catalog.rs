//! The table of valid casts.

use vstd::prelude::*;

use crate::cast::{CastFn, CastOp, CastTo};
use crate::expr::UnaryFunc;
use crate::scalar::ScalarType;

verus! {

/// The table of valid casts. A decimal is listed as `Decimal(0, 0)`, whatever
/// its precision and scale.
pub open spec fn valid_casts(from: ScalarType, cast_to: CastTo) -> Option<CastOp> {
    match from {
        ScalarType::Bool => match cast_to {
            CastTo::Explicit(ScalarType::String) => Some(CastOp::U(UnaryFunc::CastBoolToStringExplicit)),
            CastTo::JsonbAny => Some(CastOp::U(UnaryFunc::CastJsonbOrNullToJsonb)),
            _ => None,
        },
        ScalarType::Int32 => match cast_to {
            CastTo::Explicit(ScalarType::Bool) => Some(CastOp::U(UnaryFunc::CastInt32ToBool)),
            CastTo::Implicit(ScalarType::Int64) => Some(CastOp::U(UnaryFunc::CastInt32ToInt64)),
            CastTo::Implicit(ScalarType::Float32) => Some(CastOp::U(UnaryFunc::CastInt32ToFloat32)),
            CastTo::Implicit(ScalarType::Float64) => Some(CastOp::U(UnaryFunc::CastInt32ToFloat64)),
            CastTo::Implicit(ScalarType::Decimal(0, 0)) => Some(CastOp::F(CastFn::Int32ToDecimal)),
            CastTo::Explicit(ScalarType::String) => Some(CastOp::U(UnaryFunc::CastInt32ToString)),
            CastTo::JsonbAny => Some(CastOp::F(CastFn::ToJsonbAnyF64)),
            _ => None,
        },
        ScalarType::Int64 => match cast_to {
            CastTo::Explicit(ScalarType::Bool) => Some(CastOp::U(UnaryFunc::CastInt64ToBool)),
            CastTo::Explicit(ScalarType::Int32) => Some(CastOp::U(UnaryFunc::CastInt64ToInt32)),
            CastTo::Implicit(ScalarType::Decimal(0, 0)) => Some(CastOp::F(CastFn::Int64ToDecimal)),
            CastTo::Implicit(ScalarType::Float32) => Some(CastOp::U(UnaryFunc::CastInt64ToFloat32)),
            CastTo::Implicit(ScalarType::Float64) => Some(CastOp::U(UnaryFunc::CastInt64ToFloat64)),
            CastTo::Explicit(ScalarType::String) => Some(CastOp::U(UnaryFunc::CastInt64ToString)),
            CastTo::JsonbAny => Some(CastOp::F(CastFn::ToJsonbAnyF64)),
            _ => None,
        },
        ScalarType::Float32 => match cast_to {
            CastTo::Explicit(ScalarType::Int64) => Some(CastOp::U(UnaryFunc::CastFloat32ToInt64)),
            CastTo::Implicit(ScalarType::Float64) => Some(CastOp::U(UnaryFunc::CastFloat32ToFloat64)),
            CastTo::Explicit(ScalarType::Decimal(0, 0)) => Some(CastOp::F(CastFn::Float32ToDecimal)),
            CastTo::Explicit(ScalarType::String) => Some(CastOp::U(UnaryFunc::CastFloat32ToString)),
            CastTo::JsonbAny => Some(CastOp::F(CastFn::ToJsonbAnyF64)),
            _ => None,
        },
        ScalarType::Float64 => match cast_to {
            CastTo::Explicit(ScalarType::Int32) => Some(CastOp::U(UnaryFunc::CastFloat64ToInt32)),
            CastTo::Explicit(ScalarType::Int64) => Some(CastOp::U(UnaryFunc::CastFloat64ToInt64)),
            CastTo::Explicit(ScalarType::Decimal(0, 0)) => Some(CastOp::F(CastFn::Float64ToDecimal)),
            CastTo::Explicit(ScalarType::String) => Some(CastOp::U(UnaryFunc::CastFloat64ToString)),
            CastTo::JsonbAny => Some(CastOp::U(UnaryFunc::CastJsonbOrNullToJsonb)),
            _ => None,
        },
        ScalarType::Decimal(0, 0) => match cast_to {
            CastTo::Explicit(ScalarType::Int32) => Some(CastOp::F(CastFn::DecimalToInt32)),
            CastTo::Explicit(ScalarType::Int64) => Some(CastOp::F(CastFn::DecimalToInt64)),
            CastTo::Implicit(ScalarType::Float32) => Some(CastOp::F(CastFn::DecimalToFloat32)),
            CastTo::Implicit(ScalarType::Float64) => Some(CastOp::F(CastFn::DecimalToFloat64)),
            CastTo::Implicit(ScalarType::Decimal(0, 0)) => Some(CastOp::F(CastFn::DecimalToDecimal)),
            CastTo::Explicit(ScalarType::String) => Some(CastOp::F(CastFn::DecimalToString)),
            CastTo::JsonbAny => Some(CastOp::F(CastFn::ToJsonbAnyF64)),
            _ => None,
        },
        ScalarType::Date => match cast_to {
            CastTo::Implicit(ScalarType::Timestamp) => Some(CastOp::U(UnaryFunc::CastDateToTimestamp)),
            CastTo::Implicit(ScalarType::TimestampTz) => Some(CastOp::U(UnaryFunc::CastDateToTimestampTz)),
            CastTo::Explicit(ScalarType::String) => Some(CastOp::U(UnaryFunc::CastDateToString)),
            CastTo::JsonbAny => Some(CastOp::F(CastFn::ToJsonbAnyString)),
            _ => None,
        },
        ScalarType::Time => match cast_to {
            CastTo::Implicit(ScalarType::Interval) => Some(CastOp::U(UnaryFunc::CastTimeToInterval)),
            CastTo::Explicit(ScalarType::String) => Some(CastOp::U(UnaryFunc::CastTimeToString)),
            CastTo::JsonbAny => Some(CastOp::F(CastFn::ToJsonbAnyString)),
            _ => None,
        },
        ScalarType::Timestamp => match cast_to {
            CastTo::Explicit(ScalarType::Date) => Some(CastOp::U(UnaryFunc::CastTimestampToDate)),
            CastTo::Implicit(ScalarType::TimestampTz) => Some(CastOp::U(UnaryFunc::CastTimestampToTimestampTz)),
            CastTo::Explicit(ScalarType::String) => Some(CastOp::U(UnaryFunc::CastTimestampToString)),
            CastTo::JsonbAny => Some(CastOp::F(CastFn::ToJsonbAnyString)),
            _ => None,
        },
        ScalarType::TimestampTz => match cast_to {
            CastTo::Explicit(ScalarType::Date) => Some(CastOp::U(UnaryFunc::CastTimestampTzToDate)),
            CastTo::Explicit(ScalarType::Timestamp) => Some(CastOp::U(UnaryFunc::CastTimestampTzToTimestamp)),
            CastTo::Explicit(ScalarType::String) => Some(CastOp::U(UnaryFunc::CastTimestampTzToString)),
            CastTo::JsonbAny => Some(CastOp::F(CastFn::ToJsonbAnyString)),
            _ => None,
        },
        ScalarType::Interval => match cast_to {
            CastTo::Explicit(ScalarType::Time) => Some(CastOp::U(UnaryFunc::CastIntervalToTime)),
            CastTo::Explicit(ScalarType::String) => Some(CastOp::U(UnaryFunc::CastIntervalToString)),
            CastTo::JsonbAny => Some(CastOp::F(CastFn::ToJsonbAnyString)),
            _ => None,
        },
        ScalarType::Bytes => match cast_to {
            CastTo::Explicit(ScalarType::String) => Some(CastOp::U(UnaryFunc::CastBytesToString)),
            CastTo::JsonbAny => Some(CastOp::F(CastFn::ToJsonbAnyString)),
            _ => None,
        },
        ScalarType::String => match cast_to {
            CastTo::Explicit(ScalarType::Bool) => Some(CastOp::U(UnaryFunc::CastStringToBool)),
            CastTo::Explicit(ScalarType::Int32) => Some(CastOp::U(UnaryFunc::CastStringToInt32)),
            CastTo::Explicit(ScalarType::Int64) => Some(CastOp::U(UnaryFunc::CastStringToInt64)),
            CastTo::Explicit(ScalarType::Float32) => Some(CastOp::U(UnaryFunc::CastStringToFloat32)),
            CastTo::Explicit(ScalarType::Float64) => Some(CastOp::U(UnaryFunc::CastStringToFloat64)),
            CastTo::Explicit(ScalarType::Decimal(0, 0)) => Some(CastOp::F(CastFn::StringToDecimal)),
            CastTo::Explicit(ScalarType::Date) => Some(CastOp::U(UnaryFunc::CastStringToDate)),
            CastTo::Explicit(ScalarType::Time) => Some(CastOp::U(UnaryFunc::CastStringToTime)),
            CastTo::Explicit(ScalarType::Timestamp) => Some(CastOp::U(UnaryFunc::CastStringToTimestamp)),
            CastTo::Explicit(ScalarType::TimestampTz) => Some(CastOp::U(UnaryFunc::CastStringToTimestampTz)),
            CastTo::Explicit(ScalarType::Interval) => Some(CastOp::U(UnaryFunc::CastStringToInterval)),
            CastTo::Explicit(ScalarType::Bytes) => Some(CastOp::U(UnaryFunc::CastStringToBytes)),
            CastTo::Explicit(ScalarType::Jsonb) => Some(CastOp::U(UnaryFunc::CastStringToJsonb)),
            CastTo::JsonbAny => Some(CastOp::U(UnaryFunc::CastJsonbOrNullToJsonb)),
            _ => None,
        },
        ScalarType::Jsonb => match cast_to {
            CastTo::Explicit(ScalarType::Bool) => Some(CastOp::U(UnaryFunc::CastJsonbToBool)),
            CastTo::Explicit(ScalarType::Int32) => Some(CastOp::F(CastFn::FromJsonbF64)),
            CastTo::Explicit(ScalarType::Int64) => Some(CastOp::F(CastFn::FromJsonbF64)),
            CastTo::Explicit(ScalarType::Float32) => Some(CastOp::F(CastFn::FromJsonbF64)),
            CastTo::Explicit(ScalarType::Float64) => Some(CastOp::U(UnaryFunc::CastJsonbToFloat64)),
            CastTo::Explicit(ScalarType::Decimal(0, 0)) => Some(CastOp::F(CastFn::FromJsonbF64)),
            CastTo::Explicit(ScalarType::String) => Some(CastOp::U(UnaryFunc::CastJsonbToString)),
            CastTo::JsonbAny => Some(CastOp::U(UnaryFunc::CastJsonbOrNullToJsonb)),
            _ => None,
        },
        ScalarType::Decimal(_, _) => None,
    }
}

/// Looks up the table of valid casts.
pub fn valid_cast<'a>(from: ScalarType, cast_to: CastTo) -> (op: Option<&'a CastOp>)
    ensures
        match op {
            Some(op) => valid_casts(from, cast_to) == Some(*op),
            None => valid_casts(from, cast_to) is None,
        },
{
    match from {
        ScalarType::Bool => match cast_to {
            CastTo::Explicit(ScalarType::String) => Some(&CastOp::U(UnaryFunc::CastBoolToStringExplicit)),
            CastTo::JsonbAny => Some(&CastOp::U(UnaryFunc::CastJsonbOrNullToJsonb)),
            _ => None,
        },
        ScalarType::Int32 => match cast_to {
            CastTo::Explicit(ScalarType::Bool) => Some(&CastOp::U(UnaryFunc::CastInt32ToBool)),
            CastTo::Implicit(ScalarType::Int64) => Some(&CastOp::U(UnaryFunc::CastInt32ToInt64)),
            CastTo::Implicit(ScalarType::Float32) => Some(&CastOp::U(UnaryFunc::CastInt32ToFloat32)),
            CastTo::Implicit(ScalarType::Float64) => Some(&CastOp::U(UnaryFunc::CastInt32ToFloat64)),
            CastTo::Implicit(ScalarType::Decimal(0, 0)) => Some(&CastOp::F(CastFn::Int32ToDecimal)),
            CastTo::Explicit(ScalarType::String) => Some(&CastOp::U(UnaryFunc::CastInt32ToString)),
            CastTo::JsonbAny => Some(&CastOp::F(CastFn::ToJsonbAnyF64)),
            _ => None,
        },
        ScalarType::Int64 => match cast_to {
            CastTo::Explicit(ScalarType::Bool) => Some(&CastOp::U(UnaryFunc::CastInt64ToBool)),
            CastTo::Explicit(ScalarType::Int32) => Some(&CastOp::U(UnaryFunc::CastInt64ToInt32)),
            CastTo::Implicit(ScalarType::Decimal(0, 0)) => Some(&CastOp::F(CastFn::Int64ToDecimal)),
            CastTo::Implicit(ScalarType::Float32) => Some(&CastOp::U(UnaryFunc::CastInt64ToFloat32)),
            CastTo::Implicit(ScalarType::Float64) => Some(&CastOp::U(UnaryFunc::CastInt64ToFloat64)),
            CastTo::Explicit(ScalarType::String) => Some(&CastOp::U(UnaryFunc::CastInt64ToString)),
            CastTo::JsonbAny => Some(&CastOp::F(CastFn::ToJsonbAnyF64)),
            _ => None,
        },
        ScalarType::Float32 => match cast_to {
            CastTo::Explicit(ScalarType::Int64) => Some(&CastOp::U(UnaryFunc::CastFloat32ToInt64)),
            CastTo::Implicit(ScalarType::Float64) => Some(&CastOp::U(UnaryFunc::CastFloat32ToFloat64)),
            CastTo::Explicit(ScalarType::Decimal(0, 0)) => Some(&CastOp::F(CastFn::Float32ToDecimal)),
            CastTo::Explicit(ScalarType::String) => Some(&CastOp::U(UnaryFunc::CastFloat32ToString)),
            CastTo::JsonbAny => Some(&CastOp::F(CastFn::ToJsonbAnyF64)),
            _ => None,
        },
        ScalarType::Float64 => match cast_to {
            CastTo::Explicit(ScalarType::Int32) => Some(&CastOp::U(UnaryFunc::CastFloat64ToInt32)),
            CastTo::Explicit(ScalarType::Int64) => Some(&CastOp::U(UnaryFunc::CastFloat64ToInt64)),
            CastTo::Explicit(ScalarType::Decimal(0, 0)) => Some(&CastOp::F(CastFn::Float64ToDecimal)),
            CastTo::Explicit(ScalarType::String) => Some(&CastOp::U(UnaryFunc::CastFloat64ToString)),
            CastTo::JsonbAny => Some(&CastOp::U(UnaryFunc::CastJsonbOrNullToJsonb)),
            _ => None,
        },
        ScalarType::Decimal(0, 0) => match cast_to {
            CastTo::Explicit(ScalarType::Int32) => Some(&CastOp::F(CastFn::DecimalToInt32)),
            CastTo::Explicit(ScalarType::Int64) => Some(&CastOp::F(CastFn::DecimalToInt64)),
            CastTo::Implicit(ScalarType::Float32) => Some(&CastOp::F(CastFn::DecimalToFloat32)),
            CastTo::Implicit(ScalarType::Float64) => Some(&CastOp::F(CastFn::DecimalToFloat64)),
            CastTo::Implicit(ScalarType::Decimal(0, 0)) => Some(&CastOp::F(CastFn::DecimalToDecimal)),
            CastTo::Explicit(ScalarType::String) => Some(&CastOp::F(CastFn::DecimalToString)),
            CastTo::JsonbAny => Some(&CastOp::F(CastFn::ToJsonbAnyF64)),
            _ => None,
        },
        ScalarType::Date => match cast_to {
            CastTo::Implicit(ScalarType::Timestamp) => Some(&CastOp::U(UnaryFunc::CastDateToTimestamp)),
            CastTo::Implicit(ScalarType::TimestampTz) => Some(&CastOp::U(UnaryFunc::CastDateToTimestampTz)),
            CastTo::Explicit(ScalarType::String) => Some(&CastOp::U(UnaryFunc::CastDateToString)),
            CastTo::JsonbAny => Some(&CastOp::F(CastFn::ToJsonbAnyString)),
            _ => None,
        },
        ScalarType::Time => match cast_to {
            CastTo::Implicit(ScalarType::Interval) => Some(&CastOp::U(UnaryFunc::CastTimeToInterval)),
            CastTo::Explicit(ScalarType::String) => Some(&CastOp::U(UnaryFunc::CastTimeToString)),
            CastTo::JsonbAny => Some(&CastOp::F(CastFn::ToJsonbAnyString)),
            _ => None,
        },
        ScalarType::Timestamp => match cast_to {
            CastTo::Explicit(ScalarType::Date) => Some(&CastOp::U(UnaryFunc::CastTimestampToDate)),
            CastTo::Implicit(ScalarType::TimestampTz) => Some(&CastOp::U(UnaryFunc::CastTimestampToTimestampTz)),
            CastTo::Explicit(ScalarType::String) => Some(&CastOp::U(UnaryFunc::CastTimestampToString)),
            CastTo::JsonbAny => Some(&CastOp::F(CastFn::ToJsonbAnyString)),
            _ => None,
        },
        ScalarType::TimestampTz => match cast_to {
            CastTo::Explicit(ScalarType::Date) => Some(&CastOp::U(UnaryFunc::CastTimestampTzToDate)),
            CastTo::Explicit(ScalarType::Timestamp) => Some(&CastOp::U(UnaryFunc::CastTimestampTzToTimestamp)),
            CastTo::Explicit(ScalarType::String) => Some(&CastOp::U(UnaryFunc::CastTimestampTzToString)),
            CastTo::JsonbAny => Some(&CastOp::F(CastFn::ToJsonbAnyString)),
            _ => None,
        },
        ScalarType::Interval => match cast_to {
            CastTo::Explicit(ScalarType::Time) => Some(&CastOp::U(UnaryFunc::CastIntervalToTime)),
            CastTo::Explicit(ScalarType::String) => Some(&CastOp::U(UnaryFunc::CastIntervalToString)),
            CastTo::JsonbAny => Some(&CastOp::F(CastFn::ToJsonbAnyString)),
            _ => None,
        },
        ScalarType::Bytes => match cast_to {
            CastTo::Explicit(ScalarType::String) => Some(&CastOp::U(UnaryFunc::CastBytesToString)),
            CastTo::JsonbAny => Some(&CastOp::F(CastFn::ToJsonbAnyString)),
            _ => None,
        },
        ScalarType::String => match cast_to {
            CastTo::Explicit(ScalarType::Bool) => Some(&CastOp::U(UnaryFunc::CastStringToBool)),
            CastTo::Explicit(ScalarType::Int32) => Some(&CastOp::U(UnaryFunc::CastStringToInt32)),
            CastTo::Explicit(ScalarType::Int64) => Some(&CastOp::U(UnaryFunc::CastStringToInt64)),
            CastTo::Explicit(ScalarType::Float32) => Some(&CastOp::U(UnaryFunc::CastStringToFloat32)),
            CastTo::Explicit(ScalarType::Float64) => Some(&CastOp::U(UnaryFunc::CastStringToFloat64)),
            CastTo::Explicit(ScalarType::Decimal(0, 0)) => Some(&CastOp::F(CastFn::StringToDecimal)),
            CastTo::Explicit(ScalarType::Date) => Some(&CastOp::U(UnaryFunc::CastStringToDate)),
            CastTo::Explicit(ScalarType::Time) => Some(&CastOp::U(UnaryFunc::CastStringToTime)),
            CastTo::Explicit(ScalarType::Timestamp) => Some(&CastOp::U(UnaryFunc::CastStringToTimestamp)),
            CastTo::Explicit(ScalarType::TimestampTz) => Some(&CastOp::U(UnaryFunc::CastStringToTimestampTz)),
            CastTo::Explicit(ScalarType::Interval) => Some(&CastOp::U(UnaryFunc::CastStringToInterval)),
            CastTo::Explicit(ScalarType::Bytes) => Some(&CastOp::U(UnaryFunc::CastStringToBytes)),
            CastTo::Explicit(ScalarType::Jsonb) => Some(&CastOp::U(UnaryFunc::CastStringToJsonb)),
            CastTo::JsonbAny => Some(&CastOp::U(UnaryFunc::CastJsonbOrNullToJsonb)),
            _ => None,
        },
        ScalarType::Jsonb => match cast_to {
            CastTo::Explicit(ScalarType::Bool) => Some(&CastOp::U(UnaryFunc::CastJsonbToBool)),
            CastTo::Explicit(ScalarType::Int32) => Some(&CastOp::F(CastFn::FromJsonbF64)),
            CastTo::Explicit(ScalarType::Int64) => Some(&CastOp::F(CastFn::FromJsonbF64)),
            CastTo::Explicit(ScalarType::Float32) => Some(&CastOp::F(CastFn::FromJsonbF64)),
            CastTo::Explicit(ScalarType::Float64) => Some(&CastOp::U(UnaryFunc::CastJsonbToFloat64)),
            CastTo::Explicit(ScalarType::Decimal(0, 0)) => Some(&CastOp::F(CastFn::FromJsonbF64)),
            CastTo::Explicit(ScalarType::String) => Some(&CastOp::U(UnaryFunc::CastJsonbToString)),
            CastTo::JsonbAny => Some(&CastOp::U(UnaryFunc::CastJsonbOrNullToJsonb)),
            _ => None,
        },
        ScalarType::Decimal(_, _) => None,
    }
}

} // verus!
