//! The expressions that casts are written in, and their types.
//!
//! What types the functions take and return, and how the scales of products and
//! quotients come about, is this library's own model of the functions. What is
//! proved of the types of generated expressions rests on it; which expressions
//! are generated depends on it only in so far as a cast reads the type of the
//! expression that it is given.

use vstd::prelude::*;

use crate::scalar::{ColumnType, ScalarType, MAX_DECIMAL_PRECISION};

verus! {

/// A constant value.
///
/// A floating-point constant is always a power of ten, and is kept as its
/// exponent: the number itself is worked out when the expression runs.
#[derive(Debug, Clone, Copy, PartialEq, Eq, Hash, Structural)]
pub enum Datum {
    Int32(i32),
    /// The digits of a decimal, without its decimal point.
    Decimal(i128),
    /// Ten to this power, in single precision.
    Float32PowerOfTen(i32),
    /// Ten to this power, in double precision.
    Float64PowerOfTen(i32),
}

/// A function of one argument.
#[derive(Debug, Clone, Copy, PartialEq, Eq, Hash, Structural)]
pub enum UnaryFunc {
    CastBoolToStringExplicit,
    CastInt32ToBool,
    CastInt32ToInt64,
    CastInt32ToFloat32,
    CastInt32ToFloat64,
    CastInt32ToDecimal,
    CastInt32ToString,
    CastInt64ToBool,
    CastInt64ToInt32,
    CastInt64ToDecimal,
    CastInt64ToFloat32,
    CastInt64ToFloat64,
    CastInt64ToString,
    CastFloat32ToInt64,
    CastFloat32ToFloat64,
    CastFloat32ToString,
    CastFloat64ToInt32,
    CastFloat64ToInt64,
    CastFloat64ToString,
    CastDecimalToInt32,
    CastDecimalToInt64,
    /// Turns the digits of a decimal, without its decimal point, into a float.
    CastSignificandToFloat32,
    /// Turns the digits of a decimal, without its decimal point, into a float.
    CastSignificandToFloat64,
    /// Writes out a decimal of this scale.
    CastDecimalToString(u8),
    CastDateToTimestamp,
    CastDateToTimestampTz,
    CastDateToString,
    CastTimeToInterval,
    CastTimeToString,
    CastTimestampToDate,
    CastTimestampToTimestampTz,
    CastTimestampToString,
    CastTimestampTzToDate,
    CastTimestampTzToTimestamp,
    CastTimestampTzToString,
    CastIntervalToTime,
    CastIntervalToString,
    CastBytesToString,
    CastStringToBool,
    CastStringToInt32,
    CastStringToInt64,
    CastStringToFloat32,
    CastStringToFloat64,
    /// Reads a decimal of this scale.
    CastStringToDecimal(u8),
    CastStringToDate,
    CastStringToTime,
    CastStringToTimestamp,
    CastStringToTimestampTz,
    CastStringToInterval,
    CastStringToBytes,
    CastStringToJsonb,
    CastJsonbToBool,
    CastJsonbToFloat64,
    CastJsonbToString,
    /// Makes a JSONB element of a value that has a JSON form of its own.
    CastJsonbOrNullToJsonb,
}

impl UnaryFunc {
    /// Whether the function is meant for arguments of type `t`.
    pub open spec fn accepts(self, t: ScalarType) -> bool {
        match self {
            UnaryFunc::CastBoolToStringExplicit => t is Bool,
            UnaryFunc::CastInt32ToBool
            | UnaryFunc::CastInt32ToInt64
            | UnaryFunc::CastInt32ToFloat32
            | UnaryFunc::CastInt32ToFloat64
            | UnaryFunc::CastInt32ToDecimal
            | UnaryFunc::CastInt32ToString => t is Int32,
            UnaryFunc::CastInt64ToBool
            | UnaryFunc::CastInt64ToInt32
            | UnaryFunc::CastInt64ToDecimal
            | UnaryFunc::CastInt64ToFloat32
            | UnaryFunc::CastInt64ToFloat64
            | UnaryFunc::CastInt64ToString => t is Int64,
            UnaryFunc::CastFloat32ToInt64
            | UnaryFunc::CastFloat32ToFloat64
            | UnaryFunc::CastFloat32ToString => t is Float32,
            UnaryFunc::CastFloat64ToInt32
            | UnaryFunc::CastFloat64ToInt64
            | UnaryFunc::CastFloat64ToString => t is Float64,
            UnaryFunc::CastDecimalToInt32
            | UnaryFunc::CastDecimalToInt64 => t is Decimal && t.scale() == 0,
            UnaryFunc::CastSignificandToFloat32
            | UnaryFunc::CastSignificandToFloat64 => t is Decimal,
            UnaryFunc::CastDecimalToString(s) => t is Decimal && t.scale() == s,
            UnaryFunc::CastDateToTimestamp
            | UnaryFunc::CastDateToTimestampTz
            | UnaryFunc::CastDateToString => t is Date,
            UnaryFunc::CastTimeToInterval
            | UnaryFunc::CastTimeToString => t is Time,
            UnaryFunc::CastTimestampToDate
            | UnaryFunc::CastTimestampToTimestampTz
            | UnaryFunc::CastTimestampToString => t is Timestamp,
            UnaryFunc::CastTimestampTzToDate
            | UnaryFunc::CastTimestampTzToTimestamp
            | UnaryFunc::CastTimestampTzToString => t is TimestampTz,
            UnaryFunc::CastIntervalToTime
            | UnaryFunc::CastIntervalToString => t is Interval,
            UnaryFunc::CastBytesToString => t is Bytes,
            UnaryFunc::CastStringToBool
            | UnaryFunc::CastStringToInt32
            | UnaryFunc::CastStringToInt64
            | UnaryFunc::CastStringToFloat32
            | UnaryFunc::CastStringToFloat64
            | UnaryFunc::CastStringToDecimal(_)
            | UnaryFunc::CastStringToDate
            | UnaryFunc::CastStringToTime
            | UnaryFunc::CastStringToTimestamp
            | UnaryFunc::CastStringToTimestampTz
            | UnaryFunc::CastStringToInterval
            | UnaryFunc::CastStringToBytes
            | UnaryFunc::CastStringToJsonb => t is String,
            UnaryFunc::CastJsonbToBool
            | UnaryFunc::CastJsonbToFloat64
            | UnaryFunc::CastJsonbToString => t is Jsonb,
            UnaryFunc::CastJsonbOrNullToJsonb => {
                t is Bool || t is Float64 || t is String || t is Jsonb
            },
        }
    }

    /// The type of what the function returns.
    pub open spec fn spec_output_type(&self) -> ScalarType {
        match *self {
            UnaryFunc::CastInt32ToBool
            | UnaryFunc::CastInt64ToBool
            | UnaryFunc::CastStringToBool
            | UnaryFunc::CastJsonbToBool => ScalarType::Bool,
            UnaryFunc::CastInt64ToInt32
            | UnaryFunc::CastFloat64ToInt32
            | UnaryFunc::CastDecimalToInt32
            | UnaryFunc::CastStringToInt32 => ScalarType::Int32,
            UnaryFunc::CastInt32ToInt64
            | UnaryFunc::CastFloat32ToInt64
            | UnaryFunc::CastFloat64ToInt64
            | UnaryFunc::CastDecimalToInt64
            | UnaryFunc::CastStringToInt64 => ScalarType::Int64,
            UnaryFunc::CastInt32ToFloat32
            | UnaryFunc::CastInt64ToFloat32
            | UnaryFunc::CastSignificandToFloat32
            | UnaryFunc::CastStringToFloat32 => ScalarType::Float32,
            UnaryFunc::CastInt32ToFloat64
            | UnaryFunc::CastInt64ToFloat64
            | UnaryFunc::CastFloat32ToFloat64
            | UnaryFunc::CastSignificandToFloat64
            | UnaryFunc::CastStringToFloat64
            | UnaryFunc::CastJsonbToFloat64 => ScalarType::Float64,
            UnaryFunc::CastInt32ToDecimal
            | UnaryFunc::CastInt64ToDecimal => ScalarType::Decimal(MAX_DECIMAL_PRECISION, 0),
            UnaryFunc::CastStringToDecimal(s) => ScalarType::Decimal(MAX_DECIMAL_PRECISION, s),
            UnaryFunc::CastTimestampToDate
            | UnaryFunc::CastTimestampTzToDate
            | UnaryFunc::CastStringToDate => ScalarType::Date,
            UnaryFunc::CastIntervalToTime
            | UnaryFunc::CastStringToTime => ScalarType::Time,
            UnaryFunc::CastDateToTimestamp
            | UnaryFunc::CastTimestampTzToTimestamp
            | UnaryFunc::CastStringToTimestamp => ScalarType::Timestamp,
            UnaryFunc::CastDateToTimestampTz
            | UnaryFunc::CastTimestampToTimestampTz
            | UnaryFunc::CastStringToTimestampTz => ScalarType::TimestampTz,
            UnaryFunc::CastTimeToInterval
            | UnaryFunc::CastStringToInterval => ScalarType::Interval,
            UnaryFunc::CastStringToBytes => ScalarType::Bytes,
            UnaryFunc::CastBoolToStringExplicit
            | UnaryFunc::CastInt32ToString
            | UnaryFunc::CastInt64ToString
            | UnaryFunc::CastFloat32ToString
            | UnaryFunc::CastFloat64ToString
            | UnaryFunc::CastDecimalToString(_)
            | UnaryFunc::CastDateToString
            | UnaryFunc::CastTimeToString
            | UnaryFunc::CastTimestampToString
            | UnaryFunc::CastTimestampTzToString
            | UnaryFunc::CastIntervalToString
            | UnaryFunc::CastBytesToString
            | UnaryFunc::CastJsonbToString => ScalarType::String,
            UnaryFunc::CastStringToJsonb
            | UnaryFunc::CastJsonbOrNullToJsonb => ScalarType::Jsonb,
        }
    }

    /// Returns the type of what the function returns.
    #[verifier::when_used_as_spec(spec_output_type)]
    pub fn output_type(&self) -> (t: ScalarType)
        ensures
            t == self.spec_output_type(),
    {
        match self {
            UnaryFunc::CastInt32ToBool
            | UnaryFunc::CastInt64ToBool
            | UnaryFunc::CastStringToBool
            | UnaryFunc::CastJsonbToBool => ScalarType::Bool,
            UnaryFunc::CastInt64ToInt32
            | UnaryFunc::CastFloat64ToInt32
            | UnaryFunc::CastDecimalToInt32
            | UnaryFunc::CastStringToInt32 => ScalarType::Int32,
            UnaryFunc::CastInt32ToInt64
            | UnaryFunc::CastFloat32ToInt64
            | UnaryFunc::CastFloat64ToInt64
            | UnaryFunc::CastDecimalToInt64
            | UnaryFunc::CastStringToInt64 => ScalarType::Int64,
            UnaryFunc::CastInt32ToFloat32
            | UnaryFunc::CastInt64ToFloat32
            | UnaryFunc::CastSignificandToFloat32
            | UnaryFunc::CastStringToFloat32 => ScalarType::Float32,
            UnaryFunc::CastInt32ToFloat64
            | UnaryFunc::CastInt64ToFloat64
            | UnaryFunc::CastFloat32ToFloat64
            | UnaryFunc::CastSignificandToFloat64
            | UnaryFunc::CastStringToFloat64
            | UnaryFunc::CastJsonbToFloat64 => ScalarType::Float64,
            UnaryFunc::CastInt32ToDecimal
            | UnaryFunc::CastInt64ToDecimal => ScalarType::Decimal(MAX_DECIMAL_PRECISION, 0),
            UnaryFunc::CastStringToDecimal(s) => ScalarType::Decimal(MAX_DECIMAL_PRECISION, *s),
            UnaryFunc::CastTimestampToDate
            | UnaryFunc::CastTimestampTzToDate
            | UnaryFunc::CastStringToDate => ScalarType::Date,
            UnaryFunc::CastIntervalToTime
            | UnaryFunc::CastStringToTime => ScalarType::Time,
            UnaryFunc::CastDateToTimestamp
            | UnaryFunc::CastTimestampTzToTimestamp
            | UnaryFunc::CastStringToTimestamp => ScalarType::Timestamp,
            UnaryFunc::CastDateToTimestampTz
            | UnaryFunc::CastTimestampToTimestampTz
            | UnaryFunc::CastStringToTimestampTz => ScalarType::TimestampTz,
            UnaryFunc::CastTimeToInterval
            | UnaryFunc::CastStringToInterval => ScalarType::Interval,
            UnaryFunc::CastStringToBytes => ScalarType::Bytes,
            UnaryFunc::CastBoolToStringExplicit
            | UnaryFunc::CastInt32ToString
            | UnaryFunc::CastInt64ToString
            | UnaryFunc::CastFloat32ToString
            | UnaryFunc::CastFloat64ToString
            | UnaryFunc::CastDecimalToString(_)
            | UnaryFunc::CastDateToString
            | UnaryFunc::CastTimeToString
            | UnaryFunc::CastTimestampToString
            | UnaryFunc::CastTimestampTzToString
            | UnaryFunc::CastIntervalToString
            | UnaryFunc::CastBytesToString
            | UnaryFunc::CastJsonbToString => ScalarType::String,
            UnaryFunc::CastStringToJsonb
            | UnaryFunc::CastJsonbOrNullToJsonb => ScalarType::Jsonb,
        }
    }
}

/// A function of two arguments.
#[derive(Debug, Clone, Copy, PartialEq, Eq, Hash, Structural)]
pub enum BinaryFunc {
    /// Rounds the first argument to a decimal of the second argument's type;
    /// the second argument holds the scale.
    CastFloat32ToDecimal,
    /// Rounds the first argument to a decimal of the second argument's type;
    /// the second argument holds the scale.
    CastFloat64ToDecimal,
    DivFloat32,
    DivFloat64,
    /// Multiplies two decimals; their scales add up.
    MulDecimal,
    /// Divides two decimals; the scale of the second is taken off that of the
    /// first.
    DivDecimal,
}

impl BinaryFunc {
    /// Whether the function is meant for first arguments of type `t`.
    pub open spec fn accepts(self, t: ScalarType) -> bool {
        match self {
            BinaryFunc::CastFloat32ToDecimal | BinaryFunc::DivFloat32 => t is Float32,
            BinaryFunc::CastFloat64ToDecimal | BinaryFunc::DivFloat64 => t is Float64,
            BinaryFunc::MulDecimal | BinaryFunc::DivDecimal => t is Decimal,
        }
    }

    /// The type of what the function returns on arguments of types `t1` and
    /// `t2`, or `None` where decimals are wanted and others are given, or where
    /// no scale fits the result.
    pub open spec fn spec_output_type(self, t1: ScalarType, t2: ScalarType) -> Option<ScalarType> {
        match self {
            BinaryFunc::CastFloat32ToDecimal | BinaryFunc::CastFloat64ToDecimal => Some(t2),
            BinaryFunc::DivFloat32 => Some(ScalarType::Float32),
            BinaryFunc::DivFloat64 => Some(ScalarType::Float64),
            BinaryFunc::MulDecimal => match (t1, t2) {
                (ScalarType::Decimal(_, s1), ScalarType::Decimal(_, s2)) if s1 + s2 <= u8::MAX =>
                    Some(ScalarType::Decimal(MAX_DECIMAL_PRECISION, (s1 + s2) as u8)),
                _ => None,
            },
            BinaryFunc::DivDecimal => match (t1, t2) {
                (ScalarType::Decimal(_, s1), ScalarType::Decimal(_, s2)) if s2 <= s1 =>
                    Some(ScalarType::Decimal(MAX_DECIMAL_PRECISION, (s1 - s2) as u8)),
                _ => None,
            },
        }
    }

    /// Returns the type of what the function returns on arguments of types `t1`
    /// and `t2`.
    pub fn output_type(&self, t1: ScalarType, t2: ScalarType) -> (t: ScalarType)
        requires
            self.spec_output_type(t1, t2) is Some,
        ensures
            Some(t) == self.spec_output_type(t1, t2),
    {
        match self {
            BinaryFunc::CastFloat32ToDecimal | BinaryFunc::CastFloat64ToDecimal => t2,
            BinaryFunc::DivFloat32 => ScalarType::Float32,
            BinaryFunc::DivFloat64 => ScalarType::Float64,
            BinaryFunc::MulDecimal => {
                let (_, s1) = t1.unwrap_decimal_parts();
                let (_, s2) = t2.unwrap_decimal_parts();
                ScalarType::Decimal(MAX_DECIMAL_PRECISION, s1 + s2)
            },
            BinaryFunc::DivDecimal => {
                let (_, s1) = t1.unwrap_decimal_parts();
                let (_, s2) = t2.unwrap_decimal_parts();
                ScalarType::Decimal(MAX_DECIMAL_PRECISION, s1 - s2)
            },
        }
    }
}

/// An expression that computes a scalar.
#[allow(inconsistent_fields)]
#[derive(Debug, PartialEq, Eq, Hash)]
pub enum ScalarExpr {
    /// The value of the column at this position.
    Column(usize),
    /// A constant of a given type.
    Literal(Datum, ColumnType),
    CallUnary { func: UnaryFunc, expr: Box<ScalarExpr> },
    CallBinary { func: BinaryFunc, expr1: Box<ScalarExpr>, expr2: Box<ScalarExpr> },
}

impl ScalarExpr {
    /// The constant `datum` of type `typ`.
    pub open spec fn spec_literal(datum: Datum, typ: ColumnType) -> ScalarExpr {
        ScalarExpr::Literal(datum, typ)
    }

    /// Makes the constant `datum` of type `typ`.
    #[verifier::when_used_as_spec(spec_literal)]
    pub fn literal(datum: Datum, typ: ColumnType) -> (e: ScalarExpr)
        ensures
            e == Self::spec_literal(datum, typ),
            e == ScalarExpr::Literal(datum, typ),
    {
        ScalarExpr::Literal(datum, typ)
    }

    /// The call of `func` on `self`.
    pub open spec fn spec_call_unary(self, func: UnaryFunc) -> ScalarExpr {
        ScalarExpr::CallUnary { func, expr: Box::new(self) }
    }

    /// Makes the call of `func` on `self`.
    #[verifier::when_used_as_spec(spec_call_unary)]
    pub fn call_unary(self, func: UnaryFunc) -> (e: ScalarExpr)
        ensures
            e == self.spec_call_unary(func),
            e == (ScalarExpr::CallUnary { func, expr: Box::new(self) }),
    {
        ScalarExpr::CallUnary { func, expr: Box::new(self) }
    }

    /// The call of `func` on `self` and `other`.
    pub open spec fn spec_call_binary(self, other: ScalarExpr, func: BinaryFunc) -> ScalarExpr {
        ScalarExpr::CallBinary { func, expr1: Box::new(self), expr2: Box::new(other) }
    }

    /// Makes the call of `func` on `self` and `other`.
    #[verifier::when_used_as_spec(spec_call_binary)]
    pub fn call_binary(self, other: ScalarExpr, func: BinaryFunc) -> (e: ScalarExpr)
        ensures
            e == self.spec_call_binary(other, func),
            e == (ScalarExpr::CallBinary { func, expr1: Box::new(self), expr2: Box::new(other) }),
    {
        ScalarExpr::CallBinary { func, expr1: Box::new(self), expr2: Box::new(other) }
    }
}

/// What an expression is planned against: the columns that it may read.
#[derive(Debug, PartialEq, Eq, Hash)]
pub struct ExprContext {
    pub column_types: Vec<ColumnType>,
}

impl ExprContext {
    /// The type of `e`, or `None` if `e` reads a column that is not there or
    /// holds a call whose result has no type.
    pub open spec fn type_of(self, e: ScalarExpr) -> Option<ScalarType>
        decreases e,
    {
        match e {
            ScalarExpr::Column(i) => {
                if i < self.column_types@.len() {
                    Some(self.column_types@[i as int].scalar_type)
                } else {
                    None
                }
            },
            ScalarExpr::Literal(_, typ) => Some(typ.scalar_type),
            ScalarExpr::CallUnary { func, expr } => match self.type_of(*expr) {
                Some(_) => Some(func.output_type()),
                None => None,
            },
            ScalarExpr::CallBinary { func, expr1, expr2 } => match (
                self.type_of(*expr1),
                self.type_of(*expr2),
            ) {
                (Some(t1), Some(t2)) => func.spec_output_type(t1, t2),
                _ => None,
            },
        }
    }

    /// Whether every function that `e` calls is meant for the type of its
    /// first argument.
    pub open spec fn fits(self, e: ScalarExpr) -> bool
        decreases e,
    {
        match e {
            ScalarExpr::Column(_) => true,
            ScalarExpr::Literal(_, _) => true,
            ScalarExpr::CallUnary { func, expr } => {
                &&& self.fits(*expr)
                &&& self.type_of(*expr) matches Some(t) && func.accepts(t)
            },
            ScalarExpr::CallBinary { func, expr1, expr2 } => {
                &&& self.fits(*expr1)
                &&& self.fits(*expr2)
                &&& self.type_of(*expr1) matches Some(t) && func.accepts(t)
            },
        }
    }

    /// Returns the type of `expr`.
    pub fn scalar_type(&self, expr: &ScalarExpr) -> (t: ScalarType)
        requires
            self.type_of(*expr) is Some,
        ensures
            Some(t) == self.type_of(*expr),
        decreases expr,
    {
        match expr {
            ScalarExpr::Column(i) => self.column_types[*i].scalar_type,
            ScalarExpr::Literal(_, typ) => typ.scalar_type,
            ScalarExpr::CallUnary { func, expr: _ } => func.output_type(),
            ScalarExpr::CallBinary { func, expr1, expr2 } => {
                let t1 = self.scalar_type(expr1);
                let t2 = self.scalar_type(expr2);
                func.output_type(t1, t2)
            },
        }
    }
}

} // verus!
