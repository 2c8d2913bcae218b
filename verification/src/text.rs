//! How types and casts are written out.
//!
//! The names under which types are shown are this library's own choice.

use vstd::prelude::*;

use crate::cast::{CastOp, CastTo};
use crate::expr::UnaryFunc;
use crate::scalar::ScalarType;

verus! {

/// The decimal numeral of `n`.
pub open spec fn numeral(n: nat) -> Seq<char>
    decreases n,
{
    if n < 10 {
        seq![(48 + n) as char]
    } else {
        numeral(n / 10).push((48 + n % 10) as char)
    }
}

/// Returns the numeral of a number of one digit.
fn digit(n: u8) -> (s: &'static str)
    requires
        n < 10,
    ensures
        s@ == numeral(n as nat),
{
    proof {
        reveal_strlit("0");
        reveal_strlit("1");
        reveal_strlit("2");
        reveal_strlit("3");
        reveal_strlit("4");
        reveal_strlit("5");
        reveal_strlit("6");
        reveal_strlit("7");
        reveal_strlit("8");
        reveal_strlit("9");
    }
    match n {
        0 => "0",
        1 => "1",
        2 => "2",
        3 => "3",
        4 => "4",
        5 => "5",
        6 => "6",
        7 => "7",
        8 => "8",
        _ => "9",
    }
}

/// Writes the numeral of `n` behind `out`.
fn append_numeral(out: &mut String, n: u8)
    ensures
        final(out)@ == old(out)@ + numeral(n as nat),
    decreases n,
{
    if n >= 10 {
        append_numeral(out, n / 10);
    }
    out.append(digit(n % 10));
    assert(out@ =~= old(out)@ + numeral(n as nat));
}

impl ScalarType {
    /// The name of the type, without its parameters.
    pub open spec fn spec_name(&self) -> Seq<char> {
        match *self {
            ScalarType::Bool => "bool"@,
            ScalarType::Int32 => "i32"@,
            ScalarType::Int64 => "i64"@,
            ScalarType::Float32 => "f32"@,
            ScalarType::Float64 => "f64"@,
            ScalarType::Decimal(_, _) => "decimal"@,
            ScalarType::Date => "date"@,
            ScalarType::Time => "time"@,
            ScalarType::Timestamp => "timestamp"@,
            ScalarType::TimestampTz => "timestamptz"@,
            ScalarType::Interval => "interval"@,
            ScalarType::Bytes => "bytes"@,
            ScalarType::String => "string"@,
            ScalarType::Jsonb => "jsonb"@,
        }
    }

    /// Returns the name of the type, without its parameters.
    pub fn name(&self) -> (s: &'static str)
        ensures
            s@ == self.spec_name(),
    {
        match self {
            ScalarType::Bool => "bool",
            ScalarType::Int32 => "i32",
            ScalarType::Int64 => "i64",
            ScalarType::Float32 => "f32",
            ScalarType::Float64 => "f64",
            ScalarType::Decimal(_, _) => "decimal",
            ScalarType::Date => "date",
            ScalarType::Time => "time",
            ScalarType::Timestamp => "timestamp",
            ScalarType::TimestampTz => "timestamptz",
            ScalarType::Interval => "interval",
            ScalarType::Bytes => "bytes",
            ScalarType::String => "string",
            ScalarType::Jsonb => "jsonb",
        }
    }

    /// The type as it is shown to users: its name and its parameters.
    pub open spec fn spec_display_text(&self) -> Seq<char> {
        match *self {
            ScalarType::Decimal(p, s) => {
                self.spec_name() + "("@ + numeral(p as nat) + ", "@ + numeral(s as nat) + ")"@
            },
            _ => self.spec_name(),
        }
    }

    /// Returns the type as it is shown to users: its name and its parameters.
    pub fn display_text(&self) -> (s: String)
        ensures
            s@ == self.spec_display_text(),
    {
        let mut out = String::from_str(self.name());
        if let ScalarType::Decimal(p, s) = self {
            out.append("(");
            append_numeral(&mut out, *p);
            out.append(", ");
            append_numeral(&mut out, *s);
            out.append(")");
        }
        out
    }
}

impl CastTo {
    /// The target as it is shown to users: its type, or `jsonbany`.
    pub open spec fn spec_display_text(&self) -> Seq<char> {
        match *self {
            CastTo::Implicit(t) => t.spec_display_text(),
            CastTo::Explicit(t) => t.spec_display_text(),
            CastTo::JsonbAny => "jsonbany"@,
        }
    }

    /// Returns the target as it is shown to users: its type, or `jsonbany`.
    pub fn display_text(&self) -> (s: String)
        ensures
            s@ == self.spec_display_text(),
    {
        match self {
            CastTo::Implicit(t) | CastTo::Explicit(t) => t.display_text(),
            CastTo::JsonbAny => String::from_str("jsonbany"),
        }
    }
}

impl UnaryFunc {
    /// The name of the function, without its parameters.
    pub open spec fn spec_name(&self) -> Seq<char> {
        match *self {
            UnaryFunc::CastBoolToStringExplicit => "CastBoolToStringExplicit"@,
            UnaryFunc::CastInt32ToBool => "CastInt32ToBool"@,
            UnaryFunc::CastInt32ToInt64 => "CastInt32ToInt64"@,
            UnaryFunc::CastInt32ToFloat32 => "CastInt32ToFloat32"@,
            UnaryFunc::CastInt32ToFloat64 => "CastInt32ToFloat64"@,
            UnaryFunc::CastInt32ToDecimal => "CastInt32ToDecimal"@,
            UnaryFunc::CastInt32ToString => "CastInt32ToString"@,
            UnaryFunc::CastInt64ToBool => "CastInt64ToBool"@,
            UnaryFunc::CastInt64ToInt32 => "CastInt64ToInt32"@,
            UnaryFunc::CastInt64ToDecimal => "CastInt64ToDecimal"@,
            UnaryFunc::CastInt64ToFloat32 => "CastInt64ToFloat32"@,
            UnaryFunc::CastInt64ToFloat64 => "CastInt64ToFloat64"@,
            UnaryFunc::CastInt64ToString => "CastInt64ToString"@,
            UnaryFunc::CastFloat32ToInt64 => "CastFloat32ToInt64"@,
            UnaryFunc::CastFloat32ToFloat64 => "CastFloat32ToFloat64"@,
            UnaryFunc::CastFloat32ToString => "CastFloat32ToString"@,
            UnaryFunc::CastFloat64ToInt32 => "CastFloat64ToInt32"@,
            UnaryFunc::CastFloat64ToInt64 => "CastFloat64ToInt64"@,
            UnaryFunc::CastFloat64ToString => "CastFloat64ToString"@,
            UnaryFunc::CastDecimalToInt32 => "CastDecimalToInt32"@,
            UnaryFunc::CastDecimalToInt64 => "CastDecimalToInt64"@,
            UnaryFunc::CastSignificandToFloat32 => "CastSignificandToFloat32"@,
            UnaryFunc::CastSignificandToFloat64 => "CastSignificandToFloat64"@,
            UnaryFunc::CastDecimalToString(_) => "CastDecimalToString"@,
            UnaryFunc::CastDateToTimestamp => "CastDateToTimestamp"@,
            UnaryFunc::CastDateToTimestampTz => "CastDateToTimestampTz"@,
            UnaryFunc::CastDateToString => "CastDateToString"@,
            UnaryFunc::CastTimeToInterval => "CastTimeToInterval"@,
            UnaryFunc::CastTimeToString => "CastTimeToString"@,
            UnaryFunc::CastTimestampToDate => "CastTimestampToDate"@,
            UnaryFunc::CastTimestampToTimestampTz => "CastTimestampToTimestampTz"@,
            UnaryFunc::CastTimestampToString => "CastTimestampToString"@,
            UnaryFunc::CastTimestampTzToDate => "CastTimestampTzToDate"@,
            UnaryFunc::CastTimestampTzToTimestamp => "CastTimestampTzToTimestamp"@,
            UnaryFunc::CastTimestampTzToString => "CastTimestampTzToString"@,
            UnaryFunc::CastIntervalToTime => "CastIntervalToTime"@,
            UnaryFunc::CastIntervalToString => "CastIntervalToString"@,
            UnaryFunc::CastBytesToString => "CastBytesToString"@,
            UnaryFunc::CastStringToBool => "CastStringToBool"@,
            UnaryFunc::CastStringToInt32 => "CastStringToInt32"@,
            UnaryFunc::CastStringToInt64 => "CastStringToInt64"@,
            UnaryFunc::CastStringToFloat32 => "CastStringToFloat32"@,
            UnaryFunc::CastStringToFloat64 => "CastStringToFloat64"@,
            UnaryFunc::CastStringToDecimal(_) => "CastStringToDecimal"@,
            UnaryFunc::CastStringToDate => "CastStringToDate"@,
            UnaryFunc::CastStringToTime => "CastStringToTime"@,
            UnaryFunc::CastStringToTimestamp => "CastStringToTimestamp"@,
            UnaryFunc::CastStringToTimestampTz => "CastStringToTimestampTz"@,
            UnaryFunc::CastStringToInterval => "CastStringToInterval"@,
            UnaryFunc::CastStringToBytes => "CastStringToBytes"@,
            UnaryFunc::CastStringToJsonb => "CastStringToJsonb"@,
            UnaryFunc::CastJsonbToBool => "CastJsonbToBool"@,
            UnaryFunc::CastJsonbToFloat64 => "CastJsonbToFloat64"@,
            UnaryFunc::CastJsonbToString => "CastJsonbToString"@,
            UnaryFunc::CastJsonbOrNullToJsonb => "CastJsonbOrNullToJsonb"@,
        }
    }

    /// Returns the name of the function, without its parameters.
    pub fn name(&self) -> (s: &'static str)
        ensures
            s@ == self.spec_name(),
    {
        match self {
            UnaryFunc::CastBoolToStringExplicit => "CastBoolToStringExplicit",
            UnaryFunc::CastInt32ToBool => "CastInt32ToBool",
            UnaryFunc::CastInt32ToInt64 => "CastInt32ToInt64",
            UnaryFunc::CastInt32ToFloat32 => "CastInt32ToFloat32",
            UnaryFunc::CastInt32ToFloat64 => "CastInt32ToFloat64",
            UnaryFunc::CastInt32ToDecimal => "CastInt32ToDecimal",
            UnaryFunc::CastInt32ToString => "CastInt32ToString",
            UnaryFunc::CastInt64ToBool => "CastInt64ToBool",
            UnaryFunc::CastInt64ToInt32 => "CastInt64ToInt32",
            UnaryFunc::CastInt64ToDecimal => "CastInt64ToDecimal",
            UnaryFunc::CastInt64ToFloat32 => "CastInt64ToFloat32",
            UnaryFunc::CastInt64ToFloat64 => "CastInt64ToFloat64",
            UnaryFunc::CastInt64ToString => "CastInt64ToString",
            UnaryFunc::CastFloat32ToInt64 => "CastFloat32ToInt64",
            UnaryFunc::CastFloat32ToFloat64 => "CastFloat32ToFloat64",
            UnaryFunc::CastFloat32ToString => "CastFloat32ToString",
            UnaryFunc::CastFloat64ToInt32 => "CastFloat64ToInt32",
            UnaryFunc::CastFloat64ToInt64 => "CastFloat64ToInt64",
            UnaryFunc::CastFloat64ToString => "CastFloat64ToString",
            UnaryFunc::CastDecimalToInt32 => "CastDecimalToInt32",
            UnaryFunc::CastDecimalToInt64 => "CastDecimalToInt64",
            UnaryFunc::CastSignificandToFloat32 => "CastSignificandToFloat32",
            UnaryFunc::CastSignificandToFloat64 => "CastSignificandToFloat64",
            UnaryFunc::CastDecimalToString(_) => "CastDecimalToString",
            UnaryFunc::CastDateToTimestamp => "CastDateToTimestamp",
            UnaryFunc::CastDateToTimestampTz => "CastDateToTimestampTz",
            UnaryFunc::CastDateToString => "CastDateToString",
            UnaryFunc::CastTimeToInterval => "CastTimeToInterval",
            UnaryFunc::CastTimeToString => "CastTimeToString",
            UnaryFunc::CastTimestampToDate => "CastTimestampToDate",
            UnaryFunc::CastTimestampToTimestampTz => "CastTimestampToTimestampTz",
            UnaryFunc::CastTimestampToString => "CastTimestampToString",
            UnaryFunc::CastTimestampTzToDate => "CastTimestampTzToDate",
            UnaryFunc::CastTimestampTzToTimestamp => "CastTimestampTzToTimestamp",
            UnaryFunc::CastTimestampTzToString => "CastTimestampTzToString",
            UnaryFunc::CastIntervalToTime => "CastIntervalToTime",
            UnaryFunc::CastIntervalToString => "CastIntervalToString",
            UnaryFunc::CastBytesToString => "CastBytesToString",
            UnaryFunc::CastStringToBool => "CastStringToBool",
            UnaryFunc::CastStringToInt32 => "CastStringToInt32",
            UnaryFunc::CastStringToInt64 => "CastStringToInt64",
            UnaryFunc::CastStringToFloat32 => "CastStringToFloat32",
            UnaryFunc::CastStringToFloat64 => "CastStringToFloat64",
            UnaryFunc::CastStringToDecimal(_) => "CastStringToDecimal",
            UnaryFunc::CastStringToDate => "CastStringToDate",
            UnaryFunc::CastStringToTime => "CastStringToTime",
            UnaryFunc::CastStringToTimestamp => "CastStringToTimestamp",
            UnaryFunc::CastStringToTimestampTz => "CastStringToTimestampTz",
            UnaryFunc::CastStringToInterval => "CastStringToInterval",
            UnaryFunc::CastStringToBytes => "CastStringToBytes",
            UnaryFunc::CastStringToJsonb => "CastStringToJsonb",
            UnaryFunc::CastJsonbToBool => "CastJsonbToBool",
            UnaryFunc::CastJsonbToFloat64 => "CastJsonbToFloat64",
            UnaryFunc::CastJsonbToString => "CastJsonbToString",
            UnaryFunc::CastJsonbOrNullToJsonb => "CastJsonbOrNullToJsonb",
        }
    }

    /// The function as it is shown to developers: its name and its parameters.
    pub open spec fn spec_debug_text(&self) -> Seq<char> {
        match *self {
            UnaryFunc::CastDecimalToString(s) | UnaryFunc::CastStringToDecimal(s) => {
                self.spec_name() + "("@ + numeral(s as nat) + ")"@
            },
            _ => self.spec_name(),
        }
    }

    /// Returns the function as it is shown to developers: its name and its
    /// parameters.
    pub fn debug_text(&self) -> (s: String)
        ensures
            s@ == self.spec_debug_text(),
    {
        let mut out = String::from_str(self.name());
        match self {
            UnaryFunc::CastDecimalToString(s) | UnaryFunc::CastStringToDecimal(s) => {
                out.append("(");
                append_numeral(&mut out, *s);
                out.append(")");
            },
            _ => {},
        }
        out
    }
}

impl CastOp {
    /// The cast as it is shown to developers: a call names its function, a plan
    /// of its own is not told apart from others.
    pub open spec fn spec_debug_text(&self) -> Seq<char> {
        match *self {
            CastOp::U(u) => "CastOp::U("@ + u.spec_debug_text() + ")"@,
            CastOp::F(_) => "CastOp::F"@,
        }
    }

    /// Returns the cast as it is shown to developers: a call names its function,
    /// a plan of its own is not told apart from others.
    pub fn debug_text(&self) -> (s: String)
        ensures
            s@ == self.spec_debug_text(),
    {
        match self {
            CastOp::U(u) => {
                let mut out = String::from_str("CastOp::U(");
                out.append(u.debug_text().as_str());
                out.append(")");
                out
            },
            CastOp::F(_) => String::from_str("CastOp::F"),
        }
    }
}

} // verus!
