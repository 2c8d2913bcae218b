//! What the texts of types and casts say.

use vstd::prelude::*;

use crate::cast::{CastFn, CastOp, CastTo};
use crate::expr::UnaryFunc;
use crate::scalar::ScalarType;
use crate::text::numeral;

verus! {

/// The number that a sequence of decimal digits is read as.
pub open spec fn number_read(digits: Seq<char>) -> int
    decreases digits.len(),
{
    if digits.len() == 0 {
        0
    } else {
        number_read(digits.drop_last()) * 10 + (digits.last() as int - '0' as int)
    }
}

/// A numeral is read as the number that it was written for; it holds decimal
/// digits alone, and starts with a zero only where that is all it holds.
pub proof fn lemma_numerals_read_back(n: nat)
    ensures
        number_read(numeral(n)) == n,
        numeral(n).len() > 0,
        forall|i: int| 0 <= i < numeral(n).len() ==> '0' <= #[trigger] numeral(n)[i] <= '9',
        n > 0 ==> numeral(n)[0] != '0',
    decreases n,
{
    reveal_with_fuel(number_read, 2);
    if n >= 10 {
        lemma_numerals_read_back(n / 10);
        let init = numeral(n / 10);
        assert(numeral(n).drop_last() =~= init);
        assert forall|i: int| 0 <= i < numeral(n).len() implies '0' <= #[trigger] numeral(n)[i]
            <= '9' by {
            if i < init.len() {
                assert(numeral(n)[i] == init[i]);
            }
        }
        assert(numeral(n)[0] == init[0]);
    }
}

/// The word that names of functions have for a type.
pub open spec fn word_for(t: ScalarType) -> Seq<char> {
    match t {
        ScalarType::Bool => "Bool"@,
        ScalarType::Int32 => "Int32"@,
        ScalarType::Int64 => "Int64"@,
        ScalarType::Float32 => "Float32"@,
        ScalarType::Float64 => "Float64"@,
        ScalarType::Decimal(_, _) => "Decimal"@,
        ScalarType::Date => "Date"@,
        ScalarType::Time => "Time"@,
        ScalarType::Timestamp => "Timestamp"@,
        ScalarType::TimestampTz => "TimestampTz"@,
        ScalarType::Interval => "Interval"@,
        ScalarType::Bytes => "Bytes"@,
        ScalarType::String => "String"@,
        ScalarType::Jsonb => "Jsonb"@,
    }
}

/// The word that the name of a function has for what it takes: the type, but for
/// those that take the digits of a decimal, or any value with a JSON form.
pub open spec fn word_for_argument(u: UnaryFunc, t: ScalarType) -> Seq<char> {
    match u {
        UnaryFunc::CastSignificandToFloat32 => "Significand"@,
        UnaryFunc::CastSignificandToFloat64 => "Significand"@,
        UnaryFunc::CastJsonbOrNullToJsonb => "JsonbOrNull"@,
        _ => word_for(t),
    }
}

/// Every function takes values of some type.
pub proof fn lemma_every_function_takes_a_type(u: UnaryFunc)
    ensures
        exists|t: ScalarType| u.accepts(t),
{
    if let UnaryFunc::CastDecimalToString(s) = u {
        assert(u.accepts(ScalarType::Decimal(0, s)));
    } else {
        assert(u.accepts(ScalarType::Bool) || u.accepts(ScalarType::Int32) || u.accepts(ScalarType::Int64) || u.accepts(ScalarType::Float32) || u.accepts(ScalarType::Float64) || u.accepts(ScalarType::Decimal(0, 0)) || u.accepts(ScalarType::Date) || u.accepts(ScalarType::Time) || u.accepts(ScalarType::Timestamp) || u.accepts(ScalarType::TimestampTz) || u.accepts(ScalarType::Interval) || u.accepts(ScalarType::Bytes) || u.accepts(ScalarType::String) || u.accepts(ScalarType::Jsonb));
    }
}

/// A function is named after what it takes and what it returns.
pub proof fn lemma_functions_are_named_after_their_types(u: UnaryFunc, t: ScalarType)
    requires
        u.accepts(t),
    ensures
        !(u is CastBoolToStringExplicit) ==> u.spec_name() == "Cast"@ + word_for_argument(u, t)
            + "To"@ + word_for(u.output_type()),
        u is CastBoolToStringExplicit ==> u.spec_name() == "Cast"@ + word_for(t) + "To"@ + word_for(
            u.output_type(),
        ) + "Explicit"@,
{
    reveal_strlit("Cast");
    reveal_strlit("To");
    reveal_strlit("Explicit");
    reveal_strlit("Significand");
    reveal_strlit("JsonbOrNull");
    reveal_strlit("Bool");
    reveal_strlit("Int32");
    reveal_strlit("Int64");
    reveal_strlit("Float32");
    reveal_strlit("Float64");
    reveal_strlit("Decimal");
    reveal_strlit("Date");
    reveal_strlit("Time");
    reveal_strlit("Timestamp");
    reveal_strlit("TimestampTz");
    reveal_strlit("Interval");
    reveal_strlit("Bytes");
    reveal_strlit("String");
    reveal_strlit("Jsonb");
    match u {
        UnaryFunc::CastBoolToStringExplicit => {
            reveal_strlit("CastBoolToStringExplicit");
        },
        UnaryFunc::CastInt32ToBool => {
            reveal_strlit("CastInt32ToBool");
        },
        UnaryFunc::CastInt32ToInt64 => {
            reveal_strlit("CastInt32ToInt64");
        },
        UnaryFunc::CastInt32ToFloat32 => {
            reveal_strlit("CastInt32ToFloat32");
        },
        UnaryFunc::CastInt32ToFloat64 => {
            reveal_strlit("CastInt32ToFloat64");
        },
        UnaryFunc::CastInt32ToDecimal => {
            reveal_strlit("CastInt32ToDecimal");
        },
        UnaryFunc::CastInt32ToString => {
            reveal_strlit("CastInt32ToString");
        },
        UnaryFunc::CastInt64ToBool => {
            reveal_strlit("CastInt64ToBool");
        },
        UnaryFunc::CastInt64ToInt32 => {
            reveal_strlit("CastInt64ToInt32");
        },
        UnaryFunc::CastInt64ToDecimal => {
            reveal_strlit("CastInt64ToDecimal");
        },
        UnaryFunc::CastInt64ToFloat32 => {
            reveal_strlit("CastInt64ToFloat32");
        },
        UnaryFunc::CastInt64ToFloat64 => {
            reveal_strlit("CastInt64ToFloat64");
        },
        UnaryFunc::CastInt64ToString => {
            reveal_strlit("CastInt64ToString");
        },
        UnaryFunc::CastFloat32ToInt64 => {
            reveal_strlit("CastFloat32ToInt64");
        },
        UnaryFunc::CastFloat32ToFloat64 => {
            reveal_strlit("CastFloat32ToFloat64");
        },
        UnaryFunc::CastFloat32ToString => {
            reveal_strlit("CastFloat32ToString");
        },
        UnaryFunc::CastFloat64ToInt32 => {
            reveal_strlit("CastFloat64ToInt32");
        },
        UnaryFunc::CastFloat64ToInt64 => {
            reveal_strlit("CastFloat64ToInt64");
        },
        UnaryFunc::CastFloat64ToString => {
            reveal_strlit("CastFloat64ToString");
        },
        UnaryFunc::CastDecimalToInt32 => {
            reveal_strlit("CastDecimalToInt32");
        },
        UnaryFunc::CastDecimalToInt64 => {
            reveal_strlit("CastDecimalToInt64");
        },
        UnaryFunc::CastSignificandToFloat32 => {
            reveal_strlit("CastSignificandToFloat32");
        },
        UnaryFunc::CastSignificandToFloat64 => {
            reveal_strlit("CastSignificandToFloat64");
        },
        UnaryFunc::CastDecimalToString(_) => {
            reveal_strlit("CastDecimalToString");
        },
        UnaryFunc::CastDateToTimestamp => {
            reveal_strlit("CastDateToTimestamp");
        },
        UnaryFunc::CastDateToTimestampTz => {
            reveal_strlit("CastDateToTimestampTz");
        },
        UnaryFunc::CastDateToString => {
            reveal_strlit("CastDateToString");
        },
        UnaryFunc::CastTimeToInterval => {
            reveal_strlit("CastTimeToInterval");
        },
        UnaryFunc::CastTimeToString => {
            reveal_strlit("CastTimeToString");
        },
        UnaryFunc::CastTimestampToDate => {
            reveal_strlit("CastTimestampToDate");
        },
        UnaryFunc::CastTimestampToTimestampTz => {
            reveal_strlit("CastTimestampToTimestampTz");
        },
        UnaryFunc::CastTimestampToString => {
            reveal_strlit("CastTimestampToString");
        },
        UnaryFunc::CastTimestampTzToDate => {
            reveal_strlit("CastTimestampTzToDate");
        },
        UnaryFunc::CastTimestampTzToTimestamp => {
            reveal_strlit("CastTimestampTzToTimestamp");
        },
        UnaryFunc::CastTimestampTzToString => {
            reveal_strlit("CastTimestampTzToString");
        },
        UnaryFunc::CastIntervalToTime => {
            reveal_strlit("CastIntervalToTime");
        },
        UnaryFunc::CastIntervalToString => {
            reveal_strlit("CastIntervalToString");
        },
        UnaryFunc::CastBytesToString => {
            reveal_strlit("CastBytesToString");
        },
        UnaryFunc::CastStringToBool => {
            reveal_strlit("CastStringToBool");
        },
        UnaryFunc::CastStringToInt32 => {
            reveal_strlit("CastStringToInt32");
        },
        UnaryFunc::CastStringToInt64 => {
            reveal_strlit("CastStringToInt64");
        },
        UnaryFunc::CastStringToFloat32 => {
            reveal_strlit("CastStringToFloat32");
        },
        UnaryFunc::CastStringToFloat64 => {
            reveal_strlit("CastStringToFloat64");
        },
        UnaryFunc::CastStringToDecimal(_) => {
            reveal_strlit("CastStringToDecimal");
        },
        UnaryFunc::CastStringToDate => {
            reveal_strlit("CastStringToDate");
        },
        UnaryFunc::CastStringToTime => {
            reveal_strlit("CastStringToTime");
        },
        UnaryFunc::CastStringToTimestamp => {
            reveal_strlit("CastStringToTimestamp");
        },
        UnaryFunc::CastStringToTimestampTz => {
            reveal_strlit("CastStringToTimestampTz");
        },
        UnaryFunc::CastStringToInterval => {
            reveal_strlit("CastStringToInterval");
        },
        UnaryFunc::CastStringToBytes => {
            reveal_strlit("CastStringToBytes");
        },
        UnaryFunc::CastStringToJsonb => {
            reveal_strlit("CastStringToJsonb");
        },
        UnaryFunc::CastJsonbToBool => {
            reveal_strlit("CastJsonbToBool");
        },
        UnaryFunc::CastJsonbToFloat64 => {
            reveal_strlit("CastJsonbToFloat64");
        },
        UnaryFunc::CastJsonbToString => {
            reveal_strlit("CastJsonbToString");
        },
        UnaryFunc::CastJsonbOrNullToJsonb => {
            reveal_strlit("CastJsonbOrNullToJsonb");
        },
    }
    if u is CastBoolToStringExplicit {
        assert(u.spec_name() =~= "Cast"@ + word_for(t) + "To"@ + word_for(u.output_type())
            + "Explicit"@);
    } else {
        assert(u.spec_name() =~= "Cast"@ + word_for_argument(u, t) + "To"@ + word_for(
            u.output_type(),
        ));
    }
}

/// A call is shown to developers by the name of its function, with the scale
/// behind it where the function has one; all other casts are shown alike.
pub proof fn lemma_texts_of_casts(u: UnaryFunc, f: CastFn, s: u8)
    ensures
        CastOp::F(f).spec_debug_text() == "CastOp::F"@,
        CastOp::U(u).spec_debug_text() == "CastOp::U("@ + u.spec_debug_text() + ")"@,
        UnaryFunc::CastDecimalToString(s).spec_debug_text() == "CastDecimalToString"@ + "("@
            + numeral(s as nat) + ")"@,
        UnaryFunc::CastStringToDecimal(s).spec_debug_text() == "CastStringToDecimal"@ + "("@
            + numeral(s as nat) + ")"@,
        !(u is CastDecimalToString) && !(u is CastStringToDecimal) ==> u.spec_debug_text()
            == u.spec_name(),
{
}

/// A target is shown as its type, be it implicit or explicit, and as `jsonbany`
/// where it names none; a type is shown by its name, with its precision and scale
/// behind it if it is a decimal.
pub proof fn lemma_texts_of_targets(t: ScalarType, p: u8, s: u8)
    ensures
        CastTo::Implicit(t).spec_display_text() == t.spec_display_text(),
        CastTo::Explicit(t).spec_display_text() == t.spec_display_text(),
        CastTo::JsonbAny.spec_display_text() == "jsonbany"@,
        !(t is Decimal) ==> t.spec_display_text() == t.spec_name(),
        ScalarType::Decimal(p, s).spec_display_text() == "decimal"@ + "("@ + numeral(p as nat)
            + ", "@ + numeral(s as nat) + ")"@,
{
}

/// The lower-case letter for an upper-case one; other characters as they are.
pub open spec fn lower(c: char) -> char {
    if 'A' <= c <= 'Z' {
        (c as int + 32) as char
    } else {
        c
    }
}

/// A word in lower case.
pub open spec fn lower_case(word: Seq<char>) -> Seq<char> {
    word.map_values(|c: char| lower(c))
}

/// The first letter of a word, in lower case, and its last two characters.
pub open spec fn short_form(word: Seq<char>) -> Seq<char> {
    seq![lower(word[0]), word[word.len() - 2], word[word.len() - 1]]
}

/// Integers and floats are shown by their first letter and their width, all other
/// types by their word in lower case.
pub proof fn lemma_names_of_types(t: ScalarType)
    ensures
        t is Int32 || t is Int64 || t is Float32 || t is Float64 ==> t.spec_name() == short_form(
            word_for(t),
        ),
        !(t is Int32 || t is Int64 || t is Float32 || t is Float64) ==> t.spec_name() == lower_case(
            word_for(t),
        ),
{
    reveal_strlit("Bool");
    reveal_strlit("Int32");
    reveal_strlit("Int64");
    reveal_strlit("Float32");
    reveal_strlit("Float64");
    reveal_strlit("Decimal");
    reveal_strlit("Date");
    reveal_strlit("Time");
    reveal_strlit("Timestamp");
    reveal_strlit("TimestampTz");
    reveal_strlit("Interval");
    reveal_strlit("Bytes");
    reveal_strlit("String");
    reveal_strlit("Jsonb");
    reveal_strlit("bool");
    reveal_strlit("i32");
    reveal_strlit("i64");
    reveal_strlit("f32");
    reveal_strlit("f64");
    reveal_strlit("decimal");
    reveal_strlit("date");
    reveal_strlit("time");
    reveal_strlit("timestamp");
    reveal_strlit("timestamptz");
    reveal_strlit("interval");
    reveal_strlit("bytes");
    reveal_strlit("string");
    reveal_strlit("jsonb");
    match t {
        ScalarType::Bool => {
            assert("bool"@ =~= lower_case("Bool"@));
        },
        ScalarType::Int32 => {
            assert("i32"@ =~= short_form("Int32"@));
        },
        ScalarType::Int64 => {
            assert("i64"@ =~= short_form("Int64"@));
        },
        ScalarType::Float32 => {
            assert("f32"@ =~= short_form("Float32"@));
        },
        ScalarType::Float64 => {
            assert("f64"@ =~= short_form("Float64"@));
        },
        ScalarType::Decimal(_, _) => {
            assert("decimal"@ =~= lower_case("Decimal"@));
        },
        ScalarType::Date => {
            assert("date"@ =~= lower_case("Date"@));
        },
        ScalarType::Time => {
            assert("time"@ =~= lower_case("Time"@));
        },
        ScalarType::Timestamp => {
            assert("timestamp"@ =~= lower_case("Timestamp"@));
        },
        ScalarType::TimestampTz => {
            assert("timestamptz"@ =~= lower_case("TimestampTz"@));
        },
        ScalarType::Interval => {
            assert("interval"@ =~= lower_case("Interval"@));
        },
        ScalarType::Bytes => {
            assert("bytes"@ =~= lower_case("Bytes"@));
        },
        ScalarType::String => {
            assert("string"@ =~= lower_case("String"@));
        },
        ScalarType::Jsonb => {
            assert("jsonb"@ =~= lower_case("Jsonb"@));
        },
    }
}

/// Types that have the same name are equal, or both decimals.
pub proof fn lemma_names_tell_types_apart(t1: ScalarType, t2: ScalarType)
    requires
        t1.spec_name() == t2.spec_name(),
    ensures
        t1 == t2 || (t1 is Decimal && t2 is Decimal),
{
    reveal_strlit("bool");
    reveal_strlit("i32");
    reveal_strlit("i64");
    reveal_strlit("f32");
    reveal_strlit("f64");
    reveal_strlit("decimal");
    reveal_strlit("date");
    reveal_strlit("time");
    reveal_strlit("timestamp");
    reveal_strlit("timestamptz");
    reveal_strlit("interval");
    reveal_strlit("bytes");
    reveal_strlit("string");
    reveal_strlit("jsonb");
    assert("bool"@.len() == 4 && "bool"@[0] == 'b');
    assert("i32"@.len() == 3 && "i32"@[0] == 'i');
    assert("i64"@.len() == 3 && "i64"@[0] == 'i');
    assert("f32"@.len() == 3 && "f32"@[0] == 'f');
    assert("f64"@.len() == 3 && "f64"@[0] == 'f');
    assert("decimal"@.len() == 7 && "decimal"@[0] == 'd');
    assert("date"@.len() == 4 && "date"@[0] == 'd');
    assert("time"@.len() == 4 && "time"@[0] == 't');
    assert("timestamp"@.len() == 9 && "timestamp"@[0] == 't');
    assert("timestamptz"@.len() == 11 && "timestamptz"@[0] == 't');
    assert("interval"@.len() == 8 && "interval"@[0] == 'i');
    assert("bytes"@.len() == 5 && "bytes"@[0] == 'b');
    assert("string"@.len() == 6 && "string"@[0] == 's');
    assert("jsonb"@.len() == 5 && "jsonb"@[0] == 'j');
    assert("i32"@[1] == '3' && "i64"@[1] == '6' && "f32"@[1] == '3' && "f64"@[1] == '6');
    let name = t1.spec_name();
    assert(name.len() == t2.spec_name().len() && name[0] == t2.spec_name()[0] && name[1]
        == t2.spec_name()[1]);
}

} // verus!
