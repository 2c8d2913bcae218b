//! Scalar types and column types.

use vstd::prelude::*;

verus! {

/// The number of digits that the widest decimal holds.
pub const MAX_DECIMAL_PRECISION: u8 = 38;

/// The type of a scalar value.
#[derive(Debug, Clone, Copy, PartialEq, Eq, Hash, Structural)]
pub enum ScalarType {
    Bool,
    Int32,
    Int64,
    Float32,
    Float64,
    /// An exact number of so many digits (the precision), so many of them
    /// behind the decimal point (the scale).
    Decimal(u8, u8),
    Date,
    Time,
    Timestamp,
    TimestampTz,
    Interval,
    Bytes,
    String,
    Jsonb,
}

impl ScalarType {
    /// The type with its parameters set to zero.
    pub open spec fn spec_desaturate(&self) -> ScalarType {
        match *self {
            ScalarType::Decimal(_, _) => ScalarType::Decimal(0, 0),
            t => t,
        }
    }

    /// Returns the type with its parameters set to zero, which is how the
    /// catalog of casts names it.
    #[verifier::when_used_as_spec(spec_desaturate)]
    pub fn desaturate(&self) -> (t: ScalarType)
        ensures
            t == self.spec_desaturate(),
            *self is Decimal ==> t == ScalarType::Decimal(0, 0),
            !(*self is Decimal) ==> t == *self,
    {
        match self {
            ScalarType::Decimal(_, _) => ScalarType::Decimal(0, 0),
            _ => *self,
        }
    }

    /// Returns the precision and the scale of a decimal type.
    pub fn unwrap_decimal_parts(&self) -> (parts: (u8, u8))
        requires
            self is Decimal,
        ensures
            *self == ScalarType::Decimal(parts.0, parts.1),
    {
        match self {
            ScalarType::Decimal(p, s) => (*p, *s),
            _ => (0, 0),
        }
    }

    /// The scale of a decimal type; zero for every other type.
    pub open spec fn scale(self) -> u8 {
        match self {
            ScalarType::Decimal(_, s) => s,
            _ => 0,
        }
    }

    /// Whether two types are the same but for the precision of a decimal.
    pub open spec fn agrees_with(self, other: ScalarType) -> bool {
        &&& self.desaturate() == other.desaturate()
        &&& self.scale() == other.scale()
    }
}

/// The type of a column.
#[derive(Debug, Clone, Copy, PartialEq, Eq, Hash, Structural)]
pub struct ColumnType {
    pub scalar_type: ScalarType,
}

impl ColumnType {
    /// The column type over `scalar_type`.
    pub open spec fn spec_new(scalar_type: ScalarType) -> ColumnType {
        ColumnType { scalar_type }
    }

    /// Makes the column type over `scalar_type`.
    #[verifier::when_used_as_spec(spec_new)]
    pub fn new(scalar_type: ScalarType) -> (t: ColumnType)
        ensures
            t == Self::spec_new(scalar_type),
            t.scalar_type == scalar_type,
    {
        ColumnType { scalar_type }
    }
}

} // verus!
