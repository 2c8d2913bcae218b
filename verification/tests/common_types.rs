use sql_cast::cast::{get_cast, CastTo};
use sql_cast::common_type::guess_best_common_type;
use sql_cast::scalar::ScalarType;

fn guess(types: &[ScalarType]) -> ScalarType {
    let types: Vec<Option<ScalarType>> = types.iter().map(|t| Some(*t)).collect();
    guess_best_common_type(&types).unwrap()
}

#[test]
fn without_known_types_the_guess_is_a_string() {
    assert_eq!(guess_best_common_type(&[]), Some(ScalarType::String));
    assert_eq!(
        guess_best_common_type(&[None, None]),
        Some(ScalarType::String)
    );
}

#[test]
fn equal_types_are_kept_as_they_are() {
    let decimal = ScalarType::Decimal(10, 2);
    assert_eq!(guess(&[decimal, decimal]), decimal);
    assert_eq!(guess(&[ScalarType::Bytes]), ScalarType::Bytes);
}

#[test]
fn unknown_types_are_left_out() {
    let types = [None, Some(ScalarType::Int32), None, Some(ScalarType::Int64), None];
    assert_eq!(guess_best_common_type(&types), Some(ScalarType::Int64));
    let types = [None, Some(ScalarType::Date)];
    assert_eq!(guess_best_common_type(&types), Some(ScalarType::Date));
}

#[test]
fn the_widest_number_is_guessed() {
    assert_eq!(
        guess(&[ScalarType::Int64, ScalarType::Int32]),
        ScalarType::Int64
    );
    assert_eq!(
        guess(&[ScalarType::Float32, ScalarType::Decimal(10, 2)]),
        ScalarType::Float32
    );
    assert_eq!(
        guess(&[ScalarType::Int32, ScalarType::Float64, ScalarType::Float32]),
        ScalarType::Float64
    );
}

#[test]
fn decimals_are_widened_to_the_largest_scale() {
    assert_eq!(
        guess(&[
            ScalarType::Decimal(10, 2),
            ScalarType::Decimal(12, 5),
            ScalarType::Decimal(38, 0),
        ]),
        ScalarType::Decimal(38, 5)
    );
    assert_eq!(
        guess(&[ScalarType::Decimal(4, 3), ScalarType::Int64]),
        ScalarType::Decimal(38, 3)
    );
    assert_eq!(
        guess(&[ScalarType::Decimal(4, 0), ScalarType::Int64]),
        ScalarType::Decimal(38, 0)
    );
}

#[test]
fn the_widest_timestamp_is_guessed() {
    assert_eq!(
        guess(&[ScalarType::Timestamp, ScalarType::Date]),
        ScalarType::Timestamp
    );
    assert_eq!(
        guess(&[ScalarType::TimestampTz, ScalarType::Date, ScalarType::Timestamp]),
        ScalarType::TimestampTz
    );
}

#[test]
fn categories_are_ignored() {
    assert_eq!(
        guess(&[ScalarType::Date, ScalarType::Int32]),
        ScalarType::Date
    );
    assert_eq!(
        guess(&[ScalarType::Bool, ScalarType::Float64]),
        ScalarType::Bool
    );
}

#[test]
fn the_last_of_equally_preferred_types_is_guessed() {
    assert_eq!(
        guess(&[ScalarType::String, ScalarType::Bool]),
        ScalarType::Bool
    );
    assert_eq!(
        guess(&[ScalarType::Bool, ScalarType::String]),
        ScalarType::String
    );
    assert_eq!(
        guess(&[ScalarType::Interval, ScalarType::String, ScalarType::Time]),
        ScalarType::Time
    );
}

#[test]
fn times_are_brought_to_intervals() {
    assert_eq!(
        guess(&[ScalarType::Time, ScalarType::Interval]),
        ScalarType::Interval
    );
    assert_eq!(
        guess(&[ScalarType::Interval, ScalarType::Time]),
        ScalarType::Interval
    );
    assert_eq!(guess(&[ScalarType::Time, ScalarType::Time]), ScalarType::Time);
}

#[test]
fn the_guess_over_two_groups_is_the_guess_of_the_two_guesses() {
    let a = [ScalarType::Int32, ScalarType::Timestamp, ScalarType::Date];
    let b = [ScalarType::Bool, ScalarType::Bytes, ScalarType::Int64];
    let joined: Vec<ScalarType> = a.iter().chain(b.iter()).copied().collect();
    assert_eq!(guess(&joined), ScalarType::Bytes);
    assert_eq!(guess(&joined), guess(&[guess(&a), guess(&b)]));
}

#[test]
fn every_member_casts_to_a_common_type() {
    let groups = [
        vec![ScalarType::Int32, ScalarType::Decimal(5, 1), ScalarType::Int64],
        vec![ScalarType::Float64, ScalarType::Decimal(5, 1), ScalarType::Float32],
        vec![ScalarType::TimestampTz, ScalarType::Timestamp, ScalarType::Date],
        vec![ScalarType::Time, ScalarType::Interval],
        vec![ScalarType::Interval, ScalarType::Time],
    ];
    for group in groups {
        let common = guess(&group);
        for t in group {
            assert!(get_cast(&t, &CastTo::Implicit(common)).is_some());
        }
    }
}
