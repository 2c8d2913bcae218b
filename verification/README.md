# sql_cast

Plans casts between SQL scalar types. `src/` is verified with Verus:

- `cast.rs` looks a cast up (`get_cast`) and builds its expression
  (`CastOp::gen_expr`); `catalog.rs` is the table of valid casts.
- `rescale.rs` moves decimals from one scale to another.
- `common_type.rs` guesses the type that a group of values can be cast to.
- `scalar.rs` and `expr.rs` hold the types and expressions; `text.rs` writes them
  out.
- `laws.rs` proves what holds of these together: that implicit casts chain, that
  a generated expression has the type that was asked for, that a rescaling up can
  be undone, and that the guess misses no common type.

`app/` holds the `std::fmt` impls and the floating-point values of constants.
