# memless_engine

Lowers SQL text into the query model of the memless engine, or refuses it.

`sqlparser` (generic dialect) parses the text. `src/bridge.rs` maps its syntax
tree onto the library's own model of it (`src/syntax.rs`); that mapping is
trusted and names its outcome `sql_syntax`. Everything after it is verified
with Verus: each lowering function states, as its `ensures`, the exact result
or refusal over the models in `src/query.rs` and `src/refusal.rs`.

- `screen.rs`: the texts that are refused before the parser sees them: those
  over 2048 bytes, and those that could reach one of the parser's panics.
- `statement.rs`: `parse` (one SELECT) and `lower_statement` (SELECT, INSERT,
  UPDATE, DELETE, BEGIN, COMMIT, ROLLBACK).
- `select.rs`, `projection.rs`, `join.rs`, `order.rs`, `names.rs`: queries.
- `filter.rs`: WHERE clauses, lowered with an explicit task stack that is
  proved to compute the recursive reading `spec_filter`.
- `literal.rs`: numbers, strings, booleans.
- `write.rs`: INSERT, UPDATE, DELETE.
- `laws.rs`: properties of the lowering as a whole.
