use memless_engine::parse;
use memless_engine::query::{
    Aggregate, AggregateFunction, ColumnRef, Comparison, Direction, Filter, Items, Join, OrderKey,
    Scalar, SelectQuery,
};
use memless_engine::refusal::QueryRefusal;

fn column(name: &str) -> ColumnRef {
    ColumnRef { table: None, column: name.to_string() }
}

fn qualified(table: &str, name: &str) -> ColumnRef {
    ColumnRef { table: Some(table.to_string()), column: name.to_string() }
}

fn outside(construct: &str) -> QueryRefusal {
    QueryRefusal::OutsideSubset { construct: construct.to_string() }
}

fn compare(name: &str, comparison: Comparison, value: Scalar) -> Filter {
    Filter::Compare { column: column(name), comparison, value }
}

fn refusal(text: &str) -> QueryRefusal {
    parse(text).unwrap_err()
}

#[test]
fn parses_a_plain_select() {
    let select = parse("SELECT a, b FROM t").unwrap();
    assert_eq!(
        select,
        SelectQuery {
            items: Items::Columns(vec![column("a"), column("b")]),
            from: "t".to_string(),
            join: None,
            filter: None,
            order: vec![],
        }
    );
}

#[test]
fn parses_a_bare_star() {
    let select = parse("SELECT * FROM items").unwrap();
    assert_eq!(select.items, Items::All);
    assert_eq!(select.from, "items");
}

#[test]
fn star_with_a_column_is_refused() {
    assert_eq!(refusal("SELECT *, a FROM t"), outside("this projection item"));
}

#[test]
fn an_alias_is_refused() {
    assert_eq!(refusal("SELECT a AS b FROM t"), outside("this projection item"));
}

#[test]
fn and_binds_tighter_than_or() {
    let select = parse("SELECT a FROM t WHERE a = 1 OR b = 2 AND c = 3").unwrap();
    let expected = Filter::Or(
        Box::new(compare("a", Comparison::Equal, Scalar::Integer(1))),
        Box::new(Filter::And(
            Box::new(compare("b", Comparison::Equal, Scalar::Integer(2))),
            Box::new(compare("c", Comparison::Equal, Scalar::Integer(3))),
        )),
    );
    assert_eq!(select.filter, Some(expected));
}

#[test]
fn parentheses_are_transparent() {
    let with = parse("SELECT a FROM t WHERE (a = 1 OR b = 2) AND c = 3").unwrap();
    let expected = Filter::And(
        Box::new(Filter::Or(
            Box::new(compare("a", Comparison::Equal, Scalar::Integer(1))),
            Box::new(compare("b", Comparison::Equal, Scalar::Integer(2))),
        )),
        Box::new(compare("c", Comparison::Equal, Scalar::Integer(3))),
    );
    assert_eq!(with.filter, Some(expected));
    let plain = parse("SELECT a FROM t WHERE ((a = 1))").unwrap();
    assert_eq!(plain.filter, Some(compare("a", Comparison::Equal, Scalar::Integer(1))));
}

#[test]
fn every_comparison_is_lowered() {
    let cases = [
        ("=", Comparison::Equal),
        ("<>", Comparison::NotEqual),
        ("!=", Comparison::NotEqual),
        ("<", Comparison::Less),
        ("<=", Comparison::LessOrEqual),
        (">", Comparison::Greater),
        (">=", Comparison::GreaterOrEqual),
    ];
    for (op, comparison) in cases {
        let select = parse(&format!("SELECT a FROM t WHERE a {} 7", op)).unwrap();
        assert_eq!(select.filter, Some(compare("a", comparison, Scalar::Integer(7))));
    }
}

#[test]
fn other_operators_are_refused() {
    assert_eq!(refusal("SELECT a FROM t WHERE a + 1"), outside("this comparison"));
    assert_eq!(refusal("SELECT a FROM t WHERE a LIKE 'x%'"), outside("this condition"));
}

#[test]
fn null_tests_are_lowered() {
    let select = parse("SELECT a FROM t WHERE a IS NULL AND b IS NOT NULL").unwrap();
    let expected = Filter::And(
        Box::new(Filter::IsNull(column("a"))),
        Box::new(Filter::IsNotNull(column("b"))),
    );
    assert_eq!(select.filter, Some(expected));
}

#[test]
fn a_comparison_with_null_is_refused() {
    assert_eq!(refusal("SELECT a FROM t WHERE a = NULL"), outside("NULL"));
}

#[test]
fn the_column_must_stand_on_the_left() {
    assert_eq!(refusal("SELECT a FROM t WHERE 1 = a"), outside("this column reference"));
    assert_eq!(refusal("SELECT a FROM t WHERE a = b"), outside("this literal"));
}

#[test]
fn literals_of_each_kind_are_lowered() {
    let value = |text: &str| match parse(&format!("SELECT a FROM t WHERE a = {}", text)).unwrap().filter {
        Some(Filter::Compare { value, .. }) => value,
        other => panic!("unexpected filter {:?}", other),
    };
    assert_eq!(value("42"), Scalar::Integer(42));
    assert_eq!(value("-42"), Scalar::Integer(-42));
    assert_eq!(value("1.5"), Scalar::Decimal("1.5".to_string()));
    assert_eq!(value("-1.5"), Scalar::Decimal("-1.5".to_string()));
    assert_eq!(value("'hello'"), Scalar::Text("hello".to_string()));
    assert_eq!(value("true"), Scalar::Boolean(true));
    assert_eq!(value("FALSE"), Scalar::Boolean(false));
}

#[test]
fn integers_at_the_edges_of_i64() {
    let value = |text: &str| parse(&format!("SELECT a FROM t WHERE a = {}", text)).map(|s| s.filter);
    assert_eq!(
        value("9223372036854775807").unwrap(),
        Some(compare("a", Comparison::Equal, Scalar::Integer(i64::MAX)))
    );
    assert_eq!(
        value("-9223372036854775808").unwrap(),
        Some(compare("a", Comparison::Equal, Scalar::Integer(i64::MIN)))
    );
    assert_eq!(value("9223372036854775808").unwrap_err(), outside("this number"));
    assert_eq!(value("-9223372036854775809").unwrap_err(), outside("this number"));
}

#[test]
fn a_negated_column_is_refused() {
    assert_eq!(refusal("SELECT a FROM t WHERE a = -b"), outside("this expression"));
}

#[test]
fn a_join_is_lowered_with_qualified_columns() {
    let select = parse("SELECT t.a, u.b FROM t JOIN u ON t.id = u.t_id WHERE u.b > 3 ORDER BY t.a DESC").unwrap();
    assert_eq!(
        select,
        SelectQuery {
            items: Items::Columns(vec![qualified("t", "a"), qualified("u", "b")]),
            from: "t".to_string(),
            join: Some(Join {
                table: "u".to_string(),
                left: qualified("t", "id"),
                right: qualified("u", "t_id"),
            }),
            filter: Some(Filter::Compare {
                column: qualified("u", "b"),
                comparison: Comparison::Greater,
                value: Scalar::Integer(3),
            }),
            order: vec![OrderKey { column: qualified("t", "a"), direction: Direction::Descending }],
        }
    );
}

#[test]
fn a_join_needs_qualified_columns() {
    assert_eq!(refusal("SELECT a FROM t JOIN u ON t.id = u.id"), outside("unqualified column in a join"));
    assert_eq!(refusal("SELECT t.a FROM t JOIN u ON id = u.id"), outside("unqualified column in a join"));
    assert_eq!(refusal("SELECT t.a FROM t JOIN u ON t.id = u.id WHERE b = 1"), outside("unqualified column in a join"));
}

#[test]
fn joins_outside_the_subset_are_refused() {
    assert_eq!(refusal("SELECT t.a FROM t JOIN t ON t.a = t.b"), outside("self join"));
    assert_eq!(refusal("SELECT t.a FROM t LEFT JOIN u ON t.a = u.a"), outside("LEFT JOIN"));
    assert_eq!(refusal("SELECT t.a FROM t CROSS JOIN u"), outside("CROSS JOIN"));
    assert_eq!(refusal("SELECT t.a FROM t JOIN u USING (a)"), outside("JOIN USING"));
    assert_eq!(refusal("SELECT t.a FROM t NATURAL JOIN u"), outside("NATURAL JOIN"));
    assert_eq!(refusal("SELECT t.a FROM t JOIN u ON t.a < u.a"), outside("this JOIN condition"));
    assert_eq!(
        refusal("SELECT t.a FROM t JOIN u ON t.a = u.a JOIN v ON t.a = v.a"),
        outside("multiple joins")
    );
    assert_eq!(refusal("SELECT a FROM t, u"), outside("comma join"));
}

#[test]
fn aggregates_are_lowered() {
    let select = parse("SELECT COUNT(*), sum(a), Min(b), MAX(c), avg(d) FROM t").unwrap();
    let agg = |function, name: Option<&str>| Aggregate { function, column: name.map(column) };
    assert_eq!(
        select.items,
        Items::Aggregates(vec![
            agg(AggregateFunction::Count, None),
            agg(AggregateFunction::Sum, Some("a")),
            agg(AggregateFunction::Min, Some("b")),
            agg(AggregateFunction::Max, Some("c")),
            agg(AggregateFunction::Avg, Some("d")),
        ])
    );
}

#[test]
fn aggregates_outside_the_subset_are_refused() {
    assert_eq!(refusal("SELECT SUM(*) FROM t"), outside("this aggregate"));
    assert_eq!(refusal("SELECT COUNT(DISTINCT a) FROM t"), outside("DISTINCT in an aggregate"));
    assert_eq!(refusal("SELECT COUNT(a, b) FROM t"), outside("this aggregate"));
    assert_eq!(refusal("SELECT LENGTH(a) FROM t"), outside("this function"));
    assert_eq!(refusal("SELECT COUNT(a) OVER () FROM t"), outside("window function"));
    assert_eq!(refusal("SELECT COUNT(a), b FROM t"), outside("columns mixed with aggregates"));
}

#[test]
fn order_by_is_lowered() {
    let select = parse("SELECT a FROM t ORDER BY a, b ASC, c DESC").unwrap();
    assert_eq!(
        select.order,
        vec![
            OrderKey { column: column("a"), direction: Direction::Ascending },
            OrderKey { column: column("b"), direction: Direction::Ascending },
            OrderKey { column: column("c"), direction: Direction::Descending },
        ]
    );
}

#[test]
fn order_by_outside_the_subset_is_refused() {
    assert_eq!(refusal("SELECT COUNT(*) FROM t ORDER BY a"), outside("ORDER BY with an aggregate"));
    assert_eq!(refusal("SELECT a FROM t ORDER BY 1"), outside("ORDER BY position"));
    assert_eq!(refusal("SELECT a FROM t ORDER BY a + 1"), outside("ORDER BY expression"));
    assert_eq!(refusal("SELECT a FROM t ORDER BY a NULLS FIRST"), outside("NULLS FIRST"));
    assert_eq!(refusal("SELECT a FROM t ORDER BY a NULLS LAST"), outside("NULLS LAST"));
}

#[test]
fn select_clauses_outside_the_subset_are_refused() {
    assert_eq!(refusal("SELECT DISTINCT a FROM t"), outside("DISTINCT"));
    assert_eq!(refusal("SELECT a FROM t GROUP BY a"), outside("GROUP BY"));
    assert_eq!(refusal("SELECT a FROM t HAVING a > 1"), outside("HAVING"));
    assert_eq!(refusal("SELECT a INTO u FROM t"), outside("SELECT INTO"));
    assert_eq!(refusal("SELECT a FROM t WINDOW w AS ()"), outside("WINDOW"));
    assert_eq!(refusal("SELECT 1"), outside("SELECT without FROM"));
}

#[test]
fn query_clauses_outside_the_subset_are_refused() {
    assert_eq!(refusal("WITH c AS (SELECT a FROM t) SELECT a FROM c"), outside("WITH"));
    assert_eq!(refusal("SELECT a FROM t LIMIT 3"), outside("LIMIT"));
    assert_eq!(refusal("SELECT a FROM t OFFSET 3"), outside("OFFSET"));
    assert_eq!(refusal("SELECT a FROM t FOR UPDATE"), outside("FOR UPDATE"));
}

#[test]
fn query_bodies_other_than_select_are_refused() {
    assert_eq!(refusal("SELECT a FROM t UNION SELECT a FROM u"), outside("UNION"));
    assert_eq!(refusal("VALUES (1)"), outside("VALUES"));
}

#[test]
fn from_items_other_than_tables_are_refused() {
    assert_eq!(refusal("SELECT a FROM (SELECT a FROM t) AS s"), outside("this FROM item"));
    assert_eq!(refusal("SELECT a FROM t AS s"), outside("this FROM item"));
    assert_eq!(refusal("SELECT a FROM s.t"), outside("qualified table name"));
}

#[test]
fn statements_other_than_one_query_are_refused() {
    assert_eq!(refusal("SELECT a FROM t; SELECT b FROM t"), outside("multiple statements"));
    assert_eq!(refusal("INSERT INTO t (a) VALUES (1)"), outside("INSERT"));
    assert_eq!(refusal("DELETE FROM t"), outside("DELETE"));
    assert_eq!(refusal("CREATE TABLE t (a INT)"), outside("this statement"));
}

#[test]
fn text_without_a_statement_is_invalid() {
    assert_eq!(
        refusal(""),
        QueryRefusal::Invalid { reason: "no statement to run".to_string() }
    );
}

#[test]
fn text_that_does_not_parse_is_invalid() {
    match refusal("SELEC a FROM t") {
        QueryRefusal::Invalid { reason } => assert!(!reason.is_empty()),
        other => panic!("unexpected refusal {:?}", other),
    }
}

#[test]
fn texts_that_would_stop_the_parser_are_refused() {
    assert_eq!(refusal("FLUSH RELAY LOGS FOR CHANNEL"), outside("RELAY LOGS FOR CHANNEL"));
    assert_eq!(refusal("flush relay logs for channel"), outside("RELAY LOGS FOR CHANNEL"));
    assert_eq!(refusal("GRANT SELECT ON t TO u GRANTED BY"), outside("GRANTED"));
    assert_eq!(refusal("REVOKE SELECT ON t FROM u GRANTED BY"), outside("GRANTED"));
    assert_eq!(refusal("SELECT Granted FROM t"), outside("GRANTED"));
}

#[test]
fn a_column_named_channel_alone_is_read() {
    let select = parse("SELECT channel FROM feeds").unwrap();
    assert_eq!(select.items, Items::Columns(vec![column("channel")]));
    assert_eq!(select.from, "feeds".to_string());
}

#[test]
fn a_text_over_the_length_bound_is_refused() {
    let mut text = String::from("SELECT a FROM t WHERE a = 1");
    while text.len() <= 2048 {
        text.push_str(" OR a = 1");
    }
    assert_eq!(refusal(&text), outside("text longer than 2048 bytes"));
}

#[test]
fn a_chain_of_ors_at_the_length_bound_is_read() {
    let mut text = String::from("SELECT a FROM t WHERE a = 1");
    while text.len() + 9 <= 2048 {
        text.push_str(" OR a = 1");
    }
    let select = parse(&text).unwrap();
    assert_eq!(select.items, Items::Columns(vec![column("a")]));
}

#[test]
fn a_chain_of_sums_at_the_length_bound_is_refused() {
    let mut text = String::from("SELECT a FROM t WHERE a = 1");
    while text.len() + 2 <= 2048 {
        text.push_str("+1");
    }
    assert!(text.len() >= 2047);
    assert!(parse(&text).is_err());
}
