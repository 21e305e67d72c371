use memless_engine::screen::screen;
use memless_engine::filter::{combine_filter, lower_filter, Task, run_task};
use memless_engine::literal::{number_scalar, parse_integer, signed_text};
use memless_engine::names::plain_table;
use memless_engine::query::{ColumnRef, Comparison, Filter, Scalar};
use memless_engine::refusal::QueryRefusal;
use memless_engine::statement::{reject_transaction_options};
use memless_engine::syntax::{
    SqlBinaryOperator, SqlExpr, SqlIdent, SqlObjectName, SqlTableFactor, SqlValue,
};
use memless_engine::write::reject_update_tail;

fn ident(name: &str) -> SqlIdent {
    SqlIdent { value: name.to_string(), quote_style: None }
}

fn equals(name: &str, value: i64) -> SqlExpr {
    SqlExpr::BinaryOp {
        left: Box::new(SqlExpr::Identifier(ident(name))),
        op: SqlBinaryOperator::Eq,
        right: Box::new(SqlExpr::Value(SqlValue::Number(value.to_string(), false))),
    }
}

fn compare(name: &str, value: i64) -> Filter {
    Filter::Compare {
        column: ColumnRef { table: None, column: name.to_string() },
        comparison: Comparison::Equal,
        value: Scalar::Integer(value),
    }
}

fn outside(construct: &str) -> QueryRefusal {
    QueryRefusal::OutsideSubset { construct: construct.to_string() }
}

#[test]
fn signed_text_prefixes_a_minus() {
    assert_eq!(signed_text("12.5", true), "-12.5");
    assert_eq!(signed_text("12.5", false), "12.5");
    assert_eq!(signed_text("", true), "-");
}

#[test]
fn parse_integer_reads_signed_digits() {
    assert_eq!(parse_integer("0"), Some(0));
    assert_eq!(parse_integer("-0"), Some(0));
    assert_eq!(parse_integer("007"), Some(7));
    assert_eq!(parse_integer("-9223372036854775808"), Some(i64::MIN));
    assert_eq!(parse_integer("9223372036854775807"), Some(i64::MAX));
    assert_eq!(parse_integer("9223372036854775808"), None);
    assert_eq!(parse_integer("99999999999999999999999"), None);
    assert_eq!(parse_integer(""), None);
    assert_eq!(parse_integer("-"), None);
    assert_eq!(parse_integer("1_000"), None);
    assert_eq!(parse_integer("+1"), None);
}

#[test]
fn number_scalar_tells_decimals_from_integers() {
    assert_eq!(number_scalar("10", false), Ok(Scalar::Integer(10)));
    assert_eq!(number_scalar("10", true), Ok(Scalar::Integer(-10)));
    assert_eq!(number_scalar("1e3", false), Ok(Scalar::Decimal("1e3".to_string())));
    assert_eq!(number_scalar("2E-1", true), Ok(Scalar::Decimal("-2E-1".to_string())));
    assert_eq!(number_scalar("0.5", false), Ok(Scalar::Decimal("0.5".to_string())));
    assert_eq!(number_scalar("1_0", false), Err(outside("this number")));
}

#[test]
fn negation_of_an_integer_reads_as_its_negation() {
    for text in ["0", "1", "123456789", "9223372036854775807"] {
        let positive = match number_scalar(text, false) {
            Ok(Scalar::Integer(v)) => v,
            other => panic!("unexpected {:?}", other),
        };
        assert_eq!(number_scalar(text, true), Ok(Scalar::Integer(-positive)));
    }
}

#[test]
fn a_deep_chain_of_ands_is_lowered_without_recursion() {
    let depth = 2000;
    let mut expr = equals("c0", 0);
    for i in 1..depth {
        expr = SqlExpr::BinaryOp {
            left: Box::new(expr),
            op: SqlBinaryOperator::And,
            right: Box::new(equals(&format!("c{}", i), i as i64)),
        };
    }
    let filter = lower_filter(&expr, false).unwrap();
    let mut count = 1;
    let mut node = &filter;
    while let Filter::And(left, right) = node {
        assert_eq!(**right, compare(&format!("c{}", depth - count), (depth - count) as i64));
        count += 1;
        node = left;
    }
    assert_eq!(*node, compare("c0", 0));
    assert_eq!(count, depth);
    std::mem::forget(expr);
    std::mem::forget(filter);
}

#[test]
fn the_left_side_is_refused_first() {
    let expr = SqlExpr::BinaryOp {
        left: Box::new(SqlExpr::Other),
        op: SqlBinaryOperator::Or,
        right: Box::new(SqlExpr::Identifier(ident("a"))),
    };
    assert_eq!(lower_filter(&expr, false), Err(outside("this condition")));
}

#[test]
fn a_join_only_narrows_a_filter() {
    let qualified = SqlExpr::BinaryOp {
        left: Box::new(SqlExpr::CompoundIdentifier(vec![ident("t"), ident("a")])),
        op: SqlBinaryOperator::Gt,
        right: Box::new(SqlExpr::Value(SqlValue::Number("5".to_string(), false))),
    };
    assert_eq!(lower_filter(&qualified, true), lower_filter(&qualified, false));
    let plain = equals("a", 1);
    assert_eq!(lower_filter(&plain, true), Err(outside("unqualified column in a join")));
    assert_eq!(lower_filter(&plain, false), Ok(compare("a", 1)));
}

#[test]
fn combining_needs_two_filters() {
    let mut output = vec![compare("a", 1)];
    assert_eq!(
        combine_filter(&mut output, true),
        Err(QueryRefusal::Invalid { reason: "unbalanced filter".to_string() })
    );
    assert_eq!(output, vec![compare("a", 1)]);
    output.push(compare("b", 2));
    output.push(compare("c", 3));
    combine_filter(&mut output, false).unwrap();
    assert_eq!(
        output,
        vec![compare("a", 1), Filter::Or(Box::new(compare("b", 2)), Box::new(compare("c", 3)))]
    );
}

#[test]
fn visiting_an_and_pushes_its_sides() {
    let expr = SqlExpr::BinaryOp {
        left: Box::new(equals("a", 1)),
        op: SqlBinaryOperator::And,
        right: Box::new(equals("b", 2)),
    };
    let mut tasks: Vec<Task> = Vec::new();
    let mut output: Vec<Filter> = Vec::new();
    run_task(Task::Visit(&expr), false, &mut tasks, &mut output).unwrap();
    assert_eq!(tasks.len(), 3);
    assert!(matches!(tasks[0], Task::CombineAnd));
    assert!(output.is_empty());
    while let Some(task) = tasks.pop() {
        run_task(task, false, &mut tasks, &mut output).unwrap();
    }
    assert_eq!(output, vec![Filter::And(Box::new(compare("a", 1)), Box::new(compare("b", 2)))]);
}

#[test]
fn a_plain_table_has_no_modifiers() {
    let table = |alias: bool| SqlTableFactor::Table {
        name: SqlObjectName(vec![ident("t")]),
        alias,
        args: false,
        with_hints: false,
        version: false,
        partitions: false,
        sample: false,
    };
    assert!(plain_table(&table(false)).is_some());
    assert!(plain_table(&table(true)).is_none());
    assert!(plain_table(&SqlTableFactor::Other).is_none());
}

#[test]
fn reject_transaction_options_refuses_when_present() {
    assert_eq!(reject_transaction_options(false), Ok(()));
    assert_eq!(reject_transaction_options(true), Err(outside("transaction options")));
}

#[test]
fn reject_update_tail_names_the_first_clause() {
    assert_eq!(reject_update_tail(false, false, false), Ok(()));
    assert_eq!(reject_update_tail(true, true, true), Err(outside("UPDATE with FROM")));
    assert_eq!(reject_update_tail(false, true, true), Err(outside("RETURNING")));
    assert_eq!(reject_update_tail(false, false, true), Err(outside("UPDATE with a conflict modifier")));
}

#[test]
fn the_screen_passes_ordinary_text() {
    assert_eq!(screen("SELECT a FROM t WHERE b = 'grant'"), None);
    assert_eq!(screen("SELECT relay FROM t"), None);
    assert_eq!(screen("SELECT channel FROM t"), None);
}

#[test]
fn the_screen_names_what_it_keeps_back() {
    assert_eq!(screen("REVOKE SELECT ON t FROM u GrAnTeD BY"), Some("GRANTED"));
    assert_eq!(screen("SELECT channel FROM relay"), Some("RELAY LOGS FOR CHANNEL"));
    assert_eq!(screen(&"x".repeat(2049)), Some("text longer than 2048 bytes"));
    assert_eq!(screen(&"x".repeat(2048)), None);
    assert_eq!(screen(&"é".repeat(1025)), Some("text longer than 2048 bytes"));
}
