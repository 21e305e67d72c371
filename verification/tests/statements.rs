use memless_engine::query::{
    ColumnAssignment, ColumnRef, Command, Comparison, DeleteRows, Filter, InsertRow, Scalar, Update,
    Write,
};
use memless_engine::refusal::QueryRefusal;
use memless_engine::statement::{analyse, lower_statement, one_statement};

fn outside(construct: &str) -> QueryRefusal {
    QueryRefusal::OutsideSubset { construct: construct.to_string() }
}

fn lowered(text: &str) -> Result<Command, QueryRefusal> {
    let statement = one_statement(analyse(text).unwrap()).unwrap();
    lower_statement(statement)
}

fn column(name: &str) -> ColumnRef {
    ColumnRef { table: None, column: name.to_string() }
}

#[test]
fn a_select_statement_is_lowered() {
    match lowered("SELECT a FROM t").unwrap() {
        Command::Select(select) => assert_eq!(select.from, "t"),
        other => panic!("unexpected command {:?}", other),
    }
}

#[test]
fn an_insert_is_lowered() {
    assert_eq!(
        lowered("INSERT INTO t (a, b, c) VALUES (1, 'x', NULL)").unwrap(),
        Command::Write(Write::Insert(InsertRow {
            table: "t".to_string(),
            columns: vec!["a".to_string(), "b".to_string(), "c".to_string()],
            values: vec![Some(Scalar::Integer(1)), Some(Scalar::Text("x".to_string())), None],
        }))
    );
}

#[test]
fn inserts_outside_the_subset_are_refused() {
    assert_eq!(lowered("INSERT INTO t VALUES (1)").unwrap_err(), outside("INSERT without a column list"));
    assert_eq!(lowered("INSERT INTO t (a) VALUES (1), (2)").unwrap_err(), outside("multi-row INSERT"));
    assert_eq!(lowered("INSERT INTO t (a) SELECT a FROM u").unwrap_err(), outside("INSERT ... SELECT"));
    assert_eq!(lowered("INSERT INTO t (a) VALUES (1) RETURNING a").unwrap_err(), outside("RETURNING"));
    assert_eq!(lowered("INSERT INTO s.t (a) VALUES (1)").unwrap_err(), outside("qualified table name"));
    assert_eq!(lowered("INSERT INTO t (a) VALUES (b)").unwrap_err(), outside("this literal"));
    assert_eq!(
        lowered("INSERT INTO t (a) VALUES (1) ON CONFLICT DO NOTHING").unwrap_err(),
        outside("ON CONFLICT")
    );
}

#[test]
fn an_update_is_lowered() {
    assert_eq!(
        lowered("UPDATE t SET a = 1, b = NULL WHERE c <> 2").unwrap(),
        Command::Write(Write::Update(Update {
            table: "t".to_string(),
            assignments: vec![
                ColumnAssignment { column: "a".to_string(), value: Some(Scalar::Integer(1)) },
                ColumnAssignment { column: "b".to_string(), value: None },
            ],
            filter: Some(Filter::Compare {
                column: column("c"),
                comparison: Comparison::NotEqual,
                value: Scalar::Integer(2),
            }),
        }))
    );
}

#[test]
fn updates_outside_the_subset_are_refused() {
    assert_eq!(lowered("UPDATE t SET a = 1 RETURNING a").unwrap_err(), outside("RETURNING"));
    assert_eq!(lowered("UPDATE t SET a = 1 FROM u").unwrap_err(), outside("UPDATE with FROM"));
    assert_eq!(lowered("UPDATE t SET a = b").unwrap_err(), outside("this literal"));
    assert_eq!(lowered("UPDATE t SET t.a = 1").unwrap_err(), outside("qualified column in SET"));
    assert_eq!(lowered("UPDATE t SET (a, b) = (1, 2)").unwrap_err(), outside("tuple assignment"));
}

#[test]
fn a_delete_is_lowered() {
    assert_eq!(
        lowered("DELETE FROM t WHERE a IS NULL").unwrap(),
        Command::Write(Write::Delete(DeleteRows {
            table: "t".to_string(),
            filter: Some(Filter::IsNull(column("a"))),
        }))
    );
    assert_eq!(
        lowered("DELETE FROM t").unwrap(),
        Command::Write(Write::Delete(DeleteRows { table: "t".to_string(), filter: None }))
    );
}

#[test]
fn deletes_outside_the_subset_are_refused() {
    assert_eq!(lowered("DELETE FROM t RETURNING a").unwrap_err(), outside("RETURNING"));
    assert_eq!(lowered("DELETE FROM t USING u").unwrap_err(), outside("DELETE USING"));
}

#[test]
fn transaction_commands_are_lowered() {
    assert_eq!(lowered("BEGIN").unwrap(), Command::Begin);
    assert_eq!(lowered("START TRANSACTION").unwrap(), Command::Begin);
    assert_eq!(lowered("COMMIT").unwrap(), Command::Commit);
    assert_eq!(lowered("ROLLBACK").unwrap(), Command::Rollback);
}

#[test]
fn transaction_options_are_refused() {
    assert_eq!(lowered("START TRANSACTION READ ONLY").unwrap_err(), outside("transaction options"));
    assert_eq!(lowered("COMMIT AND CHAIN").unwrap_err(), outside("transaction options"));
    assert_eq!(lowered("ROLLBACK TO SAVEPOINT s").unwrap_err(), outside("transaction options"));
}

#[test]
fn other_statements_are_refused() {
    assert_eq!(lowered("CREATE TABLE t (a INT)").unwrap_err(), outside("this statement"));
}

#[test]
fn several_statements_are_refused_and_none_is_invalid() {
    assert_eq!(one_statement(analyse("BEGIN; COMMIT").unwrap()).unwrap_err(), outside("multiple statements"));
    assert_eq!(
        one_statement(analyse("").unwrap()).unwrap_err(),
        QueryRefusal::Invalid { reason: "no statement to run".to_string() }
    );
}

#[test]
fn parse_and_lower_statement_agree() {
    for text in [
        "SELECT a FROM t WHERE a = 1",
        "SELECT t.a FROM t JOIN u ON t.a = u.a",
        "SELECT DISTINCT a FROM t",
        "SELECT a FROM t ORDER BY 1",
    ] {
        let via_statement = lowered(text);
        let via_parse = memless_engine::parse(text);
        match (via_statement, via_parse) {
            (Ok(Command::Select(a)), Ok(b)) => assert_eq!(a, b),
            (Err(a), Err(b)) => assert_eq!(a, b),
            (a, b) => panic!("disagree on {}: {:?} {:?}", text, a, b),
        }
    }
}
