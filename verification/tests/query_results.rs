use gluesql_java::glue::JavaGlue;
use gluesql_java::storages::{JavaMemoryStorage, JavaStorageEngine};

fn memory_glue() -> JavaGlue {
    JavaGlue::new(JavaStorageEngine::Memory(JavaMemoryStorage::new()))
}

#[test]
fn batch_of_three_statements_yields_three_records_in_order() {
    let glue = memory_glue();
    let out = glue
        .query_async_internal(
            "CREATE TABLE t (a INTEGER); INSERT INTO t VALUES (1); SELECT a FROM t;",
        )
        .expect("batch should succeed");
    let expected = String::from("[{\"type\":\"Create\",\"result\":\"Success\"},{\"type\":\"Insert\",\"inserted_rows\":1},{\"type\":\"Select\",\"labels\":[\"a\"],\"rows\":[{\"a\":1}]}]");
    assert_eq!(out, expected);
}

#[test]
fn select_from_missing_table_is_an_error() {
    let glue = memory_glue();
    let r = glue.query_async_internal("SELECT * FROM nonexistent");
    assert!(r.is_err());
}

#[test]
fn failing_second_statement_keeps_first_statement_effect() {
    let glue = memory_glue();
    glue.query_async_internal("CREATE TABLE t (a INTEGER);").expect("create");
    let r = glue.query_async_internal(
        "INSERT INTO t VALUES (1); INSERT INTO missing_table VALUES (2);",
    );
    assert!(r.is_err());
    let out = glue.query_async_internal("SELECT a FROM t;").expect("select");
    assert_eq!(
        out,
        "[{\"type\":\"Select\",\"labels\":[\"a\"],\"rows\":[{\"a\":1}]}]"
    );
}

#[test]
fn two_single_inserts_are_both_kept() {
    let glue = memory_glue();
    glue.query_async_internal("CREATE TABLE t (a INTEGER);").expect("create");
    glue.query_async_internal("INSERT INTO t VALUES (1);").expect("first insert");
    glue.query_async_internal("INSERT INTO t VALUES (2);").expect("second insert");
    let out = glue.query_async_internal("SELECT a FROM t;").expect("select");
    assert_eq!(
        out,
        "[{\"type\":\"Select\",\"labels\":[\"a\"],\"rows\":[{\"a\":1},{\"a\":2}]}]"
    );
}

#[test]
fn round_trip_zips_values_by_label_order() {
    let glue = memory_glue();
    glue.query_async_internal("CREATE TABLE u (a INTEGER, b TEXT);").expect("create");
    glue.query_async_internal("INSERT INTO u VALUES (1, 'x'), (2, 'y');").expect("insert");
    let out = glue.query_async_internal("SELECT a, b FROM u;").expect("select");
    assert_eq!(
        out,
        "[{\"type\":\"Select\",\"labels\":[\"a\",\"b\"],\"rows\":[{\"a\":1,\"b\":\"x\"},{\"a\":2,\"b\":\"y\"}]}]"
    );
}

#[test]
fn show_tables_reports_the_variable() {
    let glue = memory_glue();
    glue.query_async_internal("CREATE TABLE t (a INTEGER);").expect("create");
    let out = glue.query_async_internal("SHOW TABLES;").expect("show");
    assert_eq!(
        out,
        "[{\"type\":\"ShowVariable\",\"variable\":{\"Tables\":[\"t\"]}}]"
    );
}

#[test]
fn drop_table_counts_dropped_tables() {
    let glue = memory_glue();
    glue.query_async_internal("CREATE TABLE t (a INTEGER);").expect("create");
    let out = glue.query_async_internal("DROP TABLE t;").expect("drop");
    assert_eq!(out, "[{\"type\":\"DropTable\",\"dropped_tables\":1}]");
}

#[test]
fn empty_text_yields_empty_result_array() {
    let glue = memory_glue();
    let out = glue.query_async_internal("").expect("empty batch");
    assert_eq!(out, "[]");
}

#[test]
fn update_and_delete_report_row_counts() {
    let glue = memory_glue();
    glue.query_async_internal(
        "CREATE TABLE t (a INTEGER); INSERT INTO t VALUES (1), (2), (3);",
    )
    .expect("setup");
    let out = glue
        .query_async_internal("UPDATE t SET a = a + 10 WHERE a < 3; DELETE FROM t WHERE a > 11;")
        .expect("update and delete");
    assert_eq!(
        out,
        "[{\"type\":\"Update\",\"updated_rows\":2},{\"type\":\"Delete\",\"deleted_rows\":1}]"
    );
}

#[test]
fn show_columns_lists_name_and_type_pairs() {
    let glue = memory_glue();
    glue.query_async_internal("CREATE TABLE t (a INTEGER, b TEXT);").expect("create");
    let out = glue.query_async_internal("SHOW COLUMNS FROM t;").expect("show columns");
    assert_eq!(
        out,
        "[{\"type\":\"ShowColumns\",\"columns\":[[\"a\",\"Int\"],[\"b\",\"Text\"]]}]"
    );
}

#[test]
fn schemaless_select_reports_select_map_rows() {
    let glue = memory_glue();
    glue.query_async_internal("CREATE TABLE s;").expect("create schemaless");
    glue.query_async_internal("INSERT INTO s VALUES ('{\"a\": 1}');").expect("insert");
    let out = glue.query_async_internal("SELECT * FROM s;").expect("select");
    assert_eq!(
        out,
        "[{\"type\":\"SelectMap\",\"rows\":[{\"a\":{\"I64\":1}}]}]"
    );
}

#[test]
fn syntax_error_fails_the_whole_batch() {
    let glue = memory_glue();
    glue.query_async_internal("CREATE TABLE t (a INTEGER);").expect("create");
    let r = glue.query_async_internal("INSERT INTO t VALUES (1); THIS IS NOT SQL;");
    assert!(r.is_err());
    let out = glue.query_async_internal("SELECT a FROM t;").expect("select");
    assert_eq!(out, "[{\"type\":\"Select\",\"labels\":[\"a\"],\"rows\":[]}]");
}
