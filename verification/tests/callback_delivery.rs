use gluesql_java::callback::{plan_delivery, Delivery};
use gluesql_java::error::JavaGlueSQLError;

#[test]
fn success_outcome_plans_exactly_a_success_delivery() {
    let d = plan_delivery(Ok(String::from("[]")));
    match d {
        Delivery::Success(text) => assert_eq!(text, "[]"),
        Delivery::Failure(_) => panic!("a success outcome must not plan a failure delivery"),
    }
}

#[test]
fn error_outcome_plans_exactly_a_failure_delivery() {
    let e = JavaGlueSQLError::new(String::from("table not found"));
    let d = plan_delivery(Err(e));
    match d {
        Delivery::Success(_) => panic!("an error outcome must not plan a success delivery"),
        Delivery::Failure(message) => assert_eq!(message, "table not found"),
    }
}

#[test]
fn error_carries_its_message() {
    let e = JavaGlueSQLError::new(String::from("boom"));
    assert_eq!(e.message(), "boom");
}
