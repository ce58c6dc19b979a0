//! The execution core.
//!
//! A `JavaGlue` owns one storage engine behind an exclusive lock whose
//! predicate fixes the backend kind for the life of the instance.  A
//! query is parsed into statements; each statement is translated,
//! then executed under its own lock acquisition — the lock is released
//! between statements of a batch on purpose, so that other callers'
//! statements can interleave.  The first failing statement aborts the
//! batch; statements already executed are not rolled back here.

use vstd::prelude::*;

use gluesql_core::executor::Payload;
use gluesql_core::plan::StatementPlan;
use gluesql_core::sqlparser::ast::Statement as SqlStatement;
use gluesql_core::store::Planner;

use crate::error::JavaGlueSQLError;
use crate::payload::{convert_payload, serializes_result_records, JavaPayload};
use crate::storages::{
    EngineKind, JavaJsonStorage, JavaMemoryStorage, JavaRedbStorage, JavaSharedMemoryStorage,
    JavaSledStorage, JavaStorageEngine,
};

verus! {

use vstd::rwlock::{RwLock, RwLockPredicate};

#[verifier::external_type_specification]
#[verifier::external_body]
pub struct ExSqlStatement(SqlStatement);

#[verifier::external_type_specification]
#[verifier::external_body]
pub struct ExStatementPlan(StatementPlan);

/// Whether a query text is syntactically valid: parsing it depends on
/// the text alone.
pub uninterp spec fn parse_ok(s: Seq<char>) -> bool;

/// How many statements a valid query text holds; it depends on the
/// text alone.
pub uninterp spec fn parse_count(s: Seq<char>) -> nat;

/// Splits the query text into statements, in source order.  Relies on
/// `gluesql_core::parse_sql::parse`: the outcome is a function of the
/// text alone, a syntax error anywhere in the text fails the whole
/// call, and empty text parses to no statements.
#[verifier::external_body]
fn parse_sql(sql: &str) -> (r: Result<Vec<SqlStatement>, JavaGlueSQLError>)
    ensures
        r is Ok <==> parse_ok(sql@),
        r is Ok ==> r->Ok_0@.len() == parse_count(sql@),
        sql@.len() == 0 ==> r is Ok && r->Ok_0@.len() == 0,
{
    gluesql_core::parse_sql::parse(sql).map_err(|e| JavaGlueSQLError::new(e.to_string()))
}

/// Turns one parsed statement into an executable plan.  Relies on
/// `gluesql_core::translate::translate` and the
/// `StatementPlan::from(Statement)` conversion.
#[verifier::external_body]
fn translate_statement(statement: &SqlStatement) -> Result<StatementPlan, JavaGlueSQLError> {
    gluesql_core::translate::translate(statement)
        .map(StatementPlan::from)
        .map_err(|e| JavaGlueSQLError::new(e.to_string()))
}

/// Runs one statement on the in-memory backend.  Relies on
/// `Planner::plan` followed by `gluesql_core::executor::execute`.
#[verifier::external_body]
fn execute_memory(
    storage: &mut JavaMemoryStorage,
    statement: StatementPlan,
) -> Result<Payload, JavaGlueSQLError> {
    storage.0.plan(statement)
        .and_then(|plan| gluesql_core::executor::execute(&mut storage.0, &plan))
        .map_err(|e| JavaGlueSQLError::new(e.to_string()))
}

/// Runs one statement on the shared-memory backend.  Relies on
/// `Planner::plan` followed by `gluesql_core::executor::execute`.
#[verifier::external_body]
fn execute_shared_memory(
    storage: &mut JavaSharedMemoryStorage,
    statement: StatementPlan,
) -> Result<Payload, JavaGlueSQLError> {
    storage.0.plan(statement)
        .and_then(|plan| gluesql_core::executor::execute(&mut storage.0, &plan))
        .map_err(|e| JavaGlueSQLError::new(e.to_string()))
}

/// Runs one statement on the JSON-file backend.  Relies on
/// `Planner::plan` followed by `gluesql_core::executor::execute`.
#[verifier::external_body]
fn execute_json(
    storage: &mut JavaJsonStorage,
    statement: StatementPlan,
) -> Result<Payload, JavaGlueSQLError> {
    storage.0.plan(statement)
        .and_then(|plan| gluesql_core::executor::execute(&mut storage.0, &plan))
        .map_err(|e| JavaGlueSQLError::new(e.to_string()))
}

/// Runs one statement on the sled backend.  Relies on `Planner::plan`
/// followed by `gluesql_core::executor::execute`.
#[verifier::external_body]
fn execute_sled(
    storage: &mut JavaSledStorage,
    statement: StatementPlan,
) -> Result<Payload, JavaGlueSQLError> {
    storage.0.plan(statement)
        .and_then(|plan| gluesql_core::executor::execute(&mut storage.0, &plan))
        .map_err(|e| JavaGlueSQLError::new(e.to_string()))
}

/// Runs one statement on the redb backend.  Relies on `Planner::plan`
/// followed by `gluesql_core::executor::execute`.
#[verifier::external_body]
fn execute_redb(
    storage: &mut JavaRedbStorage,
    statement: StatementPlan,
) -> Result<Payload, JavaGlueSQLError> {
    storage.0.plan(statement)
        .and_then(|plan| gluesql_core::executor::execute(&mut storage.0, &plan))
        .map_err(|e| JavaGlueSQLError::new(e.to_string()))
}

/// Lock predicate of an instance: the engine behind the lock always has
/// the kind the instance was built with.
pub struct EnginePred {
    pub kind: EngineKind,
}

impl RwLockPredicate<JavaStorageEngine> for EnginePred {
    open spec fn inv(self, v: JavaStorageEngine) -> bool {
        v.kind() == self.kind
    }
}

/// One live engine instance: a storage engine behind an exclusive lock.
pub struct JavaGlue {
    pub storage: RwLock<JavaStorageEngine, EnginePred>,
}

impl JavaGlue {
    /// The backend kind this instance was built with; every value ever
    /// stored behind the lock has this kind.
    pub open spec fn kind(&self) -> EngineKind {
        self.storage.pred().kind
    }

    pub fn new(storage: JavaStorageEngine) -> (g: JavaGlue)
        ensures
            g.kind() == storage.kind(),
    {
        let ghost pred = EnginePred { kind: storage.kind() };
        JavaGlue { storage: RwLock::new(storage, Ghost(pred)) }
    }

    /// Takes the engine back out of the lock.  Releasing an instance
    /// must reclaim the backend's resources (close its files, drop its
    /// tables); the lock does not drop its contents by itself, so the
    /// instance's owner calls this on teardown and drops the engine.
    pub fn into_engine(self) -> (engine: JavaStorageEngine)
        ensures
            engine.kind() == self.kind(),
    {
        self.storage.into_inner()
    }

    /// Runs one statement under its own exclusive lock acquisition; the
    /// lock is released as soon as the statement finishes.  The engine's
    /// kind is unchanged.
    fn execute_single_statement(&self, statement: StatementPlan) -> Result<
        Payload,
        JavaGlueSQLError,
    > {
        let (engine, handle) = self.storage.acquire_write();
        let (engine, result) = match engine {
            JavaStorageEngine::Memory(mut s) => {
                let r = execute_memory(&mut s, statement);
                (JavaStorageEngine::Memory(s), r)
            },
            JavaStorageEngine::SharedMemory(mut s) => {
                let r = execute_shared_memory(&mut s, statement);
                (JavaStorageEngine::SharedMemory(s), r)
            },
            JavaStorageEngine::Json(mut s) => {
                let r = execute_json(&mut s, statement);
                (JavaStorageEngine::Json(s), r)
            },
            JavaStorageEngine::Sled(mut s) => {
                let r = execute_sled(&mut s, statement);
                (JavaStorageEngine::Sled(s), r)
            },
            JavaStorageEngine::Redb(mut s) => {
                let r = execute_redb(&mut s, statement);
                (JavaStorageEngine::Redb(s), r)
            },
        };
        handle.release_write(engine);
        result
    }

    /// Translates and executes the statements in source order, one lock
    /// acquisition per statement.  On success there is exactly one
    /// payload per statement; the first failure aborts the batch, and
    /// payloads already produced are dropped, not rolled back.
    fn execute_all(&self, statements: Vec<SqlStatement>) -> (r: Result<
        Vec<JavaPayload>,
        JavaGlueSQLError,
    >)
        ensures
            r is Ok ==> r->Ok_0@.len() == statements@.len(),
            statements@.len() == 0 ==> r is Ok,
    {
        let mut payloads: Vec<JavaPayload> = Vec::new();
        let n = statements.len();
        for i in 0..n
            invariant
                n == statements@.len(),
                payloads@.len() == i,
        {
            let plan = match translate_statement(&statements[i]) {
                Ok(plan) => plan,
                Err(e) => {
                    return Err(e);
                },
            };
            match self.execute_single_statement(plan) {
                Ok(payload) => payloads.push(JavaPayload { payload }),
                Err(e) => {
                    return Err(e);
                },
            }
        }
        Ok(payloads)
    }

    /// Runs the full query text: parse, then per statement translate and
    /// execute, then project the payloads into the serialized result.
    /// A text that does not parse is an error; on success the returned
    /// text is exactly the serialization of the executed payloads — an
    /// array of one tagged record per parsed statement, in source
    /// order.
    pub fn query_async_internal(&self, sql: &str) -> (r: Result<String, JavaGlueSQLError>)
        ensures
            !parse_ok(sql@) ==> r is Err,
            r is Ok ==> parse_ok(sql@) && serializes_result_records(
                r->Ok_0@,
                parse_count(sql@),
            ),
            sql@.len() == 0 ==> r is Ok && r->Ok_0@ == seq!['[', ']'],
    {
        let statements = match parse_sql(sql) {
            Ok(statements) => statements,
            Err(e) => {
                return Err(e);
            },
        };
        let ghost n_statements = statements@.len();
        let payloads = match self.execute_all(statements) {
            Ok(payloads) => payloads,
            Err(e) => {
                return Err(e);
            },
        };
        let ghost ps = payloads@;
        let text = match convert_payload(payloads) {
            Ok(text) => text,
            Err(e) => {
                return Err(e);
            },
        };
        proof {
            let rs = choose|rs: Seq<crate::payload::RenderedPayload>|
                crate::payload::projects_to(ps, rs, text@);
            assert(text@ == crate::payload::result_json(rs));
            assert(rs.len() == n_statements);
            assert(n_statements == parse_count(sql@));
            assert(serializes_result_records(text@, parse_count(sql@)));
            if sql@.len() == 0 {
                let none = Seq::<crate::payload::RenderedPayload>::empty();
                assert(none.map_values(
                    |r: crate::payload::RenderedPayload| crate::payload::record_json(r),
                ).len() == 0);
                assert(crate::payload::result_json(none) =~= seq!['[', ']']);
            }
        }
        Ok(text)
    }
}

} // verus!
