//! The result projector: turns executed statement payloads into the
//! serialized result text.
//!
//! Projection runs in two verified stages.  Rendering replaces every
//! engine value by its JSON fragment (one trusted conversion call per
//! leaf value, whose result is the named serialization of that value)
//! while provably preserving the payload's shape: its tag, its counts,
//! its labels, and under every label exactly that value's fragment.
//! It succeeds exactly when every value has a JSON form — an
//! unrepresentable value is an error, never a placeholder.  Emission
//! then assembles the final text, which is pinned character for
//! character by `record_json` / `result_json`, so the whole projection
//! is a function of the payloads alone (`lemma_projection_deterministic`).

use vstd::prelude::*;

use gluesql_core::ast::DataType;
use gluesql_core::data::Value;
use gluesql_core::executor::{Payload, PayloadVariable};
use std::collections::BTreeMap;

use crate::error::JavaGlueSQLError;
use crate::json::{dec_str, join_comma, json_array, json_string, push_char, push_json_string, push_usize};

verus! {

use vstd::string::StringExecFns;

#[verifier::external_type_specification]
#[verifier::external_body]
pub struct ExValue(Value);

#[verifier::external_type_specification]
#[verifier::external_body]
pub struct ExDataType(DataType);

#[verifier::external_type_specification]
pub struct ExPayload(Payload);

#[verifier::external_type_specification]
pub struct ExPayloadVariable(PayloadVariable);

/// The structured result of one executed statement, as handed to the
/// projector.
pub struct JavaPayload {
    pub payload: Payload,
}

/// One statement's payload with every engine value already rendered as a
/// JSON fragment; only plain data remains.
pub enum RenderedPayload {
    Create,
    Insert(usize),
    Update(usize),
    Delete(usize),
    Select { labels: Vec<String>, rows: Vec<Vec<String>> },
    DropTable(usize),
    AlterTable,
    CreateIndex,
    DropIndex,
    ShowColumns(Vec<(String, String)>),
    SelectMap(Vec<String>),
    DropFunction,
    ShowVariable(String),
    StartTransaction,
    Commit,
    Rollback,
}

/// The serialized form of a `ShowVariable` payload: serde's externally
/// tagged encoding of the variable.
pub open spec fn variable_json(v: PayloadVariable) -> Seq<char> {
    match v {
        PayloadVariable::Tables(names) => "{\"Tables\":"@ + json_array(
            names@.map_values(|s: String| json_string(s@)),
        ) + "}"@,
        PayloadVariable::Functions(names) => "{\"Functions\":"@ + json_array(
            names@.map_values(|s: String| json_string(s@)),
        ) + "}"@,
        PayloadVariable::Version(s) => "{\"Version\":"@ + json_string(s@) + "}"@,
    }
}

/// Whether `r` is the rendering of `p`: same tag, same counts, labels
/// kept verbatim, one fragment per value in every row.
pub open spec fn rendered_matches(p: Payload, r: RenderedPayload) -> bool {
    match p {
        Payload::Create => r is Create,
        Payload::Insert(n) => r matches RenderedPayload::Insert(m) && m == n,
        Payload::Update(n) => r matches RenderedPayload::Update(m) && m == n,
        Payload::Delete(n) => r matches RenderedPayload::Delete(m) && m == n,
        Payload::DropTable(n) => r matches RenderedPayload::DropTable(m) && m == n,
        Payload::AlterTable => r is AlterTable,
        Payload::CreateIndex => r is CreateIndex,
        Payload::DropIndex => r is DropIndex,
        Payload::DropFunction => r is DropFunction,
        Payload::StartTransaction => r is StartTransaction,
        Payload::Commit => r is Commit,
        Payload::Rollback => r is Rollback,
        Payload::Select { labels, rows } => r matches RenderedPayload::Select {
            labels: l2,
            rows: r2,
        } && {
            &&& l2@.len() == labels@.len()
            &&& forall|i: int| 0 <= i < labels@.len() ==> l2@[i]@ == #[trigger] labels@[i]@
            &&& r2@.len() == rows@.len()
            &&& forall|i: int| 0 <= i < rows@.len() ==> r2@[i]@.len() == #[trigger] rows@[i]@.len()
            &&& forall|i: int, k: int|
                0 <= i < rows@.len() && 0 <= k < rows@[i]@.len() ==> #[trigger] r2@[i]@[k]@
                    == value_json_of(rows@[i]@[k])
        },
        Payload::SelectMap(rows) => r matches RenderedPayload::SelectMap(frags) && {
            &&& frags@.len() == rows@.len()
            &&& forall|i: int|
                0 <= i < rows@.len() ==> frags@[i]@ == map_row_json_of(#[trigger] rows@[i])
        },
        Payload::ShowColumns(cols) => r matches RenderedPayload::ShowColumns(c2) && {
            &&& c2@.len() == cols@.len()
            &&& forall|i: int| 0 <= i < cols@.len() ==> c2@[i].0@ == #[trigger] cols@[i].0@
            &&& forall|i: int|
                0 <= i < cols@.len() ==> c2@[i].1@ == type_json_of(#[trigger] cols@[i].1)
        },
        Payload::ShowVariable(v) => r matches RenderedPayload::ShowVariable(f) && f@
            == variable_json(v),
    }
}

/// Whether an engine value has a JSON form.
pub uninterp spec fn value_json_ok(v: Value) -> bool;

/// The JSON fragment of an engine value; it depends on the value alone.
pub uninterp spec fn value_json_of(v: Value) -> Seq<char>;

/// Whether a column data type has a JSON form.
pub uninterp spec fn type_json_ok(d: DataType) -> bool;

/// The JSON fragment of a column data type; it depends on the type
/// alone.
pub uninterp spec fn type_json_of(d: DataType) -> Seq<char>;

/// Whether a schemaless row has a JSON form.
pub uninterp spec fn map_row_json_ok(row: BTreeMap<String, Value>) -> bool;

/// The JSON fragment of a schemaless row; it depends on the row alone
/// (the row is an ordered map, so no iteration order is involved).
pub uninterp spec fn map_row_json_of(row: BTreeMap<String, Value>) -> Seq<char>;

/// JSON fragment for one engine value.  Relies on gluesql_core's
/// `TryFrom<Value> for serde_json::Value` followed by
/// `serde_json::to_string`: the conversion is a function of the value
/// alone (nested maps serialize key-sorted), and a value with no JSON
/// form is reported as an error, never replaced by a placeholder.
#[verifier::external_body]
fn value_to_json(v: &Value) -> (r: Result<String, JavaGlueSQLError>)
    ensures
        r is Ok <==> value_json_ok(*v),
        r is Ok ==> r->Ok_0@ == value_json_of(*v),
{
    match serde_json::Value::try_from(v.clone()) {
        Ok(j) => serde_json::to_string(&j).map_err(|e| JavaGlueSQLError::new(e.to_string())),
        Err(e) => Err(JavaGlueSQLError::new(e.to_string())),
    }
}

/// JSON fragment for a column's data type.  Relies on
/// `serde_json::to_string` with the `Serialize` derive of
/// `gluesql_core::ast::DataType`: a function of the type alone.
#[verifier::external_body]
fn data_type_to_json(d: &DataType) -> (r: Result<String, JavaGlueSQLError>)
    ensures
        r is Ok <==> type_json_ok(*d),
        r is Ok ==> r->Ok_0@ == type_json_of(*d),
{
    serde_json::to_string(d).map_err(|e| JavaGlueSQLError::new(e.to_string()))
}

/// JSON fragment for one schemaless row.  Relies on
/// `serde_json::to_string` with the `Serialize` derives of `BTreeMap`
/// and `gluesql_core::data::Value`: a function of the row alone, since
/// a `BTreeMap` serializes in key order.
#[verifier::external_body]
fn btree_row_to_json(row: &BTreeMap<String, Value>) -> (r: Result<String, JavaGlueSQLError>)
    ensures
        r is Ok <==> map_row_json_ok(*row),
        r is Ok ==> r->Ok_0@ == map_row_json_of(*row),
{
    serde_json::to_string(row).map_err(|e| JavaGlueSQLError::new(e.to_string()))
}

/// Renders each value of one selected row as a JSON fragment.
/// Succeeds exactly when every value has a JSON form, and then returns
/// exactly each value's fragment, in order.
fn render_values(values: &Vec<Value>) -> (r: Result<Vec<String>, JavaGlueSQLError>)
    ensures
        r is Ok <==> (forall|k: int|
            0 <= k < values@.len() ==> value_json_ok(#[trigger] values@[k])),
        r is Ok ==> {
            &&& r->Ok_0@.len() == values@.len()
            &&& forall|k: int|
                0 <= k < values@.len() ==> r->Ok_0@[k]@ == value_json_of(#[trigger] values@[k])
        },
{
    let mut frags: Vec<String> = Vec::new();
    let n = values.len();
    for i in 0..n
        invariant
            n == values@.len(),
            frags@.len() == i,
            forall|k: int| 0 <= k < i ==> value_json_ok(#[trigger] values@[k]),
            forall|k: int|
                0 <= k < i ==> frags@[k]@ == value_json_of(#[trigger] values@[k]),
    {
        match value_to_json(&values[i]) {
            Ok(s) => frags.push(s),
            Err(e) => {
                proof {
                    assert(!value_json_ok(values@[i as int]));
                }
                return Err(e);
            },
        }
    }
    Ok(frags)
}

/// Renders every selected row.  Succeeds exactly when every value of
/// every row has a JSON form, and then keeps the row count and renders
/// each row's values in place.
fn render_rows(rows: &Vec<Vec<Value>>) -> (r: Result<Vec<Vec<String>>, JavaGlueSQLError>)
    ensures
        r is Ok <==> (forall|i: int, k: int|
            0 <= i < rows@.len() && 0 <= k < rows@[i]@.len() ==> value_json_ok(
                #[trigger] rows@[i]@[k],
            )),
        r is Ok ==> {
            &&& r->Ok_0@.len() == rows@.len()
            &&& forall|i: int|
                0 <= i < rows@.len() ==> r->Ok_0@[i]@.len() == #[trigger] rows@[i]@.len()
            &&& forall|i: int, k: int|
                0 <= i < rows@.len() && 0 <= k < rows@[i]@.len() ==> r->Ok_0@[i]@[k]@
                    == value_json_of(#[trigger] rows@[i]@[k])
        },
{
    let mut out: Vec<Vec<String>> = Vec::new();
    let n = rows.len();
    for i in 0..n
        invariant
            n == rows@.len(),
            out@.len() == i,
            forall|j: int, k: int|
                0 <= j < i && 0 <= k < rows@[j]@.len() ==> value_json_ok(#[trigger] rows@[j]@[k]),
            forall|j: int| 0 <= j < i ==> out@[j]@.len() == #[trigger] rows@[j]@.len(),
            forall|j: int, k: int|
                0 <= j < i && 0 <= k < rows@[j]@.len() ==> out@[j]@[k]@ == value_json_of(
                    #[trigger] rows@[j]@[k],
                ),
    {
        match render_values(&rows[i]) {
            Ok(frags) => out.push(frags),
            Err(e) => {
                proof {
                    let k = choose|k: int|
                        0 <= k < rows@[i as int]@.len() && !value_json_ok(rows@[i as int]@[k]);
                    assert(!value_json_ok(rows@[i as int]@[k]));
                }
                return Err(e);
            },
        }
    }
    Ok(out)
}

/// Renders a column listing.  Succeeds exactly when every column type
/// has a JSON form, and then keeps every column name verbatim beside
/// its type's fragment.
fn render_columns(cols: &Vec<(String, DataType)>) -> (r: Result<
    Vec<(String, String)>,
    JavaGlueSQLError,
>)
    ensures
        r is Ok <==> (forall|i: int| 0 <= i < cols@.len() ==> type_json_ok(#[trigger] cols@[i].1)),
        r is Ok ==> {
            &&& r->Ok_0@.len() == cols@.len()
            &&& forall|i: int| 0 <= i < cols@.len() ==> r->Ok_0@[i].0@ == #[trigger] cols@[i].0@
            &&& forall|i: int|
                0 <= i < cols@.len() ==> r->Ok_0@[i].1@ == type_json_of(#[trigger] cols@[i].1)
        },
{
    let mut out: Vec<(String, String)> = Vec::new();
    let n = cols.len();
    for i in 0..n
        invariant
            n == cols@.len(),
            out@.len() == i,
            forall|j: int| 0 <= j < i ==> type_json_ok(#[trigger] cols@[j].1),
            forall|j: int| 0 <= j < i ==> out@[j].0@ == #[trigger] cols@[j].0@,
            forall|j: int| 0 <= j < i ==> out@[j].1@ == type_json_of(#[trigger] cols@[j].1),
    {
        let name = cols[i].0.clone();
        match data_type_to_json(&cols[i].1) {
            Ok(frag) => out.push((name, frag)),
            Err(e) => {
                proof {
                    assert(!type_json_ok(cols@[i as int].1));
                }
                return Err(e);
            },
        }
    }
    Ok(out)
}

/// Renders every schemaless row.  Succeeds exactly when every row has a
/// JSON form, and then returns exactly each row's fragment, in order.
fn render_map_rows(rows: &Vec<BTreeMap<String, Value>>) -> (r: Result<
    Vec<String>,
    JavaGlueSQLError,
>)
    ensures
        r is Ok <==> (forall|i: int|
            0 <= i < rows@.len() ==> map_row_json_ok(#[trigger] rows@[i])),
        r is Ok ==> {
            &&& r->Ok_0@.len() == rows@.len()
            &&& forall|i: int|
                0 <= i < rows@.len() ==> r->Ok_0@[i]@ == map_row_json_of(#[trigger] rows@[i])
        },
{
    let mut out: Vec<String> = Vec::new();
    let n = rows.len();
    for i in 0..n
        invariant
            n == rows@.len(),
            out@.len() == i,
            forall|j: int| 0 <= j < i ==> map_row_json_ok(#[trigger] rows@[j]),
            forall|j: int| 0 <= j < i ==> out@[j]@ == map_row_json_of(#[trigger] rows@[j]),
    {
        match btree_row_to_json(&rows[i]) {
            Ok(frag) => out.push(frag),
            Err(e) => {
                proof {
                    assert(!map_row_json_ok(rows@[i as int]));
                }
                return Err(e);
            },
        }
    }
    Ok(out)
}

/// Builds the complete JSON string literal for `s` as a `String`.
fn json_string_of(s: &str) -> (r: String)
    ensures
        r@ == json_string(s@),
{
    let mut out = String::new();
    push_json_string(&mut out, s);
    proof {
        assert(out@ =~= json_string(s@));
    }
    out
}

/// Appends the element texts wrapped in `open`/`close`, comma-joined.
fn push_joined(out: &mut String, elems: &Vec<String>, open: char, close: char)
    ensures
        final(out)@ == old(out)@ + seq![open] + join_comma(
            elems@.map_values(|s: String| s@),
        ) + seq![close],
{
    push_char(out, open);
    let ghost mapped = elems@.map_values(|s: String| s@);
    let n = elems.len();
    for i in 0..n
        invariant
            n == elems@.len(),
            mapped == elems@.map_values(|s: String| s@),
            mapped.len() == n,
            out@ == old(out)@ + seq![open] + join_comma(mapped.take(i as int)),
    {
        if i > 0 {
            push_char(out, ',');
        }
        out.append(elems[i].as_str());
        proof {
            assert(mapped.take(i + 1).drop_last() =~= mapped.take(i as int));
            assert(mapped.take(i + 1).last() == mapped[i as int]);
            if i == 0 {
                assert(join_comma(mapped.take(1)) == mapped[0]);
                assert(out@ =~= old(out)@ + seq![open] + join_comma(mapped.take(1)));
            } else {
                assert(join_comma(mapped.take(i + 1)) == join_comma(mapped.take(i as int)) + seq![
                    ',',
                ] + mapped[i as int]);
                assert(out@ =~= old(out)@ + seq![open] + join_comma(mapped.take(i + 1)));
            }
        }
    }
    push_char(out, close);
    proof {
        assert(mapped.take(n as int) =~= mapped);
        assert(out@ =~= old(out)@ + seq![open] + join_comma(mapped) + seq![close]);
    }
}

/// Renders a `ShowVariable` payload's variable.
fn render_variable(v: PayloadVariable) -> (r: String)
    ensures
        r@ == variable_json(v),
{
    match v {
        PayloadVariable::Tables(names) => {
            let mut out = String::from_str("{\"Tables\":");
            push_name_array(&mut out, &names);
            out.append("}");
            proof {
                assert(out@ =~= variable_json(PayloadVariable::Tables(names)));
            }
            out
        },
        PayloadVariable::Functions(names) => {
            let mut out = String::from_str("{\"Functions\":");
            push_name_array(&mut out, &names);
            out.append("}");
            proof {
                assert(out@ =~= variable_json(PayloadVariable::Functions(names)));
            }
            out
        },
        PayloadVariable::Version(s) => {
            let mut out = String::from_str("{\"Version\":");
            push_json_string(&mut out, s.as_str());
            out.append("}");
            proof {
                assert(out@ =~= variable_json(PayloadVariable::Version(s)));
            }
            out
        },
    }
}

/// Appends a JSON array of string literals, one per name.
fn push_name_array(out: &mut String, names: &Vec<String>)
    ensures
        final(out)@ == old(out)@ + json_array(names@.map_values(|s: String| json_string(s@))),
{
    let mut elems: Vec<String> = Vec::new();
    let n = names.len();
    for i in 0..n
        invariant
            n == names@.len(),
            elems@.len() == i,
            forall|j: int| 0 <= j < i ==> elems@[j]@ == json_string(#[trigger] names@[j]@),
    {
        elems.push(json_string_of(names[i].as_str()));
    }
    push_joined(out, &elems, '[', ']');
    proof {
        assert(elems@.map_values(|s: String| s@) =~= names@.map_values(
            |s: String| json_string(s@),
        ));
    }
}

/// Whether a payload can be rendered: every engine value, column type
/// and schemaless row it carries must have a JSON form.  Payloads that
/// carry none always can.
pub open spec fn renderable(p: Payload) -> bool {
    match p {
        Payload::Select { labels: _, rows } => forall|i: int, k: int|
            0 <= i < rows@.len() && 0 <= k < rows@[i]@.len() ==> value_json_ok(
                #[trigger] rows@[i]@[k],
            ),
        Payload::SelectMap(rows) => forall|i: int|
            0 <= i < rows@.len() ==> map_row_json_ok(#[trigger] rows@[i]),
        Payload::ShowColumns(cols) => forall|i: int|
            0 <= i < cols@.len() ==> type_json_ok(#[trigger] cols@[i].1),
        _ => true,
    }
}

/// Renders one payload: every engine value becomes its JSON fragment,
/// and the payload's shape is preserved.  Rendering succeeds exactly
/// when the payload is renderable: an unrepresentable value is an
/// error, never a placeholder.
pub fn render_payload(p: Payload) -> (r: Result<RenderedPayload, JavaGlueSQLError>)
    ensures
        r is Ok <==> renderable(p),
        r is Ok ==> rendered_matches(p, r->Ok_0),
{
    match p {
        Payload::Create => Ok(RenderedPayload::Create),
        Payload::Insert(n) => Ok(RenderedPayload::Insert(n)),
        Payload::Update(n) => Ok(RenderedPayload::Update(n)),
        Payload::Delete(n) => Ok(RenderedPayload::Delete(n)),
        Payload::DropTable(n) => Ok(RenderedPayload::DropTable(n)),
        Payload::AlterTable => Ok(RenderedPayload::AlterTable),
        Payload::CreateIndex => Ok(RenderedPayload::CreateIndex),
        Payload::DropIndex => Ok(RenderedPayload::DropIndex),
        Payload::DropFunction => Ok(RenderedPayload::DropFunction),
        Payload::StartTransaction => Ok(RenderedPayload::StartTransaction),
        Payload::Commit => Ok(RenderedPayload::Commit),
        Payload::Rollback => Ok(RenderedPayload::Rollback),
        Payload::Select { labels, rows } => {
            match render_rows(&rows) {
                Ok(rendered) => Ok(RenderedPayload::Select { labels, rows: rendered }),
                Err(e) => Err(e),
            }
        },
        Payload::SelectMap(rows) => {
            match render_map_rows(&rows) {
                Ok(frags) => Ok(RenderedPayload::SelectMap(frags)),
                Err(e) => Err(e),
            }
        },
        Payload::ShowColumns(cols) => {
            match render_columns(&cols) {
                Ok(rendered) => Ok(RenderedPayload::ShowColumns(rendered)),
                Err(e) => Err(e),
            }
        },
        Payload::ShowVariable(v) => Ok(RenderedPayload::ShowVariable(render_variable(v))),
    }
}

/// JSON array of the labels as string literals.
pub open spec fn labels_json(ls: Seq<String>) -> Seq<char> {
    json_array(ls.map_values(|s: String| json_string(s@)))
}

/// The `"label":fragment` members of one selected row's record, in label
/// order, zipped up to the shorter of the two lists.
pub open spec fn row_pairs(ls: Seq<String>, row: Seq<String>) -> Seq<Seq<char>> {
    Seq::new(
        if ls.len() <= row.len() {
            ls.len()
        } else {
            row.len()
        },
        |i: int| json_string(ls[i]@) + seq![':'] + row[i]@,
    )
}

/// One selected row as a label-keyed JSON object.
pub open spec fn select_row_json(ls: Seq<String>, row: Seq<String>) -> Seq<char> {
    seq!['{'] + join_comma(row_pairs(ls, row)) + seq!['}']
}

/// The JSON array of all selected rows.
pub open spec fn select_rows_json(ls: Seq<String>, rows: Seq<Vec<String>>) -> Seq<char> {
    json_array(rows.map_values(|row: Vec<String>| select_row_json(ls, row@)))
}

/// One column listing entry: a `[name, type]` pair.
pub open spec fn col_json(c: (String, String)) -> Seq<char> {
    seq!['['] + json_string(c.0@) + seq![','] + c.1@ + seq![']']
}

/// The tagged record for one rendered payload, exactly as serialized.
pub open spec fn record_json(r: RenderedPayload) -> Seq<char> {
    match r {
        RenderedPayload::Create => "{\"type\":\"Create\",\"result\":\"Success\"}"@,
        RenderedPayload::Insert(n) => "{\"type\":\"Insert\",\"inserted_rows\":"@ + dec_str(
            n as nat,
        ) + "}"@,
        RenderedPayload::Update(n) => "{\"type\":\"Update\",\"updated_rows\":"@ + dec_str(
            n as nat,
        ) + "}"@,
        RenderedPayload::Delete(n) => "{\"type\":\"Delete\",\"deleted_rows\":"@ + dec_str(
            n as nat,
        ) + "}"@,
        RenderedPayload::DropTable(n) => "{\"type\":\"DropTable\",\"dropped_tables\":"@ + dec_str(
            n as nat,
        ) + "}"@,
        RenderedPayload::AlterTable => "{\"type\":\"AlterTable\",\"result\":\"Success\"}"@,
        RenderedPayload::CreateIndex => "{\"type\":\"CreateIndex\",\"result\":\"Success\"}"@,
        RenderedPayload::DropIndex => "{\"type\":\"DropIndex\",\"result\":\"Success\"}"@,
        RenderedPayload::DropFunction => "{\"type\":\"DropFunction\",\"result\":\"Success\"}"@,
        RenderedPayload::StartTransaction => "{\"type\":\"StartTransaction\",\"result\":\"Success\"}"@,
        RenderedPayload::Commit => "{\"type\":\"Commit\",\"result\":\"Success\"}"@,
        RenderedPayload::Rollback => "{\"type\":\"Rollback\",\"result\":\"Success\"}"@,
        RenderedPayload::Select { labels, rows } => "{\"type\":\"Select\",\"labels\":"@
            + labels_json(labels@) + ",\"rows\":"@ + select_rows_json(labels@, rows@) + "}"@,
        RenderedPayload::ShowColumns(cols) => "{\"type\":\"ShowColumns\",\"columns\":"@
            + json_array(cols@.map_values(|c: (String, String)| col_json(c))) + "}"@,
        RenderedPayload::SelectMap(frags) => "{\"type\":\"SelectMap\",\"rows\":"@ + json_array(
            frags@.map_values(|s: String| s@),
        ) + "}"@,
        RenderedPayload::ShowVariable(f) => "{\"type\":\"ShowVariable\",\"variable\":"@ + f@
            + "}"@,
    }
}

/// The complete serialized result: one tagged record per payload, in
/// order.
pub open spec fn result_json(rs: Seq<RenderedPayload>) -> Seq<char> {
    json_array(rs.map_values(|r: RenderedPayload| record_json(r)))
}

/// Appends the JSON array of all selected rows.
fn push_select_rows(out: &mut String, labels: &Vec<String>, rows: &Vec<Vec<String>>)
    ensures
        final(out)@ == old(out)@ + select_rows_json(labels@, rows@),
{
    let mut elems: Vec<String> = Vec::new();
    let n = rows.len();
    for i in 0..n
        invariant
            n == rows@.len(),
            elems@.len() == i,
            forall|j: int| 0 <= j < i ==> elems@[j]@ == select_row_json(labels@, #[trigger] rows@[j]@),
    {
        let row = &rows[i];
        let mut pairs: Vec<String> = Vec::new();
        let m = if labels.len() <= row.len() {
            labels.len()
        } else {
            row.len()
        };
        for k in 0..m
            invariant
                m == row_pairs(labels@, row@).len(),
                m <= labels@.len(),
                m <= row@.len(),
                pairs@.len() == k,
                forall|j: int| 0 <= j < k ==> pairs@[j]@ == #[trigger] row_pairs(labels@, row@)[j],
        {
            let mut e = json_string_of(labels[k].as_str());
            push_char(&mut e, ':');
            e.append(row[k].as_str());
            proof {
                assert(e@ =~= row_pairs(labels@, row@)[k as int]);
            }
            pairs.push(e);
        }
        let mut rowtext = String::new();
        push_joined(&mut rowtext, &pairs, '{', '}');
        proof {
            assert(pairs@.map_values(|s: String| s@) =~= row_pairs(labels@, row@));
            assert(rowtext@ =~= select_row_json(labels@, row@));
        }
        elems.push(rowtext);
    }
    push_joined(out, &elems, '[', ']');
    proof {
        assert(elems@.map_values(|s: String| s@) =~= rows@.map_values(
            |row: Vec<String>| select_row_json(labels@, row@),
        ));
    }
}

/// Appends the JSON array of column listing entries.
fn push_columns(out: &mut String, cols: &Vec<(String, String)>)
    ensures
        final(out)@ == old(out)@ + json_array(
            cols@.map_values(|c: (String, String)| col_json(c)),
        ),
{
    let mut elems: Vec<String> = Vec::new();
    let n = cols.len();
    for i in 0..n
        invariant
            n == cols@.len(),
            elems@.len() == i,
            forall|j: int| 0 <= j < i ==> elems@[j]@ == col_json(#[trigger] cols@[j]),
    {
        let mut e = String::new();
        push_char(&mut e, '[');
        push_json_string(&mut e, cols[i].0.as_str());
        push_char(&mut e, ',');
        e.append(cols[i].1.as_str());
        push_char(&mut e, ']');
        proof {
            assert(e@ =~= col_json(cols@[i as int]));
        }
        elems.push(e);
    }
    push_joined(out, &elems, '[', ']');
    proof {
        assert(elems@.map_values(|s: String| s@) =~= cols@.map_values(
            |c: (String, String)| col_json(c),
        ));
    }
}

/// Appends the tagged record for one rendered payload.
fn emit_record(out: &mut String, r: &RenderedPayload)
    ensures
        final(out)@ == old(out)@ + record_json(*r),
{
    match r {
        RenderedPayload::Create => {
            out.append("{\"type\":\"Create\",\"result\":\"Success\"}");
        },
        RenderedPayload::Insert(n) => {
            out.append("{\"type\":\"Insert\",\"inserted_rows\":");
            push_usize(out, *n);
            out.append("}");
            assert(out@ =~= old(out)@ + record_json(*r));
        },
        RenderedPayload::Update(n) => {
            out.append("{\"type\":\"Update\",\"updated_rows\":");
            push_usize(out, *n);
            out.append("}");
            assert(out@ =~= old(out)@ + record_json(*r));
        },
        RenderedPayload::Delete(n) => {
            out.append("{\"type\":\"Delete\",\"deleted_rows\":");
            push_usize(out, *n);
            out.append("}");
            assert(out@ =~= old(out)@ + record_json(*r));
        },
        RenderedPayload::DropTable(n) => {
            out.append("{\"type\":\"DropTable\",\"dropped_tables\":");
            push_usize(out, *n);
            out.append("}");
            assert(out@ =~= old(out)@ + record_json(*r));
        },
        RenderedPayload::AlterTable => {
            out.append("{\"type\":\"AlterTable\",\"result\":\"Success\"}");
        },
        RenderedPayload::CreateIndex => {
            out.append("{\"type\":\"CreateIndex\",\"result\":\"Success\"}");
        },
        RenderedPayload::DropIndex => {
            out.append("{\"type\":\"DropIndex\",\"result\":\"Success\"}");
        },
        RenderedPayload::DropFunction => {
            out.append("{\"type\":\"DropFunction\",\"result\":\"Success\"}");
        },
        RenderedPayload::StartTransaction => {
            out.append("{\"type\":\"StartTransaction\",\"result\":\"Success\"}");
        },
        RenderedPayload::Commit => {
            out.append("{\"type\":\"Commit\",\"result\":\"Success\"}");
        },
        RenderedPayload::Rollback => {
            out.append("{\"type\":\"Rollback\",\"result\":\"Success\"}");
        },
        RenderedPayload::Select { labels, rows } => {
            out.append("{\"type\":\"Select\",\"labels\":");
            push_name_array(out, labels);
            out.append(",\"rows\":");
            push_select_rows(out, labels, rows);
            out.append("}");
            assert(out@ =~= old(out)@ + record_json(*r));
        },
        RenderedPayload::ShowColumns(cols) => {
            out.append("{\"type\":\"ShowColumns\",\"columns\":");
            push_columns(out, cols);
            out.append("}");
            assert(out@ =~= old(out)@ + record_json(*r));
        },
        RenderedPayload::SelectMap(frags) => {
            out.append("{\"type\":\"SelectMap\",\"rows\":");
            push_joined(out, frags, '[', ']');
            out.append("}");
            assert(out@ =~= old(out)@ + record_json(*r));
        },
        RenderedPayload::ShowVariable(f) => {
            out.append("{\"type\":\"ShowVariable\",\"variable\":");
            out.append(f.as_str());
            out.append("}");
            assert(out@ =~= old(out)@ + record_json(*r));
        },
    }
}

/// The tagged record for one rendered payload, as a `String`.
fn record_string(r: &RenderedPayload) -> (s: String)
    ensures
        s@ == record_json(*r),
{
    let mut out = String::new();
    emit_record(&mut out, r);
    proof {
        assert(out@ =~= record_json(*r));
    }
    out
}

/// Serializes the rendered payloads: a JSON array with one tagged record
/// per payload, in order.
pub fn emit_result(rendered: &Vec<RenderedPayload>) -> (out: String)
    ensures
        out@ == result_json(rendered@),
{
    let mut elems: Vec<String> = Vec::new();
    let n = rendered.len();
    for i in 0..n
        invariant
            n == rendered@.len(),
            elems@.len() == i,
            forall|j: int| 0 <= j < i ==> elems@[j]@ == record_json(#[trigger] rendered@[j]),
    {
        elems.push(record_string(&rendered[i]));
    }
    let mut out = String::new();
    push_joined(&mut out, &elems, '[', ']');
    proof {
        assert(elems@.map_values(|s: String| s@) =~= rendered@.map_values(
            |r: RenderedPayload| record_json(r),
        ));
        assert(out@ =~= result_json(rendered@));
    }
    out
}

/// Whether `text` is the serialized result of `ps` through the rendering
/// `rs`: one record per payload, in order, each the rendering of its
/// payload.
pub open spec fn projects_to(
    ps: Seq<JavaPayload>,
    rs: Seq<RenderedPayload>,
    text: Seq<char>,
) -> bool {
    &&& rs.len() == ps.len()
    &&& (forall|i: int| 0 <= i < rs.len() ==> rendered_matches(#[trigger] ps[i].payload, rs[i]))
    &&& text == result_json(rs)
}

/// Law: the serialized result of the renderings `rs` is an array of
/// exactly `rs.len()` records, in order — the `i`th element of the
/// array is the record of `rs[i]`.
pub proof fn lemma_one_record_per_payload(rs: Seq<RenderedPayload>)
    ensures
        result_json(rs) == json_array(rs.map_values(|r: RenderedPayload| record_json(r))),
        rs.map_values(|r: RenderedPayload| record_json(r)).len() == rs.len(),
        forall|i: int|
            0 <= i < rs.len() ==> rs.map_values(|r: RenderedPayload| record_json(r))[i]
                == record_json(rs[i]),
{
}

/// Two renderings of the same payload serialize to the same record:
/// `rendered_matches` pins every part of the record text.
proof fn lemma_record_json_determined(p: Payload, r1: RenderedPayload, r2: RenderedPayload)
    requires
        rendered_matches(p, r1),
        rendered_matches(p, r2),
    ensures
        record_json(r1) == record_json(r2),
{
    match p {
        Payload::Select { labels, rows } => {
            match (r1, r2) {
                (
                    RenderedPayload::Select { labels: a1, rows: b1 },
                    RenderedPayload::Select { labels: a2, rows: b2 },
                ) => {
                    let f1 = a1@.map_values(|s: String| json_string(s@));
                    let f2 = a2@.map_values(|s: String| json_string(s@));
                    assert forall|i: int| 0 <= i < f1.len() implies f1[i] == f2[i] by {
                        assert(a1@[i]@ == labels@[i]@);
                        assert(a2@[i]@ == labels@[i]@);
                    }
                    assert(f1 =~= f2);
                    let g1 = b1@.map_values(|row: Vec<String>| select_row_json(a1@, row@));
                    let g2 = b2@.map_values(|row: Vec<String>| select_row_json(a2@, row@));
                    assert forall|i: int| 0 <= i < g1.len() implies g1[i] == g2[i] by {
                        let p1 = row_pairs(a1@, b1@[i]@);
                        let p2 = row_pairs(a2@, b2@[i]@);
                        assert(b1@[i]@.len() == rows@[i]@.len());
                        assert(b2@[i]@.len() == rows@[i]@.len());
                        assert forall|k: int| 0 <= k < p1.len() implies p1[k] == p2[k] by {
                            assert(b1@[i]@[k]@ == value_json_of(rows@[i]@[k]));
                            assert(b2@[i]@[k]@ == value_json_of(rows@[i]@[k]));
                            assert(a1@[k]@ == labels@[k]@);
                            assert(a2@[k]@ == labels@[k]@);
                        }
                        assert(p1 =~= p2);
                    }
                    assert(g1 =~= g2);
                },
                _ => {},
            }
        },
        Payload::SelectMap(rows) => {
            match (r1, r2) {
                (RenderedPayload::SelectMap(f1), RenderedPayload::SelectMap(f2)) => {
                    let m1 = f1@.map_values(|s: String| s@);
                    let m2 = f2@.map_values(|s: String| s@);
                    assert forall|i: int| 0 <= i < m1.len() implies m1[i] == m2[i] by {
                        assert(f1@[i]@ == map_row_json_of(rows@[i]));
                        assert(f2@[i]@ == map_row_json_of(rows@[i]));
                    }
                    assert(m1 =~= m2);
                },
                _ => {},
            }
        },
        Payload::ShowColumns(cols) => {
            match (r1, r2) {
                (RenderedPayload::ShowColumns(c1), RenderedPayload::ShowColumns(c2)) => {
                    let m1 = c1@.map_values(|c: (String, String)| col_json(c));
                    let m2 = c2@.map_values(|c: (String, String)| col_json(c));
                    assert forall|i: int| 0 <= i < m1.len() implies m1[i] == m2[i] by {
                        assert(c1@[i].0@ == cols@[i].0@);
                        assert(c2@[i].0@ == cols@[i].0@);
                        assert(c1@[i].1@ == type_json_of(cols@[i].1));
                        assert(c2@[i].1@ == type_json_of(cols@[i].1));
                    }
                    assert(m1 =~= m2);
                },
                _ => {},
            }
        },
        _ => {},
    }
}

/// Law: projection is deterministic — any two renderings of the same
/// payload sequence serialize to the same text, so equal payload lists
/// yield equal serialized results.
pub proof fn lemma_projection_deterministic(
    ps: Seq<JavaPayload>,
    rs1: Seq<RenderedPayload>,
    rs2: Seq<RenderedPayload>,
    t1: Seq<char>,
    t2: Seq<char>,
)
    requires
        projects_to(ps, rs1, t1),
        projects_to(ps, rs2, t2),
    ensures
        t1 == t2,
{
    let m1 = rs1.map_values(|r: RenderedPayload| record_json(r));
    let m2 = rs2.map_values(|r: RenderedPayload| record_json(r));
    assert forall|i: int| 0 <= i < m1.len() implies m1[i] == m2[i] by {
        lemma_record_json_determined(ps[i].payload, rs1[i], rs2[i]);
    }
    assert(m1 =~= m2);
}

/// The `type` tag under which a payload's record is serialized.
pub open spec fn tag_text(p: Payload) -> Seq<char> {
    match p {
        Payload::Create => "Create"@,
        Payload::Insert(_) => "Insert"@,
        Payload::Update(_) => "Update"@,
        Payload::Delete(_) => "Delete"@,
        Payload::DropTable(_) => "DropTable"@,
        Payload::AlterTable => "AlterTable"@,
        Payload::CreateIndex => "CreateIndex"@,
        Payload::DropIndex => "DropIndex"@,
        Payload::DropFunction => "DropFunction"@,
        Payload::StartTransaction => "StartTransaction"@,
        Payload::Commit => "Commit"@,
        Payload::Rollback => "Rollback"@,
        Payload::Select { labels: _, rows: _ } => "Select"@,
        Payload::SelectMap(_) => "SelectMap"@,
        Payload::ShowColumns(_) => "ShowColumns"@,
        Payload::ShowVariable(_) => "ShowVariable"@,
    }
}

/// Law: the record of a rendered payload is tagged with the type of the
/// payload it came from — its text begins with `{"type":"` followed by
/// that payload's tag.
pub proof fn lemma_record_tagged(p: Payload, r: RenderedPayload)
    requires
        rendered_matches(p, r),
    ensures
        record_json(r).take(("{\"type\":\""@ + tag_text(p)).len() as int) == "{\"type\":\""@
            + tag_text(p),
{
    reveal_strlit("{\"type\":\"");
    reveal_strlit("Create");
    reveal_strlit("Insert");
    reveal_strlit("Update");
    reveal_strlit("Delete");
    reveal_strlit("DropTable");
    reveal_strlit("AlterTable");
    reveal_strlit("CreateIndex");
    reveal_strlit("DropIndex");
    reveal_strlit("DropFunction");
    reveal_strlit("StartTransaction");
    reveal_strlit("Commit");
    reveal_strlit("Rollback");
    reveal_strlit("Select");
    reveal_strlit("SelectMap");
    reveal_strlit("ShowColumns");
    reveal_strlit("ShowVariable");
    let goal = "{\"type\":\""@ + tag_text(p);
    match p {
        Payload::Create => {
            reveal_strlit("{\"type\":\"Create\",\"result\":\"Success\"}");
            assert(record_json(r).take(goal.len() as int) =~= goal);
        },
        Payload::Insert(_) => {
            reveal_strlit("{\"type\":\"Insert\",\"inserted_rows\":");
            assert(record_json(r).take(goal.len() as int) =~= goal);
        },
        Payload::Update(_) => {
            reveal_strlit("{\"type\":\"Update\",\"updated_rows\":");
            assert(record_json(r).take(goal.len() as int) =~= goal);
        },
        Payload::Delete(_) => {
            reveal_strlit("{\"type\":\"Delete\",\"deleted_rows\":");
            assert(record_json(r).take(goal.len() as int) =~= goal);
        },
        Payload::DropTable(_) => {
            reveal_strlit("{\"type\":\"DropTable\",\"dropped_tables\":");
            assert(record_json(r).take(goal.len() as int) =~= goal);
        },
        Payload::AlterTable => {
            reveal_strlit("{\"type\":\"AlterTable\",\"result\":\"Success\"}");
            assert(record_json(r).take(goal.len() as int) =~= goal);
        },
        Payload::CreateIndex => {
            reveal_strlit("{\"type\":\"CreateIndex\",\"result\":\"Success\"}");
            assert(record_json(r).take(goal.len() as int) =~= goal);
        },
        Payload::DropIndex => {
            reveal_strlit("{\"type\":\"DropIndex\",\"result\":\"Success\"}");
            assert(record_json(r).take(goal.len() as int) =~= goal);
        },
        Payload::DropFunction => {
            reveal_strlit("{\"type\":\"DropFunction\",\"result\":\"Success\"}");
            assert(record_json(r).take(goal.len() as int) =~= goal);
        },
        Payload::StartTransaction => {
            reveal_strlit("{\"type\":\"StartTransaction\",\"result\":\"Success\"}");
            assert(record_json(r).take(goal.len() as int) =~= goal);
        },
        Payload::Commit => {
            reveal_strlit("{\"type\":\"Commit\",\"result\":\"Success\"}");
            assert(record_json(r).take(goal.len() as int) =~= goal);
        },
        Payload::Rollback => {
            reveal_strlit("{\"type\":\"Rollback\",\"result\":\"Success\"}");
            assert(record_json(r).take(goal.len() as int) =~= goal);
        },
        Payload::Select { labels: _, rows: _ } => {
            reveal_strlit("{\"type\":\"Select\",\"labels\":");
            assert(record_json(r).take(goal.len() as int) =~= goal);
        },
        Payload::SelectMap(_) => {
            reveal_strlit("{\"type\":\"SelectMap\",\"rows\":");
            assert(record_json(r).take(goal.len() as int) =~= goal);
        },
        Payload::ShowColumns(_) => {
            reveal_strlit("{\"type\":\"ShowColumns\",\"columns\":");
            assert(record_json(r).take(goal.len() as int) =~= goal);
        },
        Payload::ShowVariable(_) => {
            reveal_strlit("{\"type\":\"ShowVariable\",\"variable\":");
            assert(record_json(r).take(goal.len() as int) =~= goal);
        },
    }
}

/// Whether some rendering of `ps` serializes to `text`.
pub open spec fn projection_ok(ps: Seq<JavaPayload>, text: Seq<char>) -> bool {
    exists|rs: Seq<RenderedPayload>| projects_to(ps, rs, text)
}

/// Whether `text` is the serialization of some rendering of exactly
/// `n` payloads: a JSON array of `n` tagged records.
pub open spec fn serializes_result_records(text: Seq<char>, n: nat) -> bool {
    exists|rs: Seq<RenderedPayload>| rs.len() == n && text == result_json(rs)
}

/// Projects the executed payloads into the serialized result text: one
/// tagged record per payload, in execution order.  Fails only when an
/// engine value has no JSON form; a batch whose payloads carry no
/// engine values always serializes.
pub fn convert_payload(payloads: Vec<JavaPayload>) -> (r: Result<String, JavaGlueSQLError>)
    ensures
        r is Ok <==> (forall|i: int|
            0 <= i < payloads@.len() ==> renderable(#[trigger] payloads@[i].payload)),
        r is Ok ==> projection_ok(payloads@, r->Ok_0@),
        payloads@.len() == 0 ==> r is Ok && r->Ok_0@ == result_json(
            Seq::<RenderedPayload>::empty(),
        ),
{
    let ghost orig = payloads@;
    let mut remaining = payloads;
    let mut rendered: Vec<RenderedPayload> = Vec::new();
    while remaining.len() > 0
        invariant
            payloads@ == orig,
            rendered@.len() + remaining@.len() == orig.len(),
            remaining@ == orig.subrange(rendered@.len() as int, orig.len() as int),
            forall|i: int|
                0 <= i < rendered@.len() ==> rendered_matches(
                    #[trigger] orig[i].payload,
                    rendered@[i],
                ),
            forall|i: int| 0 <= i < rendered@.len() ==> renderable(#[trigger] orig[i].payload),
        decreases remaining@.len(),
    {
        let ghost k = rendered@.len() as int;
        let jp = remaining.remove(0);
        proof {
            assert(jp == orig[k]);
        }
        let JavaPayload { payload } = jp;
        match render_payload(payload) {
            Ok(rp) => rendered.push(rp),
            Err(e) => {
                proof {
                    assert(payloads@ == orig);
                    assert(0 <= k < payloads@.len());
                    assert(!renderable(payloads@[k].payload));
                }
                return Err(e);
            },
        }
        proof {
            assert(remaining@ =~= orig.subrange(rendered@.len() as int, orig.len() as int));
        }
    }
    let out = emit_result(&rendered);
    proof {
        assert(rendered@.len() == orig.len());
        assert(projection_ok(payloads@, out@)) by {
            assert(projects_to(payloads@, rendered@, out@));
        }
        if orig.len() == 0 {
            assert(rendered@ =~= Seq::<RenderedPayload>::empty());
        }
    }
    Ok(out)
}

} // verus!
