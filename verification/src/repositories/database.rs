//! What the database-backed repositories send to the database, and what they
//! make of its answers.
//!
//! The repositories themselves live with the caller: they hold the connection
//! and wait for the database. Every choice they make is made here. A function
//! that ends in `_statement` says what to send. One that ends in `_answer`
//! takes what came back and says what the operation answers. One that ends in
//! `_step` stands between the two statements of an operation.

use crate::repositories::label::{existing_view, refusal, refuse_duplicate, Label};
use crate::repositories::todo::{merge, merged, CreateTodo, Todo, UpdateTodo};
use crate::repositories::RepositoryError;
use vstd::prelude::*;

verus! {

/// Stores a record: `$1` is its text.
pub const INSERT_TODO: &'static str =
    "insert into todos (text, completed) values ($1, false) returning *";

/// Reads the record under the id `$1`.
pub const SELECT_TODO: &'static str = "select * from todos where id=$1";

/// Reads every record.
pub const SELECT_TODOS: &'static str = "select * from todos";

/// Writes the text `$1` and the flag `$2` to the record under the id `$3`.
pub const UPDATE_TODO: &'static str =
    "update todos set text = $1, completed = $2 where id=$3 returning *";

/// Removes the record under the id `$1`.
pub const DELETE_TODO: &'static str = "delete from todos where id=$1";

/// Reads the label that holds the name `$1`.
pub const SELECT_LABEL_BY_NAME: &'static str = "select * from labels where name = $1";

/// Stores a label: `$1` is its name.
pub const INSERT_LABEL: &'static str = "insert into labels ( name ) values ($1) returning *";

/// Reads every label, in the order of the ids.
pub const SELECT_LABELS: &'static str = "select * from labels order by labels.id asc";

/// Removes the label under the id `$1`.
pub const DELETE_LABEL: &'static str = "delete from labels where id = $1";

/// A value bound to a placeholder of a statement.
#[derive(Debug)]
pub enum Parameter {
    Text(String),
    Flag(bool),
    Id(i32),
}

/// A `Parameter` as contracts speak of it.
pub enum ParameterView {
    Text(Seq<char>),
    Flag(bool),
    Id(i32),
}

impl View for Parameter {
    type V = ParameterView;

    open spec fn view(&self) -> ParameterView {
        match self {
            Parameter::Text(text) => ParameterView::Text(text@),
            Parameter::Flag(flag) => ParameterView::Flag(*flag),
            Parameter::Id(id) => ParameterView::Id(*id),
        }
    }
}

/// A statement with the values for its placeholders: the first value is
/// bound to `$1`, the second to `$2`, and so on.
#[derive(Debug)]
pub struct Statement {
    pub sql: &'static str,
    pub parameters: Vec<Parameter>,
}

/// A `Statement` as contracts speak of it.
pub struct StatementView {
    pub sql: Seq<char>,
    pub parameters: Seq<ParameterView>,
}

impl View for Statement {
    type V = StatementView;

    open spec fn view(&self) -> StatementView {
        StatementView {
            sql: self.sql@,
            parameters: self.parameters@.map_values(|parameter: Parameter| parameter@),
        }
    }
}

/// A statement with its values, in the order of the placeholders.
fn statement(sql: &'static str, parameters: Vec<Parameter>) -> (statement: Statement)
    ensures
        statement@.sql == sql@,
        statement@.parameters == parameters@.map_values(|parameter: Parameter| parameter@),
{
    Statement { sql, parameters }
}

/// Stores a record with the payload's text, not completed, and gives the row back.
pub fn insert_todo_statement(payload: CreateTodo) -> (statement: Statement)
    ensures
        statement@ == (StatementView {
            sql: INSERT_TODO@,
            parameters: seq![ParameterView::Text(payload.text@)],
        }),
{
    let statement = statement(INSERT_TODO, vec![Parameter::Text(payload.text)]);
    assert(statement@.parameters =~= seq![ParameterView::Text(payload.text@)]);
    statement
}

/// Looks up the record under an id.
pub fn select_todo_statement(id: i32) -> (statement: Statement)
    ensures
        statement@ == (StatementView { sql: SELECT_TODO@, parameters: seq![ParameterView::Id(id)] }),
{
    let statement = statement(SELECT_TODO, vec![Parameter::Id(id)]);
    assert(statement@.parameters =~= seq![ParameterView::Id(id)]);
    statement
}

/// Reads every record.
pub fn select_todos_statement() -> (statement: Statement)
    ensures
        statement@ == (StatementView { sql: SELECT_TODOS@, parameters: Seq::empty() }),
{
    let statement = statement(SELECT_TODOS, Vec::new());
    assert(statement@.parameters =~= Seq::<ParameterView>::empty());
    statement
}

/// Writes the stored record with the set fields of the payload laid over it,
/// and gives the row back.
pub fn update_todo_statement(id: i32, stored: &Todo, payload: UpdateTodo) -> (statement: Statement)
    ensures
        statement@ == (StatementView {
            sql: UPDATE_TODO@,
            parameters: seq![
                ParameterView::Text(merged(id, stored@, payload@).text),
                ParameterView::Flag(merged(id, stored@, payload@).completed),
                ParameterView::Id(id),
            ],
        }),
{
    let todo = merge(id, stored, payload);
    let statement = statement(
        UPDATE_TODO,
        vec![Parameter::Text(todo.text), Parameter::Flag(todo.completed), Parameter::Id(id)],
    );
    assert(statement@.parameters =~= seq![
        ParameterView::Text(merged(id, stored@, payload@).text),
        ParameterView::Flag(merged(id, stored@, payload@).completed),
        ParameterView::Id(id),
    ]);
    statement
}

/// Removes the record under an id.
pub fn delete_todo_statement(id: i32) -> (statement: Statement)
    ensures
        statement@ == (StatementView { sql: DELETE_TODO@, parameters: seq![ParameterView::Id(id)] }),
{
    let statement = statement(DELETE_TODO, vec![Parameter::Id(id)]);
    assert(statement@.parameters =~= seq![ParameterView::Id(id)]);
    statement
}

/// Looks up the label that holds a name.
pub fn select_label_by_name_statement(name: &str) -> (statement: Statement)
    ensures
        statement@ == (StatementView {
            sql: SELECT_LABEL_BY_NAME@,
            parameters: seq![ParameterView::Text(name@)],
        }),
{
    let statement = statement(SELECT_LABEL_BY_NAME, vec![Parameter::Text(name.to_owned())]);
    assert(statement@.parameters =~= seq![ParameterView::Text(name@)]);
    statement
}

/// Stores a label with the name and gives the row back.
pub fn insert_label_statement(name: String) -> (statement: Statement)
    ensures
        statement@ == (StatementView {
            sql: INSERT_LABEL@,
            parameters: seq![ParameterView::Text(name@)],
        }),
{
    let statement = statement(INSERT_LABEL, vec![Parameter::Text(name)]);
    assert(statement@.parameters =~= seq![ParameterView::Text(name@)]);
    statement
}

/// Reads every label, in the order of the ids.
pub fn select_labels_statement() -> (statement: Statement)
    ensures
        statement@ == (StatementView { sql: SELECT_LABELS@, parameters: Seq::empty() }),
{
    let statement = statement(SELECT_LABELS, Vec::new());
    assert(statement@.parameters =~= Seq::<ParameterView>::empty());
    statement
}

/// Removes the label under an id.
pub fn delete_label_statement(id: i32) -> (statement: Statement)
    ensures
        statement@ == (StatementView { sql: DELETE_LABEL@, parameters: seq![ParameterView::Id(id)] }),
{
    let statement = statement(DELETE_LABEL, vec![Parameter::Id(id)]);
    assert(statement@.parameters =~= seq![ParameterView::Id(id)]);
    statement
}

/// How a statement failed in the database, as far as the repositories tell
/// failures apart.
#[derive(Debug)]
pub struct DatabaseError {
    /// Whether the statement was to give a row and gave none.
    pub no_row: bool,
    /// The database's own account of the failure.
    pub message: String,
}

/// What a repository reports when a statement about the record `id` failed: a
/// missing row means that no record has the id, any other failure is
/// unexpected and handed on with its text.
pub open spec fn failure_about(id: i32, error: DatabaseError) -> RepositoryError {
    if error.no_row {
        RepositoryError::NotFound(id)
    } else {
        RepositoryError::Unexpected(error.message)
    }
}

impl RepositoryError {
    /// What a repository reports when a statement about the record `id` failed.
    pub fn from_database(id: i32, error: DatabaseError) -> (reported: RepositoryError)
        ensures
            reported == failure_about(id, error),
    {
        if error.no_row {
            RepositoryError::NotFound(id)
        } else {
            RepositoryError::Unexpected(error.message)
        }
    }

    /// What a repository reports when a statement that is about no single
    /// record failed: the failure is unexpected and handed on with its text.
    pub fn unexpected(error: DatabaseError) -> (reported: RepositoryError)
        ensures
            reported == RepositoryError::Unexpected(error.message),
    {
        RepositoryError::Unexpected(error.message)
    }
}

/// The answer to a statement about the record `id` that has given its row,
/// or failed.
fn row_answer<T>(id: i32, outcome: Result<T, DatabaseError>) -> (answer: Result<
    T,
    RepositoryError,
>)
    ensures
        answer == match outcome {
            Ok(row) => Ok::<T, RepositoryError>(row),
            Err(error) => Err(failure_about(id, error)),
        },
{
    match outcome {
        Ok(row) => Ok(row),
        Err(error) => Err(RepositoryError::from_database(id, error)),
    }
}

/// The answer to a statement about no single record that has given its rows,
/// or failed.
fn rows_answer<T>(outcome: Result<T, DatabaseError>) -> (answer: Result<T, RepositoryError>)
    ensures
        answer == match outcome {
            Ok(rows) => Ok::<T, RepositoryError>(rows),
            Err(error) => Err(RepositoryError::Unexpected(error.message)),
        },
{
    match outcome {
        Ok(rows) => Ok(rows),
        Err(error) => Err(RepositoryError::unexpected(error)),
    }
}

/// The answer to a statement that removes what is filed under `id` and has
/// said how many rows it removed, or failed.
fn delete_answer(id: i32, outcome: Result<u64, DatabaseError>) -> (answer: Result<
    (),
    RepositoryError,
>)
    ensures
        answer == match outcome {
            Ok(removed) => if removed == 0 {
                Err::<(), RepositoryError>(RepositoryError::NotFound(id))
            } else {
                Ok(())
            },
            Err(error) => Err(failure_about(id, error)),
        },
{
    match outcome {
        Ok(removed) => if removed == 0 {
            Err(RepositoryError::NotFound(id))
        } else {
            Ok(())
        },
        Err(error) => Err(RepositoryError::from_database(id, error)),
    }
}

/// What creating a record answers once the insert has given its row, or
/// failed: a failure is unexpected and handed on with its text.
pub fn create_todo_answer(outcome: Result<Todo, DatabaseError>) -> (answer: Result<
    Todo,
    RepositoryError,
>)
    ensures
        answer == match outcome {
            Ok(row) => Ok::<Todo, RepositoryError>(row),
            Err(error) => Err(RepositoryError::Unexpected(error.message)),
        },
{
    rows_answer(outcome)
}

/// What looking up the record `id` answers once the lookup has given its
/// row, or failed: without a row, no record has the id.
pub fn find_todo_answer(id: i32, outcome: Result<Todo, DatabaseError>) -> (answer: Result<
    Todo,
    RepositoryError,
>)
    ensures
        answer == match outcome {
            Ok(row) => Ok::<Todo, RepositoryError>(row),
            Err(error) => Err(failure_about(id, error)),
        },
{
    row_answer(id, outcome)
}

/// What reading every record answers once the rows have come, or the
/// statement has failed: a failure is unexpected and handed on with its text.
pub fn all_todos_answer(outcome: Result<Vec<Todo>, DatabaseError>) -> (answer: Result<
    Vec<Todo>,
    RepositoryError,
>)
    ensures
        answer == match outcome {
            Ok(rows) => Ok::<Vec<Todo>, RepositoryError>(rows),
            Err(error) => Err(RepositoryError::Unexpected(error.message)),
        },
{
    rows_answer(outcome)
}

/// What changing the record `id` answers once the write has given its row,
/// or failed: without a row, no record has the id any more.
pub fn update_todo_answer(id: i32, outcome: Result<Todo, DatabaseError>) -> (answer: Result<
    Todo,
    RepositoryError,
>)
    ensures
        answer == match outcome {
            Ok(row) => Ok::<Todo, RepositoryError>(row),
            Err(error) => Err(failure_about(id, error)),
        },
{
    row_answer(id, outcome)
}

/// What removing the record `id` answers once the statement has said how
/// many rows it removed, or failed: where it removed none, no record had the id.
pub fn delete_todo_answer(id: i32, outcome: Result<u64, DatabaseError>) -> (answer: Result<
    (),
    RepositoryError,
>)
    ensures
        answer == match outcome {
            Ok(removed) => if removed == 0 {
                Err::<(), RepositoryError>(RepositoryError::NotFound(id))
            } else {
                Ok(())
            },
            Err(error) => Err(failure_about(id, error)),
        },
{
    delete_answer(id, outcome)
}

/// What creating a label answers once the insert has given its row, or
/// failed: a failure is unexpected and handed on with its text.
pub fn create_label_answer(outcome: Result<Label, DatabaseError>) -> (answer: Result<
    Label,
    RepositoryError,
>)
    ensures
        answer == match outcome {
            Ok(row) => Ok::<Label, RepositoryError>(row),
            Err(error) => Err(RepositoryError::Unexpected(error.message)),
        },
{
    rows_answer(outcome)
}

/// What reading every label answers once the rows have come, or the
/// statement has failed: a failure is unexpected and handed on with its text.
pub fn all_labels_answer(outcome: Result<Vec<Label>, DatabaseError>) -> (answer: Result<
    Vec<Label>,
    RepositoryError,
>)
    ensures
        answer == match outcome {
            Ok(rows) => Ok::<Vec<Label>, RepositoryError>(rows),
            Err(error) => Err(RepositoryError::Unexpected(error.message)),
        },
{
    rows_answer(outcome)
}

/// What removing the label `id` answers once the statement has said how many
/// rows it removed, or failed: where it removed none, no label had the id.
pub fn delete_label_answer(id: i32, outcome: Result<u64, DatabaseError>) -> (answer: Result<
    (),
    RepositoryError,
>)
    ensures
        answer == match outcome {
            Ok(removed) => if removed == 0 {
                Err::<(), RepositoryError>(RepositoryError::NotFound(id))
            } else {
                Ok(())
            },
            Err(error) => Err(failure_about(id, error)),
        },
{
    delete_answer(id, outcome)
}

/// What a repository does next in an operation that takes two statements.
#[derive(Debug)]
pub enum Step<T> {
    /// Send this statement, and hand what comes back to the `_answer`
    /// function of the operation.
    Send(Statement),
    /// The operation is over, with this answer.
    Done(Result<T, RepositoryError>),
}

/// The next step of a change to the record `id`, once the stored record has
/// been looked up. If it is there, the merged record is written. If the
/// lookup failed, the change ends with that failure.
pub fn update_todo_step(
    id: i32,
    payload: UpdateTodo,
    looked_up: Result<Todo, DatabaseError>,
) -> (step: Step<Todo>)
    ensures
        match looked_up {
            Ok(stored) => step matches Step::Send(statement) && statement@ == (StatementView {
                sql: UPDATE_TODO@,
                parameters: seq![
                    ParameterView::Text(merged(id, stored@, payload@).text),
                    ParameterView::Flag(merged(id, stored@, payload@).completed),
                    ParameterView::Id(id),
                ],
            }),
            Err(error) => step == Step::<Todo>::Done(Err(failure_about(id, error))),
        },
{
    match looked_up {
        Ok(stored) => Step::Send(update_todo_statement(id, &stored, payload)),
        Err(error) => Step::Done(Err(RepositoryError::from_database(id, error))),
    }
}

/// The next step of the creation of a label, once the label that holds the
/// name has been looked up. If none holds it, the label is stored. If one
/// does, the creation ends with `Duplicate` and that label's id. If the
/// lookup failed, the creation ends with that failure.
pub fn create_label_step(
    name: String,
    looked_up: Result<Option<Label>, DatabaseError>,
) -> (step: Step<Label>)
    ensures
        match looked_up {
            Ok(existing) => match refusal(existing_view(existing)) {
                Ok(()) => step matches Step::Send(statement) && statement@ == (StatementView {
                    sql: INSERT_LABEL@,
                    parameters: seq![ParameterView::Text(name@)],
                }),
                Err(duplicate) => step matches Step::Done(Err(error)) && error@ == duplicate,
            },
            Err(error) => step == Step::<Label>::Done(
                Err(RepositoryError::Unexpected(error.message)),
            ),
        },
{
    match looked_up {
        Ok(existing) => match refuse_duplicate(existing) {
            Ok(()) => Step::Send(insert_label_statement(name)),
            Err(duplicate) => Step::Done(Err(duplicate)),
        },
        Err(error) => Step::Done(Err(RepositoryError::unexpected(error))),
    }
}

} // verus!
