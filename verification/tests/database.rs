use todo_api::repositories::database::{
    all_labels_answer, all_todos_answer, create_label_answer, create_label_step,
    create_todo_answer, delete_label_answer, delete_label_statement, delete_todo_answer,
    delete_todo_statement, find_todo_answer, insert_label_statement, insert_todo_statement,
    select_label_by_name_statement, select_labels_statement, select_todo_statement,
    select_todos_statement, update_todo_answer, update_todo_statement, update_todo_step,
    DatabaseError, Parameter, Statement, Step,
};
use todo_api::repositories::label::Label;
use todo_api::repositories::todo::{CreateTodo, Todo, UpdateTodo};
use todo_api::repositories::RepositoryError;

fn no_row() -> DatabaseError {
    DatabaseError {
        no_row: true,
        message: "no rows returned by a query that expected to return at least one row"
            .to_string(),
    }
}

fn broken() -> DatabaseError {
    DatabaseError { no_row: false, message: "pool timed out".to_string() }
}

/// A statement's parameters, each written as the database would show it.
fn shown(statement: &Statement) -> Vec<String> {
    statement
        .parameters
        .iter()
        .map(|parameter| match parameter {
            Parameter::Text(text) => format!("'{}'", text),
            Parameter::Flag(flag) => format!("{}", flag),
            Parameter::Id(id) => format!("{}", id),
        })
        .collect()
}

#[test]
fn todo_statements() {
    let insert = insert_todo_statement(CreateTodo::new("buy milk".to_string()));
    assert_eq!(insert.sql, "insert into todos (text, completed) values ($1, false) returning *");
    assert_eq!(shown(&insert), vec!["'buy milk'"]);

    let select = select_todo_statement(7);
    assert_eq!(select.sql, "select * from todos where id=$1");
    assert_eq!(shown(&select), vec!["7"]);

    let all = select_todos_statement();
    assert_eq!(all.sql, "select * from todos");
    assert!(all.parameters.is_empty());

    let delete = delete_todo_statement(-2);
    assert_eq!(delete.sql, "delete from todos where id=$1");
    assert_eq!(shown(&delete), vec!["-2"]);
}

#[test]
fn update_statement_binds_the_merged_record() {
    let stored = Todo { id: 3, text: "stored".to_string(), completed: false };
    let sql = "update todos set text = $1, completed = $2 where id=$3 returning *";

    let payload = UpdateTodo { text: None, completed: Some(true) };
    let statement = update_todo_statement(3, &stored, payload);
    assert_eq!(statement.sql, sql);
    assert_eq!(shown(&statement), vec!["'stored'", "true", "3"]);

    let payload = UpdateTodo { text: Some("new".to_string()), completed: None };
    let statement = update_todo_statement(3, &stored, payload);
    assert_eq!(shown(&statement), vec!["'new'", "false", "3"]);
}

#[test]
fn label_statements() {
    let lookup = select_label_by_name_statement("urgent");
    assert_eq!(lookup.sql, "select * from labels where name = $1");
    assert_eq!(shown(&lookup), vec!["'urgent'"]);

    let insert = insert_label_statement("urgent".to_string());
    assert_eq!(insert.sql, "insert into labels ( name ) values ($1) returning *");
    assert_eq!(shown(&insert), vec!["'urgent'"]);

    let all = select_labels_statement();
    assert_eq!(all.sql, "select * from labels order by labels.id asc");
    assert!(all.parameters.is_empty());

    let delete = delete_label_statement(5);
    assert_eq!(delete.sql, "delete from labels where id = $1");
    assert_eq!(shown(&delete), vec!["5"]);
}

#[test]
fn database_errors_become_repository_errors() {
    assert!(matches!(RepositoryError::from_database(4, no_row()), RepositoryError::NotFound(4)));
    match RepositoryError::from_database(4, broken()) {
        RepositoryError::Unexpected(message) => assert_eq!(message, "pool timed out"),
        other => panic!("{:?}", other),
    }
    match RepositoryError::unexpected(no_row()) {
        RepositoryError::Unexpected(message) => {
            assert_eq!(
                message,
                "no rows returned by a query that expected to return at least one row"
            )
        }
        other => panic!("{:?}", other),
    }
}

#[test]
fn find_and_update_take_a_missing_row_for_a_missing_record() {
    let todo = Todo::new(1, "one".to_string());
    assert_eq!(find_todo_answer(1, Ok(todo.clone())).unwrap(), todo);
    assert!(matches!(find_todo_answer(9, Err(no_row())), Err(RepositoryError::NotFound(9))));
    assert!(matches!(find_todo_answer(9, Err(broken())), Err(RepositoryError::Unexpected(_))));
    assert_eq!(update_todo_answer(1, Ok(todo.clone())).unwrap(), todo);
    assert!(matches!(update_todo_answer(9, Err(no_row())), Err(RepositoryError::NotFound(9))));
    match update_todo_answer(9, Err(broken())) {
        Err(RepositoryError::Unexpected(message)) => assert_eq!(message, "pool timed out"),
        other => panic!("{:?}", other),
    }
}

#[test]
fn create_and_all_hand_every_failure_on() {
    let todo = Todo::new(1, "one".to_string());
    assert_eq!(create_todo_answer(Ok(todo.clone())).unwrap(), todo);
    assert!(matches!(create_todo_answer(Err(no_row())), Err(RepositoryError::Unexpected(_))));
    let todos = vec![todo, Todo::new(2, "two".to_string())];
    assert_eq!(all_todos_answer(Ok(todos.clone())).unwrap(), todos);
    match all_todos_answer(Err(broken())) {
        Err(RepositoryError::Unexpected(message)) => assert_eq!(message, "pool timed out"),
        other => panic!("{:?}", other),
    }
    let label = Label { id: 1, name: "urgent".to_string() };
    assert_eq!(create_label_answer(Ok(label.clone())).unwrap(), label);
    match create_label_answer(Err(broken())) {
        Err(RepositoryError::Unexpected(message)) => assert_eq!(message, "pool timed out"),
        other => panic!("{:?}", other),
    }
    assert_eq!(all_labels_answer(Ok(vec![label.clone()])).unwrap(), vec![label]);
    assert!(matches!(all_labels_answer(Err(no_row())), Err(RepositoryError::Unexpected(_))));
}

#[test]
fn delete_that_removes_no_row_is_not_found() {
    assert!(delete_todo_answer(3, Ok(1)).is_ok());
    assert!(delete_todo_answer(3, Ok(2)).is_ok());
    assert!(matches!(delete_todo_answer(3, Ok(0)), Err(RepositoryError::NotFound(3))));
    assert!(matches!(delete_todo_answer(3, Err(no_row())), Err(RepositoryError::NotFound(3))));
    assert!(matches!(delete_todo_answer(3, Err(broken())), Err(RepositoryError::Unexpected(_))));
    assert!(delete_label_answer(4, Ok(1)).is_ok());
    assert!(matches!(delete_label_answer(4, Ok(0)), Err(RepositoryError::NotFound(4))));
    assert!(matches!(delete_label_answer(4, Err(broken())), Err(RepositoryError::Unexpected(_))));
}

#[test]
fn update_writes_only_what_was_found() {
    let stored = Todo { id: 3, text: "stored".to_string(), completed: false };
    let payload = UpdateTodo { text: None, completed: Some(true) };
    match update_todo_step(3, payload.clone(), Ok(stored)) {
        Step::Send(statement) => {
            assert_eq!(
                statement.sql,
                "update todos set text = $1, completed = $2 where id=$3 returning *"
            );
            assert_eq!(shown(&statement), vec!["'stored'", "true", "3"]);
        }
        Step::Done(answer) => panic!("{:?}", answer),
    }
    assert!(matches!(
        update_todo_step(3, payload.clone(), Err(no_row())),
        Step::Done(Err(RepositoryError::NotFound(3)))
    ));
    assert!(matches!(
        update_todo_step(3, payload, Err(broken())),
        Step::Done(Err(RepositoryError::Unexpected(_)))
    ));
}

#[test]
fn two_labels_of_one_name() {
    // The table is empty: the first label is stored.
    let first = match create_label_step("urgent".to_string(), Ok(None)) {
        Step::Send(statement) => {
            assert_eq!(statement.sql, "insert into labels ( name ) values ($1) returning *");
            assert_eq!(shown(&statement), vec!["'urgent'"]);
            Label { id: 1, name: "urgent".to_string() }
        }
        Step::Done(answer) => panic!("{:?}", answer),
    };
    // The lookup now finds it: the second is a duplicate of the first.
    match create_label_step("urgent".to_string(), Ok(Some(first.clone()))) {
        Step::Done(Err(RepositoryError::Duplicate(id))) => assert_eq!(id, first.id),
        other => panic!("{:?}", other),
    }
}

#[test]
fn label_is_not_created_when_the_lookup_fails() {
    match create_label_step("urgent".to_string(), Err(broken())) {
        Step::Done(Err(RepositoryError::Unexpected(message))) => {
            assert_eq!(message, "pool timed out")
        }
        other => panic!("{:?}", other),
    }
}
