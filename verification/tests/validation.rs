use todo_api::repositories::todo::{CreateTodo, UpdateTodo};
use todo_api::validation::{check_length, Validate, ValidationErrors, Violation};

fn messages(errors: &ValidationErrors) -> Vec<(&'static str, &'static str, &'static str)> {
    errors.violations.iter().map(|v| (v.field, v.code, v.message)).collect()
}

fn create(text: &str) -> CreateTodo {
    CreateTodo::new(text.to_string())
}

#[test]
fn text_of_one_to_a_hundred_characters_passes() {
    assert!(create("a").validate().is_ok());
    assert!(create("buy milk").validate().is_ok());
    assert!(create(&"a".repeat(100)).validate().is_ok());
}

#[test]
fn empty_text_breaks_the_lower_bound() {
    let errors = create("").validate().unwrap_err();
    assert_eq!(messages(&errors), vec![("text", "length", "Can not be empty")]);
    assert_eq!(errors.to_text(), "text: Can not be empty");
}

#[test]
fn long_text_breaks_the_upper_bound() {
    let errors = create(&"a".repeat(101)).validate().unwrap_err();
    assert_eq!(messages(&errors), vec![("text", "length", "Over text length")]);
    assert_eq!(errors.to_text(), "text: Over text length");
    assert!(create(&"a".repeat(1000)).validate().is_err());
}

#[test]
fn length_is_counted_in_characters() {
    let hundred = "日".repeat(100);
    assert_eq!(hundred.len(), 300);
    assert!(create(&hundred).validate().is_ok());
    assert!(create(&"日".repeat(101)).validate().is_err());
}

#[test]
fn update_is_checked_only_where_it_sets_a_text() {
    assert!(UpdateTodo { text: None, completed: None }.validate().is_ok());
    assert!(UpdateTodo { text: None, completed: Some(true) }.validate().is_ok());
    assert!(UpdateTodo { text: Some("a".to_string()), completed: None }.validate().is_ok());
    let errors = UpdateTodo { text: Some(String::new()), completed: Some(false) }
        .validate()
        .unwrap_err();
    assert_eq!(messages(&errors), vec![("text", "length", "Can not be empty")]);
    let errors = UpdateTodo { text: Some("a".repeat(101)), completed: None }
        .validate()
        .unwrap_err();
    assert_eq!(messages(&errors), vec![("text", "length", "Over text length")]);
}

#[test]
fn check_length_adds_only_what_is_broken() {
    let mut errors = ValidationErrors::new();
    assert!(errors.is_empty());
    let short = Violation { field: "name", code: "length", message: "Too short" };
    check_length(&mut errors, "abc", Some(3), None, short);
    assert!(errors.is_empty());
    let short = Violation { field: "name", code: "length", message: "Too short" };
    check_length(&mut errors, "abc", Some(4), None, short);
    let long = Violation { field: "name", code: "length", message: "Too long" };
    check_length(&mut errors, "abc", None, Some(3), long);
    let long = Violation { field: "name", code: "length", message: "Too long" };
    check_length(&mut errors, "abc", None, Some(2), long);
    let between = Violation { field: "name", code: "length", message: "Out of bounds" };
    check_length(&mut errors, "abc", Some(1), Some(2), between);
    assert_eq!(
        messages(&errors),
        vec![
            ("name", "length", "Too short"),
            ("name", "length", "Too long"),
            ("name", "length", "Out of bounds"),
        ]
    );
}

#[test]
fn report_of_one_field_is_its_line() {
    let mut errors = ValidationErrors::new();
    assert_eq!(errors.to_text(), "");
    errors.add(Violation { field: "name", code: "length", message: "Too short" });
    assert_eq!(errors.to_text(), "name: Too short");
    errors.add(Violation { field: "name", code: "length", message: "Too plain" });
    errors.add(Violation { field: "name", code: "other", message: "Taken" });
    assert_eq!(errors.to_text(), "name: Too short, Too plain, Taken");
}

#[test]
fn report_of_two_fields_has_a_line_for_each() {
    let mut errors = ValidationErrors::new();
    errors.add(Violation { field: "name", code: "length", message: "Too short" });
    errors.add(Violation { field: "text", code: "length", message: "Can not be empty" });
    let text = errors.to_text();
    assert!(
        text == "name: Too short\ntext: Can not be empty"
            || text == "text: Can not be empty\nname: Too short"
    );
}
