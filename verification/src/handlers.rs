//! The request handlers: what each operation of the service answers.

use crate::repositories::todo::{
    filed, found, lists, text_allowed, text_empty, text_too_long, todo_views, updated, CreateTodo,
    RecordAnswer, Todo, TodoRepository, UpdateTodo,
};
use crate::repositories::RepositoryError;
use crate::validation::{
    field_line, line_of_one_violation, one_field, report_of_one_field, reports, Validate,
};
use vstd::prelude::*;
use vstd::string::*;

verus! {

/// The statuses that the handlers answer with.
#[derive(Clone, Copy, Debug, PartialEq, Eq, Structural)]
pub enum StatusCode {
    OK,
    Created,
    NoContent,
    BadRequest,
    NotFound,
}

impl StatusCode {
    /// The number that stands for a status on the wire.
    pub open spec fn number(self) -> u16 {
        match self {
            StatusCode::OK => 200,
            StatusCode::Created => 201,
            StatusCode::NoContent => 204,
            StatusCode::BadRequest => 400,
            StatusCode::NotFound => 404,
        }
    }

    /// The number that stands for the status on the wire.
    pub fn as_u16(&self) -> (number: u16)
        ensures
            number == self.number(),
    {
        match self {
            StatusCode::OK => 200,
            StatusCode::Created => 201,
            StatusCode::NoContent => 204,
            StatusCode::BadRequest => 400,
            StatusCode::NotFound => 404,
        }
    }
}

/// A text with every `from` in it replaced by `to`.
pub open spec fn replaced(text: Seq<char>, from: char, to: Seq<char>) -> Seq<char>
    decreases text.len(),
{
    if text.len() == 0 {
        Seq::empty()
    } else if text[0] == from {
        to + replaced(text.drop_first(), from, to)
    } else {
        seq![text[0]] + replaced(text.drop_first(), from, to)
    }
}

/// A text without `from` stays as it is.
pub proof fn nothing_to_replace(text: Seq<char>, from: char, to: Seq<char>)
    requires
        !text.contains(from),
    ensures
        replaced(text, from, to) == text,
    decreases text.len(),
{
    if text.len() > 0 {
        assert(text.contains(text[0]));
        assert forall|i: int| 0 <= i < text.drop_first().len() implies text.drop_first()[i]
            != from by {
            assert(text.contains(text[i + 1]));
        }
        nothing_to_replace(text.drop_first(), from, to);
        assert(seq![text[0]] + text.drop_first() =~= text);
    }
}

/// Calls `str::replace` with a character as the pattern. The contract claims
/// what std documents of it: a new string in which each match of the pattern,
/// here each occurrence of the character, is replaced by `to`.
#[verifier::external_body]
fn replace(text: &str, from: char, to: &str) -> (result: String)
    ensures
        result@ == replaced(text@, from, to@),
{
    text.replace(from, to)
}

/// What is answered to a body that could not be decoded.
pub open spec fn parse_error_text(rejection: Seq<char>) -> Seq<char> {
    "Json parse error: ["@ + rejection + "]"@
}

/// What is answered to a payload that breaks its rules: the report on one
/// line, each line break in it replaced by a comma and a space.
pub open spec fn validation_error_text(report: Seq<char>) -> Seq<char> {
    "Validation error: ["@ + replaced(report, '\n', ", "@) + "]"@
}

/// The answer to a body that could not be decoded: a bad request, with the
/// decoder's account of the failure.
pub fn parse_rejection(rejection: &str) -> (answer: (StatusCode, String))
    ensures
        answer.0 == StatusCode::BadRequest,
        answer.1@ == parse_error_text(rejection@),
{
    let mut message = String::from_str("Json parse error: [");
    message.append(rejection);
    message.append("]");
    (StatusCode::BadRequest, message)
}

/// The answer to a payload that breaks its rules: a bad request, with the
/// report of the broken rules on one line.
pub fn validation_rejection(report: &str) -> (answer: (StatusCode, String))
    ensures
        answer.0 == StatusCode::BadRequest,
        answer.1@ == validation_error_text(report@),
{
    let line = replace(report, '\n', ", ");
    let mut message = String::from_str("Validation error: [");
    message.append(line.as_str());
    message.append("]");
    (StatusCode::BadRequest, message)
}

/// A payload that has passed its rules.
#[derive(Debug)]
pub struct ValidatedJson<T: Validate>(T);

impl<T: Validate> View for ValidatedJson<T> {
    type V = T;

    closed spec fn view(&self) -> T {
        self.0
    }
}

impl<T: Validate> ValidatedJson<T> {
    #[verifier::type_invariant]
    spec fn passed(self) -> bool {
        self.0.violations().len() == 0
    }

    /// Takes what the decoder made of a request body: the payload, or the
    /// decoder's account of why there is none. A payload is handed on if and
    /// only if it breaks none of its rules. Everything else is a bad request:
    /// its message wraps the decoder's account, or a report of the broken
    /// rules. Where the broken rules are all of one field, the report is that
    /// field's line.
    pub fn from_request(decoded: Result<T, String>) -> (outcome: Result<
        ValidatedJson<T>,
        (StatusCode, String),
    >)
        ensures
            match decoded {
                Ok(payload) => if payload.violations().len() == 0 {
                    outcome matches Ok(validated) && validated@ == payload
                } else {
                    &&& outcome matches Err(answer)
                    &&& answer.0 == StatusCode::BadRequest
                    &&& exists|report: Seq<char>| #[trigger]
                        reports(payload.violations(), report) && answer.1@
                            == validation_error_text(report)
                    &&& one_field(payload.violations()) ==> answer.1@ == validation_error_text(
                        field_line(payload.violations(), payload.violations()[0].field),
                    )
                },
                Err(rejection) => {
                    &&& outcome matches Err(answer)
                    &&& answer.0 == StatusCode::BadRequest
                    &&& answer.1@ == parse_error_text(rejection@)
                },
            },
    {
        match decoded {
            Ok(payload) => match payload.validate() {
                Ok(()) => Ok(ValidatedJson(payload)),
                Err(errors) => {
                    let report = errors.to_text();
                    proof {
                        report_of_one_field(errors@, report@);
                    }
                    Err(validation_rejection(report.as_str()))
                },
            },
            Err(rejection) => Err(parse_rejection(rejection.as_str())),
        }
    }

    /// The payload.
    pub fn into_inner(self) -> (payload: T)
        ensures
            payload == self@,
            payload.violations().len() == 0,
    {
        proof {
            use_type_invariant(&self);
        }
        self.0
    }
}

/// What a sender reads whose text has no characters, or too many.
pub proof fn text_rejections()
    ensures
        validation_error_text(field_line(seq![text_empty()], text_empty().field))
            == "Validation error: [text: Can not be empty]"@,
        validation_error_text(field_line(seq![text_too_long()], text_too_long().field))
            == "Validation error: [text: Over text length]"@,
{
    reveal_strlit("text");
    reveal_strlit("Can not be empty");
    reveal_strlit("Over text length");
    reveal_strlit("Validation error: [");
    reveal_strlit(", ");
    reveal_strlit("]");
    reveal_strlit("Validation error: [text: Can not be empty]");
    reveal_strlit("Validation error: [text: Over text length]");
    line_of_one_violation(text_empty());
    line_of_one_violation(text_too_long());
    let empty = "text"@ + seq![':', ' '] + "Can not be empty"@;
    let long = "text"@ + seq![':', ' '] + "Over text length"@;
    assert(!empty.contains('\n')) by {
        assert forall|i: int| 0 <= i < empty.len() implies empty[i] != '\n' by {}
    }
    assert(!long.contains('\n')) by {
        assert forall|i: int| 0 <= i < long.len() implies long[i] != '\n' by {}
    }
    nothing_to_replace(empty, '\n', ", "@);
    nothing_to_replace(long, '\n', ", "@);
    assert("Validation error: ["@ + empty + "]"@ =~= "Validation error: [text: Can not be empty]"@);
    assert("Validation error: ["@ + long + "]"@ =~= "Validation error: [text: Over text length]"@);
}

/// Why a handler has no success to report.
#[derive(Debug)]
pub enum Failure {
    /// The request is answered with this status and nothing else.
    Status(StatusCode),
    /// The repository failed in a way that no status stands for. The handlers
    /// hand such an error on as it is.
    Unhandled(RepositoryError),
}

/// The failure that a repository's error is turned into: a record that is
/// not there is answered with `NotFound`, any other error is handed on.
pub open spec fn failure_of(error: RepositoryError) -> Failure {
    match error {
        RepositoryError::NotFound(_) => Failure::Status(StatusCode::NotFound),
        _ => Failure::Unhandled(error),
    }
}

/// Turns a repository's error into the failure that a handler reports.
pub fn fail(error: RepositoryError) -> (failure: Failure)
    ensures
        failure == failure_of(error),
{
    match error {
        RepositoryError::NotFound(_) => Failure::Status(StatusCode::NotFound),
        other => Failure::Unhandled(other),
    }
}

/// What is answered once the repository has been asked to create a record:
/// `Created` with the record.
pub fn create_response(answer: Result<Todo, RepositoryError>) -> (response: Result<
    (StatusCode, Todo),
    Failure,
>)
    ensures
        response == match answer {
            Ok(todo) => Ok((StatusCode::Created, todo)),
            Err(error) => Err(failure_of(error)),
        },
{
    match answer {
        Ok(todo) => Ok((StatusCode::Created, todo)),
        Err(error) => Err(fail(error)),
    }
}

/// What is answered once the repository has been asked for a record, or to
/// change one: `OK` with the record.
pub fn record_response(answer: Result<Todo, RepositoryError>) -> (response: Result<
    (StatusCode, Todo),
    Failure,
>)
    ensures
        response == match answer {
            Ok(todo) => Ok((StatusCode::OK, todo)),
            Err(error) => Err(failure_of(error)),
        },
{
    match answer {
        Ok(todo) => Ok((StatusCode::OK, todo)),
        Err(error) => Err(fail(error)),
    }
}

/// What is answered once the repository has been asked for every record:
/// `OK` with the records.
pub fn all_response(answer: Result<Vec<Todo>, RepositoryError>) -> (response: Result<
    (StatusCode, Vec<Todo>),
    Failure,
>)
    ensures
        response == match answer {
            Ok(todos) => Ok((StatusCode::OK, todos)),
            Err(error) => Err(failure_of(error)),
        },
{
    match answer {
        Ok(todos) => Ok((StatusCode::OK, todos)),
        Err(error) => Err(fail(error)),
    }
}

/// What is answered once the repository has been asked to remove a record:
/// `NoContent`.
pub fn delete_response(answer: Result<(), RepositoryError>) -> (response: Result<
    StatusCode,
    Failure,
>)
    ensures
        response == match answer {
            Ok(()) => Ok(StatusCode::NoContent),
            Err(error) => Err(failure_of(error)),
        },
{
    match answer {
        Ok(()) => Ok(StatusCode::NoContent),
        Err(error) => Err(fail(error)),
    }
}

/// Creates a TODO from a payload that has passed its rules. The record gets
/// an id that no record holds, and every other record stays as it is.
///
/// A dependable repository answers `Created` as long as it has an id left.
pub fn create_todo<T: TodoRepository>(
    payload: ValidatedJson<CreateTodo>,
    repository: &mut T,
) -> (response: Result<(StatusCode, Todo), Failure>)
    ensures
        filed(old(repository)@),
        filed(final(repository)@),
        match response {
            Ok((status, todo)) => {
                &&& status == StatusCode::Created
                &&& T::assigns(old(repository).issued(), todo@.id)
                &&& !old(repository)@.contains_key(todo@.id)
                &&& todo@.text == payload@.text@
                &&& text_allowed(todo@.text)
                &&& !todo@.completed
                &&& final(repository)@ == old(repository)@.insert(todo@.id, todo@)
                &&& final(repository).issued() == old(repository).issued() + 1
            },
            Err(failure) => {
                &&& failure matches Failure::Unhandled(error) && error is Unexpected
                &&& (!T::dependable() || old(repository).issued() >= i32::MAX)
                &&& final(repository)@ == old(repository)@
                &&& final(repository).issued() == old(repository).issued()
            },
        },
{
    create_response(repository.create(payload.into_inner()))
}

/// Looks a TODO up.
///
/// A dependable repository answers `OK` with the record if it holds one
/// under `id`, and `NotFound` if it does not.
pub fn find_todo<T: TodoRepository>(id: i32, repository: &T) -> (response: Result<
    (StatusCode, Todo),
    Failure,
>)
    ensures
        filed(repository@),
        match response {
            Ok((status, todo)) => {
                &&& status == StatusCode::OK
                &&& found(repository@, id) == RecordAnswer::Ok(todo@)
            },
            Err(Failure::Status(status)) => {
                &&& status == StatusCode::NotFound
                &&& !repository@.contains_key(id)
            },
            Err(Failure::Unhandled(error)) => error is Unexpected && !T::dependable(),
        },
{
    record_response(repository.find(id))
}

/// Lists every TODO.
///
/// A dependable repository always answers `OK`.
pub fn all_todo<T: TodoRepository>(repository: &T) -> (response: Result<
    (StatusCode, Vec<Todo>),
    Failure,
>)
    ensures
        filed(repository@),
        match response {
            Ok((status, todos)) => {
                &&& status == StatusCode::OK
                &&& lists(repository@, todo_views(todos@))
            },
            Err(failure) => {
                &&& failure matches Failure::Unhandled(error) && error is Unexpected
                &&& !T::dependable()
            },
        },
{
    all_response(repository.all())
}

/// Changes a TODO by a payload that has passed its rules.
///
/// A dependable repository answers `OK` with the changed record if it holds
/// one under `id`, and `NotFound` if it does not.
pub fn update_todo<T: TodoRepository>(
    id: i32,
    payload: ValidatedJson<UpdateTodo>,
    repository: &mut T,
) -> (response: Result<(StatusCode, Todo), Failure>)
    ensures
        filed(old(repository)@),
        filed(final(repository)@),
        final(repository).issued() == old(repository).issued(),
        match response {
            Ok((status, todo)) => {
                &&& status == StatusCode::OK
                &&& updated(old(repository)@, id, payload@@) == RecordAnswer::Ok(todo@)
                &&& payload@.text is Some ==> text_allowed(todo@.text)
                &&& final(repository)@ == old(repository)@.insert(id, todo@)
            },
            Err(Failure::Status(status)) => {
                &&& status == StatusCode::NotFound
                &&& !old(repository)@.contains_key(id)
                &&& final(repository)@ == old(repository)@
            },
            Err(Failure::Unhandled(error)) => {
                &&& error is Unexpected
                &&& !T::dependable()
                &&& final(repository)@ == old(repository)@
            },
        },
{
    record_response(repository.update(id, payload.into_inner()))
}

/// Removes a TODO.
///
/// A dependable repository answers `NoContent` if it held a record under
/// `id`, and `NotFound` if it did not.
pub fn delete_todo<T: TodoRepository>(id: i32, repository: &mut T) -> (response: Result<
    StatusCode,
    Failure,
>)
    ensures
        filed(old(repository)@),
        filed(final(repository)@),
        final(repository).issued() == old(repository).issued(),
        match response {
            Ok(status) => {
                &&& status == StatusCode::NoContent
                &&& old(repository)@.contains_key(id)
                &&& final(repository)@ == old(repository)@.remove(id)
            },
            Err(Failure::Status(status)) => {
                &&& status == StatusCode::NotFound
                &&& !old(repository)@.contains_key(id)
                &&& final(repository)@ == old(repository)@
            },
            Err(Failure::Unhandled(error)) => {
                &&& error is Unexpected
                &&& !T::dependable()
                &&& final(repository)@ == old(repository)@
            },
        },
{
    delete_response(repository.delete(id))
}

/// The greeting at the root of the service.
pub fn root() -> (greeting: &'static str)
    ensures
        greeting@ == "Hello! axum!!"@,
{
    "Hello! axum!!"
}

} // verus!
