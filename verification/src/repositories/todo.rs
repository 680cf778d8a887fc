//! TODO records and the repository that keeps them.

use crate::repositories::{
    lemma_values_listed_once, next_id, no_id_left, RepositoryError, RepositoryErrorView, NO_ID_LEFT,
};
use crate::validation::{check_length, Validate, ValidationErrors, Violation, ViolationView};
use std::collections::HashMap;
use vstd::prelude::*;
use vstd::std_specs::hash::spec_values_iter;
use vstd::std_specs::iter::IteratorSpec;

verus! {

/// A stored TODO.
#[derive(Debug)]
pub struct Todo {
    pub id: i32,
    pub text: String,
    pub completed: bool,
}

/// A `Todo` as contracts speak of it.
pub struct TodoView {
    pub id: i32,
    pub text: Seq<char>,
    pub completed: bool,
}

impl View for Todo {
    type V = TodoView;

    open spec fn view(&self) -> TodoView {
        TodoView { id: self.id, text: self.text@, completed: self.completed }
    }
}

impl Todo {
    /// A record that is not completed yet.
    pub fn new(id: i32, text: String) -> (todo: Todo)
        ensures
            todo@ == (TodoView { id, text: text@, completed: false }),
    {
        Todo { id, text, completed: false }
    }
}

impl Clone for Todo {
    fn clone(&self) -> (copy: Todo)
        ensures
            copy@ == self@,
    {
        Todo { id: self.id, text: self.text.clone(), completed: self.completed }
    }
}

impl PartialEq for Todo {
    fn eq(&self, other: &Todo) -> (equal: bool) {
        self.id == other.id && self.text == other.text && self.completed == other.completed
    }
}

impl Eq for Todo {}

impl vstd::std_specs::cmp::PartialEqSpecImpl for Todo {
    open spec fn obeys_eq_spec() -> bool {
        true
    }

    open spec fn eq_spec(&self, other: &Todo) -> bool {
        self@ == other@
    }
}

/// The fewest characters a TODO's text may have.
pub const TEXT_MIN: u64 = 1;

/// The most characters a TODO's text may have.
pub const TEXT_MAX: u64 = 100;

/// Whether a text is one that a TODO may carry.
pub open spec fn text_allowed(text: Seq<char>) -> bool {
    TEXT_MIN <= text.len() <= TEXT_MAX
}

/// What is reported of a text without characters.
pub open spec fn text_empty() -> ViolationView {
    ViolationView { field: "text"@, code: "length"@, message: "Can not be empty"@ }
}

/// What is reported of a text with too many characters.
pub open spec fn text_too_long() -> ViolationView {
    ViolationView { field: "text"@, code: "length"@, message: "Over text length"@ }
}

/// The rules that a text breaks: the lower bound is checked first, then the upper.
pub open spec fn text_violations(text: Seq<char>) -> Seq<ViolationView> {
    if text.len() < TEXT_MIN {
        seq![text_empty()]
    } else if text.len() > TEXT_MAX {
        seq![text_too_long()]
    } else {
        Seq::empty()
    }
}

/// Checks the two bounds on a text and reports the one it breaks.
fn validate_text(text: &str) -> (outcome: Result<(), ValidationErrors>)
    ensures
        match outcome {
            Ok(()) => text_violations(text@).len() == 0,
            Err(errors) => errors@ == text_violations(text@) && errors@.len() > 0,
        },
{
    let mut errors = ValidationErrors::new();
    check_length(
        &mut errors,
        text,
        Some(TEXT_MIN),
        None,
        Violation { field: "text", code: "length", message: "Can not be empty" },
    );
    check_length(
        &mut errors,
        text,
        None,
        Some(TEXT_MAX),
        Violation { field: "text", code: "length", message: "Over text length" },
    );
    assert(errors@ =~= text_violations(text@));
    if errors.is_empty() {
        Ok(())
    } else {
        Err(errors)
    }
}

/// The payload of a request to create a TODO.
#[derive(Debug)]
pub struct CreateTodo {
    pub text: String,
}

/// A `CreateTodo` as contracts speak of it.
pub struct CreateTodoView {
    pub text: Seq<char>,
}

impl View for CreateTodo {
    type V = CreateTodoView;

    open spec fn view(&self) -> CreateTodoView {
        CreateTodoView { text: self.text@ }
    }
}

impl CreateTodo {
    /// A payload with the text.
    pub fn new(text: String) -> (payload: CreateTodo)
        ensures
            payload@.text == text@,
    {
        CreateTodo { text }
    }
}

impl Clone for CreateTodo {
    fn clone(&self) -> (copy: CreateTodo)
        ensures
            copy@ == self@,
    {
        CreateTodo { text: self.text.clone() }
    }
}

impl PartialEq for CreateTodo {
    fn eq(&self, other: &CreateTodo) -> (equal: bool) {
        self.text == other.text
    }
}

impl Eq for CreateTodo {}

impl vstd::std_specs::cmp::PartialEqSpecImpl for CreateTodo {
    open spec fn obeys_eq_spec() -> bool {
        true
    }

    open spec fn eq_spec(&self, other: &CreateTodo) -> bool {
        self@ == other@
    }
}

impl Validate for CreateTodo {
    open spec fn violations(&self) -> Seq<ViolationView> {
        text_violations(self.text@)
    }

    fn validate(&self) -> (outcome: Result<(), ValidationErrors>) {
        validate_text(self.text.as_str())
    }
}

/// The payload of a request to change a TODO. A field that is not set leaves
/// the stored value as it is.
#[derive(Debug)]
pub struct UpdateTodo {
    pub text: Option<String>,
    pub completed: Option<bool>,
}

/// An `UpdateTodo` as contracts speak of it.
pub struct UpdateTodoView {
    pub text: Option<Seq<char>>,
    pub completed: Option<bool>,
}

impl View for UpdateTodo {
    type V = UpdateTodoView;

    open spec fn view(&self) -> UpdateTodoView {
        UpdateTodoView {
            text: match self.text {
                Some(text) => Some(text@),
                None => None,
            },
            completed: self.completed,
        }
    }
}

impl Clone for UpdateTodo {
    fn clone(&self) -> (copy: UpdateTodo)
        ensures
            copy@ == self@,
    {
        let text = match &self.text {
            Some(text) => Some(text.clone()),
            None => None,
        };
        UpdateTodo { text, completed: self.completed }
    }
}

impl PartialEq for UpdateTodo {
    fn eq(&self, other: &UpdateTodo) -> (equal: bool) {
        let same_text = match (&self.text, &other.text) {
            (Some(mine), Some(theirs)) => *mine == *theirs,
            (None, None) => true,
            _ => false,
        };
        let same_completed = match (self.completed, other.completed) {
            (Some(mine), Some(theirs)) => mine == theirs,
            (None, None) => true,
            _ => false,
        };
        same_text && same_completed
    }
}

impl Eq for UpdateTodo {}

impl vstd::std_specs::cmp::PartialEqSpecImpl for UpdateTodo {
    open spec fn obeys_eq_spec() -> bool {
        true
    }

    open spec fn eq_spec(&self, other: &UpdateTodo) -> bool {
        self@ == other@
    }
}

impl Validate for UpdateTodo {
    open spec fn violations(&self) -> Seq<ViolationView> {
        match self.text {
            Some(text) => text_violations(text@),
            None => Seq::empty(),
        }
    }

    fn validate(&self) -> (outcome: Result<(), ValidationErrors>) {
        match &self.text {
            Some(text) => validate_text(text.as_str()),
            None => Ok(()),
        }
    }
}

/// The records of a repository, by id.
pub type Records = Map<i32, TodoView>;

/// What a repository answers when asked for a record.
pub type RecordAnswer = Result<TodoView, RepositoryErrorView>;

/// The records in a vector, as contracts speak of them.
pub open spec fn todo_views(todos: Seq<Todo>) -> Seq<TodoView> {
    todos.map_values(|todo: Todo| todo@)
}

/// What looking up an id answers.
pub open spec fn found(records: Records, id: i32) -> RecordAnswer {
    if records.contains_key(id) {
        Ok(records[id])
    } else {
        Err(RepositoryErrorView::NotFound(id))
    }
}

/// A stored record with the set fields of a payload laid over it. The record
/// is filed under `id`.
pub open spec fn merged(id: i32, stored: TodoView, payload: UpdateTodoView) -> TodoView {
    TodoView {
        id,
        text: match payload.text {
            Some(text) => text,
            None => stored.text,
        },
        completed: match payload.completed {
            Some(completed) => completed,
            None => stored.completed,
        },
    }
}

/// What changing the record under an id answers.
pub open spec fn updated(records: Records, id: i32, payload: UpdateTodoView) -> RecordAnswer {
    if records.contains_key(id) {
        Ok(merged(id, records[id], payload))
    } else {
        Err(RepositoryErrorView::NotFound(id))
    }
}

/// What removing the record under an id answers.
pub open spec fn deleted(records: Records, id: i32) -> Result<(), RepositoryErrorView> {
    if records.contains_key(id) {
        Ok(())
    } else {
        Err(RepositoryErrorView::NotFound(id))
    }
}

/// Whether a sequence lists the records: every record, each once, in any order.
pub open spec fn lists(records: Records, listing: Seq<TodoView>) -> bool {
    &&& listing.len() == records.len()
    &&& forall|i: int|
        0 <= i < listing.len() ==> records.contains_key((#[trigger] listing[i]).id)
            && records[listing[i].id] == listing[i]
    &&& forall|i: int, j: int|
        0 <= i < j < listing.len() ==> (#[trigger] listing[i]).id != (#[trigger] listing[j]).id
    &&& forall|id: i32| #[trigger]
        records.contains_key(id) ==> exists|i: int|
            0 <= i < listing.len() && #[trigger] listing[i] == records[id]
}

/// Whether the records are in order: there are finitely many, and each is
/// filed under the id that it carries. The records of a repository always are.
pub open spec fn filed(records: Records) -> bool {
    &&& records.dom().finite()
    &&& forall|id: i32| #[trigger] records.contains_key(id) ==> records[id].id == id
}

/// A store of TODO records with the five operations of the service.
///
/// A repository gives every new record an id that no record holds, and it
/// counts the ids that it gives out. The ids are the positive numbers of 32
/// bits: once `i32::MAX` of them are out, none is left, and `create` ends in
/// `Unexpected`.
///
/// A repository may be backed by something that can fail on its own. One that
/// is not `dependable` may end any call in `Unexpected`. A call that ends in
/// an error leaves the repository as it was.
pub trait TodoRepository: View<V = Records> + Sized {
    /// Whether every call is answered from the repository's own state, so
    /// that none ends in `Unexpected` while an id is left.
    spec fn dependable() -> bool;

    /// The number of ids that the repository has given out.
    spec fn issued(&self) -> nat;

    /// Whether a repository that has given out `issued` ids may store its
    /// next record under `id`.
    spec fn assigns(issued: nat, id: i32) -> bool;

    /// Stores a new record with the payload's text, not completed, under an
    /// id that no record holds. Every other record stays as it is.
    fn create(&mut self, payload: CreateTodo) -> (answer: Result<Todo, RepositoryError>)
        ensures
            filed(old(self)@),
            filed(final(self)@),
            match answer {
                Ok(todo) => {
                    &&& Self::assigns(old(self).issued(), todo@.id)
                    &&& !old(self)@.contains_key(todo@.id)
                    &&& todo@.text == payload@.text
                    &&& !todo@.completed
                    &&& final(self)@ == old(self)@.insert(todo@.id, todo@)
                    &&& final(self).issued() == old(self).issued() + 1
                },
                Err(error) => {
                    &&& error is Unexpected
                    &&& (!Self::dependable() || old(self).issued() >= i32::MAX)
                    &&& final(self)@ == old(self)@
                    &&& final(self).issued() == old(self).issued()
                },
            },
    ;

    /// Hands out a copy of the record under `id`.
    fn find(&self, id: i32) -> (answer: Result<Todo, RepositoryError>)
        ensures
            filed(self@),
            match answer {
                Ok(todo) => found(self@, id) == RecordAnswer::Ok(todo@),
                Err(error) => found(self@, id) == RecordAnswer::Err(error@) || (error is Unexpected
                    && !Self::dependable()),
            },
    ;

    /// Hands out a copy of every record.
    fn all(&self) -> (answer: Result<Vec<Todo>, RepositoryError>)
        ensures
            filed(self@),
            match answer {
                Ok(todos) => lists(self@, todo_views(todos@)),
                Err(error) => error is Unexpected && !Self::dependable(),
            },
    ;

    /// Lays the set fields of the payload over the record under `id`. Every
    /// other record stays as it is.
    fn update(&mut self, id: i32, payload: UpdateTodo) -> (answer: Result<Todo, RepositoryError>)
        ensures
            filed(old(self)@),
            filed(final(self)@),
            final(self).issued() == old(self).issued(),
            match answer {
                Ok(todo) => {
                    &&& updated(old(self)@, id, payload@) == RecordAnswer::Ok(todo@)
                    &&& final(self)@ == old(self)@.insert(id, todo@)
                },
                Err(error) => {
                    &&& updated(old(self)@, id, payload@) == RecordAnswer::Err(error@) || (error is Unexpected
                        && !Self::dependable())
                    &&& final(self)@ == old(self)@
                },
            },
    ;

    /// Removes the record under `id`. Its id is not given out again.
    fn delete(&mut self, id: i32) -> (answer: Result<(), RepositoryError>)
        ensures
            filed(old(self)@),
            filed(final(self)@),
            final(self).issued() == old(self).issued(),
            match answer {
                Ok(()) => {
                    &&& old(self)@.contains_key(id)
                    &&& final(self)@ == old(self)@.remove(id)
                },
                Err(error) => {
                    &&& deleted(old(self)@, id) == Err::<(), RepositoryErrorView>(error@) || (error is Unexpected
                        && !Self::dependable())
                    &&& final(self)@ == old(self)@
                },
            },
    ;
}

/// The record that the in-memory repository makes of a text when it has
/// given out `issued` ids.
pub open spec fn created(issued: nat, text: Seq<char>) -> TodoView
    recommends
        issued < i32::MAX,
{
    TodoView { id: next_id(issued), text, completed: false }
}

/// A repository that keeps its records in a hash map. It gives out the ids
/// 1, 2, 3 and so on, each once, whatever has been removed since.
pub struct TodoRepositoryForMemory {
    store: HashMap<i32, Todo>,
    issued: i32,
}

impl View for TodoRepositoryForMemory {
    type V = Records;

    closed spec fn view(&self) -> Records {
        self.store@.map_values(|todo: Todo| todo@)
    }
}

impl TodoRepositoryForMemory {
    /// Every record is filed under its own id, and every id in use has been
    /// given out.
    #[verifier::type_invariant]
    spec fn in_order(self) -> bool {
        &&& 0 <= self.issued
        &&& forall|id: i32| #[trigger]
            self.store@.contains_key(id) ==> self.store@[id].id == id && 1 <= id <= self.issued
    }

    /// A repository without records, which has given out no id.
    pub fn new() -> (repository: TodoRepositoryForMemory)
        ensures
            repository@ == Records::empty(),
            repository.issued() == 0,
    {
        let repository = TodoRepositoryForMemory { store: HashMap::new(), issued: 0 };
        assert(repository@ =~= Records::empty());
        repository
    }

    /// Files a record under the id that it carries, and notes how many ids
    /// are given out by now.
    fn put(&mut self, id: i32, todo: Todo, issued: i32)
        requires
            todo.id == id,
            1 <= id <= issued,
            old(self).issued() <= issued,
        ensures
            final(self)@ == old(self)@.insert(id, todo@),
            final(self).issued() == issued,
    {
        broadcast use vstd::std_specs::hash::group_hash_axioms;

        proof {
            use_type_invariant(&*self);
        }
        let mut store = HashMap::new();
        std::mem::swap(&mut store, &mut self.store);
        self.issued = issued;
        store.insert(id, todo);
        self.store = store;
        assert(self@ =~= old(self)@.insert(id, todo@));
    }

    /// The records are in order.
    proof fn lemma_filed(&self)
        requires
            self.in_order(),
        ensures
            filed(self@),
    {
        broadcast use vstd::std_specs::hash::group_hash_axioms;

        assert(self@.dom() =~= self.store@.dom());
    }

    /// The number of records.
    pub fn len(&self) -> (count: usize)
        ensures
            count == self@.len(),
            filed(self@),
    {
        broadcast use vstd::std_specs::hash::group_hash_axioms;

        proof {
            use_type_invariant(self);
            self.lemma_filed();
        }
        assert(self@.dom() =~= self.store@.dom());
        self.store.len()
    }
}

impl TodoRepository for TodoRepositoryForMemory {
    open spec fn dependable() -> bool {
        true
    }

    closed spec fn issued(&self) -> nat {
        self.issued as nat
    }

    open spec fn assigns(issued: nat, id: i32) -> bool {
        id == issued + 1
    }

    /// The new record gets the id after the last one given out. Once
    /// `i32::MAX` ids are out, nothing is stored, and the error says that no
    /// id is left.
    fn create(&mut self, payload: CreateTodo) -> (answer: Result<Todo, RepositoryError>)
        ensures
            match answer {
                Ok(todo) => old(self).issued() < i32::MAX && todo@ == created(
                    old(self).issued(),
                    payload@.text,
                ),
                Err(error) => old(self).issued() == i32::MAX && error@
                    == RepositoryErrorView::Unexpected(NO_ID_LEFT@),
            },
    {
        proof {
            use_type_invariant(&*self);
            self.lemma_filed();
        }
        if self.issued == i32::MAX {
            return Err(no_id_left());
        }
        let id = self.issued + 1;
        let todo = Todo::new(id, payload.text);
        self.put(id, todo.clone(), id);
        proof {
            use_type_invariant(&*self);
            self.lemma_filed();
        }
        Ok(todo)
    }

    fn find(&self, id: i32) -> (answer: Result<Todo, RepositoryError>)
        ensures
            answer is Ok <==> self@.contains_key(id),
    {
        broadcast use vstd::std_specs::hash::group_hash_axioms;

        proof {
            use_type_invariant(self);
            self.lemma_filed();
        }
        match self.store.get(&id) {
            Some(todo) => Ok(todo.clone()),
            None => Err(RepositoryError::NotFound(id)),
        }
    }

    fn all(&self) -> (answer: Result<Vec<Todo>, RepositoryError>)
        ensures
            answer is Ok,
    {
        broadcast use vstd::std_specs::hash::group_hash_axioms;

        proof {
            use_type_invariant(self);
            self.lemma_filed();
        }
        let ghost stored = spec_values_iter(&self.store).remaining().unref();
        let mut todos: Vec<Todo> = Vec::new();
        for todo in entries: self.store.values()
            invariant
                entries.seq().unref() == stored,
                todos.len() == entries.index(),
                forall|i: int| 0 <= i < todos.len() ==> (#[trigger] todos[i])@ == stored[i]@,
        {
            todos.push(todo.clone());
        }
        proof {
            lemma_values_listed_once(self.store@, stored, |todo: Todo| todo.id);
            assert(self@.dom() =~= self.store@.dom());
            assert(todo_views(todos@) =~= todo_views(stored));
            let listing = todo_views(todos@);
            assert forall|id: i32| #[trigger] self@.contains_key(id) implies exists|i: int|
                0 <= i < listing.len() && #[trigger] listing[i] == self@[id] by {
                let i = choose|i: int| 0 <= i < stored.len() && #[trigger] stored[i] == self.store@[id];
                assert(listing[i] == self@[id]);
            }
        }
        Ok(todos)
    }

    fn update(&mut self, id: i32, payload: UpdateTodo) -> (answer: Result<Todo, RepositoryError>)
        ensures
            answer is Ok <==> old(self)@.contains_key(id),
    {
        broadcast use vstd::std_specs::hash::group_hash_axioms;

        proof {
            use_type_invariant(&*self);
            self.lemma_filed();
        }
        let todo = match self.store.get(&id) {
            Some(stored) => merge(id, stored, payload),
            None => { return Err(RepositoryError::NotFound(id)); },
        };
        let issued = self.issued;
        self.put(id, todo.clone(), issued);
        proof {
            use_type_invariant(&*self);
            self.lemma_filed();
        }
        Ok(todo)
    }

    fn delete(&mut self, id: i32) -> (answer: Result<(), RepositoryError>)
        ensures
            answer is Ok <==> old(self)@.contains_key(id),
    {
        broadcast use vstd::std_specs::hash::group_hash_axioms;

        proof {
            use_type_invariant(&*self);
            self.lemma_filed();
        }
        let mut store = HashMap::new();
        std::mem::swap(&mut store, &mut self.store);
        let removed = store.remove(&id);
        self.store = store;
        proof {
            use_type_invariant(&*self);
            self.lemma_filed();
        }
        match removed {
            Some(_) => {
                assert(self@ =~= old(self)@.remove(id));
                Ok(())
            },
            None => {
                assert(self@ =~= old(self)@);
                Err(RepositoryError::NotFound(id))
            },
        }
    }
}

/// Lays the set fields of a payload over a stored record: a field that the
/// payload leaves out keeps the stored value. The result is filed under `id`.
pub fn merge(id: i32, stored: &Todo, payload: UpdateTodo) -> (todo: Todo)
    ensures
        todo@ == merged(id, stored@, payload@),
{
    let text = match payload.text {
        Some(text) => text,
        None => stored.text.clone(),
    };
    let completed = match payload.completed {
        Some(completed) => completed,
        None => stored.completed,
    };
    Todo { id, text, completed }
}

/// A payload passes its rules if and only if the text it sets has between
/// one and a hundred characters. A text of no characters, or of more than a
/// hundred, is never handed on, whether it is to create a record or to change
/// one.
pub proof fn payload_rules(create: CreateTodo, update: UpdateTodo)
    ensures
        create.violations().len() == 0 <==> text_allowed(create.text@),
        update.violations().len() == 0 <==> (update.text matches Some(text) ==> text_allowed(text@)),
{
}

/// A record that has just been stored is found under its id, as it was stored.
pub proof fn stored_is_found(records: Records, todo: TodoView)
    ensures
        found(records.insert(todo.id, todo), todo.id) == RecordAnswer::Ok(todo),
{
}

/// A record that the in-memory repository has just created is found under
/// its id, with the text it was given and not completed.
pub proof fn created_is_found(records: Records, issued: nat, text: Seq<char>)
    ensures
        ({
            let todo = created(issued, text);
            &&& todo.text == text
            &&& !todo.completed
            &&& found(records.insert(todo.id, todo), todo.id) == RecordAnswer::Ok(todo)
        }),
{
}

/// A record that is stored under an id that no record holds joins the
/// others: every record that was there stays as it was, and there is one
/// record more.
pub proof fn creation_adds_one(records: Records, todo: TodoView)
    requires
        filed(records),
        !records.contains_key(todo.id),
    ensures
        filed(records.insert(todo.id, todo)),
        records.insert(todo.id, todo).len() == records.len() + 1,
        forall|id: i32| #[trigger]
            records.contains_key(id) ==> records.insert(todo.id, todo).contains_key(id)
                && records.insert(todo.id, todo)[id] == records[id],
{
}

/// A change that sets nothing but `completed` keeps the text of the record.
pub proof fn completing_keeps_text(records: Records, id: i32)
    requires
        records.contains_key(id),
    ensures
        updated(records, id, UpdateTodoView { text: None, completed: Some(true) })
            == RecordAnswer::Ok(TodoView { id, text: records[id].text, completed: true }),
{
}

/// A change that sets nothing answers the record as it is stored and leaves
/// the records as they were.
pub proof fn empty_change_keeps_all(records: Records, id: i32)
    requires
        filed(records),
        records.contains_key(id),
    ensures
        updated(records, id, UpdateTodoView { text: None, completed: None }) == RecordAnswer::Ok(
            records[id],
        ),
        records.insert(id, records[id]) == records,
{
    assert(records.insert(id, records[id]) =~= records);
}

/// Once an id has been removed, looking it up and removing it again both
/// answer `NotFound`.
pub proof fn deleted_is_gone(records: Records, id: i32)
    ensures
        found(records.remove(id), id) == RecordAnswer::Err(RepositoryErrorView::NotFound(id)),
        deleted(records.remove(id), id) == Err::<(), RepositoryErrorView>(
            RepositoryErrorView::NotFound(id),
        ),
{
}

/// A listing holds every record: whatever is stored under an id is in it.
pub proof fn listing_is_complete(records: Records, listing: Seq<TodoView>, id: i32)
    requires
        lists(records, listing),
        records.contains_key(id),
    ensures
        listing.contains(records[id]),
{
    let i = choose|i: int| 0 <= i < listing.len() && #[trigger] listing[i] == records[id];
    assert(listing[i] == records[id]);
}

/// The records of an in-memory repository that started empty and created one
/// record for each text, in order.
pub open spec fn after_creates(texts: Seq<Seq<char>>) -> Records
    decreases texts.len(),
{
    if texts.len() == 0 {
        Records::empty()
    } else {
        let todo = created((texts.len() - 1) as nat, texts.last());
        after_creates(texts.drop_last()).insert(todo.id, todo)
    }
}

proof fn lemma_creates_issue_ids(texts: Seq<Seq<char>>)
    requires
        texts.len() <= i32::MAX,
    ensures
        after_creates(texts).dom() == Set::<i32>::new(|id: i32| 1 <= id <= texts.len()),
        after_creates(texts).dom().finite(),
        after_creates(texts).len() == texts.len(),
    decreases texts.len(),
{
    if texts.len() == 0 {
        assert(after_creates(texts).dom() =~= Set::<i32>::new(|id: i32| 1 <= id <= 0));
    } else {
        lemma_creates_issue_ids(texts.drop_last());
        assert(after_creates(texts).dom() =~= Set::<i32>::new(|id: i32| 1 <= id <= texts.len()));
    }
}

/// An in-memory repository that started empty and created records, without
/// removing any, lists as many records as it created: none at the start, and
/// one more with each creation. This holds as long as the ids last: for up to
/// `i32::MAX` creations.
pub proof fn creations_are_listed(texts: Seq<Seq<char>>, listing: Seq<TodoView>)
    requires
        texts.len() <= i32::MAX,
        lists(after_creates(texts), listing),
    ensures
        listing.len() == texts.len(),
{
    lemma_creates_issue_ids(texts);
}

} // verus!
