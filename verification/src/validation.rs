//! Field rules for request payloads, and the report of the rules a payload broke.

use vstd::prelude::*;

verus! {

/// One rule that a field of a payload broke.
#[derive(Debug)]
pub struct Violation {
    /// The field's name.
    pub field: &'static str,
    /// The kind of rule, such as `length`.
    pub code: &'static str,
    /// What to tell the sender.
    pub message: &'static str,
}

/// A `Violation` as contracts speak of it.
pub struct ViolationView {
    pub field: Seq<char>,
    pub code: Seq<char>,
    pub message: Seq<char>,
}

impl View for Violation {
    type V = ViolationView;

    open spec fn view(&self) -> ViolationView {
        ViolationView { field: self.field@, code: self.code@, message: self.message@ }
    }
}

/// The rules that a payload broke, in the order in which they were checked.
#[derive(Debug)]
pub struct ValidationErrors {
    pub violations: Vec<Violation>,
}

impl View for ValidationErrors {
    type V = Seq<ViolationView>;

    open spec fn view(&self) -> Seq<ViolationView> {
        self.violations@.map_values(|v: Violation| v@)
    }
}

/// Whether a length meets the bounds that are set. A set `equal` takes the
/// place of both `min` and `max`.
pub open spec fn length_allowed(length: nat, min: Option<u64>, max: Option<u64>, equal: Option<u64>) -> bool {
    match equal {
        Some(exact) => length == exact,
        None => (min matches Some(least) ==> length >= least) && (max matches Some(most) ==> length
            <= most),
    }
}

/// Calls `validator::validate_length` on a string slice. The contract claims
/// what that function computes: it counts the characters of the slice and
/// compares the count with `equal` if that is set, and with `min` and `max`
/// otherwise.
#[verifier::external_body]
fn validate_length(value: &str, min: Option<u64>, max: Option<u64>, equal: Option<u64>) -> (ok:
    bool)
    ensures
        ok == length_allowed(value@.len(), min, max, equal),
{
    validator::validate_length(value, min, max, equal)
}

/// The parts, in order, with the separator between two of them.
pub open spec fn joined(parts: Seq<Seq<char>>, separator: Seq<char>) -> Seq<char>
    decreases parts.len(),
{
    if parts.len() == 0 {
        Seq::empty()
    } else if parts.len() == 1 {
        parts[0]
    } else {
        parts[0] + separator + joined(parts.drop_first(), separator)
    }
}

/// The messages of the violations of a field, in order.
pub open spec fn messages_of(violations: Seq<ViolationView>, field: Seq<char>) -> Seq<Seq<char>>
    decreases violations.len(),
{
    if violations.len() == 0 {
        Seq::empty()
    } else if violations[0].field == field {
        seq![violations[0].message] + messages_of(violations.drop_first(), field)
    } else {
        messages_of(violations.drop_first(), field)
    }
}

/// The line that reports the violations of a field: the field's name, a
/// colon and a space, then the messages with a comma and a space between two
/// of them.
pub open spec fn field_line(violations: Seq<ViolationView>, field: Seq<char>) -> Seq<char> {
    field + seq![':', ' '] + joined(messages_of(violations, field), seq![',', ' '])
}

/// Whether `fields` names each field that has a violation, once.
pub open spec fn names_each_field(violations: Seq<ViolationView>, fields: Seq<Seq<char>>) -> bool {
    &&& fields.no_duplicates()
    &&& forall|field: Seq<char>| #[trigger]
        fields.contains(field) <==> exists|i: int|
            0 <= i < violations.len() && (#[trigger] violations[i]).field == field
}

/// The lines of the fields, in the order of `fields`, with a line break
/// between two of them.
pub open spec fn field_lines(violations: Seq<ViolationView>, fields: Seq<Seq<char>>) -> Seq<char> {
    joined(fields.map_values(|field: Seq<char>| field_line(violations, field)), seq!['\n'])
}

/// Whether a text reports the violations: it has a line for each field that
/// has a violation. The order of the lines is not fixed.
pub open spec fn reports(violations: Seq<ViolationView>, text: Seq<char>) -> bool {
    exists|fields: Seq<Seq<char>>| #[trigger]
        names_each_field(violations, fields) && text == field_lines(violations, fields)
}

/// Whether the violations are of one field: at least one, all with the same
/// field name.
pub open spec fn one_field(violations: Seq<ViolationView>) -> bool {
    &&& violations.len() > 0
    &&& forall|i: int|
        0 <= i < violations.len() ==> (#[trigger] violations[i]).field == violations[0].field
}

/// The line of a field with a single violation: the field's name, a colon and
/// a space, then the message.
pub proof fn line_of_one_violation(violation: ViolationView)
    ensures
        field_line(seq![violation], violation.field) == violation.field + seq![':', ' ']
            + violation.message,
{
    let violations = seq![violation];
    assert(violations.drop_first() =~= Seq::<ViolationView>::empty());
    assert(messages_of(violations.drop_first(), violation.field) =~= Seq::<Seq<char>>::empty());
    assert(messages_of(violations, violation.field) =~= seq![violation.message]);
}

/// A report of no violations is empty, and a report of the violations of one
/// field is that field's line.
pub proof fn report_of_one_field(violations: Seq<ViolationView>, text: Seq<char>)
    requires
        reports(violations, text),
    ensures
        violations.len() == 0 ==> text == Seq::<char>::empty(),
        one_field(violations) ==> text == field_line(violations, violations[0].field),
{
    let fields = choose|fields: Seq<Seq<char>>| #[trigger]
        names_each_field(violations, fields) && text == field_lines(violations, fields);
    let lines = fields.map_values(|field: Seq<char>| field_line(violations, field));
    if violations.len() == 0 {
        if fields.len() > 0 {
            assert(fields.contains(fields[0]));
        }
    }
    if one_field(violations) {
        let field = violations[0].field;
        assert(fields.contains(field));
        assert forall|i: int| 0 <= i < fields.len() implies fields[i] == field by {
            assert(fields.contains(fields[i]));
        }
        if fields.len() > 1 {
            assert(fields[0] == fields[1]);
        }
        assert(fields.len() == 1);
        assert(lines[0] == field_line(violations, field));
    }
}

impl ValidationErrors {
    /// A report without violations.
    pub fn new() -> (errors: ValidationErrors)
        ensures
            errors@ == Seq::<ViolationView>::empty(),
    {
        let errors = ValidationErrors { violations: Vec::new() };
        assert(errors@ =~= Seq::<ViolationView>::empty());
        errors
    }

    /// Puts a violation at the end of the report.
    pub fn add(&mut self, violation: Violation)
        ensures
            final(self)@ == old(self)@.push(violation@),
    {
        self.violations.push(violation);
        assert(self@ =~= old(self)@.push(violation@));
    }

    /// Whether the report holds no violation.
    pub fn is_empty(&self) -> (empty: bool)
        ensures
            empty == (self@.len() == 0),
    {
        self.violations.len() == 0
    }

    /// The report as the sender reads it: a line for each field that has a
    /// violation.
    pub fn to_text(&self) -> (text: String)
        ensures
            reports(self@, text@),
    {
        display(self)
    }
}

/// Builds a `validator::ValidationErrors` that holds each violation as a
/// field error with its code and message, and returns what its `Display`
/// writes. The contract claims that this text is a report of the violations:
/// for each field that has one, a line with the field's name, `": "`, and the
/// messages of its violations joined by `", "` in the order in which they were
/// added; and a line break between two lines. It claims nothing of the order
/// of the lines: `Display` walks a hash map.
#[verifier::external_body]
fn display(errors: &ValidationErrors) -> (text: String)
    ensures
        reports(errors@, text@),
{
    let mut outside = validator::ValidationErrors::new();
    for violation in errors.violations.iter() {
        let mut error = validator::ValidationError::new(violation.code);
        error.message = Some(std::borrow::Cow::Borrowed(violation.message));
        outside.add(violation.field, error);
    }
    outside.to_string()
}

/// A payload with field rules.
pub trait Validate {
    /// The rules that the value breaks, in the order in which `validate` checks them.
    spec fn violations(&self) -> Seq<ViolationView>;

    /// Checks every rule. The value is accepted if and only if it breaks none;
    /// otherwise the report lists exactly the broken ones.
    fn validate(&self) -> (outcome: Result<(), ValidationErrors>)
        ensures
            match outcome {
                Ok(()) => self.violations().len() == 0,
                Err(errors) => errors@ == self.violations() && errors@.len() > 0,
            },
    ;
}

/// Checks one length rule of a field and, where the value breaks it, adds the
/// violation to the report.
pub fn check_length(
    errors: &mut ValidationErrors,
    value: &str,
    min: Option<u64>,
    max: Option<u64>,
    violation: Violation,
)
    ensures
        final(errors)@ == if length_allowed(value@.len(), min, max, None) {
            old(errors)@
        } else {
            old(errors)@.push(violation@)
        },
{
    if !validate_length(value, min, max, None) {
        errors.add(violation);
    }
}

} // verus!
