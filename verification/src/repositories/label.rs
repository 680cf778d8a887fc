//! Labels and the repository that keeps them.

use crate::repositories::{
    lemma_values_listed_once, next_id, no_id_left, RepositoryError, RepositoryErrorView, NO_ID_LEFT,
};
use std::collections::HashMap;
use vstd::prelude::*;
use vstd::std_specs::hash::spec_values_iter;
use vstd::std_specs::iter::IteratorSpec;

verus! {

/// A stored label.
#[derive(Debug)]
pub struct Label {
    pub id: i32,
    pub name: String,
}

/// A `Label` as contracts speak of it.
pub struct LabelView {
    pub id: i32,
    pub name: Seq<char>,
}

impl View for Label {
    type V = LabelView;

    open spec fn view(&self) -> LabelView {
        LabelView { id: self.id, name: self.name@ }
    }
}

impl Clone for Label {
    fn clone(&self) -> (copy: Label)
        ensures
            copy@ == self@,
    {
        Label { id: self.id, name: self.name.clone() }
    }
}

impl PartialEq for Label {
    fn eq(&self, other: &Label) -> (equal: bool) {
        self.id == other.id && self.name == other.name
    }
}

impl Eq for Label {}

impl vstd::std_specs::cmp::PartialEqSpecImpl for Label {
    open spec fn obeys_eq_spec() -> bool {
        true
    }

    open spec fn eq_spec(&self, other: &Label) -> bool {
        self@ == other@
    }
}

/// A label with the name it is to have from now on.
#[derive(Debug)]
pub struct UpdateLabel {
    pub id: i32,
    pub name: String,
}

impl View for UpdateLabel {
    type V = LabelView;

    open spec fn view(&self) -> LabelView {
        LabelView { id: self.id, name: self.name@ }
    }
}

impl Clone for UpdateLabel {
    fn clone(&self) -> (copy: UpdateLabel)
        ensures
            copy@ == self@,
    {
        UpdateLabel { id: self.id, name: self.name.clone() }
    }
}

impl PartialEq for UpdateLabel {
    fn eq(&self, other: &UpdateLabel) -> (equal: bool) {
        self.id == other.id && self.name == other.name
    }
}

impl Eq for UpdateLabel {}

impl vstd::std_specs::cmp::PartialEqSpecImpl for UpdateLabel {
    open spec fn obeys_eq_spec() -> bool {
        true
    }

    open spec fn eq_spec(&self, other: &UpdateLabel) -> bool {
        self@ == other@
    }
}

/// The labels of a repository, by id.
pub type Labels = Map<i32, LabelView>;

/// The labels in a vector, as contracts speak of them.
pub open spec fn label_views(labels: Seq<Label>) -> Seq<LabelView> {
    labels.map_values(|label: Label| label@)
}

/// Whether a sequence lists the labels: every label, each once, in any order.
pub open spec fn lists(labels: Labels, listing: Seq<LabelView>) -> bool {
    &&& listing.len() == labels.len()
    &&& forall|i: int|
        0 <= i < listing.len() ==> labels.contains_key((#[trigger] listing[i]).id)
            && labels[listing[i].id] == listing[i]
    &&& forall|i: int, j: int|
        0 <= i < j < listing.len() ==> (#[trigger] listing[i]).id != (#[trigger] listing[j]).id
    &&& forall|id: i32| #[trigger]
        labels.contains_key(id) ==> exists|i: int|
            0 <= i < listing.len() && #[trigger] listing[i] == labels[id]
}

/// Whether the labels are in order: there are finitely many, and each is
/// filed under the id that it carries. The labels of a repository always are.
pub open spec fn filed(labels: Labels) -> bool {
    &&& labels.dom().finite()
    &&& forall|id: i32| #[trigger] labels.contains_key(id) ==> labels[id].id == id
}

/// What removing the label under an id answers.
pub open spec fn deleted(labels: Labels, id: i32) -> Result<(), RepositoryErrorView> {
    if labels.contains_key(id) {
        Ok(())
    } else {
        Err(RepositoryErrorView::NotFound(id))
    }
}

/// A label that was looked up, as contracts speak of it.
pub open spec fn existing_view(existing: Option<Label>) -> Option<LabelView> {
    match existing {
        Some(label) => Some(label@),
        None => None,
    }
}

/// Whether a label may be created, given the label that holds its name
/// already, if there is one: that label stands in the way, and the error
/// names it.
pub open spec fn refusal(existing: Option<LabelView>) -> Result<(), RepositoryErrorView> {
    match existing {
        Some(label) => Err(RepositoryErrorView::Duplicate(label.id)),
        None => Ok(()),
    }
}

/// Decides whether a label may be created, given the label that holds its
/// name already, if there is one. A repository that keeps names unique looks
/// that label up first, and stores the new one only where this answers `Ok`.
pub fn refuse_duplicate(existing: Option<Label>) -> (answer: Result<(), RepositoryError>)
    ensures
        match answer {
            Ok(()) => refusal(existing_view(existing)) is Ok,
            Err(error) => refusal(existing_view(existing)) == Err::<(), RepositoryErrorView>(
                error@,
            ),
        },
{
    match existing {
        Some(label) => Err(RepositoryError::Duplicate(label.id)),
        None => Ok(()),
    }
}

/// Whether no two labels have the same name.
pub open spec fn names_unique(labels: Labels) -> bool {
    forall|one: i32, other: i32|
        labels.contains_key(one) && labels.contains_key(other) && (#[trigger] labels[one]).name == (
        #[trigger] labels[other]).name ==> one == other
}

/// Whether the lookup of a name is answered from the labels as they are:
/// with a label of that name that is among them, or with none where none of
/// them has the name.
pub open spec fn answers_lookup(labels: Labels, name: Seq<char>, existing: Option<LabelView>) -> bool {
    match existing {
        Some(label) => labels.contains_key(label.id) && labels[label.id] == label && label.name
            == name,
        None => forall|id: i32| #[trigger] labels.contains_key(id) ==> labels[id].name != name,
    }
}

/// Where no label has the name, the lookup finds none, and nothing stands in
/// the way of a label of that name.
pub proof fn first_of_a_name_is_stored(labels: Labels, name: Seq<char>, existing: Option<LabelView>)
    requires
        forall|id: i32| #[trigger] labels.contains_key(id) ==> labels[id].name != name,
        answers_lookup(labels, name, existing),
    ensures
        existing is None,
        refusal(existing) is Ok,
{
    if let Some(label) = existing {
        assert(labels.contains_key(label.id));
    }
}

/// Where a label is stored and no two labels have the same name, the lookup
/// of its name finds that label, and a second label of the name is refused as
/// a duplicate of it.
pub proof fn second_of_a_name_is_refused(
    labels: Labels,
    first: LabelView,
    existing: Option<LabelView>,
)
    requires
        names_unique(labels),
        labels.contains_key(first.id),
        labels[first.id] == first,
        answers_lookup(labels, first.name, existing),
    ensures
        existing == Some(first),
        refusal(existing) == Err::<(), RepositoryErrorView>(
            RepositoryErrorView::Duplicate(first.id),
        ),
{
    match existing {
        Some(label) => {
            assert(labels[label.id].name == labels[first.id].name);
        },
        None => {
            assert(labels.contains_key(first.id));
        },
    }
}

/// A label whose name no label has, stored under an id that no label holds,
/// leaves the names unique.
pub proof fn names_stay_unique(labels: Labels, label: LabelView)
    requires
        names_unique(labels),
        !labels.contains_key(label.id),
        forall|id: i32| #[trigger] labels.contains_key(id) ==> labels[id].name != label.name,
    ensures
        names_unique(labels.insert(label.id, label)),
{
    let after = labels.insert(label.id, label);
    assert forall|one: i32, other: i32|
        after.contains_key(one) && after.contains_key(other) && (#[trigger] after[one]).name == (
        #[trigger] after[other]).name implies one == other by {
        if one != label.id && other != label.id {
            assert(labels.contains_key(one) && labels.contains_key(other));
            assert(labels[one].name == labels[other].name);
        } else if one != label.id {
            assert(labels.contains_key(one));
        } else if other != label.id {
            assert(labels.contains_key(other));
        }
    }
}

/// A store of labels.
///
/// A repository gives every new label an id that no label holds, and it
/// counts the ids that it gives out. The ids are the positive numbers of 32
/// bits: once `i32::MAX` of them are out, none is left, and `create` ends in
/// `Unexpected`.
///
/// A repository may be backed by something that can fail on its own. One that
/// is not `dependable` may end any call in `Unexpected`. A call that ends in
/// an error leaves the repository as it was.
pub trait LabelRepository: View<V = Labels> + Sized {
    /// Whether every call is answered from the repository's own state, so
    /// that none ends in `Unexpected` while an id is left.
    spec fn dependable() -> bool;

    /// The number of ids that the repository has given out.
    spec fn issued(&self) -> nat;

    /// Whether a repository that has given out `issued` ids may store its
    /// next label under `id`.
    spec fn assigns(issued: nat, id: i32) -> bool;

    /// Stores a new label with the name under an id that no label holds.
    /// Every other label stays as it is. A repository that keeps names unique
    /// refuses a name that a label holds already, and says which.
    fn create(&mut self, name: String) -> (answer: Result<Label, RepositoryError>)
        ensures
            filed(old(self)@),
            filed(final(self)@),
            match answer {
                Ok(label) => {
                    &&& Self::assigns(old(self).issued(), label@.id)
                    &&& !old(self)@.contains_key(label@.id)
                    &&& label@.name == name@
                    &&& final(self)@ == old(self)@.insert(label@.id, label@)
                    &&& final(self).issued() == old(self).issued() + 1
                },
                Err(error) => {
                    &&& final(self)@ == old(self)@
                    &&& final(self).issued() == old(self).issued()
                    &&& match error {
                        RepositoryError::Duplicate(id) => old(self)@.contains_key(id) && old(
                            self,
                        )@[id].name == name@,
                        RepositoryError::Unexpected(_) => !Self::dependable() || old(
                            self,
                        ).issued() >= i32::MAX,
                        RepositoryError::NotFound(_) => false,
                    }
                },
            },
    ;

    /// Hands out a copy of every label.
    fn all(&self) -> (answer: Result<Vec<Label>, RepositoryError>)
        ensures
            filed(self@),
            match answer {
                Ok(labels) => lists(self@, label_views(labels@)),
                Err(error) => error is Unexpected && !Self::dependable(),
            },
    ;

    /// Removes the label under `id`. Its id is not given out again.
    fn delete(&mut self, id: i32) -> (answer: Result<(), RepositoryError>)
        ensures
            filed(old(self)@),
            filed(final(self)@),
            final(self).issued() == old(self).issued(),
            match answer {
                Ok(()) => {
                    &&& old(self)@.contains_key(id)
                    &&& final(self)@ == old(self)@.remove(id)
                },
                Err(error) => {
                    &&& deleted(old(self)@, id) == Err::<(), RepositoryErrorView>(error@) || (error is Unexpected
                        && !Self::dependable())
                    &&& final(self)@ == old(self)@
                },
            },
    ;
}

/// The label that the in-memory repository makes of a name when it has given
/// out `issued` ids.
pub open spec fn created(issued: nat, name: Seq<char>) -> LabelView
    recommends
        issued < i32::MAX,
{
    LabelView { id: next_id(issued), name }
}

/// A repository that keeps its labels in a hash map. It gives out the ids
/// 1, 2, 3 and so on, each once, whatever has been removed since. It does not
/// keep names unique.
pub struct LabelRepositoryForMemory {
    store: HashMap<i32, Label>,
    issued: i32,
}

impl View for LabelRepositoryForMemory {
    type V = Labels;

    closed spec fn view(&self) -> Labels {
        self.store@.map_values(|label: Label| label@)
    }
}

impl LabelRepositoryForMemory {
    /// Every label is filed under its own id, and every id in use has been
    /// given out.
    #[verifier::type_invariant]
    spec fn in_order(self) -> bool {
        &&& 0 <= self.issued
        &&& forall|id: i32| #[trigger]
            self.store@.contains_key(id) ==> self.store@[id].id == id && 1 <= id <= self.issued
    }

    /// A repository without labels, which has given out no id.
    pub fn new() -> (repository: LabelRepositoryForMemory)
        ensures
            repository@ == Labels::empty(),
            repository.issued() == 0,
    {
        let repository = LabelRepositoryForMemory { store: HashMap::new(), issued: 0 };
        assert(repository@ =~= Labels::empty());
        repository
    }

    /// The labels are in order.
    proof fn lemma_filed(&self)
        requires
            self.in_order(),
        ensures
            filed(self@),
    {
        broadcast use vstd::std_specs::hash::group_hash_axioms;

        assert(self@.dom() =~= self.store@.dom());
    }

    /// The number of labels.
    pub fn len(&self) -> (count: usize)
        ensures
            count == self@.len(),
            filed(self@),
    {
        broadcast use vstd::std_specs::hash::group_hash_axioms;

        proof {
            use_type_invariant(self);
            self.lemma_filed();
        }
        assert(self@.dom() =~= self.store@.dom());
        self.store.len()
    }
}

impl LabelRepository for LabelRepositoryForMemory {
    open spec fn dependable() -> bool {
        true
    }

    closed spec fn issued(&self) -> nat {
        self.issued as nat
    }

    open spec fn assigns(issued: nat, id: i32) -> bool {
        id == issued + 1
    }

    /// The new label gets the id after the last one given out. Once
    /// `i32::MAX` ids are out, nothing is stored, and the error says that no
    /// id is left.
    fn create(&mut self, name: String) -> (answer: Result<Label, RepositoryError>)
        ensures
            match answer {
                Ok(label) => old(self).issued() < i32::MAX && label@ == created(
                    old(self).issued(),
                    name@,
                ),
                Err(error) => old(self).issued() == i32::MAX && error@
                    == RepositoryErrorView::Unexpected(NO_ID_LEFT@),
            },
    {
        broadcast use vstd::std_specs::hash::group_hash_axioms;

        proof {
            use_type_invariant(&*self);
            self.lemma_filed();
        }
        if self.issued == i32::MAX {
            return Err(no_id_left());
        }
        let id = self.issued + 1;
        let label = Label { id, name };
        let mut store = HashMap::new();
        std::mem::swap(&mut store, &mut self.store);
        self.issued = id;
        store.insert(id, label.clone());
        self.store = store;
        assert(self@ =~= old(self)@.insert(id, label@));
        proof {
            use_type_invariant(&*self);
            self.lemma_filed();
        }
        Ok(label)
    }

    fn all(&self) -> (answer: Result<Vec<Label>, RepositoryError>)
        ensures
            answer is Ok,
    {
        broadcast use vstd::std_specs::hash::group_hash_axioms;

        proof {
            use_type_invariant(self);
            self.lemma_filed();
        }
        let ghost stored = spec_values_iter(&self.store).remaining().unref();
        let mut labels: Vec<Label> = Vec::new();
        for label in entries: self.store.values()
            invariant
                entries.seq().unref() == stored,
                labels.len() == entries.index(),
                forall|i: int| 0 <= i < labels.len() ==> (#[trigger] labels[i])@ == stored[i]@,
        {
            labels.push(label.clone());
        }
        proof {
            lemma_values_listed_once(self.store@, stored, |label: Label| label.id);
            assert(self@.dom() =~= self.store@.dom());
            assert(label_views(labels@) =~= label_views(stored));
            let listing = label_views(labels@);
            assert forall|id: i32| #[trigger] self@.contains_key(id) implies exists|i: int|
                0 <= i < listing.len() && #[trigger] listing[i] == self@[id] by {
                let i = choose|i: int| 0 <= i < stored.len() && #[trigger] stored[i] == self.store@[id];
                assert(listing[i] == self@[id]);
            }
        }
        Ok(labels)
    }

    fn delete(&mut self, id: i32) -> (answer: Result<(), RepositoryError>)
        ensures
            answer is Ok <==> old(self)@.contains_key(id),
    {
        broadcast use vstd::std_specs::hash::group_hash_axioms;

        proof {
            use_type_invariant(&*self);
            self.lemma_filed();
        }
        let mut store = HashMap::new();
        std::mem::swap(&mut store, &mut self.store);
        let removed = store.remove(&id);
        self.store = store;
        proof {
            use_type_invariant(&*self);
            self.lemma_filed();
        }
        match removed {
            Some(_) => {
                assert(self@ =~= old(self)@.remove(id));
                Ok(())
            },
            None => {
                assert(self@ =~= old(self)@);
                Err(RepositoryError::NotFound(id))
            },
        }
    }
}

} // verus!
