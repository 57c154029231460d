//! Dicts: objects whose members are governed by name.
use vstd::prelude::*;
use crate::document::Kind;
use crate::document::Value;
use crate::error::Defect;
use crate::error::DefectKind;
use crate::error::SchemaError;
use crate::error::Step;
use crate::error::StepView;
use crate::report::absorb;
use crate::report::extend;
use crate::report::faults_view;
use crate::report::lemma_rebase_nest;
use crate::report::nest;
use crate::report::note;
use crate::report::path_view;
use crate::report::rebase;
use crate::report::Fault;
use crate::report::Reason;
use crate::report::Segment;
use crate::report::SegmentView;
use crate::report::Violation;
use crate::schema::distinct;
use crate::schema::names_distinct;
use crate::schema::position;
use crate::schema::DataType;
use crate::schema::DictType;
use crate::validator::check_kind;
use crate::validator::kind_matches;
use crate::validator::wrong_type;
use crate::validator::Validator;

verus! {

/// Whether some member of `members` has the name `name`.
pub open spec fn has_member(members: Seq<(String, Value)>, name: Seq<char>) -> bool {
    exists|j: int| 0 <= j < members.len() && (#[trigger] members[j]).0@ == name
}

/// Decides [`has_member`].
pub fn contains_key(members: &Vec<(String, Value)>, name: &String) -> (found: bool)
    ensures
        found == has_member(members@, name@),
{
    let mut j: usize = 0;
    while j < members.len()
        invariant
            0 <= j <= members@.len(),
            forall|k: int| 0 <= k < j ==> (#[trigger] members@[k]).0@ != name@,
        decreases members@.len() - j,
    {
        if members[j].0 == *name {
            return true;
        }
        j += 1;
    }
    false
}

/// The first defect among the nodes of `entries` from position `from` on,
/// seen from the dict that holds them in `fields` or, if `any` is set, in
/// `any_fields`.
pub open spec fn entries_defect(entries: Seq<(String, DataType)>, from: int, any: bool) -> Option<
    Defect,
>
    decreases entries, entries.len() - from,
{
    if 0 <= from < entries.len() {
        match entries[from].1.defect() {
            Some(d) => Some(
                d.under(
                    if any {
                        StepView::AnyField(entries[from].0@)
                    } else {
                        StepView::Field(entries[from].0@)
                    },
                ),
            ),
            None => entries_defect(entries, from + 1, any),
        }
    } else {
        None
    }
}

/// No entry from position `from` on has a defect exactly when each of them
/// is well formed.
pub proof fn lemma_entries_defect(entries: Seq<(String, DataType)>, from: int, any: bool)
    requires
        0 <= from,
    ensures
        entries_defect(entries, from, any) is None <==> forall|i: int|
            from <= i < entries.len() ==> (#[trigger] entries[i]).1.well_formed(),
    decreases entries, entries.len() - from,
{
    if from < entries.len() {
        entries[from].1.lemma_defect_free();
        lemma_entries_defect(entries, from + 1, any);
    }
}

/// Checks the nodes of `entries` in order, and reports the first error.
pub fn check_entries(entries: &Vec<(String, DataType)>, any: bool) -> (r: Result<(), SchemaError>)
    ensures
        r is Ok <==> entries_defect(entries@, 0, any) is None,
        r matches Err(e) ==> entries_defect(entries@, 0, any) == Some(e@),
    decreases entries, 0nat,
{
    let mut i: usize = 0;
    while i < entries.len()
        invariant
            0 <= i <= entries@.len(),
            entries_defect(entries@, 0, any) == entries_defect(entries@, i as int, any),
        decreases entries@.len() - i,
    {
        if let Err(e) = entries[i].1.check() {
            let name = entries[i].0.clone();
            let step = if any {
                Step::AnyField(name)
            } else {
                Step::Field(name)
            };
            return Err(e.under(step));
        }
        i += 1;
    }
    Ok(())
}

/// The position of the first entry of `entries` named `name`.  Where no entry
/// has the name, the result is no position of such an entry.
pub open spec fn first_named(entries: Seq<(String, DataType)>, name: Seq<char>) -> int {
    choose|i: int| is_first_named(entries, name, i)
}

/// Whether `i` is the position of the first entry of `entries` named `name`.
pub open spec fn is_first_named(entries: Seq<(String, DataType)>, name: Seq<char>, i: int) -> bool {
    &&& 0 <= i < entries.len()
    &&& entries[i].0@ == name
    &&& forall|j: int| 0 <= j < i ==> (#[trigger] entries[j]).0@ != name
}

/// The node of the first entry of `entries` named `name`, if there is one.
pub open spec fn lookup(entries: Seq<(String, DataType)>, name: Seq<char>) -> Option<DataType> {
    let i = first_named(entries, name);
    if is_first_named(entries, name, i) {
        Some(entries[i].1)
    } else {
        None
    }
}

impl DictType {
    /// The node that governs a member named `name`: the entry of `fields`
    /// with the name; without one, the entry of `any_fields` with the name;
    /// without one, `others`.
    pub open spec fn governing(&self, name: Seq<char>) -> Option<DataType> {
        if lookup(self.fields@, name) is Some {
            lookup(self.fields@, name)
        } else {
            match self.any_fields {
                Some(extra) => if lookup(extra@, name) is Some {
                    lookup(extra@, name)
                } else {
                    self.others
                },
                None => self.others,
            }
        }
    }

    /// Whether the dict takes a member with this name and this value: a node
    /// governs the name, and the value conforms to it.
    pub open spec fn admits(&self, name: Seq<char>, value: &Value) -> bool
        decreases self, 0nat,
    {
        match self.governing(name) {
            Some(node) => node.matches_type(value) && node.matches_meta(value),
            None => false,
        }
    }

    /// Whether every field that is not optional has a member in `members`.
    pub open spec fn required_present(&self, members: Seq<(String, Value)>) -> bool {
        forall|i: int|
            0 <= i < self.fields@.len() && !(#[trigger] self.fields@[i]).1.is_optional()
                ==> has_member(members, self.fields@[i].0@)
    }

    /// Finds the node that governs a member named `name`.
    pub fn governor(&self, name: &String) -> (found: Option<&DataType>)
        ensures
            found is Some <==> self.governing(name@) is Some,
            found matches Some(node) ==> self.governing(name@) == Some(*node),
    {
        if let Some(i) = position(&self.fields, name) {
            assert(is_first_named(self.fields@, name@, i as int));
            return Some(&self.fields[i].1);
        }
        if let Some(extra) = &self.any_fields {
            if let Some(i) = position(extra, name) {
                assert(is_first_named(extra@, name@, i as int));
                return Some(&extra[i].1);
            }
        }
        match &self.others {
            Some(other) => Some(other),
            None => None,
        }
    }

    /// Decides [`DictType::admits`].
    pub fn validate_member(&self, name: &String, value: &Value) -> (ok: bool)
        requires
            self.well_formed(),
        ensures
            ok == self.admits(name@, value),
        decreases self, 0nat,
    {
        match self.governor(name) {
            Some(node) => node.validate(value),
            None => false,
        }
    }
}

impl DictType {
    /// The faults of a member with this name and this value, seen from the
    /// object: those of the value against the node that governs the name,
    /// or that the member is unexpected.
    pub open spec fn member_faults(&self, name: Seq<char>, value: &Value) -> Seq<Fault>
        decreases self, 0nat, 0nat,
    {
        match self.governing(name) {
            Some(node) => nest(node.faults(value), SegmentView::Field(name)),
            None => seq![Fault::here(Reason::UnexpectedField).under(SegmentView::Field(name))],
        }
    }

    /// Collects the failures of a member of the object that is reached by
    /// `at`.
    pub fn report_member(&self, name: &String, value: &Value, at: &Vec<Segment>) -> (found: Vec<
        Violation,
    >)
        requires
            self.well_formed(),
        ensures
            faults_view(found@) == rebase(self.member_faults(name@, value), path_view(at@)),
        decreases self, 0nat, 0nat,
    {
        let under = extend(at, Segment::Field(name.clone()));
        match self.governor(name) {
            Some(node) => {
                let found = node.report_at(value, &under);
                proof {
                    lemma_rebase_nest(
                        node.faults(value),
                        SegmentView::Field(name@),
                        path_view(at@),
                    );
                }
                found
            },
            None => {
                let mut found: Vec<Violation> = Vec::new();
                note(&mut found, &under, Reason::UnexpectedField);
                proof {
                    lemma_rebase_nest(
                        seq![Fault::here(Reason::UnexpectedField)],
                        SegmentView::Field(name@),
                        path_view(at@),
                    );
                }
                found
            },
        }
    }
}

/// The faults of the members of `members` from position `from` on, each seen
/// from the object.
pub open spec fn members_faults(dict: &DictType, members: Seq<(String, Value)>, from: int) -> Seq<
    Fault,
>
    decreases dict, 1nat, members.len() - from,
{
    if 0 <= from < members.len() {
        dict.member_faults(members[from].0@, &members[from].1) + members_faults(
            dict,
            members,
            from + 1,
        )
    } else {
        Seq::empty()
    }
}

/// One fault for each entry of `fields` from position `from` on that is not
/// optional and has no member in `members`.
pub open spec fn missing_faults(
    fields: Seq<(String, DataType)>,
    members: Seq<(String, Value)>,
    from: int,
) -> Seq<Fault>
    decreases fields.len() - from,
{
    if 0 <= from < fields.len() {
        (if !fields[from].1.is_optional() && !has_member(members, fields[from].0@) {
            seq![Fault::here(Reason::MissingField).under(SegmentView::Field(fields[from].0@))]
        } else {
            Seq::empty()
        }) + missing_faults(fields, members, from + 1)
    } else {
        Seq::empty()
    }
}

/// No member from position `from` on has a fault exactly when the dict
/// admits each of them.
pub proof fn lemma_members_faultless(dict: &DictType, members: Seq<(String, Value)>, from: int)
    requires
        0 <= from,
    ensures
        members_faults(dict, members, from).len() == 0 <==> forall|j: int|
            from <= j < members.len() ==> dict.admits((#[trigger] members[j]).0@, &members[j].1),
    decreases dict, 1nat, members.len() - from,
{
    if from < members.len() {
        let name = members[from].0@;
        let value = &members[from].1;
        if let Some(node) = dict.governing(name) {
            node.lemma_faultless(value);
        }
        lemma_members_faultless(dict, members, from + 1);
        assert(members_faults(dict, members, from).len() == dict.member_faults(name, value).len()
            + members_faults(dict, members, from + 1).len());
    }
}

/// No field from position `from` on is missing exactly when each of them
/// that is not optional has a member.
pub proof fn lemma_none_missing(
    fields: Seq<(String, DataType)>,
    members: Seq<(String, Value)>,
    from: int,
)
    requires
        0 <= from,
    ensures
        missing_faults(fields, members, from).len() == 0 <==> forall|i: int|
            from <= i < fields.len() && !(#[trigger] fields[i]).1.is_optional() ==> has_member(
                members,
                fields[i].0@,
            ),
    decreases fields.len() - from,
{
    if from < fields.len() {
        lemma_none_missing(fields, members, from + 1);
    }
}

impl Validator for DictType {
    open spec fn well_formed(&self) -> bool
        decreases self,
    {
        &&& names_distinct(self.fields@)
        &&& forall|i: int|
            0 <= i < self.fields@.len() ==> (#[trigger] self.fields@[i]).1.well_formed()
        &&& self.any_fields matches Some(extra) ==> {
            &&& names_distinct(extra@)
            &&& forall|i: int| 0 <= i < extra@.len() ==> (#[trigger] extra@[i]).1.well_formed()
        }
        &&& self.others matches Some(other) ==> other.well_formed()
    }

    open spec fn defect(&self) -> Option<Defect>
        decreases self, 0nat,
    {
        let in_others = match self.others {
            Some(other) => match other.defect() {
                Some(d) => Some(d.under(StepView::Others)),
                None => None,
            },
            None => None,
        };
        if !names_distinct(self.fields@) {
            Some(Defect::here(DefectKind::DuplicateField))
        } else if entries_defect(self.fields@, 0, false) is Some {
            entries_defect(self.fields@, 0, false)
        } else {
            match self.any_fields {
                Some(extra) => if !names_distinct(extra@) {
                    Some(Defect::here(DefectKind::DuplicateAnyField))
                } else if entries_defect(extra@, 0, true) is Some {
                    entries_defect(extra@, 0, true)
                } else {
                    in_others
                },
                None => in_others,
            }
        }
    }

    open spec fn matches_type(&self, node: &Value) -> bool {
        kind_matches(Kind::Object, self.nullable, node)
    }

    open spec fn matches_meta(&self, node: &Value) -> bool
        decreases self, 1nat,
    {
        node matches Value::Object(members) ==> {
            &&& forall|j: int|
                0 <= j < members@.len() ==> self.admits(
                    (#[trigger] members@[j]).0@,
                    &members@[j].1,
                )
            &&& self.required_present(members@)
        }
    }

    open spec fn faults(&self, node: &Value) -> Seq<Fault>
        decreases self, 2nat, 0nat,
    {
        if !self.matches_type(node) {
            wrong_type()
        } else {
            match node {
                Value::Object(members) => members_faults(self, members@, 0) + missing_faults(
                    self.fields@,
                    members@,
                    0,
                ),
                _ => Seq::empty(),
            }
        }
    }

    proof fn lemma_defect_free(&self)
        decreases self, 0nat,
    {
        lemma_entries_defect(self.fields@, 0, false);
        if let Some(extra) = self.any_fields {
            lemma_entries_defect(extra@, 0, true);
        }
        if let Some(other) = self.others {
            other.lemma_defect_free();
        }
    }

    proof fn lemma_faultless(&self, node: &Value)
        decreases self, 2nat, 0nat,
    {
        if let Value::Object(members) = node {
            lemma_members_faultless(self, members@, 0);
            lemma_none_missing(self.fields@, members@, 0);
        }
    }

    fn check(&self) -> (r: Result<(), SchemaError>)
        decreases self, 0nat,
    {
        proof {
            self.lemma_defect_free();
        }
        if !distinct(&self.fields) {
            return Err(SchemaError::here(DefectKind::DuplicateField));
        }
        if let Err(e) = check_entries(&self.fields, false) {
            return Err(e);
        }
        if let Some(extra) = &self.any_fields {
            if !distinct(extra) {
                return Err(SchemaError::here(DefectKind::DuplicateAnyField));
            }
            if let Err(e) = check_entries(extra, true) {
                return Err(e);
            }
        }
        if let Some(other) = &self.others {
            if let Err(e) = other.check() {
                return Err(e.under(Step::Others));
            }
        }
        Ok(())
    }

    fn validate_type(&self, node: &Value) -> (ok: bool) {
        check_kind(Kind::Object, self.nullable, node)
    }

    fn validate_meta(&self, node: &Value) -> (ok: bool)
        decreases self, 1nat,
    {
        let object = match node {
            Value::Object(inner) => inner,
            _ => {
                return true;
            },
        };
        let mut j: usize = 0;
        while j < object.len()
            invariant
                0 <= j <= object@.len(),
                node matches Value::Object(members) && members == object,
                self.well_formed(),
                forall|k: int|
                    0 <= k < j ==> self.admits((#[trigger] object@[k]).0@, &object@[k].1),
            decreases object@.len() - j,
        {
            if !self.validate_member(&object[j].0, &object[j].1) {
                return false;
            }
            j += 1;
        }
        let mut i: usize = 0;
        while i < self.fields.len()
            invariant
                0 <= i <= self.fields@.len(),
                node matches Value::Object(members) && members == object,
                forall|k: int|
                    0 <= k < object@.len() ==> self.admits(
                        (#[trigger] object@[k]).0@,
                        &object@[k].1,
                    ),
                forall|k: int|
                    0 <= k < i && !(#[trigger] self.fields@[k]).1.is_optional() ==> has_member(
                        object@,
                        self.fields@[k].0@,
                    ),
            decreases self.fields@.len() - i,
        {
            if !self.fields[i].1.optional() && !contains_key(object, &self.fields[i].0) {
                return false;
            }
            i += 1;
        }
        true
    }

    fn report_at(&self, node: &Value, at: &Vec<Segment>) -> (found: Vec<Violation>)
        decreases self, 2nat, 0nat,
    {
        let mut found: Vec<Violation> = Vec::new();
        if !self.validate_type(node) {
            note(&mut found, at, Reason::WrongType);
            return found;
        }
        let object = match node {
            Value::Object(inner) => inner,
            _ => {
                return found;
            },
        };
        let mut j: usize = 0;
        while j < object.len()
            invariant
                0 <= j <= object@.len(),
                self.well_formed(),
                faults_view(found@) + rebase(members_faults(self, object@, j as int), path_view(at@))
                    == rebase(members_faults(self, object@, 0), path_view(at@)),
            decreases object@.len() - j,
        {
            let more = self.report_member(&object[j].0, &object[j].1, at);
            absorb(&mut found, more);
            j += 1;
        }
        let mut i: usize = 0;
        while i < self.fields.len()
            invariant
                0 <= i <= self.fields@.len(),
                faults_view(found@) + rebase(
                    missing_faults(self.fields@, object@, i as int),
                    path_view(at@),
                ) == rebase(members_faults(self, object@, 0), path_view(at@)) + rebase(
                    missing_faults(self.fields@, object@, 0),
                    path_view(at@),
                ),
            decreases self.fields@.len() - i,
        {
            if !self.fields[i].1.optional() && !contains_key(object, &self.fields[i].0) {
                let under = extend(at, Segment::Field(self.fields[i].0.clone()));
                note(&mut found, &under, Reason::MissingField);
                proof {
                    let one = seq![Fault::here(Reason::MissingField)];
                    let name = SegmentView::Field(self.fields@[i as int].0@);
                    lemma_rebase_nest(one, name, path_view(at@));
                }
            }
            i += 1;
        }
        found
    }
}

} // verus!
