//! Lists: arrays whose elements all satisfy one node.
use vstd::prelude::*;
use crate::document::Kind;
use crate::document::Value;
use crate::error::Defect;
use crate::error::SchemaError;
use crate::error::Step;
use crate::error::StepView;
use crate::report::absorb;
use crate::report::extend;
use crate::report::faults_view;
use crate::report::lemma_rebase_nest;
use crate::report::nest;
use crate::report::note;
use crate::report::path_view;
use crate::report::rebase;
use crate::report::Fault;
use crate::report::Reason;
use crate::report::Segment;
use crate::report::SegmentView;
use crate::report::Violation;
use crate::schema::ListType;
use crate::validator::check_kind;
use crate::validator::fault_if;
use crate::validator::kind_matches;
use crate::validator::wrong_type;
use crate::validator::Validator;

verus! {

/// The faults of the elements of `items` from position `from` on, each seen
/// from the array.
pub open spec fn items_faults(list: &ListType, items: Seq<Value>, from: int) -> Seq<Fault>
    decreases list, 1nat, items.len() - from,
{
    if 0 <= from < items.len() {
        nest(list.element_type.faults(&items[from]), SegmentView::Index(from)) + items_faults(
            list,
            items,
            from + 1,
        )
    } else {
        Seq::empty()
    }
}

/// No element from position `from` on has a fault exactly when each of them
/// conforms to `element_type`.
pub proof fn lemma_items_faultless(list: &ListType, items: Seq<Value>, from: int)
    requires
        0 <= from,
    ensures
        items_faults(list, items, from).len() == 0 <==> forall|i: int|
            from <= i < items.len() ==> list.element_type.matches_type(&#[trigger] items[i])
                && list.element_type.matches_meta(&items[i]),
    decreases list, 1nat, items.len() - from,
{
    if from < items.len() {
        list.element_type.lemma_faultless(&items[from]);
        lemma_items_faultless(list, items, from + 1);
    }
}

impl Validator for ListType {
    open spec fn well_formed(&self) -> bool
        decreases self,
    {
        self.element_type.well_formed()
    }

    open spec fn defect(&self) -> Option<Defect>
        decreases self, 0nat,
    {
        match self.element_type.defect() {
            Some(d) => Some(d.under(StepView::Element)),
            None => None,
        }
    }

    open spec fn matches_type(&self, node: &Value) -> bool {
        kind_matches(Kind::Array, self.nullable, node)
    }

    open spec fn matches_meta(&self, node: &Value) -> bool
        decreases self, 1nat,
    {
        node matches Value::Array(items) ==> {
            &&& self.limit matches Some(limit) ==> items@.len() <= limit
            &&& forall|i: int|
                0 <= i < items@.len() ==> self.element_type.matches_type(&#[trigger] items@[i])
                    && self.element_type.matches_meta(&items@[i])
        }
    }

    open spec fn faults(&self, node: &Value) -> Seq<Fault>
        decreases self, 2nat, 0nat,
    {
        if !self.matches_type(node) {
            wrong_type()
        } else {
            match node {
                Value::Array(items) => fault_if(
                    self.limit matches Some(limit) && items@.len() > limit,
                    Reason::TooManyItems,
                ) + items_faults(self, items@, 0),
                _ => Seq::empty(),
            }
        }
    }

    proof fn lemma_defect_free(&self)
        decreases self, 0nat,
    {
        self.element_type.lemma_defect_free();
    }

    proof fn lemma_faultless(&self, node: &Value)
        decreases self, 2nat, 0nat,
    {
        if let Value::Array(items) = node {
            lemma_items_faultless(self, items@, 0);
        }
    }

    fn check(&self) -> (r: Result<(), SchemaError>)
        decreases self, 0nat,
    {
        match self.element_type.check() {
            Ok(()) => Ok(()),
            Err(e) => Err(e.under(Step::Element)),
        }
    }

    fn validate_type(&self, node: &Value) -> (ok: bool) {
        check_kind(Kind::Array, self.nullable, node)
    }

    fn validate_meta(&self, node: &Value) -> (ok: bool)
        decreases self, 1nat,
    {
        let array = match node {
            Value::Array(inner) => inner,
            _ => {
                return true;
            },
        };
        if let Some(limit) = self.limit {
            if array.len() as u64 > limit {
                return false;
            }
        }
        let mut i: usize = 0;
        while i < array.len()
            invariant
                0 <= i <= array@.len(),
                node matches Value::Array(items) && items == array,
                self.well_formed(),
                forall|j: int|
                    0 <= j < i ==> self.element_type.matches_type(&#[trigger] array@[j])
                        && self.element_type.matches_meta(&array@[j]),
            decreases array@.len() - i,
        {
            if !self.element_type.validate(&array[i]) {
                return false;
            }
            i += 1;
        }
        true
    }

    fn report_at(&self, node: &Value, at: &Vec<Segment>) -> (found: Vec<Violation>)
        decreases self, 2nat, 0nat,
    {
        let mut found: Vec<Violation> = Vec::new();
        if !self.validate_type(node) {
            note(&mut found, at, Reason::WrongType);
            return found;
        }
        let array = match node {
            Value::Array(inner) => inner,
            _ => {
                return found;
            },
        };
        if let Some(limit) = self.limit {
            if array.len() as u64 > limit {
                note(&mut found, at, Reason::TooManyItems);
            }
        }
        let ghost over = fault_if(
            self.limit matches Some(limit) && array@.len() > limit,
            Reason::TooManyItems,
        );
        let mut i: usize = 0;
        while i < array.len()
            invariant
                0 <= i <= array@.len(),
                self.well_formed(),
                faults_view(found@) + rebase(items_faults(self, array@, i as int), path_view(at@))
                    == rebase(over + items_faults(self, array@, 0), path_view(at@)),
            decreases array@.len() - i,
        {
            let under = extend(at, Segment::Index(i));
            let more = self.element_type.report_at(&array[i], &under);
            proof {
                let part = self.element_type.faults(&array@[i as int]);
                lemma_rebase_nest(part, SegmentView::Index(i as int), path_view(at@));
            }
            absorb(&mut found, more);
            i += 1;
        }
        found
    }
}

} // verus!
