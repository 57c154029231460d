//! Errors in the definition of a schema.
use vstd::prelude::*;

verus! {

/// What is wrong with a schema node.
#[derive(Clone, Copy, Debug, PartialEq, Eq, Structural)]
pub enum DefectKind {
    /// `regex` of a string node does not compile.
    InvalidRegex,
    /// `min` of a number node is above its `max`.
    MinAboveMax,
    /// Two entries of `fields` of a dict node share a name.
    DuplicateField,
    /// Two entries of `any_fields` of a dict node share a name.
    DuplicateAnyField,
    /// The nodes of a schema are nested deeper than a schema may be.
    TooDeep,
}

impl DefectKind {
    /// The defect in words.
    pub open spec fn text(self) -> Seq<char> {
        match self {
            DefectKind::InvalidRegex => "`regex` does not compile"@,
            DefectKind::MinAboveMax => "`min` is above `max`"@,
            DefectKind::DuplicateField => "a name occurs twice in `fields`"@,
            DefectKind::DuplicateAnyField => "a name occurs twice in `any_fields`"@,
            DefectKind::TooDeep => "the schema is nested too deep"@,
        }
    }

    /// The defect in words.
    pub fn describe(&self) -> (words: &'static str)
        ensures
            words@ == self.text(),
    {
        match self {
            DefectKind::InvalidRegex => "`regex` does not compile",
            DefectKind::MinAboveMax => "`min` is above `max`",
            DefectKind::DuplicateField => "a name occurs twice in `fields`",
            DefectKind::DuplicateAnyField => "a name occurs twice in `any_fields`",
            DefectKind::TooDeep => "the schema is nested too deep",
        }
    }
}

/// One step from a schema node to one of its children.
#[derive(Debug, PartialEq, Eq)]
pub enum Step {
    /// To the entry of `fields` with this name.
    Field(String),
    /// To the entry of `any_fields` with this name.
    AnyField(String),
    /// To `others`.
    Others,
    /// To `element_type`.
    Element,
}

/// A step, with the name it carries as a sequence of characters.
pub enum StepView {
    Field(Seq<char>),
    AnyField(Seq<char>),
    Others,
    Element,
}

impl View for Step {
    type V = StepView;

    open spec fn view(&self) -> StepView {
        match self {
            Step::Field(name) => StepView::Field(name@),
            Step::AnyField(name) => StepView::AnyField(name@),
            Step::Others => StepView::Others,
            Step::Element => StepView::Element,
        }
    }
}

/// A definition error: the steps from the node that was checked down to the
/// node at fault, and what is wrong there.
pub struct Defect {
    pub path: Seq<StepView>,
    pub kind: DefectKind,
}

impl Defect {
    /// A defect of the node itself.
    pub open spec fn here(kind: DefectKind) -> Defect {
        Defect { path: Seq::empty(), kind }
    }

    /// The same defect, seen from the parent that reaches the node by `step`.
    pub open spec fn under(self, step: StepView) -> Defect {
        Defect { path: seq![step] + self.path, kind: self.kind }
    }
}

/// A definition error, as `check` reports it.
#[derive(Debug, PartialEq, Eq)]
pub struct SchemaError {
    /// The steps from the node that was checked down to the node at fault.
    pub path: Vec<Step>,
    /// What is wrong there.
    pub kind: DefectKind,
}

impl View for SchemaError {
    type V = Defect;

    open spec fn view(&self) -> Defect {
        Defect { path: self.path@.map_values(|step: Step| step@), kind: self.kind }
    }
}

impl SchemaError {
    /// An error of the node itself.
    pub fn here(kind: DefectKind) -> (e: SchemaError)
        ensures
            e@ == Defect::here(kind),
    {
        let e = SchemaError { path: Vec::new(), kind };
        assert(e@.path =~= Seq::<StepView>::empty());
        e
    }

    /// The same error, seen from the parent that reaches the node by `step`.
    pub fn under(self, step: Step) -> (e: SchemaError)
        ensures
            e@ == self@.under(step@),
    {
        let mut path = self.path;
        path.insert(0, step);
        let e = SchemaError { path, kind: self.kind };
        assert(e@.path =~= self@.under(step@).path);
        e
    }
}

} // verus!
