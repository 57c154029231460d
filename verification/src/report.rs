//! Where and why a document fails to conform.
use vstd::prelude::*;

verus! {

/// One step from a document value to one of its parts.
#[derive(Debug, PartialEq, Eq)]
pub enum Segment {
    /// To the member of an object with this name.
    Field(String),
    /// To the element of an array at this position.
    Index(usize),
}

/// A segment, with the name it carries as a sequence of characters.
pub enum SegmentView {
    Field(Seq<char>),
    Index(int),
}

impl View for Segment {
    type V = SegmentView;

    open spec fn view(&self) -> SegmentView {
        match self {
            Segment::Field(name) => SegmentView::Field(name@),
            Segment::Index(i) => SegmentView::Index(*i as int),
        }
    }
}

impl Segment {
    /// A copy of the segment.
    pub fn duplicate(&self) -> (copy: Segment)
        ensures
            copy@ == self@,
    {
        match self {
            Segment::Field(name) => Segment::Field(name.clone()),
            Segment::Index(i) => Segment::Index(*i),
        }
    }
}

/// Why a value fails to conform.
#[derive(Clone, Copy, Debug, PartialEq, Eq, Structural)]
pub enum Reason {
    /// The value has not the kind that the node describes.
    WrongType,
    /// A string has more characters than `length` allows.
    TooLong,
    /// A string does not match `regex` from its first character to its last.
    PatternMismatch,
    /// A string is none of the candidates.
    NotACandidate,
    /// An array has more elements than `limit` allows.
    TooManyItems,
    /// A number is below `min` or above `max`.
    OutOfBounds,
    /// An object has a member that nothing in the dict governs.
    UnexpectedField,
    /// An object has no member for a field that is not optional.
    MissingField,
}

impl Reason {
    /// The reason in words.
    pub open spec fn text(self) -> Seq<char> {
        match self {
            Reason::WrongType => "wrong type"@,
            Reason::TooLong => "string too long"@,
            Reason::PatternMismatch => "string does not match the pattern"@,
            Reason::NotACandidate => "string is not a candidate"@,
            Reason::TooManyItems => "too many items"@,
            Reason::OutOfBounds => "number out of bounds"@,
            Reason::UnexpectedField => "unexpected field"@,
            Reason::MissingField => "missing field"@,
        }
    }

    /// The reason in words.
    pub fn describe(&self) -> (words: &'static str)
        ensures
            words@ == self.text(),
    {
        match self {
            Reason::WrongType => "wrong type",
            Reason::TooLong => "string too long",
            Reason::PatternMismatch => "string does not match the pattern",
            Reason::NotACandidate => "string is not a candidate",
            Reason::TooManyItems => "too many items",
            Reason::OutOfBounds => "number out of bounds",
            Reason::UnexpectedField => "unexpected field",
            Reason::MissingField => "missing field",
        }
    }
}

/// A failure to conform: the segments from the value that was validated down
/// to the part at fault, and what is wrong there.
pub struct Fault {
    pub path: Seq<SegmentView>,
    pub reason: Reason,
}

impl Fault {
    /// A fault of the value itself.
    pub open spec fn here(reason: Reason) -> Fault {
        Fault { path: Seq::empty(), reason }
    }

    /// The same fault, seen from the value whose part the faulty value is.
    pub open spec fn under(self, segment: SegmentView) -> Fault {
        Fault { path: seq![segment] + self.path, reason: self.reason }
    }

    /// The same fault, seen from a value that reaches the faulty value's root
    /// by `prefix`.
    pub open spec fn below(self, prefix: Seq<SegmentView>) -> Fault {
        Fault { path: prefix + self.path, reason: self.reason }
    }
}

/// The faults of a part, seen from the whole that reaches the part by
/// `segment`.
pub open spec fn nest(faults: Seq<Fault>, segment: SegmentView) -> Seq<Fault> {
    faults.map_values(|fault: Fault| fault.under(segment))
}

/// The faults of a value, seen from a value that reaches it by `prefix`.
pub open spec fn rebase(faults: Seq<Fault>, prefix: Seq<SegmentView>) -> Seq<Fault> {
    faults.map_values(|fault: Fault| fault.below(prefix))
}

/// A failure to conform, as `report` gives it.
#[derive(Debug, PartialEq, Eq)]
pub struct Violation {
    /// The segments from the document down to the part at fault.
    pub path: Vec<Segment>,
    /// What is wrong there.
    pub reason: Reason,
}

/// The outcome of validating a document: it conforms, or it fails to for the
/// violations listed, of which there is at least one.
#[derive(Debug, PartialEq, Eq)]
pub enum Verdict {
    Pass,
    Fail(Vec<Violation>),
}

impl Verdict {
    /// Whether the verdict is a pass.
    pub fn is_pass(&self) -> (pass: bool)
        ensures
            pass == (self is Pass),
    {
        match self {
            Verdict::Pass => true,
            Verdict::Fail(_) => false,
        }
    }
}

/// A path, each segment by its view.
pub open spec fn path_view(path: Seq<Segment>) -> Seq<SegmentView> {
    path.map_values(|segment: Segment| segment@)
}

impl View for Violation {
    type V = Fault;

    open spec fn view(&self) -> Fault {
        Fault { path: path_view(self.path@), reason: self.reason }
    }
}

/// Violations, each by its view.
pub open spec fn faults_view(found: Seq<Violation>) -> Seq<Fault> {
    found.map_values(|violation: Violation| violation@)
}

/// Seen from further up, faults nested by a segment are the faults rebased
/// on the longer prefix.
pub proof fn lemma_rebase_nest(faults: Seq<Fault>, segment: SegmentView, prefix: Seq<SegmentView>)
    ensures
        rebase(nest(faults, segment), prefix) == rebase(faults, prefix.push(segment)),
{
    assert forall|i: int| 0 <= i < faults.len() implies rebase(nest(faults, segment), prefix)[i]
        == rebase(faults, prefix.push(segment))[i] by {
        assert(prefix + (seq![segment] + faults[i].path) =~= prefix.push(segment) + faults[i].path);
    }
}

/// A copy of the path `at`.
pub fn copy_path(at: &Vec<Segment>) -> (path: Vec<Segment>)
    ensures
        path_view(path@) == path_view(at@),
{
    let mut path: Vec<Segment> = Vec::new();
    let mut i: usize = 0;
    while i < at.len()
        invariant
            0 <= i <= at@.len(),
            path@.len() == i,
            forall|j: int| 0 <= j < i ==> (#[trigger] path@[j])@ == at@[j]@,
        decreases at@.len() - i,
    {
        path.push(at[i].duplicate());
        i += 1;
    }
    path
}

/// A copy of the path `at`, one segment longer.
pub fn extend(at: &Vec<Segment>, segment: Segment) -> (path: Vec<Segment>)
    ensures
        path_view(path@) == path_view(at@).push(segment@),
{
    let mut path = copy_path(at);
    path.push(segment);
    path
}

impl Violation {
    /// The violation of the value that is reached by `at`, for `reason`.
    pub fn at(at: &Vec<Segment>, reason: Reason) -> (violation: Violation)
        ensures
            violation@ == Fault::here(reason).below(path_view(at@)),
    {
        let path = copy_path(at);
        Violation { path, reason }
    }
}

/// Adds to `found` the violation of the value that is reached by `at`, for
/// `reason`.
pub fn note(found: &mut Vec<Violation>, at: &Vec<Segment>, reason: Reason)
    ensures
        faults_view(final(found)@) == faults_view(old(found)@) + rebase(
            seq![Fault::here(reason)],
            path_view(at@),
        ),
{
    found.push(Violation::at(at, reason));
}

/// Adds to `found` the violations of `more`, in their order.
pub fn absorb(found: &mut Vec<Violation>, more: Vec<Violation>)
    ensures
        faults_view(final(found)@) == faults_view(old(found)@) + faults_view(more@),
{
    let mut more = more;
    found.append(&mut more);
}

} // verus!
