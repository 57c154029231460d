//! The validation engine: whether a document value conforms to a schema node,
//! and where it fails to.
//!
//! A node is matched in two phases.  The type check compares the kind of the
//! value with the kind that the node expects, `null` being accepted by every
//! nullable node; the check of the constraints then looks at what the value
//! holds.
use vstd::prelude::*;
use vstd::string::*;
use crate::document::Kind;
use crate::document::Value;
use crate::error::Defect;
use crate::error::DefectKind;
use crate::error::SchemaError;
use crate::pattern::compiles;
use crate::pattern::full_match;
use crate::pattern::pattern_accepts;
use crate::pattern::pattern_compiles;
use crate::report::faults_view;
use crate::report::note;
use crate::report::path_view;
use crate::report::rebase;
use crate::report::Fault;
use crate::report::Reason;
use crate::report::Segment;
use crate::report::SegmentView;
use crate::report::Violation;
use crate::schema::BooleanType;
use crate::schema::DataType;
use crate::schema::LiteralType;
use crate::schema::NumberType;
use crate::schema::StringType;

verus! {

/// Whether a value has the kind `expected`, or is `null` where `null` is
/// accepted.
pub open spec fn kind_matches(expected: Kind, nullable: bool, node: &Value) -> bool {
    node.kind_of() == expected || (nullable && node.kind_of() == Kind::Null)
}

/// Decides [`kind_matches`].
pub fn check_kind(expected: Kind, nullable: bool, node: &Value) -> (ok: bool)
    ensures
        ok == kind_matches(expected, nullable, node),
{
    let kind = node.kind();
    kind == expected || (nullable && kind == Kind::Null)
}

/// Whether `node` conforms to `schema`: it passes the type check and
/// satisfies the constraints.
pub open spec fn conforms<V: Validator + ?Sized>(schema: &V, node: &Value) -> bool {
    schema.matches_type(node) && schema.matches_meta(node)
}

/// The faults of a value of the wrong kind: that it is of the wrong kind.
pub open spec fn wrong_type() -> Seq<Fault> {
    seq![Fault::here(Reason::WrongType)]
}

/// The one fault for `reason` where `failed` holds, and none where it does
/// not.
pub open spec fn fault_if(failed: bool, reason: Reason) -> Seq<Fault> {
    if failed {
        seq![Fault::here(reason)]
    } else {
        Seq::empty()
    }
}

/// What every schema node can do.
pub trait Validator {
    /// Whether the node is a sound definition: every pattern compiles, no
    /// range is empty, no name is declared twice.
    spec fn well_formed(&self) -> bool;

    /// The first definition error that `check` meets, if there is any.
    spec fn defect(&self) -> Option<Defect>;

    /// Whether the kind of `node` is the one that the schema node expects.
    spec fn matches_type(&self, node: &Value) -> bool;

    /// Whether what `node` holds satisfies the constraints of the schema
    /// node.  It says nothing of a value of another kind.
    spec fn matches_meta(&self, node: &Value) -> bool;

    /// Every failure of `node` to conform, in the order of the document.  A
    /// value of the wrong kind has that one fault; its constraints are not
    /// looked at.
    spec fn faults(&self, node: &Value) -> Seq<Fault>;

    /// A node is well formed exactly when it has no defect.
    proof fn lemma_defect_free(&self)
        ensures
            self.defect() is None <==> self.well_formed(),
    ;

    /// A value conforms exactly when it has no fault.
    proof fn lemma_faultless(&self, node: &Value)
        ensures
            self.faults(node).len() == 0 <==> (self.matches_type(node) && self.matches_meta(node)),
    ;

    /// Checks the definition of the node, and reports the first error.
    fn check(&self) -> (r: Result<(), SchemaError>)
        ensures
            r is Ok <==> self.well_formed(),
            r is Ok <==> self.defect() is None,
            r matches Err(e) ==> self.defect() == Some(e@),
    ;

    /// The type check.
    fn validate_type(&self, node: &Value) -> (ok: bool)
        ensures
            ok == self.matches_type(node),
    ;

    /// The check of the constraints, for a value that passed the type check.
    fn validate_meta(&self, node: &Value) -> (ok: bool)
        requires
            self.well_formed(),
            self.matches_type(node),
        ensures
            ok == self.matches_meta(node),
    ;

    /// Decides whether `node` conforms to the schema node.
    fn validate(&self, node: &Value) -> (ok: bool)
        requires
            self.well_formed(),
        ensures
            ok == (self.matches_type(node) && self.matches_meta(node)),
    {
        self.validate_type(node) && self.validate_meta(node)
    }

    /// Checks the definition first, and validates `node` only against a sound
    /// one.
    fn try_validate(&self, node: &Value) -> (r: Result<bool, SchemaError>)
        ensures
            r is Ok <==> self.well_formed(),
            r matches Ok(ok) ==> ok == (self.matches_type(node) && self.matches_meta(node)),
            r matches Err(e) ==> self.defect() == Some(e@),
    {
        match self.check() {
            Ok(()) => Ok(self.validate(node)),
            Err(e) => Err(e),
        }
    }

    /// Collects every failure of `node` to conform, `node` being the part of
    /// a document that is reached by `at`.
    fn report_at(&self, node: &Value, at: &Vec<Segment>) -> (found: Vec<Violation>)
        requires
            self.well_formed(),
        ensures
            faults_view(found@) == rebase(self.faults(node), path_view(at@)),
    ;

    /// Collects every failure of the document `node` to conform.
    fn report(&self, node: &Value) -> (found: Vec<Violation>)
        requires
            self.well_formed(),
        ensures
            faults_view(found@) == self.faults(node),
            found@.len() == 0 <==> (self.matches_type(node) && self.matches_meta(node)),
    {
        let at: Vec<Segment> = Vec::new();
        let found = self.report_at(node, &at);
        proof {
            assert(path_view(at@) =~= Seq::<SegmentView>::empty());
            self.lemma_faultless(node);
        }
        found
    }

    /// Checks the definition first, and collects the failures of `node` only
    /// against a sound one.
    fn try_report(&self, node: &Value) -> (r: Result<Vec<Violation>, SchemaError>)
        ensures
            r is Ok <==> self.well_formed(),
            r matches Ok(found) ==> faults_view(found@) == self.faults(node),
            r matches Err(e) ==> self.defect() == Some(e@),
    {
        match self.check() {
            Ok(()) => Ok(self.report(node)),
            Err(e) => Err(e),
        }
    }
}

impl Validator for BooleanType {
    open spec fn well_formed(&self) -> bool {
        true
    }

    open spec fn defect(&self) -> Option<Defect> {
        None
    }

    open spec fn matches_type(&self, node: &Value) -> bool {
        kind_matches(Kind::Bool, self.nullable, node)
    }

    open spec fn matches_meta(&self, node: &Value) -> bool {
        true
    }

    open spec fn faults(&self, node: &Value) -> Seq<Fault> {
        fault_if(!self.matches_type(node), Reason::WrongType)
    }

    proof fn lemma_defect_free(&self) {
    }

    proof fn lemma_faultless(&self, node: &Value) {
    }

    fn check(&self) -> (r: Result<(), SchemaError>) {
        Ok(())
    }

    fn validate_type(&self, node: &Value) -> (ok: bool) {
        check_kind(Kind::Bool, self.nullable, node)
    }

    fn validate_meta(&self, node: &Value) -> (ok: bool) {
        self.validate_type(node)
    }

    fn report_at(&self, node: &Value, at: &Vec<Segment>) -> (found: Vec<Violation>) {
        let mut found: Vec<Violation> = Vec::new();
        if !self.validate_type(node) {
            note(&mut found, at, Reason::WrongType);
        }
        found
    }
}

impl Validator for NumberType {
    open spec fn well_formed(&self) -> bool {
        self.min matches Some(lo) ==> self.max matches Some(hi) ==> lo <= hi
    }

    open spec fn defect(&self) -> Option<Defect> {
        if self.well_formed() {
            None
        } else {
            Some(Defect::here(DefectKind::MinAboveMax))
        }
    }

    open spec fn matches_type(&self, node: &Value) -> bool {
        kind_matches(Kind::Number, self.nullable, node)
    }

    open spec fn matches_meta(&self, node: &Value) -> bool {
        node matches Value::Number(n) ==> n.is_within(self.min, self.max)
    }

    open spec fn faults(&self, node: &Value) -> Seq<Fault> {
        if !self.matches_type(node) {
            wrong_type()
        } else {
            fault_if(!self.matches_meta(node), Reason::OutOfBounds)
        }
    }

    proof fn lemma_defect_free(&self) {
    }

    proof fn lemma_faultless(&self, node: &Value) {
    }

    fn check(&self) -> (r: Result<(), SchemaError>) {
        match (self.min, self.max) {
            (Some(lo), Some(hi)) => {
                if lo > hi {
                    return Err(SchemaError::here(DefectKind::MinAboveMax));
                }
                Ok(())
            },
            _ => Ok(()),
        }
    }

    fn validate_type(&self, node: &Value) -> (ok: bool) {
        check_kind(Kind::Number, self.nullable, node)
    }

    fn validate_meta(&self, node: &Value) -> (ok: bool) {
        match node {
            Value::Number(n) => n.within(self.min, self.max),
            _ => true,
        }
    }

    fn report_at(&self, node: &Value, at: &Vec<Segment>) -> (found: Vec<Violation>) {
        let mut found: Vec<Violation> = Vec::new();
        if !self.validate_type(node) {
            note(&mut found, at, Reason::WrongType);
        } else if !self.validate_meta(node) {
            note(&mut found, at, Reason::OutOfBounds);
        }
        found
    }
}

/// Whether `text` is one of the candidates.
pub open spec fn is_candidate(candidate: Seq<String>, text: Seq<char>) -> bool {
    exists|i: int| 0 <= i < candidate.len() && (#[trigger] candidate[i])@ == text
}

impl Validator for LiteralType {
    open spec fn well_formed(&self) -> bool {
        true
    }

    open spec fn defect(&self) -> Option<Defect> {
        None
    }

    open spec fn matches_type(&self, node: &Value) -> bool {
        kind_matches(Kind::String, self.nullable, node)
    }

    open spec fn matches_meta(&self, node: &Value) -> bool {
        node matches Value::String(text) ==> is_candidate(self.candidate@, text@)
    }

    open spec fn faults(&self, node: &Value) -> Seq<Fault> {
        if !self.matches_type(node) {
            wrong_type()
        } else {
            fault_if(!self.matches_meta(node), Reason::NotACandidate)
        }
    }

    proof fn lemma_defect_free(&self) {
    }

    proof fn lemma_faultless(&self, node: &Value) {
    }

    fn check(&self) -> (r: Result<(), SchemaError>) {
        Ok(())
    }

    fn validate_type(&self, node: &Value) -> (ok: bool) {
        check_kind(Kind::String, self.nullable, node)
    }

    fn validate_meta(&self, node: &Value) -> (ok: bool) {
        let inner = match node {
            Value::String(inner) => inner,
            _ => {
                return true;
            },
        };
        let mut i: usize = 0;
        while i < self.candidate.len()
            invariant
                0 <= i <= self.candidate@.len(),
                node matches Value::String(text) && text == inner,
                forall|j: int| 0 <= j < i ==> (#[trigger] self.candidate@[j])@ != inner@,
            decreases self.candidate@.len() - i,
        {
            if self.candidate[i] == *inner {
                return true;
            }
            i += 1;
        }
        false
    }

    fn report_at(&self, node: &Value, at: &Vec<Segment>) -> (found: Vec<Violation>) {
        let mut found: Vec<Violation> = Vec::new();
        if !self.validate_type(node) {
            note(&mut found, at, Reason::WrongType);
        } else if !self.validate_meta(node) {
            note(&mut found, at, Reason::NotACandidate);
        }
        found
    }
}

impl Validator for StringType {
    open spec fn well_formed(&self) -> bool {
        self.regex matches Some(reg) ==> pattern_compiles(reg@)
    }

    open spec fn defect(&self) -> Option<Defect> {
        if self.well_formed() {
            None
        } else {
            Some(Defect::here(DefectKind::InvalidRegex))
        }
    }

    open spec fn matches_type(&self, node: &Value) -> bool {
        kind_matches(Kind::String, self.nullable, node)
    }

    open spec fn matches_meta(&self, node: &Value) -> bool {
        node matches Value::String(text) ==> {
            &&& self.length matches Some(limit) ==> text@.len() <= limit
            &&& self.regex matches Some(reg) ==> pattern_accepts(reg@, text@)
        }
    }

    open spec fn faults(&self, node: &Value) -> Seq<Fault> {
        if !self.matches_type(node) {
            wrong_type()
        } else {
            match node {
                Value::String(text) => fault_if(
                    self.length matches Some(limit) && text@.len() > limit,
                    Reason::TooLong,
                ) + fault_if(
                    self.regex matches Some(reg) && !pattern_accepts(reg@, text@),
                    Reason::PatternMismatch,
                ),
                _ => Seq::empty(),
            }
        }
    }

    proof fn lemma_defect_free(&self) {
    }

    proof fn lemma_faultless(&self, node: &Value) {
    }

    fn check(&self) -> (r: Result<(), SchemaError>) {
        if let Some(reg) = &self.regex {
            if !compiles(reg.as_str()) {
                return Err(SchemaError::here(DefectKind::InvalidRegex));
            }
        }
        Ok(())
    }

    fn validate_type(&self, node: &Value) -> (ok: bool) {
        check_kind(Kind::String, self.nullable, node)
    }

    fn validate_meta(&self, node: &Value) -> (ok: bool) {
        let inner = match node {
            Value::String(inner) => inner,
            _ => {
                return true;
            },
        };
        if let Some(limit) = &self.length {
            if inner.as_str().unicode_len() as u64 > *limit {
                return false;
            }
        }
        if let Some(reg) = &self.regex {
            if !full_match(reg.as_str(), inner.as_str()) {
                return false;
            }
        }
        true
    }

    fn report_at(&self, node: &Value, at: &Vec<Segment>) -> (found: Vec<Violation>) {
        let mut found: Vec<Violation> = Vec::new();
        if !self.validate_type(node) {
            note(&mut found, at, Reason::WrongType);
        } else if let Value::String(inner) = node {
            if let Some(limit) = &self.length {
                if inner.as_str().unicode_len() as u64 > *limit {
                    note(&mut found, at, Reason::TooLong);
                }
            }
            if let Some(reg) = &self.regex {
                if !full_match(reg.as_str(), inner.as_str()) {
                    note(&mut found, at, Reason::PatternMismatch);
                }
            }
        }
        found
    }
}

impl Validator for DataType {
    open spec fn well_formed(&self) -> bool
        decreases self,
    {
        match self {
            DataType::Dict(inner) => inner.well_formed(),
            DataType::List(inner) => inner.well_formed(),
            DataType::String(inner) => inner.well_formed(),
            DataType::Literal(inner) => inner.well_formed(),
            DataType::Boolean(inner) => inner.well_formed(),
            DataType::Number(inner) => inner.well_formed(),
        }
    }

    open spec fn defect(&self) -> Option<Defect>
        decreases self, 0nat,
    {
        match self {
            DataType::Dict(inner) => inner.defect(),
            DataType::List(inner) => inner.defect(),
            DataType::String(inner) => inner.defect(),
            DataType::Literal(inner) => inner.defect(),
            DataType::Boolean(inner) => inner.defect(),
            DataType::Number(inner) => inner.defect(),
        }
    }

    open spec fn matches_type(&self, node: &Value) -> bool {
        match self {
            DataType::Dict(inner) => inner.matches_type(node),
            DataType::List(inner) => inner.matches_type(node),
            DataType::String(inner) => inner.matches_type(node),
            DataType::Literal(inner) => inner.matches_type(node),
            DataType::Boolean(inner) => inner.matches_type(node),
            DataType::Number(inner) => inner.matches_type(node),
        }
    }

    open spec fn matches_meta(&self, node: &Value) -> bool
        decreases self, 1nat,
    {
        match self {
            DataType::Dict(inner) => inner.matches_meta(node),
            DataType::List(inner) => inner.matches_meta(node),
            DataType::String(inner) => inner.matches_meta(node),
            DataType::Literal(inner) => inner.matches_meta(node),
            DataType::Boolean(inner) => inner.matches_meta(node),
            DataType::Number(inner) => inner.matches_meta(node),
        }
    }

    open spec fn faults(&self, node: &Value) -> Seq<Fault>
        decreases self, 2nat, 0nat,
    {
        match self {
            DataType::Dict(inner) => inner.faults(node),
            DataType::List(inner) => inner.faults(node),
            DataType::String(inner) => inner.faults(node),
            DataType::Literal(inner) => inner.faults(node),
            DataType::Boolean(inner) => inner.faults(node),
            DataType::Number(inner) => inner.faults(node),
        }
    }

    proof fn lemma_defect_free(&self)
        decreases self, 0nat,
    {
        match self {
            DataType::Dict(inner) => inner.lemma_defect_free(),
            DataType::List(inner) => inner.lemma_defect_free(),
            DataType::String(inner) => inner.lemma_defect_free(),
            DataType::Literal(inner) => inner.lemma_defect_free(),
            DataType::Boolean(inner) => inner.lemma_defect_free(),
            DataType::Number(inner) => inner.lemma_defect_free(),
        }
    }

    proof fn lemma_faultless(&self, node: &Value)
        decreases self, 2nat, 0nat,
    {
        match self {
            DataType::Dict(inner) => inner.lemma_faultless(node),
            DataType::List(inner) => inner.lemma_faultless(node),
            DataType::String(inner) => inner.lemma_faultless(node),
            DataType::Literal(inner) => inner.lemma_faultless(node),
            DataType::Boolean(inner) => inner.lemma_faultless(node),
            DataType::Number(inner) => inner.lemma_faultless(node),
        }
    }

    fn check(&self) -> (r: Result<(), SchemaError>)
        decreases self, 0nat,
    {
        match self {
            DataType::Dict(inner) => inner.check(),
            DataType::List(inner) => inner.check(),
            DataType::String(inner) => inner.check(),
            DataType::Literal(inner) => inner.check(),
            DataType::Boolean(inner) => inner.check(),
            DataType::Number(inner) => inner.check(),
        }
    }

    fn validate_type(&self, node: &Value) -> (ok: bool) {
        match self {
            DataType::Dict(inner) => inner.validate_type(node),
            DataType::List(inner) => inner.validate_type(node),
            DataType::String(inner) => inner.validate_type(node),
            DataType::Literal(inner) => inner.validate_type(node),
            DataType::Boolean(inner) => inner.validate_type(node),
            DataType::Number(inner) => inner.validate_type(node),
        }
    }

    fn validate_meta(&self, node: &Value) -> (ok: bool)
        decreases self, 1nat,
    {
        match self {
            DataType::Dict(inner) => inner.validate_meta(node),
            DataType::List(inner) => inner.validate_meta(node),
            DataType::String(inner) => inner.validate_meta(node),
            DataType::Literal(inner) => inner.validate_meta(node),
            DataType::Boolean(inner) => inner.validate_meta(node),
            DataType::Number(inner) => inner.validate_meta(node),
        }
    }

    fn validate(&self, node: &Value) -> (ok: bool)
        decreases self, 2nat,
    {
        self.validate_type(node) && self.validate_meta(node)
    }

    fn report_at(&self, node: &Value, at: &Vec<Segment>) -> (found: Vec<Violation>)
        decreases self, 2nat, 0nat,
    {
        match self {
            DataType::Dict(inner) => inner.report_at(node, at),
            DataType::List(inner) => inner.report_at(node, at),
            DataType::String(inner) => inner.report_at(node, at),
            DataType::Literal(inner) => inner.report_at(node, at),
            DataType::Boolean(inner) => inner.report_at(node, at),
            DataType::Number(inner) => inner.report_at(node, at),
        }
    }
}

} // verus!
