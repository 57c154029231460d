//! The schema model: a closed set of node types, each with its constraints.
use vstd::prelude::*;
use crate::document::Kind;
use crate::document::Value;
use crate::error::Defect;
use crate::error::DefectKind;
use crate::error::SchemaError;
use crate::report::faults_view;
use crate::report::Verdict;
use crate::validator::conforms;
use crate::validator::Validator;

verus! {

/// How deep the nodes of a schema may be nested.  Validation descends one
/// level of the schema at a time, whatever the document holds, so this also
/// bounds how deep validation goes.
pub const MAX_DEPTH: usize = 128;

/// A schema: the node that the whole document must satisfy, and the names
/// of the validators registered for the whole document.
#[derive(Debug)]
pub struct Schema {
    root: DataType,
    validators: Vec<String>,
}

/// A schema node.
#[derive(Debug)]
pub enum DataType {
    Dict(Box<DictType>),
    List(Box<ListType>),
    String(Box<StringType>),
    Literal(Box<LiteralType>),
    Boolean(Box<BooleanType>),
    Number(Box<NumberType>),
}

/// An object.  `fields` declares the members by name; a member that `fields`
/// does not name is governed by the entry of `any_fields` with its name, or
/// else by `others`.
#[derive(Debug)]
pub struct DictType {
    pub optional: bool,
    pub nullable: bool,
    pub fields: Vec<(String, DataType)>,
    pub any_fields: Option<Vec<(String, DataType)>>,
    pub others: Option<DataType>,
}

/// An array whose elements all satisfy `element_type`, at most `limit` of
/// them.
#[derive(Debug)]
pub struct ListType {
    pub optional: bool,
    pub nullable: bool,
    pub element_type: DataType,
    pub limit: Option<u64>,
}

/// A string that is one of the candidates.
#[derive(Debug)]
pub struct LiteralType {
    pub optional: bool,
    pub nullable: bool,
    pub candidate: Vec<String>,
}

/// A string of at most `length` characters, the whole of which matches
/// `regex`.
#[derive(Debug)]
pub struct StringType {
    pub optional: bool,
    pub nullable: bool,
    pub length: Option<u64>,
    pub regex: Option<String>,
}

/// A boolean.
#[derive(Debug)]
pub struct BooleanType {
    pub optional: bool,
    pub nullable: bool,
}

/// A number from `min` to `max`, both inclusive.
#[derive(Debug)]
pub struct NumberType {
    pub optional: bool,
    pub nullable: bool,
    pub max: Option<i64>,
    pub min: Option<i64>,
}

impl Schema {
    #[verifier::type_invariant]
    spec fn sound(&self) -> bool {
        self.root.well_formed() && self.root.fits(MAX_DEPTH as nat)
    }

    /// The root node.
    pub closed spec fn spec_root(&self) -> &DataType {
        &self.root
    }

    /// The names of the validators registered for the whole document.
    pub closed spec fn spec_validators(&self) -> &Vec<String> {
        &self.validators
    }

    /// The error for which `new` refuses a root node: that it is nested too
    /// deep, or else its first defect.
    pub open spec fn refusal(root: &DataType) -> Option<Defect> {
        if !root.fits(MAX_DEPTH as nat) {
            Some(Defect::here(DefectKind::TooDeep))
        } else {
            root.defect()
        }
    }

    /// Makes a schema of a root node that is nested no deeper than
    /// [`MAX_DEPTH`] and whose definition is sound, and reports the error of
    /// one that is not.
    pub fn new(root: DataType, validators: Vec<String>) -> (r: Result<Schema, SchemaError>)
        ensures
            r is Ok <==> root.fits(MAX_DEPTH as nat) && root.well_formed(),
            r is Ok <==> Self::refusal(&root) is None,
            r matches Ok(schema) ==> *schema.root() == root && *schema.validators() == validators,
            r matches Err(e) ==> Self::refusal(&root) == Some(e@),
    {
        if !root.within_depth(MAX_DEPTH) {
            return Err(SchemaError::here(DefectKind::TooDeep));
        }
        match root.check() {
            Ok(()) => Ok(Schema { root, validators }),
            Err(e) => Err(e),
        }
    }

    /// The root node, which is well formed and nested no deeper than
    /// [`MAX_DEPTH`].
    #[verifier::when_used_as_spec(spec_root)]
    pub fn root(&self) -> (node: &DataType)
        ensures
            node == self.root(),
            node.well_formed(),
            node.fits(MAX_DEPTH as nat),
    {
        proof {
            use_type_invariant(self);
        }
        &self.root
    }

    /// The names of the validators registered for the whole document.
    #[verifier::when_used_as_spec(spec_validators)]
    pub fn validators(&self) -> (names: &Vec<String>)
        ensures
            names == self.validators(),
    {
        &self.validators
    }

    /// Takes the schema apart into its root node and the names of its
    /// validators.
    pub fn into_parts(self) -> (parts: (DataType, Vec<String>))
        ensures
            parts.0 == *self.root(),
            parts.1 == *self.validators(),
            parts.0.well_formed(),
            parts.0.fits(MAX_DEPTH as nat),
    {
        proof {
            use_type_invariant(&self);
        }
        (self.root, self.validators)
    }

    /// Validates the document `node` against the root node: a pass where it
    /// conforms, and else every failure to, in the order of the document.
    pub fn validate(&self, node: &Value) -> (verdict: Verdict)
        ensures
            verdict is Pass <==> conforms(self.root(), node),
            verdict matches Verdict::Fail(found) ==> found@.len() > 0 && faults_view(found@)
                == self.root().faults(node),
    {
        proof {
            use_type_invariant(self);
        }
        let found = self.root.report(node);
        if found.len() == 0 {
            Verdict::Pass
        } else {
            Verdict::Fail(found)
        }
    }
}

impl DataType {
    /// Whether a dict may leave out a field that this node describes.
    pub open spec fn is_optional(&self) -> bool {
        match self {
            DataType::Dict(inner) => inner.optional,
            DataType::List(inner) => inner.optional,
            DataType::String(inner) => inner.optional,
            DataType::Literal(inner) => inner.optional,
            DataType::Boolean(inner) => inner.optional,
            DataType::Number(inner) => inner.optional,
        }
    }

    /// Whether `null` satisfies this node.
    pub open spec fn is_nullable(&self) -> bool {
        match self {
            DataType::Dict(inner) => inner.nullable,
            DataType::List(inner) => inner.nullable,
            DataType::String(inner) => inner.nullable,
            DataType::Literal(inner) => inner.nullable,
            DataType::Boolean(inner) => inner.nullable,
            DataType::Number(inner) => inner.nullable,
        }
    }

    /// The kind of value that the node describes.
    pub open spec fn expected_kind(&self) -> Kind {
        match self {
            DataType::Dict(_) => Kind::Object,
            DataType::List(_) => Kind::Array,
            DataType::String(_) => Kind::String,
            DataType::Literal(_) => Kind::String,
            DataType::Boolean(_) => Kind::Bool,
            DataType::Number(_) => Kind::Number,
        }
    }

    /// Whether the node and what it holds are nested no deeper than `budget`
    /// levels, the node itself being one.
    pub open spec fn fits(&self, budget: nat) -> bool
        decreases self,
    {
        budget >= 1 && match self {
            DataType::Dict(inner) => {
                &&& forall|i: int|
                    0 <= i < inner.fields@.len() ==> (#[trigger] inner.fields@[i]).1.fits(
                        (budget - 1) as nat,
                    )
                &&& inner.any_fields matches Some(extra) ==> forall|i: int|
                    0 <= i < extra@.len() ==> (#[trigger] extra@[i]).1.fits((budget - 1) as nat)
                &&& inner.others matches Some(other) ==> other.fits((budget - 1) as nat)
            },
            DataType::List(inner) => inner.element_type.fits((budget - 1) as nat),
            _ => true,
        }
    }

    /// Decides [`DataType::fits`], descending no deeper than `budget` levels.
    pub fn within_depth(&self, budget: usize) -> (ok: bool)
        ensures
            ok == self.fits(budget as nat),
        decreases self,
    {
        if budget == 0 {
            return false;
        }
        match self {
            DataType::Dict(inner) => {
                if !entries_within_depth(&inner.fields, budget - 1) {
                    return false;
                }
                if let Some(extra) = &inner.any_fields {
                    if !entries_within_depth(extra, budget - 1) {
                        return false;
                    }
                }
                match &inner.others {
                    Some(other) => other.within_depth(budget - 1),
                    None => true,
                }
            },
            DataType::List(inner) => inner.element_type.within_depth(budget - 1),
            _ => true,
        }
    }

    /// The `optional` flag of the node, whatever its type.
    pub fn optional(&self) -> (flag: bool)
        ensures
            flag == self.is_optional(),
    {
        match self {
            DataType::Dict(inner) => inner.optional,
            DataType::List(inner) => inner.optional,
            DataType::String(inner) => inner.optional,
            DataType::Literal(inner) => inner.optional,
            DataType::Boolean(inner) => inner.optional,
            DataType::Number(inner) => inner.optional,
        }
    }

    /// The `nullable` flag of the node, whatever its type.
    pub fn nullable(&self) -> (flag: bool)
        ensures
            flag == self.is_nullable(),
    {
        match self {
            DataType::Dict(inner) => inner.nullable,
            DataType::List(inner) => inner.nullable,
            DataType::String(inner) => inner.nullable,
            DataType::Literal(inner) => inner.nullable,
            DataType::Boolean(inner) => inner.nullable,
            DataType::Number(inner) => inner.nullable,
        }
    }
}

/// Decides whether every node of `entries` is nested no deeper than `budget`
/// levels.
pub fn entries_within_depth(entries: &Vec<(String, DataType)>, budget: usize) -> (ok: bool)
    ensures
        ok == forall|i: int|
            0 <= i < entries@.len() ==> (#[trigger] entries@[i]).1.fits(budget as nat),
    decreases entries,
{
    let mut i: usize = 0;
    while i < entries.len()
        invariant
            0 <= i <= entries@.len(),
            forall|k: int| 0 <= k < i ==> (#[trigger] entries@[k]).1.fits(budget as nat),
        decreases entries@.len() - i,
    {
        if !entries[i].1.within_depth(budget) {
            return false;
        }
        i += 1;
    }
    true
}

/// Whether some entry of `entries` has the name `name`.
pub open spec fn declares(entries: Seq<(String, DataType)>, name: Seq<char>) -> bool {
    exists|i: int| 0 <= i < entries.len() && (#[trigger] entries[i]).0@ == name
}

/// Whether no two entries of `entries` share a name.
pub open spec fn names_distinct(entries: Seq<(String, DataType)>) -> bool {
    forall|i: int, j: int|
        0 <= i < j < entries.len() ==> (#[trigger] entries[i]).0@ != (#[trigger] entries[j]).0@
}

/// The position of the entry named `name`, if there is one: the first, where
/// several share the name.
pub fn position(entries: &Vec<(String, DataType)>, name: &String) -> (found: Option<usize>)
    ensures
        found is Some <==> declares(entries@, name@),
        found matches Some(i) ==> i < entries@.len() && entries@[i as int].0@ == name@ && forall|
            j: int,
        | 0 <= j < i ==> (#[trigger] entries@[j]).0@ != name@,
{
    let mut i: usize = 0;
    while i < entries.len()
        invariant
            0 <= i <= entries@.len(),
            forall|j: int| 0 <= j < i ==> (#[trigger] entries@[j]).0@ != name@,
        decreases entries@.len() - i,
    {
        if entries[i].0 == *name {
            return Some(i);
        }
        i += 1;
    }
    None
}

/// Decides whether no two entries share a name.
pub fn distinct(entries: &Vec<(String, DataType)>) -> (ok: bool)
    ensures
        ok == names_distinct(entries@),
{
    let mut j: usize = 0;
    while j < entries.len()
        invariant
            0 <= j <= entries@.len(),
            forall|a: int, b: int|
                0 <= a < b < j ==> (#[trigger] entries@[a]).0@ != (#[trigger] entries@[b]).0@,
        decreases entries@.len() - j,
    {
        let mut i: usize = 0;
        while i < j
            invariant
                0 <= i <= j < entries@.len(),
                forall|a: int| 0 <= a < i ==> (#[trigger] entries@[a]).0@ != entries@[j as int].0@,
            decreases j - i,
        {
            if entries[i].0 == entries[j].0 {
                return false;
            }
            i += 1;
        }
        j += 1;
    }
    true
}

} // verus!
