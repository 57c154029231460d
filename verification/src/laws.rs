//! What holds of every schema and every document.
use vstd::prelude::*;
use crate::dict::has_member;
use crate::document::Kind;
use crate::document::Value;
use crate::error::Defect;
use crate::error::DefectKind;
use crate::pattern::pattern_accepts;
use crate::pattern::pattern_compiles;
use crate::schema::declares;
use crate::schema::DataType;
use crate::schema::DictType;
use crate::schema::ListType;
use crate::schema::LiteralType;
use crate::schema::StringType;
use crate::validator::conforms;
use crate::validator::is_candidate;
use crate::validator::Validator;

verus! {

/// The type check passes exactly when the value has the kind that the node
/// describes, or is `null` and the node is nullable.
pub proof fn lemma_type_check_by_kind(schema: DataType, node: Value)
    ensures
        schema.matches_type(&node) <==> (node.kind_of() == schema.expected_kind() || (
        schema.is_nullable() && node.kind_of() == Kind::Null)),
{
}

/// `null` conforms to the nullable nodes and to no other.
pub proof fn lemma_null_conforms_iff_nullable(schema: DataType)
    ensures
        conforms(&schema, &Value::Null) <==> schema.is_nullable(),
{
}

/// A string conforms to a literal node exactly when it is one of the
/// candidates; without candidates, no string conforms.
pub proof fn lemma_literal_membership(literal: LiteralType, text: String)
    ensures
        conforms(&literal, &Value::String(text)) <==> is_candidate(literal.candidate@, text@),
        literal.candidate@.len() == 0 ==> !conforms(&literal, &Value::String(text)),
{
}

/// A string with more characters than `length` allows does not conform to a
/// string node; where no `regex` is set, every string within `length` does.
/// Characters are counted, not bytes.
pub proof fn lemma_string_length(string: StringType, text: String, limit: u64)
    requires
        string.length == Some(limit),
    ensures
        text@.len() > limit ==> !conforms(&string, &Value::String(text)),
        string.regex is None ==> (conforms(&string, &Value::String(text)) <==> text@.len()
            <= limit),
{
}

/// A string conforms to a string node with a `regex` only if the whole of
/// the string matches it; where no `length` is set, that is all it takes.
pub proof fn lemma_string_regex(string: StringType, text: String, reg: String)
    requires
        string.regex == Some(reg),
    ensures
        !pattern_accepts(reg@, text@) ==> !conforms(&string, &Value::String(text)),
        string.length is None ==> (conforms(&string, &Value::String(text)) <==> pattern_accepts(
            reg@,
            text@,
        )),
{
}

/// An array with more elements than `limit` allows does not conform to a list
/// node; one within the limit conforms if each of its elements conforms to
/// `element_type`.
pub proof fn lemma_list_limit(list: ListType, items: Vec<Value>, limit: u64)
    requires
        list.limit == Some(limit),
    ensures
        items@.len() > limit ==> !conforms(&list, &Value::Array(items)),
        items@.len() <= limit && (forall|i: int|
            0 <= i < items@.len() ==> conforms(&list.element_type, &#[trigger] items@[i]))
            ==> conforms(&list, &Value::Array(items)),
{
}

/// An array does not conform to a list node if one of its elements, at
/// whatever position, does not conform to `element_type`.
pub proof fn lemma_list_element_fails(list: ListType, items: Vec<Value>, at: int)
    requires
        0 <= at < items@.len(),
        !conforms(&list.element_type, &items@[at]),
    ensures
        !conforms(&list, &Value::Array(items)),
{
    let node = Value::Array(items);
    assert(node matches Value::Array(inner) && inner@ == items@);
}

/// An object does not conform to a dict node if one of its members has a
/// name that neither `fields` nor `any_fields` declares, and there is no
/// `others` to fall back on.
pub proof fn lemma_dict_unexpected_member(dict: DictType, members: Vec<(String, Value)>, at: int)
    requires
        0 <= at < members@.len(),
        !declares(dict.fields@, members@[at].0@),
        dict.any_fields matches Some(extra) ==> !declares(extra@, members@[at].0@),
        dict.others is None,
    ensures
        !conforms(&dict, &Value::Object(members)),
{
}

/// An object does not conform to a dict node if it has no member for a field
/// that is not optional.
pub proof fn lemma_dict_required_field(dict: DictType, members: Vec<(String, Value)>, at: int)
    requires
        0 <= at < dict.fields@.len(),
        !dict.fields@[at].1.is_optional(),
        !has_member(members@, dict.fields@[at].0@),
    ensures
        !conforms(&dict, &Value::Object(members)),
{
}

/// An object whose members the dict node all admits conforms exactly when
/// every field without a member is optional.
pub proof fn lemma_dict_optional_field(dict: DictType, members: Vec<(String, Value)>)
    requires
        forall|j: int|
            0 <= j < members@.len() ==> dict.admits((#[trigger] members@[j]).0@, &members@[j].1),
    ensures
        conforms(&dict, &Value::Object(members)) <==> forall|i: int|
            0 <= i < dict.fields@.len() && !has_member(members@, (#[trigger] dict.fields@[i]).0@)
                ==> dict.fields@[i].1.is_optional(),
{
}

/// Two verdicts on the same node and the same value are the same verdict.
pub proof fn lemma_verdict_repeats<V: Validator>(schema: &V, node: &Value, first: bool, second: bool)
    requires
        first == conforms(schema, node),
        second == conforms(schema, node),
    ensures
        first == second,
{
}

/// A string node whose `regex` does not compile is not well formed, and its
/// defect is the regex.
pub proof fn lemma_invalid_regex_rejected(string: StringType)
    requires
        string.regex matches Some(reg) && !pattern_compiles(reg@),
    ensures
        !string.well_formed(),
        string.defect() == Some(Defect::here(DefectKind::InvalidRegex)),
        DataType::String(Box::new(string)).defect() == Some(Defect::here(DefectKind::InvalidRegex)),
{
}

/// A list node is not well formed, and has a defect, if its `element_type`
/// is not well formed.
pub proof fn lemma_list_inherits_defect(list: ListType)
    requires
        !list.element_type.well_formed(),
    ensures
        !list.well_formed(),
        list.defect() is Some,
{
    list.lemma_defect_free();
}

/// A dict node is not well formed, and has a defect, if the node of one of
/// its fields is not well formed.
pub proof fn lemma_dict_inherits_defect(dict: DictType, at: int)
    requires
        0 <= at < dict.fields@.len(),
        !dict.fields@[at].1.well_formed(),
    ensures
        !dict.well_formed(),
        dict.defect() is Some,
{
    dict.lemma_defect_free();
}

/// A value has no fault exactly when it conforms, whatever the node.
pub proof fn lemma_no_fault_iff_conforms(schema: DataType, node: Value)
    ensures
        schema.faults(&node).len() == 0 <==> conforms(&schema, &node),
{
    schema.lemma_faultless(&node);
}

} // verus!
