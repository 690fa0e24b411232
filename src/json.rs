//! The top level of a JSON object, as the response decoder reads it.

use vstd::prelude::*;
use vstd::string::*;
use serde_json::Error as JsonError;

verus! {

/// `serde_json::Error`, carried through unread.
#[verifier::external_type_specification]
#[verifier::external_body]
pub struct ExJsonError(JsonError);

/// The value of one field of a JSON object. Only the kinds of values that the decoder tells
/// apart are kept: anything else (a negative or fractional number, an array, an object) is
/// `Other`.
#[derive(Debug, Clone, PartialEq, Eq)]
pub enum JsonField {
    /// `null`.
    Null,
    /// `true` or `false`.
    Bool(bool),
    /// A non-negative integer that fits in 64 bits.
    UInt(u64),
    /// A string.
    Str(String),
    /// Any other value.
    Other,
}

/// The mathematical value of a [`JsonField`].
pub enum JsonFieldView {
    Null,
    Bool(bool),
    UInt(u64),
    Str(Seq<char>),
    Other,
}

impl View for JsonField {
    type V = JsonFieldView;

    open spec fn view(&self) -> JsonFieldView {
        match self {
            JsonField::Null => JsonFieldView::Null,
            JsonField::Bool(b) => JsonFieldView::Bool(*b),
            JsonField::UInt(n) => JsonFieldView::UInt(*n),
            JsonField::Str(s) => JsonFieldView::Str(s@),
            JsonField::Other => JsonFieldView::Other,
        }
    }
}

/// The fields of an object, in order, each a key and a value.
pub type Fields = Vec<(String, JsonField)>;

/// The mathematical value of [`Fields`].
pub open spec fn fields_view(fields: Seq<(String, JsonField)>) -> Seq<(Seq<char>, JsonFieldView)> {
    fields.map_values(|f: (String, JsonField)| (f.0@, f.1@))
}

/// The fields of the JSON object that `bytes` hold, or `None` where they hold no JSON object.
pub uninterp spec fn json_object_of(bytes: Seq<u8>) -> Option<Seq<(Seq<char>, JsonFieldView)>>;

/// Relies on `serde_json::from_slice` into a `serde_json::Map`: it succeeds exactly when the
/// bytes hold a JSON object, whose fields are then read as [`JsonField`]s.
#[verifier::external_body]
pub(crate) fn parse_object(bytes: &[u8]) -> (r: Result<Fields, JsonError>)
    ensures
        r is Ok <==> json_object_of(bytes@) is Some,
        r matches Ok(fields) ==> fields_view(fields@) == json_object_of(bytes@)->0,
{
    serde_json::from_slice::<serde_json::Map<String, serde_json::Value>>(bytes).map(|m| m.into_iter().map(|(k, v)| (k, match v {
        serde_json::Value::Null => JsonField::Null,
        serde_json::Value::Bool(b) => JsonField::Bool(b),
        serde_json::Value::Number(n) => n.as_u64().map_or(JsonField::Other, JsonField::UInt),
        serde_json::Value::String(s) => JsonField::Str(s),
        _ => JsonField::Other,
    })).collect())
}

/// The value of the first field named `key`.
pub open spec fn lookup(fields: Seq<(Seq<char>, JsonFieldView)>, key: Seq<char>) -> Option<JsonFieldView>
    decreases fields.len(),
{
    if fields.len() == 0 {
        None
    } else if fields[0].0 == key {
        Some(fields[0].1)
    } else {
        lookup(fields.drop_first(), key)
    }
}

/// The value of the first field named `key`, if any.
pub fn get_field<'a>(fields: &'a Fields, key: &str) -> (r: Option<&'a JsonField>)
    ensures
        r is Some <==> lookup(fields_view(fields@), key@) is Some,
        r matches Some(v) ==> lookup(fields_view(fields@), key@) == Some(v@),
{
    let wanted = String::from_str(key);
    let ghost all = fields_view(fields@);
    let mut i: usize = 0;
    assert(all.subrange(0, all.len() as int) == all);
    while i < fields.len()
        invariant
            i <= fields@.len(),
            all == fields_view(fields@),
            wanted@ == key@,
            lookup(all, wanted@) == lookup(all.subrange(i as int, all.len() as int), wanted@),
        decreases fields@.len() - i,
    {
        let ghost rest = all.subrange(i as int, all.len() as int);
        assert(all.len() == fields@.len());
        assert(rest.len() > 0);
        assert(rest[0] == (fields@[i as int].0@, fields@[i as int].1@));
        if fields[i].0.eq(&wanted) {
            assert(lookup(rest, wanted@) == Some(rest[0].1));
            return Some(&fields[i].1);
        }
        assert(rest.drop_first() == all.subrange(i + 1, all.len() as int));
        i = i + 1;
    }
    None
}

/// Appending a field changes what is looked up only where nothing was found before.
pub proof fn lemma_lookup_push(
    fields: Seq<(Seq<char>, JsonFieldView)>,
    field: (Seq<char>, JsonFieldView),
    key: Seq<char>,
)
    ensures
        lookup(fields.push(field), key) == match lookup(fields, key) {
            Some(v) => Some(v),
            None => if field.0 == key {
                Some(field.1)
            } else {
                None
            },
        },
    decreases fields.len(),
{
    let longer = fields.push(field);
    if fields.len() > 0 {
        assert(longer[0] == fields[0]);
        assert(longer.drop_first() == fields.drop_first().push(field));
        lemma_lookup_push(fields.drop_first(), field, key);
    } else {
        assert(longer[0] == field);
        assert(longer.drop_first() =~= Seq::<(Seq<char>, JsonFieldView)>::empty());
        assert(lookup(longer.drop_first(), key) is None);
    }
}

} // verus!
