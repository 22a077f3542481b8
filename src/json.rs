//! The JSON layer: an object of named string fields written out, and a
//! document read back as its top-level entries. serde_json does the text work.
use vstd::prelude::*;

verus! {

/// One value of a JSON object, as far as the profile layout cares.
#[derive(Debug)]
pub enum JsonScalar {
    Null,
    Text(String),
    Other,
}

/// What a `JsonScalar` stands for.
pub enum ScalarView {
    Null,
    Text(Seq<char>),
    Other,
}

impl View for JsonScalar {
    type V = ScalarView;

    open spec fn view(&self) -> ScalarView {
        match self {
            JsonScalar::Null => ScalarView::Null,
            JsonScalar::Text(s) => ScalarView::Text(s@),
            JsonScalar::Other => ScalarView::Other,
        }
    }
}

/// The view of a list of string fields.
pub open spec fn fields_view(fields: Seq<(String, String)>) -> Seq<(Seq<char>, Seq<char>)> {
    fields.map_values(|f: (String, String)| (f.0@, f.1@))
}

/// The view of a list of parsed entries.
pub open spec fn entries_view(entries: Seq<(String, JsonScalar)>) -> Seq<(Seq<char>, ScalarView)> {
    entries.map_values(|e: (String, JsonScalar)| (e.0@, e.1@))
}

/// The pretty-printed JSON text of the object whose members are `fields`,
/// each value a JSON string.
pub uninterp spec fn pretty_object(fields: Seq<(Seq<char>, Seq<char>)>) -> Seq<char>;

/// The top-level members of `text` read as a JSON object, or `None` where
/// `text` is not one.
pub uninterp spec fn object_entries(text: Seq<char>) -> Option<Seq<(Seq<char>, ScalarView)>>;

/// Relies on serde_json::to_string_pretty, applied to a serde_json::Map of
/// string values: its text depends on the fields alone, and it fails only
/// where a `Serialize` impl fails or a map key is not a string, neither of
/// which can happen here.
#[verifier::external_body]
pub(crate) fn encode_object(fields: &Vec<(String, String)>) -> (r: Option<String>)
    ensures
        r is Some,
        r matches Some(t) ==> t@ == pretty_object(fields_view(fields@)),
{
    let m: serde_json::Map<String, serde_json::Value> = fields
        .iter()
        .map(|(k, v)| (k.clone(), serde_json::Value::String(v.clone())))
        .collect();
    serde_json::to_string_pretty(&serde_json::Value::Object(m)).ok()
}

/// Relies on serde_json::from_str into a serde_json::Map: it succeeds exactly
/// on the texts that hold one JSON object, whose members it hands back.
#[verifier::external_body]
pub(crate) fn parse_object(text: &str) -> (r: Option<Vec<(String, JsonScalar)>>)
    ensures
        r is None <==> object_entries(text@) is None,
        r matches Some(es) ==> object_entries(text@) == Some(entries_view(es@)),
{
    match serde_json::from_str::<serde_json::Map<String, serde_json::Value>>(text) {
        Ok(m) => Some(m.into_iter().map(|(k, v)| (k, match v {
            serde_json::Value::Null => JsonScalar::Null,
            serde_json::Value::String(s) => JsonScalar::Text(s),
            _ => JsonScalar::Other,
        })).collect()),
        Err(_) => None,
    }
}

} // verus!
