//! JSON decoding of the upstream response body.
//!
//! Parsing is done by `serde_json` behind trusted declarations; a parsed
//! document is modelled by the ghost tree [`JsonRep`], and the projection of
//! `data.checkpoints` out of that tree is verified code.

use vstd::prelude::*;
use crate::model::{Checkpoint, CheckpointModel, TrackingResult};

verus! {

/// Ghost model of a parsed JSON document.
pub enum JsonRep {
    Null,
    Bool(bool),
    Number,
    Str(Seq<char>),
    Arr(Seq<JsonRep>),
    Obj(Map<Seq<char>, JsonRep>),
}

#[verifier::external_type_specification]
#[verifier::external_body]
pub struct ExValue(serde_json::Value);

#[verifier::external_type_specification]
#[verifier::external_body]
pub struct ExJsonError(serde_json::Error);

/// The document tree held by a `serde_json::Value`.
pub uninterp spec fn value_rep(v: serde_json::Value) -> JsonRep;

/// What `serde_json::from_str::<serde_json::Value>` yields on a given text:
/// the parsed document, or nothing when the text is not valid JSON.
pub uninterp spec fn parsed_json(s: Seq<char>) -> Option<JsonRep>;

/// Relies on `serde_json::from_str::<serde_json::Value>`: parses the text as
/// one JSON document and returns the parse error when the text is not valid
/// JSON. The result is a function of the text alone.
#[verifier::external_body]
pub(crate) fn parse_json(s: &str) -> (r: Result<serde_json::Value, serde_json::Error>)
    ensures
        match r {
            Ok(v) => parsed_json(s@) == Some(value_rep(v)),
            Err(_) => parsed_json(s@) is None,
        },
{
    serde_json::from_str::<serde_json::Value>(s)
}

/// Relies on `serde_json::Value::get` with a string index: for an object it
/// looks the key up in its map, for every other value it returns nothing.
#[verifier::external_body]
pub(crate) fn value_get<'a>(v: &'a serde_json::Value, key: &str) -> (r: Option<
    &'a serde_json::Value,
>)
    ensures
        match value_rep(*v) {
            JsonRep::Obj(m) => {
                if m.dom().contains(key@) {
                    match r {
                        Some(w) => value_rep(*w) == m[key@],
                        None => false,
                    }
                } else {
                    r is None
                }
            },
            _ => r is None,
        },
{
    v.get(key)
}

/// Relies on `serde_json::Value::as_array`: the element vector of an array
/// value, nothing for every other value.
#[verifier::external_body]
pub(crate) fn value_as_array<'a>(v: &'a serde_json::Value) -> (r: Option<
    &'a Vec<serde_json::Value>,
>)
    ensures
        match value_rep(*v) {
            JsonRep::Arr(a) => match r {
                Some(vec) => vec@.len() == a.len() && forall|i: int|
                    0 <= i < a.len() ==> #[trigger] value_rep(vec@[i]) == a[i],
                None => false,
            },
            _ => r is None,
        },
{
    v.as_array()
}

/// Relies on `serde_json::Value::as_str`: the character content of a string
/// value, nothing for every other value.
#[verifier::external_body]
pub(crate) fn value_as_str<'a>(v: &'a serde_json::Value) -> (r: Option<&'a str>)
    ensures
        match value_rep(*v) {
            JsonRep::Str(s) => match r {
                Some(t) => t@ == s,
                None => false,
            },
            _ => r is None,
        },
{
    v.as_str()
}

/// Relies on the `Display` impl of `serde_json::Error`: a human-readable
/// description of the parse failure. Nothing is assumed of its content.
#[verifier::external_body]
pub(crate) fn json_error_message(e: &serde_json::Error) -> String {
    e.to_string()
}

/// The member of an object document under the given key, if the document is
/// an object that has it.
pub open spec fn member_field(j: JsonRep, key: Seq<char>) -> Option<JsonRep> {
    match j {
        JsonRep::Obj(m) => if m.dom().contains(key) {
            Some(m[key])
        } else {
            None
        },
        _ => None,
    }
}

/// The string member of an object document under the given key, if present
/// and a string.
pub open spec fn string_field(j: JsonRep, key: Seq<char>) -> Option<Seq<char>> {
    match member_field(j, key) {
        Some(JsonRep::Str(s)) => Some(s),
        _ => None,
    }
}

/// The checkpoint a document describes: an object with string members `time`
/// and `status_raw`.
pub open spec fn checkpoint_of(j: JsonRep) -> Option<CheckpointModel> {
    match (string_field(j, "time"@), string_field(j, "status_raw"@)) {
        (Some(t), Some(s)) => Some(CheckpointModel { time: t, status_raw: s }),
        _ => None,
    }
}

/// The checkpoint sequence a document describes: an array all of whose
/// elements are well-formed checkpoints, in array order.
pub open spec fn checkpoint_array_of(j: JsonRep) -> Option<Seq<CheckpointModel>> {
    match j {
        JsonRep::Arr(a) => if forall|i: int| 0 <= i < a.len() ==> checkpoint_of(#[trigger] a[i]) is Some {
            Some(Seq::new(a.len(), |i: int| checkpoint_of(a[i]).unwrap()))
        } else {
            None
        },
        _ => None,
    }
}

/// The checkpoint sequence of a whole success body: the `data.checkpoints`
/// member of the document, decoded as a checkpoint array.
pub open spec fn body_checkpoints(doc: JsonRep) -> Option<Seq<CheckpointModel>> {
    match member_field(doc, "data"@) {
        Some(d) => match member_field(d, "checkpoints"@) {
            Some(c) => checkpoint_array_of(c),
            None => None,
        },
        None => None,
    }
}

/// What a response body text decodes to: the checkpoint sequence of a
/// well-formed success body, or nothing.
pub open spec fn decoded_body(s: Seq<char>) -> Option<Seq<CheckpointModel>> {
    match parsed_json(s) {
        Some(doc) => body_checkpoints(doc),
        None => None,
    }
}

/// Law: a well-formed checkpoint array decodes to a sequence of exactly its
/// own length, whose entry at every position is the checkpoint of the array
/// element at that same position — input order is preserved, nothing is
/// re-sorted.
pub proof fn lemma_decode_preserves_count_and_order(a: Seq<JsonRep>, cps: Seq<CheckpointModel>)
    requires
        checkpoint_array_of(JsonRep::Arr(a)) == Some(cps),
    ensures
        cps.len() == a.len(),
        forall|i: int| 0 <= i < a.len() ==> Some(#[trigger] cps[i]) == checkpoint_of(a[i]),
{
}

/// The fixed message reported when a body parses as JSON but does not hold
/// the expected `data.checkpoints` shape.
pub open spec fn spec_shape_error_message() -> Seq<char> {
    "missing or malformed data.checkpoints"@
}

fn shape_error() -> (r: String)
    ensures
        r@ == spec_shape_error_message(),
{
    "missing or malformed data.checkpoints".to_owned()
}

/// Decodes a success body into its checkpoint history.
///
/// Returns the checkpoint sequence exactly when the body is a well-formed
/// success body, and a decode message otherwise: the parser's own message
/// for text that is not JSON, a fixed message for a JSON document of the
/// wrong shape.
pub fn decode_tracking_body(body: &str) -> (r: Result<TrackingResult, String>)
    ensures
        match r {
            Ok(tr) => decoded_body(body@) == Some(tr@),
            Err(m) => decoded_body(body@) is None && (parsed_json(body@) is Some ==> m@
                == spec_shape_error_message()),
        },
{
    let doc = match parse_json(body) {
        Ok(v) => v,
        Err(e) => {
            return Err(json_error_message(&e));
        },
    };
    let data = match value_get(&doc, "data") {
        Some(d) => d,
        None => {
            return Err(shape_error());
        },
    };
    let cps = match value_get(data, "checkpoints") {
        Some(c) => c,
        None => {
            return Err(shape_error());
        },
    };
    let arr = match value_as_array(cps) {
        Some(a) => a,
        None => {
            return Err(shape_error());
        },
    };
    let ghost a = value_rep(*cps)->Arr_0;
    let mut out: Vec<Checkpoint> = Vec::new();
    let n = arr.len();
    let mut i: usize = 0;
    while i < n
        invariant
            parsed_json(body@) == Some(value_rep(doc)),
            member_field(value_rep(doc), "data"@) == Some(value_rep(*data)),
            member_field(value_rep(*data), "checkpoints"@) == Some(value_rep(*cps)),
            value_rep(*cps) == JsonRep::Arr(a),
            n == arr@.len(),
            n == a.len(),
            0 <= i <= n,
            out@.len() == i,
            forall|j: int| 0 <= j < a.len() ==> #[trigger] value_rep(arr@[j]) == a[j],
            forall|j: int| 0 <= j < i ==> checkpoint_of(#[trigger] a[j]) == Some(out@[j]@),
        decreases n - i,
    {
        let elem = &arr[i];
        proof {
            assert(value_rep(arr@[i as int]) == a[i as int]);
        }
        let t = match value_get(elem, "time") {
            Some(x) => x,
            None => {
                proof {
                    assert(checkpoint_of(a[i as int]) is None);
                    assert(!(forall|j: int|
                        0 <= j < a.len() ==> checkpoint_of(#[trigger] a[j]) is Some));
                }
                return Err(shape_error());
            },
        };
        let ts = match value_as_str(t) {
            Some(s) => s,
            None => {
                proof {
                    assert(checkpoint_of(a[i as int]) is None);
                    assert(!(forall|j: int|
                        0 <= j < a.len() ==> checkpoint_of(#[trigger] a[j]) is Some));
                }
                return Err(shape_error());
            },
        };
        let sr = match value_get(elem, "status_raw") {
            Some(x) => x,
            None => {
                proof {
                    assert(checkpoint_of(a[i as int]) is None);
                    assert(!(forall|j: int|
                        0 <= j < a.len() ==> checkpoint_of(#[trigger] a[j]) is Some));
                }
                return Err(shape_error());
            },
        };
        let srs = match value_as_str(sr) {
            Some(s) => s,
            None => {
                proof {
                    assert(checkpoint_of(a[i as int]) is None);
                    assert(!(forall|j: int|
                        0 <= j < a.len() ==> checkpoint_of(#[trigger] a[j]) is Some));
                }
                return Err(shape_error());
            },
        };
        out.push(Checkpoint { time: ts.to_owned(), status_raw: srs.to_owned() });
        i += 1;
    }
    let result = TrackingResult { checkpoints: out };
    proof {
        let cps_model = Seq::new(a.len(), |j: int| checkpoint_of(a[j]).unwrap());
        assert(result@ =~= cps_model);
    }
    Ok(result)
}

} // verus!
