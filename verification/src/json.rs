//! The small part of JSON that the node's REST interface needs: flat request
//! objects that leave out their null members, and the lookup of one member of a
//! reply.

use vstd::prelude::*;

verus! {

/// The error of the JSON codec.
#[verifier::external_type_specification]
#[verifier::external_body]
pub struct ExJsonError(serde_json::Error);

/// The views of a sequence of strings.
pub open spec fn texts_view(v: Seq<String>) -> Seq<Seq<char>> {
    v.map_values(|s: String| s@)
}

/// A member value of a request object.
pub enum JsonValue {
    Null,
    Number(u64),
    Text(String),
    List(Vec<String>),
}

/// A member value as a value of the model.
pub enum JsonValueView {
    Null,
    Number(u64),
    Text(Seq<char>),
    List(Seq<Seq<char>>),
}

impl View for JsonValue {
    type V = JsonValueView;

    open spec fn view(&self) -> JsonValueView {
        match self {
            JsonValue::Null => JsonValueView::Null,
            JsonValue::Number(n) => JsonValueView::Number(*n),
            JsonValue::Text(s) => JsonValueView::Text(s@),
            JsonValue::List(l) => JsonValueView::List(texts_view(l@)),
        }
    }
}

/// One member of a request object.
pub struct JsonField {
    pub key: String,
    pub value: JsonValue,
}

/// A member as a value of the model.
pub struct JsonFieldView {
    pub key: Seq<char>,
    pub value: JsonValueView,
}

impl View for JsonField {
    type V = JsonFieldView;

    open spec fn view(&self) -> JsonFieldView {
        JsonFieldView { key: self.key@, value: self.value@ }
    }
}

/// The views of a sequence of members.
pub open spec fn fields_view(v: Seq<JsonField>) -> Seq<JsonFieldView> {
    v.map_values(|f: JsonField| f@)
}

/// What a reply holds under one key.
pub enum JsonMember {
    /// The reply is valid JSON but not an object.
    NotObject,
    /// The reply is an object without that key.
    Absent,
    /// The member is there and is not a string.
    NotText,
    /// The member is this string.
    Text(String),
}

/// A lookup result as a value of the model.
pub enum JsonMemberView {
    NotObject,
    Absent,
    NotText,
    Text(Seq<char>),
}

impl View for JsonMember {
    type V = JsonMemberView;

    open spec fn view(&self) -> JsonMemberView {
        match self {
            JsonMember::NotObject => JsonMemberView::NotObject,
            JsonMember::Absent => JsonMemberView::Absent,
            JsonMember::NotText => JsonMemberView::NotText,
            JsonMember::Text(s) => JsonMemberView::Text(s@),
        }
    }
}

/// The JSON text of the object with these members, inserted in this order, or
/// `None` where the codec refuses to write it.
pub uninterp spec fn json_object_text(fields: Seq<JsonFieldView>) -> Option<Seq<char>>;

/// What the JSON document `text` holds under `key`, or `None` where `text` is
/// not a JSON document.
pub uninterp spec fn json_member(text: Seq<char>, key: Seq<char>) -> Option<JsonMemberView>;

/// `serde_json::to_string` on the `serde_json::Value::Object` whose map got these
/// members by `serde_json::Map::insert`, one after the other. Trusted: the outcome
/// depends on the members alone.
#[verifier::external_body]
fn encode_object(fields: &Vec<JsonField>) -> (r: Result<String, serde_json::Error>)
    ensures
        match r {
            Ok(text) => json_object_text(fields_view(fields@)) == Some(text@),
            Err(_) => json_object_text(fields_view(fields@)) is None,
        },
{
    let mut map = serde_json::Map::new();
    for field in fields.iter() {
        let value = match &field.value {
            JsonValue::Null => serde_json::Value::Null,
            JsonValue::Number(n) => serde_json::Value::from(*n),
            JsonValue::Text(s) => serde_json::Value::String(s.clone()),
            JsonValue::List(l) => serde_json::Value::from(l.clone()),
        };
        map.insert(field.key.clone(), value);
    }
    serde_json::to_string(&serde_json::Value::Object(map))
}

/// `serde_json::from_str` to a `serde_json::Value`, then `serde_json::Map::get` on
/// it where it is an object. Trusted: the outcome depends on the text and the key
/// alone.
#[verifier::external_body]
fn decode_member(text: &str, key: &str) -> (r: Result<JsonMember, serde_json::Error>)
    ensures
        match r {
            Ok(member) => json_member(text@, key@) == Some(member@),
            Err(_) => json_member(text@, key@) is None,
        },
{
    let value: serde_json::Value = serde_json::from_str(text)?;
    Ok(match value {
        serde_json::Value::Object(map) => match map.get(key) {
            None => JsonMember::Absent,
            Some(serde_json::Value::String(s)) => JsonMember::Text(s.clone()),
            Some(_) => JsonMember::NotText,
        },
        _ => JsonMember::NotObject,
    })
}

/// A member that is written: one whose value is not null.
pub open spec fn is_written(f: JsonFieldView) -> bool {
    f.value != JsonValueView::Null
}

/// The members that are written, in their order.
pub open spec fn written_fields(fields: Seq<JsonFieldView>) -> Seq<JsonFieldView> {
    fields.filter(|f: JsonFieldView| is_written(f))
}

/// The text of a request object: its non-null members, encoded.
pub open spec fn request_text(fields: Seq<JsonFieldView>) -> Option<Seq<char>> {
    json_object_text(written_fields(fields))
}

fn copy_texts(v: &Vec<String>) -> (r: Vec<String>)
    ensures
        texts_view(r@) == texts_view(v@),
{
    let mut r: Vec<String> = Vec::new();
    let mut i: usize = 0;
    while i < v.len()
        invariant
            i <= v.len(),
            r.len() == i,
            forall|k: int| 0 <= k < i ==> r@[k]@ == v@[k]@,
        decreases v.len() - i,
    {
        r.push(v[i].clone());
        i += 1;
    }
    assert(texts_view(r@) =~= texts_view(v@));
    r
}

fn copy_field(f: &JsonField) -> (r: JsonField)
    ensures
        r@ == f@,
{
    let value = match &f.value {
        JsonValue::Null => JsonValue::Null,
        JsonValue::Number(n) => JsonValue::Number(*n),
        JsonValue::Text(s) => JsonValue::Text(s.clone()),
        JsonValue::List(l) => JsonValue::List(copy_texts(l)),
    };
    JsonField { key: f.key.clone(), value }
}

/// Drops the members whose value is null and keeps the others in their order.
pub fn skip_nulls(fields: &Vec<JsonField>) -> (kept: Vec<JsonField>)
    ensures
        fields_view(kept@) == written_fields(fields_view(fields@)),
{
    let ghost pred = |f: JsonFieldView| is_written(f);
    let mut kept: Vec<JsonField> = Vec::new();
    let mut i: usize = 0;
    proof {
        assert(fields_view(fields@).take(0) =~= Seq::<JsonFieldView>::empty());
        assert(fields_view(kept@) =~= Seq::<JsonFieldView>::empty());
        assert(Seq::<JsonFieldView>::empty().filter(pred) =~= Seq::<JsonFieldView>::empty()) by {
            reveal(Seq::filter);
        }
    }
    while i < fields.len()
        invariant
            i <= fields.len(),
            pred == (|f: JsonFieldView| is_written(f)),
            fields_view(kept@) == fields_view(fields@).take(i as int).filter(pred),
        decreases fields.len() - i,
    {
        let ghost before = fields_view(fields@).take(i as int);
        let ghost kept_before = fields_view(kept@);
        proof {
            assert(fields_view(fields@).take(i + 1) =~= before.push(fields@[i as int]@));
            before.lemma_filter_push(fields@[i as int]@, pred);
        }
        let keep = match &fields[i].value {
            JsonValue::Null => false,
            _ => true,
        };
        if keep {
            kept.push(copy_field(&fields[i]));
            assert(fields_view(kept@) =~= kept_before.push(fields@[i as int]@));
        }
        i += 1;
    }
    assert(fields_view(fields@).take(fields.len() as int) =~= fields_view(fields@));
    kept
}

/// The text of the request object with these members: the null members are left
/// out, the others encoded in the codec's order. `None` where the codec refuses.
pub fn request_body(fields: &Vec<JsonField>) -> (r: Option<String>)
    ensures
        match r {
            Some(text) => request_text(fields_view(fields@)) == Some(text@),
            None => request_text(fields_view(fields@)) is None,
        },
{
    let kept = skip_nulls(fields);
    match encode_object(&kept) {
        Ok(text) => Some(text),
        Err(_) => None,
    }
}

/// Looks up `key` in the JSON document `text`. `None` where `text` is not JSON.
pub fn reply_member(text: &str, key: &str) -> (r: Option<JsonMember>)
    ensures
        match r {
            Some(member) => json_member(text@, key@) == Some(member@),
            None => json_member(text@, key@) is None,
        },
{
    match decode_member(text, key) {
        Ok(member) => Some(member),
        Err(_) => None,
    }
}

} // verus!
