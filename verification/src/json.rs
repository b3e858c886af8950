use vstd::prelude::*;
use crate::number::{decimal, format_i64};
use crate::text::{owned, str_eq};

verus! {

/// What a JSON document holds, as mathematical data. A number is kept as the
/// text that denotes it; an object as its entries in order.
pub ghost enum JsonModel {
    Null,
    Bool(bool),
    Number(Seq<char>),
    Text(Seq<char>),
    Array(Seq<JsonModel>),
    Object(Seq<(Seq<char>, JsonModel)>),
}

/// The value of the first entry of `fields` whose key is `key`.
pub open spec fn lookup(fields: Seq<(Seq<char>, JsonModel)>, key: Seq<char>) -> Option<JsonModel>
    decreases fields.len(),
{
    if fields.len() == 0 {
        None
    } else if fields[0].0 == key {
        Some(fields[0].1)
    } else {
        lookup(fields.drop_first(), key)
    }
}

/// Whether entry `i` of `fields` is the first with `key`, and holds `value`.
pub open spec fn first_entry_at(
    fields: Seq<(Seq<char>, JsonModel)>,
    key: Seq<char>,
    value: JsonModel,
    i: int,
) -> bool {
    &&& 0 <= i < fields.len()
    &&& fields[i] == (key, value)
    &&& forall|j: int| 0 <= j < i ==> (#[trigger] fields[j]).0 != key
}

/// What `lookup` finds is the value of the first entry with the key: it
/// finds `value` exactly where some entry is the first with the key and
/// holds `value`, and it finds nothing exactly where no entry has the key.
pub proof fn law_lookup_finds_first(
    fields: Seq<(Seq<char>, JsonModel)>,
    key: Seq<char>,
    value: JsonModel,
)
    ensures
        lookup(fields, key) == Some(value) <==> exists|i: int|
            first_entry_at(fields, key, value, i),
        lookup(fields, key) is None <==> forall|i: int|
            0 <= i < fields.len() ==> (#[trigger] fields[i]).0 != key,
    decreases fields.len(),
{
    if fields.len() > 0 {
        let rest = fields.drop_first();
        law_lookup_finds_first(rest, key, value);
        if fields[0].0 == key {
            if fields[0].1 == value {
                assert(first_entry_at(fields, key, value, 0));
            } else {
                assert forall|i: int| !first_entry_at(fields, key, value, i) by {
                }
            }
        } else {
            assert forall|i: int| first_entry_at(rest, key, value, i) implies first_entry_at(
                fields,
                key,
                value,
                i + 1,
            ) by {
                assert forall|j: int| 0 <= j < i + 1 implies (#[trigger] fields[j]).0 != key by {
                    if j > 0 {
                        assert(fields[j] == rest[j - 1]);
                    }
                }
            }
            assert forall|i: int| first_entry_at(fields, key, value, i) implies first_entry_at(
                rest,
                key,
                value,
                i - 1,
            ) by {
                assert forall|j: int| 0 <= j < i - 1 implies (#[trigger] rest[j]).0 != key by {
                }
            }
            if lookup(rest, key) is None {
                assert forall|i: int| 0 <= i < fields.len() implies (#[trigger] fields[i]).0
                    != key by {
                    if i > 0 {
                        assert(fields[i] == rest[i - 1]);
                    }
                }
            } else {
                let i = choose|i: int| 0 <= i < rest.len() && (#[trigger] rest[i]).0 == key;
            }
        }
    }
}

/// Looking a key up behind one more entry: what was found before stays
/// found, and the new entry is found only where nothing was.
pub proof fn lemma_lookup_push(
    fields: Seq<(Seq<char>, JsonModel)>,
    entry: (Seq<char>, JsonModel),
    key: Seq<char>,
)
    ensures
        lookup(fields.push(entry), key) == match lookup(fields, key) {
            Some(value) => Some(value),
            None => if entry.0 == key {
                Some(entry.1)
            } else {
                None
            },
        },
    decreases fields.len(),
{
    let longer = fields.push(entry);
    if fields.len() == 0 {
    } else {
        assert(longer.drop_first() =~= fields.drop_first().push(entry));
        lemma_lookup_push(fields.drop_first(), entry, key);
    }
}

impl JsonModel {
    /// The member `key` of an object; `None` for a missing member and for
    /// anything that is not an object.
    pub open spec fn field(self, key: Seq<char>) -> Option<JsonModel> {
        match self {
            JsonModel::Object(fields) => lookup(fields, key),
            _ => None,
        }
    }
}

/// A JSON document held by this library.
#[derive(Debug, PartialEq, Eq)]
pub enum Json {
    Null,
    Bool(bool),
    Number(String),
    Text(String),
    Array(Vec<Json>),
    Object(Vec<Member>),
}

/// One entry of a JSON object.
#[derive(Debug, Clone, PartialEq, Eq)]
pub struct Member {
    pub key: String,
    pub value: Json,
}

impl Json {
    /// What this document holds.
    pub open spec fn model(self) -> JsonModel
        decreases self,
    {
        match self {
            Json::Null => JsonModel::Null,
            Json::Bool(b) => JsonModel::Bool(b),
            Json::Number(n) => JsonModel::Number(n@),
            Json::Text(s) => JsonModel::Text(s@),
            Json::Array(items) => JsonModel::Array(
                Seq::new(
                    items@.len(),
                    |i: int|
                        if 0 <= i < items@.len() {
                            items@[i].model()
                        } else {
                            JsonModel::Null
                        },
                ),
            ),
            Json::Object(fields) => JsonModel::Object(
                Seq::new(
                    fields@.len(),
                    |i: int|
                        if 0 <= i < fields@.len() {
                            (fields@[i].key@, fields@[i].value.model())
                        } else {
                            (Seq::<char>::empty(), JsonModel::Null)
                        },
                ),
            ),
        }
    }
}

impl View for Json {
    type V = JsonModel;

    open spec fn view(&self) -> JsonModel {
        self.model()
    }
}

impl DeepView for Json {
    type V = JsonModel;

    open spec fn deep_view(&self) -> JsonModel {
        self.model()
    }
}

/// The models of a list of documents, in order.
pub open spec fn models(items: Seq<Json>) -> Seq<JsonModel> {
    Seq::new(items.len(), |i: int| items[i]@)
}

/// The models of a list of object entries, in order.
pub open spec fn entry_models(fields: Seq<Member>) -> Seq<(Seq<char>, JsonModel)> {
    Seq::new(fields.len(), |i: int| (fields[i].key@, fields[i].value@))
}

/// An array's model is the list of its items' models.
pub proof fn lemma_array_view(items: Vec<Json>)
    ensures
        Json::Array(items)@ == JsonModel::Array(models(items@)),
{
    assert(Json::Array(items)@->Array_0 =~= models(items@));
}

/// An object's model is the list of its entries' models.
pub proof fn lemma_object_view(fields: Vec<Member>)
    ensures
        Json::Object(fields)@ == JsonModel::Object(entry_models(fields@)),
{
    let ours = Json::Object(fields)@->Object_0;
    assert forall|i: int| 0 <= i < ours.len() implies ours[i] == entry_models(fields@)[i] by {
    }
    assert(ours =~= entry_models(fields@));
}

impl Json {
    /// The member `key` of an object.
    pub fn get(&self, key: &str) -> (found: Option<&Json>)
        ensures
            match found {
                Some(value) => self@.field(key@) == Some(value@),
                None => self@.field(key@) is None,
            },
    {
        match self {
            Json::Object(fields) => {
                proof {
                    lemma_object_view(*fields);
                }
                let ghost all = entry_models(fields@);
                let mut i: usize = 0;
                proof {
                    assert(all.skip(0) =~= all);
                }
                while i < fields.len()
                    invariant
                        i <= fields.len(),
                        self@ == JsonModel::Object(all),
                        all == entry_models(fields@),
                        lookup(all, key@) == lookup(all.skip(i as int), key@),
                    decreases fields.len() - i,
                {
                    proof {
                        assert(all.skip(i as int).drop_first() =~= all.skip(i + 1));
                    }
                    if str_eq(fields[i].key.as_str(), key) {
                        return Some(&fields[i].value);
                    }
                    i = i + 1;
                }
                None
            },
            _ => None,
        }
    }
}

impl Clone for Json {
    /// A copy that holds the same document.
    fn clone(&self) -> (copy: Json)
        ensures
            copy@ == self@,
        decreases self,
    {
        match self {
            Json::Null => Json::Null,
            Json::Bool(b) => Json::Bool(*b),
            Json::Number(n) => Json::Number(n.clone()),
            Json::Text(s) => Json::Text(s.clone()),
            Json::Array(items) => {
                let mut out: Vec<Json> = Vec::new();
                let mut i: usize = 0;
                while i < items.len()
                    invariant
                        i <= items.len(),
                        out@.len() == i,
                        *self == Json::Array(*items),
                        forall|k: int| 0 <= k < i ==> (#[trigger] out@[k])@ == items@[k]@,
                    decreases items.len() - i,
                {
                    proof {
                        let whole = *self;
                        assert(decreases_to!(whole => whole->Array_0));
                    }
                    let item = items[i].clone();
                    out.push(item);
                    i = i + 1;
                }
                proof {
                    lemma_array_view(out);
                    lemma_array_view(*items);
                    assert(models(out@) =~= models(items@));
                }
                Json::Array(out)
            },
            Json::Object(fields) => {
                let mut out: Vec<Member> = Vec::new();
                let mut i: usize = 0;
                while i < fields.len()
                    invariant
                        i <= fields.len(),
                        out@.len() == i,
                        *self == Json::Object(*fields),
                        forall|k: int|
                            0 <= k < i ==> (#[trigger] out@[k]).key@ == fields@[k].key@
                                && out@[k].value@ == fields@[k].value@,
                    decreases fields.len() - i,
                {
                    let key = fields[i].key.clone();
                    proof {
                        let whole = *self;
                        assert(decreases_to!(whole => whole->Object_0));
                    }
                    let value = fields[i].value.clone();
                    out.push(Member { key, value });
                    i = i + 1;
                }
                proof {
                    lemma_object_view(out);
                    lemma_object_view(*fields);
                    assert(entry_models(out@) =~= entry_models(fields@));
                }
                Json::Object(out)
            },
        }
    }
}

/// Appends a member to the entries of an object under construction.
pub fn push_member(members: &mut Vec<Member>, key: &str, value: Json)
    ensures
        entry_models(final(members)@) == entry_models(old(members)@).push((key@, value@)),
{
    members.push(Member { key: owned(key), value });
}

/// Appends a member that is a string.
pub fn push_text(members: &mut Vec<Member>, key: &str, value: &str)
    ensures
        entry_models(final(members)@) == entry_models(old(members)@).push(
            (key@, JsonModel::Text(value@)),
        ),
{
    push_member(members, key, Json::Text(owned(value)));
}

/// Appends a member that is a boolean.
pub fn push_bool(members: &mut Vec<Member>, key: &str, value: bool)
    ensures
        entry_models(final(members)@) == entry_models(old(members)@).push(
            (key@, JsonModel::Bool(value)),
        ),
{
    push_member(members, key, Json::Bool(value));
}

/// Appends a member that is a whole number, written in base ten.
pub fn push_i32(members: &mut Vec<Member>, key: &str, value: i32)
    ensures
        entry_models(final(members)@) == entry_models(old(members)@).push(
            (key@, JsonModel::Number(decimal(value as int))),
        ),
{
    push_member(members, key, Json::Number(format_i64(value as i64)));
}

/// Makes an object of the entries given.
pub fn object(members: Vec<Member>) -> (json: Json)
    ensures
        json@ == JsonModel::Object(entry_models(members@)),
{
    proof {
        lemma_object_view(members);
    }
    Json::Object(members)
}

/// An empty list of entries.
pub fn no_members() -> (members: Vec<Member>)
    ensures
        entry_models(members@) == Seq::<(Seq<char>, JsonModel)>::empty(),
{
    let members: Vec<Member> = Vec::new();
    members
}

/// The outside crate's JSON value. Verus sees nothing inside it.
#[verifier::external_type_specification]
#[verifier::external_body]
pub struct ExValue(serde_json::Value);

/// What an outside JSON value holds.
pub uninterp spec fn value_model(value: serde_json::Value) -> JsonModel;

/// What the outside parser makes of a text: the document it denotes, or the
/// parser's complaint.
pub uninterp spec fn parsed_text(text: Seq<char>) -> Result<JsonModel, Seq<char>>;

/// One level of an outside JSON value: its kind, its scalar content, and its
/// children still in the outside form.
pub enum Node<'a> {
    Null,
    Bool(bool),
    Number(String),
    Text(String),
    Array(&'a Vec<serde_json::Value>),
    Object(Vec<(&'a String, &'a serde_json::Value)>),
}

impl<'a> Node<'a> {
    /// What this level holds, its children read through `value_model`.
    pub open spec fn model(self) -> JsonModel {
        match self {
            Node::Null => JsonModel::Null,
            Node::Bool(b) => JsonModel::Bool(b),
            Node::Number(n) => JsonModel::Number(n@),
            Node::Text(s) => JsonModel::Text(s@),
            Node::Array(items) => JsonModel::Array(
                Seq::new(items@.len(), |i: int| value_model(items@[i])),
            ),
            Node::Object(entries) => JsonModel::Object(
                Seq::new(entries@.len(), |i: int| (entries@[i].0@, value_model(*entries@[i].1))),
            ),
        }
    }
}

/// Calls `serde_json::from_str` for a `serde_json::Value`, and prints the
/// error, where there is one, through its `Display` impl. The outcome is a
/// function of the text alone: `parsed_text` names it, a value by what it
/// holds and an error by its message.
#[verifier::external_body]
fn value_from_str(text: &str) -> (parsed: Result<serde_json::Value, String>)
    ensures
        match parsed {
            Ok(value) => parsed_text(text@) == Ok::<JsonModel, Seq<char>>(value_model(value)),
            Err(message) => parsed_text(text@) == Err::<JsonModel, Seq<char>>(message@),
        },
{
    match serde_json::from_str::<serde_json::Value>(text) {
        Ok(value) => Ok(value),
        Err(error) => Err(error.to_string()),
    }
}

/// Opens one level of a `serde_json::Value`: one arm for each variant, the
/// scalar moved over (a number printed by its `Display` impl), an array's
/// items and an object's entries handed on as they are, in the order in which
/// the value's map iterates.
#[verifier::external_body]
fn unpack<'a>(value: &'a serde_json::Value) -> (node: Node<'a>)
    ensures
        node.model() == value_model(*value),
{
    match value {
        serde_json::Value::Null => Node::Null,
        serde_json::Value::Bool(b) => Node::Bool(*b),
        serde_json::Value::Number(n) => Node::Number(n.to_string()),
        serde_json::Value::String(s) => Node::Text(s.clone()),
        serde_json::Value::Array(items) => Node::Array(items),
        serde_json::Value::Object(fields) => Node::Object(fields.iter().collect()),
    }
}

/// Copies an outside JSON value into a document of this library.
pub fn from_value(value: &serde_json::Value) -> (json: Json)
    ensures
        json@ == value_model(*value),
    decreases value_model(*value),
{
    match unpack(value) {
        Node::Null => Json::Null,
        Node::Bool(b) => Json::Bool(b),
        Node::Number(n) => Json::Number(n),
        Node::Text(s) => Json::Text(s),
        Node::Array(items) => {
            let ghost target = Seq::new(items@.len(), |i: int| value_model(items@[i]));
            let mut out: Vec<Json> = Vec::new();
            let mut i: usize = 0;
            while i < items.len()
                invariant
                    i <= items.len(),
                    out@.len() == i,
                    value_model(*value) == JsonModel::Array(target),
                    target == Seq::new(items@.len(), |i: int| value_model(items@[i])),
                    forall|k: int| 0 <= k < i ==> (#[trigger] out@[k])@ == target[k],
                decreases items.len() - i,
            {
                proof {
                    assert(decreases_to!(target => target[i as int]));
                    let whole = value_model(*value);
                    assert(decreases_to!(whole => whole->Array_0));
                }
                let item = from_value(&items[i]);
                out.push(item);
                i = i + 1;
            }
            proof {
                lemma_array_view(out);
                assert(models(out@) =~= target);
            }
            Json::Array(out)
        },
        Node::Object(entries) => {
            let ghost target = Seq::new(
                entries@.len(),
                |i: int| (entries@[i].0@, value_model(*entries@[i].1)),
            );
            let mut out: Vec<Member> = Vec::new();
            let mut i: usize = 0;
            while i < entries.len()
                invariant
                    i <= entries.len(),
                    out@.len() == i,
                    value_model(*value) == JsonModel::Object(target),
                    target == Seq::new(
                        entries@.len(),
                        |i: int| (entries@[i].0@, value_model(*entries@[i].1)),
                    ),
                    forall|k: int|
                        0 <= k < i ==> (#[trigger] out@[k]).key@ == target[k].0 && out@[k].value@
                            == target[k].1,
                decreases entries.len() - i,
            {
                let key = entries[i].0.clone();
                proof {
                    assert(decreases_to!(target[i as int] => target[i as int].1));
                    let whole = value_model(*value);
                    assert(decreases_to!(whole => whole->Object_0));
                }
                let member = from_value(entries[i].1);
                out.push(Member { key, value: member });
                i = i + 1;
            }
            proof {
                lemma_object_view(out);
                assert(entry_models(out@) =~= target);
            }
            Json::Object(out)
        },
    }
}

/// The view of a parse outcome.
pub open spec fn parse_view(outcome: Result<Json, String>) -> Result<JsonModel, Seq<char>> {
    match outcome {
        Ok(json) => Ok(json@),
        Err(message) => Err(message@),
    }
}

/// Parses a JSON text into a document, or gives the parser's complaint.
pub fn parse(text: &str) -> (outcome: Result<Json, String>)
    ensures
        parse_view(outcome) == parsed_text(text@),
{
    match value_from_str(text) {
        Ok(value) => Ok(from_value(&value)),
        Err(message) => Err(message),
    }
}

} // verus!
