use vstd::prelude::*;
use vstd::string::*;

verus! {

/// `serde_json::Value`, carried from the parser to `json_of_value` and not looked into.
#[verifier::external_type_specification]
#[verifier::external_body]
pub struct ExValue(serde_json::Value);

/// `serde_json::from_str` at the type `serde_json::Value`: the parser's verdict on a
/// text. What it yields is named, as a document or as the text of the error.
#[verifier::external_body]
fn parse_value(text: &str) -> (r: Result<serde_json::Value, String>)
    ensures
        match r {
            Ok(value) => json_parse(text@) == Ok::<JsonView, Seq<char>>(value_view(value)),
            Err(message) => json_parse(text@) == Err::<JsonView, Seq<char>>(message@),
        },
{
    match serde_json::from_str::<serde_json::Value>(text) {
        Ok(value) => Ok(value),
        Err(error) => Err(error.to_string()),
    }
}

/// Moves a `serde_json::Value` into a `Json`, variant by variant: a number as the text
/// that `serde_json` prints for it, an object member by member in the map's order.
#[verifier::external_body]
fn json_of_value(value: serde_json::Value) -> (doc: Json)
    ensures
        doc@ == value_view(value),
{
    match value {
        serde_json::Value::Null => Json::Null,
        serde_json::Value::Bool(b) => Json::Bool(b),
        serde_json::Value::Number(n) => Json::Number(n.to_string()),
        serde_json::Value::String(s) => Json::Text(s),
        serde_json::Value::Array(items) => Json::Array(
            items.into_iter().map(json_of_value).collect(),
        ),
        serde_json::Value::Object(members) => Json::Object(
            members.into_iter().map(|(name, v)| Member { name, value: json_of_value(v) }).collect(),
        ),
    }
}

/// The `Display` of `serde_json::Value` on a string value: the JSON string literal for a
/// text.
#[verifier::external_body]
fn string_literal(text: &str) -> (r: String)
    ensures
        r@ == json_string_literal(text@),
{
    serde_json::Value::String(text.to_owned()).to_string()
}

/// A JSON document held as plain values.
///
/// A number keeps the text it was written with: nothing here computes with numbers.
/// An object keeps its members in order; looking a name up finds the first member
/// called so.
#[derive(Debug, PartialEq, Eq)]
pub enum Json {
    Null,
    Bool(bool),
    Number(String),
    Text(String),
    Array(Vec<Json>),
    Object(Vec<Member>),
}

/// A member of a JSON object: a name and the value that stands under it.
#[derive(Debug, PartialEq, Eq)]
pub struct Member {
    pub name: String,
    pub value: Json,
}

/// The mathematical value of a JSON document.
pub ghost enum JsonView {
    Null,
    Bool(bool),
    Number(Seq<char>),
    Text(Seq<char>),
    Array(Seq<JsonView>),
    Object(Seq<MemberView>),
}

/// The mathematical value of a member of an object.
pub ghost struct MemberView {
    pub name: Seq<char>,
    pub value: JsonView,
}

impl View for Json {
    type V = JsonView;

    open spec fn view(&self) -> JsonView
        decreases self,
    {
        match self {
            Json::Null => JsonView::Null,
            Json::Bool(b) => JsonView::Bool(*b),
            Json::Number(n) => JsonView::Number(n@),
            Json::Text(s) => JsonView::Text(s@),
            Json::Array(items) => JsonView::Array(
                Seq::new(
                    items@.len(),
                    |i: int|
                        if 0 <= i < items@.len() {
                            items@[i].view()
                        } else {
                            JsonView::Null
                        },
                ),
            ),
            Json::Object(members) => JsonView::Object(
                Seq::new(
                    members@.len(),
                    |i: int|
                        if 0 <= i < members@.len() {
                            MemberView { name: members@[i].name@, value: members@[i].value.view() }
                        } else {
                            MemberView { name: Seq::<char>::empty(), value: JsonView::Null }
                        },
                ),
            ),
        }
    }
}

/// The texts of `parts`, with `separator` between each two neighbours.
pub open spec fn join(parts: Seq<Seq<char>>, separator: Seq<char>) -> Seq<char>
    decreases parts.len(),
{
    if parts.len() == 0 {
        Seq::empty()
    } else if parts.len() == 1 {
        parts[0]
    } else {
        join(parts.drop_last(), separator) + separator + parts.last()
    }
}

/// The string literal that `serde_json` writes for a text: the text between double
/// quotes, with the characters escaped that JSON wants escaped.
pub uninterp spec fn json_string_literal(text: Seq<char>) -> Seq<char>;

/// What `serde_json::from_str` makes of a text: the document it holds, or the message
/// of the error that the parser reports.
pub uninterp spec fn json_parse(text: Seq<char>) -> Result<JsonView, Seq<char>>;

/// The document that a `serde_json::Value` holds.
pub uninterp spec fn value_view(value: serde_json::Value) -> JsonView;

/// A parser's verdict, seen as mathematical values.
pub open spec fn parsed_view(parsed: Result<Json, String>) -> Result<JsonView, Seq<char>> {
    match parsed {
        Ok(doc) => Ok(doc@),
        Err(message) => Err(message@),
    }
}

/// The compact text of a document: no white space, the members of an object in their
/// order.
pub open spec fn render(doc: JsonView) -> Seq<char>
    decreases doc,
{
    match doc {
        JsonView::Null => "null"@,
        JsonView::Bool(b) => if b {
            "true"@
        } else {
            "false"@
        },
        JsonView::Number(text) => text,
        JsonView::Text(text) => json_string_literal(text),
        JsonView::Array(items) => "["@ + join(render_items(items), ","@) + "]"@,
        JsonView::Object(members) => "{"@ + join(render_members(members), ","@) + "}"@,
    }
}

/// The compact text of each item of an array.
pub open spec fn render_items(items: Seq<JsonView>) -> Seq<Seq<char>>
    decreases items,
{
    Seq::new(
        items.len(),
        |i: int|
            if 0 <= i < items.len() {
                render(items[i])
            } else {
                Seq::empty()
            },
    )
}

/// The compact text of each member of an object: its name as a string literal, a colon,
/// its value.
pub open spec fn render_members(members: Seq<MemberView>) -> Seq<Seq<char>>
    decreases members,
{
    Seq::new(
        members.len(),
        |i: int|
            if 0 <= i < members.len() {
                json_string_literal(members[i].name) + ":"@ + render(members[i].value)
            } else {
                Seq::empty()
            },
    )
}

/// The value of the first member called `name` at or after position `from`.
pub open spec fn member_from(
    members: Seq<MemberView>,
    name: Seq<char>,
    from: int,
) -> Option<JsonView>
    decreases members.len() - from,
{
    if from < 0 || from >= members.len() {
        None
    } else if members[from].name == name {
        Some(members[from].value)
    } else {
        member_from(members, name, from + 1)
    }
}

/// The value of the first member called `name`, if the document is an object that has one.
pub open spec fn member(doc: JsonView, name: Seq<char>) -> Option<JsonView> {
    match doc {
        JsonView::Object(members) => member_from(members, name, 0),
        _ => None,
    }
}

/// What the view of an object holds, member by member.
pub proof fn lemma_object_view(members: Vec<Member>)
    ensures
        Json::Object(members)@ is Object,
        Json::Object(members)@->Object_0.len() == members@.len(),
        forall|k: int|
            0 <= k < members@.len() ==> #[trigger] Json::Object(members)@->Object_0[k]
                == (MemberView { name: members@[k].name@, value: members@[k].value@ }),
{
}

/// What the view of an array holds, item by item.
pub proof fn lemma_array_view(items: Vec<Json>)
    ensures
        Json::Array(items)@ is Array,
        Json::Array(items)@->Array_0.len() == items@.len(),
        forall|k: int|
            0 <= k < items@.len() ==> #[trigger] Json::Array(items)@->Array_0[k] == items@[k]@,
{
}

impl Json {
    /// The text of a string value.
    pub fn as_text(&self) -> (r: Option<&String>)
        ensures
            match r {
                Some(s) => self@ == JsonView::Text(s@),
                None => !(self@ is Text),
            },
    {
        match self {
            Json::Text(s) => Some(s),
            _ => None,
        }
    }

    /// The truth value of a boolean.
    pub fn as_bool(&self) -> (r: Option<bool>)
        ensures
            match r {
                Some(b) => self@ == JsonView::Bool(b),
                None => !(self@ is Bool),
            },
    {
        match self {
            Json::Bool(b) => Some(*b),
            _ => None,
        }
    }

    /// The items of an array.
    pub fn as_array(&self) -> (r: Option<&Vec<Json>>)
        ensures
            match r {
                Some(items) => *self == Json::Array(*items),
                None => !(self@ is Array),
            },
    {
        match self {
            Json::Array(items) => Some(items),
            _ => None,
        }
    }

    /// The members of an object, in order.
    pub fn as_object(&self) -> (r: Option<&Vec<Member>>)
        ensures
            match r {
                Some(members) => *self == Json::Object(*members),
                None => !(self@ is Object),
            },
    {
        match self {
            Json::Object(members) => Some(members),
            _ => None,
        }
    }

    /// Whether the value is `null`.
    pub fn is_null(&self) -> (r: bool)
        ensures
            r == (self@ is Null),
    {
        match self {
            Json::Null => true,
            _ => false,
        }
    }

    /// Reads a document from its text.
    pub fn parse(text: &str) -> (r: Result<Json, String>)
        ensures
            parsed_view(r) == json_parse(text@),
    {
        match parse_value(text) {
            Ok(value) => Ok(json_of_value(value)),
            Err(message) => Err(message),
        }
    }

    /// Writes the document as compact text.
    pub fn to_text(&self) -> (r: String)
        ensures
            r@ == render(self@),
        decreases self,
    {
        match self {
            Json::Null => String::from_str("null"),
            Json::Bool(b) => if *b {
                String::from_str("true")
            } else {
                String::from_str("false")
            },
            Json::Number(text) => text.clone(),
            Json::Text(text) => string_literal(text.as_str()),
            Json::Array(items) => {
                let ghost parts = render_items(self@->Array_0);
                proof {
                    lemma_array_view(*items);
                }
                let mut out = String::from_str("[");
                let mut i: usize = 0;
                while i < items.len()
                    invariant
                        i <= items.len(),
                        *self == Json::Array(*items),
                        self@->Array_0.len() == items@.len(),
                        parts.len() == items@.len(),
                        forall|k: int| 0 <= k < items@.len() ==> #[trigger] parts[k] == render(items@[k]@),
                        out@ == "["@ + join(parts.take(i as int), ","@),
                    decreases items.len() - i,
                {
                    if i > 0 {
                        out.append(",");
                    }
                    let part = items[i].to_text();
                    out.append(part.as_str());
                    proof {
                        assert(parts.take(i as int + 1).drop_last() == parts.take(i as int));
                        assert(parts.take(i as int + 1).last() == parts[i as int]);
                    }
                    i += 1;
                }
                out.append("]");
                proof {
                    assert(parts.take(items@.len() as int) == parts);
                }
                out
            },
            Json::Object(members) => {
                let ghost parts = render_members(self@->Object_0);
                proof {
                    lemma_object_view(*members);
                }
                let mut out = String::from_str("{");
                let mut i: usize = 0;
                while i < members.len()
                    invariant
                        i <= members.len(),
                        *self == Json::Object(*members),
                        self@->Object_0.len() == members@.len(),
                        parts.len() == members@.len(),
                        forall|k: int|
                            0 <= k < members@.len() ==> #[trigger] parts[k] == json_string_literal(
                                members@[k].name@,
                            ) + ":"@ + render(members@[k].value@),
                        out@ == "{"@ + join(parts.take(i as int), ","@),
                    decreases members.len() - i,
                {
                    if i > 0 {
                        out.append(",");
                    }
                    let name = string_literal(members[i].name.as_str());
                    out.append(name.as_str());
                    out.append(":");
                    let part = members[i].value.to_text();
                    out.append(part.as_str());
                    proof {
                        assert(parts.take(i as int + 1).drop_last() == parts.take(i as int));
                        assert(parts.take(i as int + 1).last() == parts[i as int]);
                    }
                    i += 1;
                }
                out.append("}");
                proof {
                    assert(parts.take(members@.len() as int) == parts);
                }
                out
            },
        }
    }

    /// Looks a member up by name.
    pub fn get(&self, name: &str) -> (r: Option<&Json>)
        ensures
            match r {
                Some(value) => member(self@, name@) == Some(value@),
                None => member(self@, name@) is None,
            },
    {
        match self {
            Json::Object(members) => {
                let mut i: usize = 0;
                proof {
                    lemma_object_view(*members);
                }
                while i < members.len()
                    invariant
                        i <= members.len(),
                        self@ is Object,
                        self@->Object_0.len() == members@.len(),
                        forall|k: int|
                            0 <= k < members@.len() ==> #[trigger] self@->Object_0[k]
                                == (MemberView { name: members@[k].name@, value: members@[k].value@ }),
                        member_from(self@->Object_0, name@, i as int) == member(self@, name@),
                    decreases members.len() - i,
                {
                    if crate::text::same_text(members[i].name.as_str(), name) {
                        return Some(&members[i].value);
                    }
                    i += 1;
                }
                None
            },
            _ => None,
        }
    }
}

} // verus!
