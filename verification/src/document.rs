use crate::json::{lemma_array_view, member, Json, JsonView};
use crate::text::joined3;
use vstd::prelude::*;
use vstd::string::*;

verus! {

/// The members that the documents of this library are made of: those of the stored
/// configuration, of a profile, and of the remote API's requests and replies.
#[derive(Clone, Copy, Debug, PartialEq, Eq, Structural)]
pub enum Field {
    Server,
    Token,
    Path,
    CustomCa,
    Tls,
    Profiles,
    Username,
    Address,
    Role,
    PrivateKey,
    PublicKey,
    Options,
    Errors,
    Data,
    SignedKey,
    Keys,
}

/// The name under which a member stands in a document.
pub open spec fn field_name(field: Field) -> Seq<char> {
    match field {
        Field::Server => "server"@,
        Field::Token => "token"@,
        Field::Path => "path"@,
        Field::CustomCa => "custom_ca"@,
        Field::Tls => "tls"@,
        Field::Profiles => "profiles"@,
        Field::Username => "username"@,
        Field::Address => "address"@,
        Field::Role => "role"@,
        Field::PrivateKey => "private_key"@,
        Field::PublicKey => "public_key"@,
        Field::Options => "options"@,
        Field::Errors => "errors"@,
        Field::Data => "data"@,
        Field::SignedKey => "signed_key"@,
        Field::Keys => "keys"@,
    }
}

/// No two members share a name.
pub proof fn lemma_field_names_differ(a: Field, b: Field)
    requires
        a != b,
    ensures
        field_name(a) != field_name(b),
{
    reveal_strlit("server");
    reveal_strlit("token");
    reveal_strlit("path");
    reveal_strlit("custom_ca");
    reveal_strlit("tls");
    reveal_strlit("profiles");
    reveal_strlit("username");
    reveal_strlit("address");
    reveal_strlit("role");
    reveal_strlit("private_key");
    reveal_strlit("public_key");
    reveal_strlit("options");
    reveal_strlit("errors");
    reveal_strlit("data");
    reveal_strlit("signed_key");
    reveal_strlit("keys");
    let x = field_name(a);
    let y = field_name(b);
    if x.len() == y.len() {
        assert(x[0] != y[0] || x[1] != y[1] || x[2] != y[2]);
    }
}

impl Field {
    /// The name under which the member stands in a document.
    pub fn name(self) -> (r: &'static str)
        ensures
            r@ == field_name(self),
    {
        match self {
            Field::Server => "server",
            Field::Token => "token",
            Field::Path => "path",
            Field::CustomCa => "custom_ca",
            Field::Tls => "tls",
            Field::Profiles => "profiles",
            Field::Username => "username",
            Field::Address => "address",
            Field::Role => "role",
            Field::PrivateKey => "private_key",
            Field::PublicKey => "public_key",
            Field::Options => "options",
            Field::Errors => "errors",
            Field::Data => "data",
            Field::SignedKey => "signed_key",
            Field::Keys => "keys",
        }
    }
}

/// Why a document that is valid JSON does not have the shape that was asked for.
#[derive(Clone, Copy, Debug, PartialEq, Eq, Structural)]
pub enum ShapeFault {
    /// An object was expected where another kind of value stands.
    NotAnObject,
    /// A member that must be there is not.
    Missing(Field),
    /// A member holds a value of another kind than its own.
    Invalid(Field),
}

/// Why a text could not be read as the document that was asked for.
#[derive(Debug)]
pub enum DocumentFault {
    /// The text is not JSON; the parser's message says where and why.
    Syntax(String),
    /// The text is JSON of another shape.
    Shape(ShapeFault),
}

/// The mathematical value of a fault in a document.
pub ghost enum DocumentFaultView {
    Syntax(Seq<char>),
    Shape(ShapeFault),
}

impl View for DocumentFault {
    type V = DocumentFaultView;

    open spec fn view(&self) -> DocumentFaultView {
        match self {
            DocumentFault::Syntax(message) => DocumentFaultView::Syntax(message@),
            DocumentFault::Shape(shape) => DocumentFaultView::Shape(*shape),
        }
    }
}

/// The text under a member that must be there.
pub open spec fn required_text(doc: JsonView, field: Field) -> Result<Seq<char>, ShapeFault> {
    match member(doc, field_name(field)) {
        None => Err(ShapeFault::Missing(field)),
        Some(JsonView::Text(text)) => Ok(text),
        Some(_) => Err(ShapeFault::Invalid(field)),
    }
}

/// The text under a member that may be left out, or stand as `null`.
pub open spec fn optional_text(doc: JsonView, field: Field) -> Result<
    Option<Seq<char>>,
    ShapeFault,
> {
    match member(doc, field_name(field)) {
        None => Ok(None),
        Some(JsonView::Null) => Ok(None),
        Some(JsonView::Text(text)) => Ok(Some(text)),
        Some(_) => Err(ShapeFault::Invalid(field)),
    }
}

/// The truth value under a member that must be there.
pub open spec fn required_bool(doc: JsonView, field: Field) -> Result<bool, ShapeFault> {
    match member(doc, field_name(field)) {
        None => Err(ShapeFault::Missing(field)),
        Some(JsonView::Bool(b)) => Ok(b),
        Some(_) => Err(ShapeFault::Invalid(field)),
    }
}

/// The truth value under a member that may be left out, or stand as `null`.
pub open spec fn optional_bool(doc: JsonView, field: Field) -> Result<Option<bool>, ShapeFault> {
    match member(doc, field_name(field)) {
        None => Ok(None),
        Some(JsonView::Null) => Ok(None),
        Some(JsonView::Bool(b)) => Ok(Some(b)),
        Some(_) => Err(ShapeFault::Invalid(field)),
    }
}

/// The texts that some items hold, where each of them is a text.
pub open spec fn texts_of(items: Seq<JsonView>) -> Option<Seq<Seq<char>>>
    decreases items.len(),
{
    if items.len() == 0 {
        Some(Seq::empty())
    } else {
        match (texts_of(items.drop_last()), items.last()) {
            (Some(texts), JsonView::Text(text)) => Some(texts.push(text)),
            _ => None,
        }
    }
}

/// The texts under a member that must be there as an array of texts.
pub open spec fn required_texts(doc: JsonView, field: Field) -> Result<
    Seq<Seq<char>>,
    ShapeFault,
> {
    match member(doc, field_name(field)) {
        None => Err(ShapeFault::Missing(field)),
        Some(JsonView::Array(items)) => match texts_of(items) {
            Some(texts) => Ok(texts),
            None => Err(ShapeFault::Invalid(field)),
        },
        Some(_) => Err(ShapeFault::Invalid(field)),
    }
}

/// The object under a member that must be there as an object.
pub open spec fn required_object(doc: JsonView, field: Field) -> Result<JsonView, ShapeFault> {
    match member(doc, field_name(field)) {
        None => Err(ShapeFault::Missing(field)),
        Some(value) => if value is Object {
            Ok(value)
        } else {
            Err(ShapeFault::Invalid(field))
        },
    }
}

/// The view of a text that may be absent.
pub open spec fn text_view(text: Option<String>) -> Option<Seq<char>> {
    match text {
        Some(t) => Some(t@),
        None => None,
    }
}

/// A text, or what stands in for it where it is absent.
pub open spec fn text_or(text: Option<Seq<char>>, default: Seq<char>) -> Seq<char> {
    match text {
        Some(t) => t,
        None => default,
    }
}

/// A text, or what stands in for it where it is absent.
pub fn text_or_default(text: Option<String>, default: &str) -> (r: String)
    ensures
        r@ == text_or(text_view(text), default@),
{
    match text {
        Some(t) => t,
        None => String::from_str(default),
    }
}

/// Reads the text under a member that must be there.
pub fn read_text(doc: &Json, field: Field) -> (r: Result<String, ShapeFault>)
    ensures
        match r {
            Ok(text) => required_text(doc@, field) == Ok::<Seq<char>, ShapeFault>(text@),
            Err(fault) => required_text(doc@, field) == Err::<Seq<char>, ShapeFault>(fault),
        },
{
    match doc.get(field.name()) {
        None => Err(ShapeFault::Missing(field)),
        Some(value) => match value.as_text() {
            Some(text) => Ok(text.clone()),
            None => Err(ShapeFault::Invalid(field)),
        },
    }
}

/// Reads the text under a member that may be left out, or stand as `null`.
pub fn read_optional_text(doc: &Json, field: Field) -> (r: Result<Option<String>, ShapeFault>)
    ensures
        match r {
            Ok(text) => optional_text(doc@, field) == Ok::<Option<Seq<char>>, ShapeFault>(
                text_view(text),
            ),
            Err(fault) => optional_text(doc@, field) == Err::<Option<Seq<char>>, ShapeFault>(
                fault,
            ),
        },
{
    match doc.get(field.name()) {
        None => Ok(None),
        Some(value) => {
            if value.is_null() {
                Ok(None)
            } else {
                match value.as_text() {
                    Some(text) => Ok(Some(text.clone())),
                    None => Err(ShapeFault::Invalid(field)),
                }
            }
        },
    }
}

/// Reads the truth value under a member that must be there.
pub fn read_bool(doc: &Json, field: Field) -> (r: Result<bool, ShapeFault>)
    ensures
        r == required_bool(doc@, field),
{
    match doc.get(field.name()) {
        None => Err(ShapeFault::Missing(field)),
        Some(value) => match value.as_bool() {
            Some(b) => Ok(b),
            None => Err(ShapeFault::Invalid(field)),
        },
    }
}

/// Reads the truth value under a member that may be left out, or stand as `null`.
pub fn read_optional_bool(doc: &Json, field: Field) -> (r: Result<Option<bool>, ShapeFault>)
    ensures
        r == optional_bool(doc@, field),
{
    match doc.get(field.name()) {
        None => Ok(None),
        Some(value) => {
            if value.is_null() {
                Ok(None)
            } else {
                match value.as_bool() {
                    Some(b) => Ok(Some(b)),
                    None => Err(ShapeFault::Invalid(field)),
                }
            }
        },
    }
}

/// An item that is no text leaves no texts, whatever follows it.
proof fn lemma_texts_of_stays_none(items: Seq<JsonView>, upto: int, end: int)
    requires
        0 <= upto <= end <= items.len(),
        texts_of(items.take(upto)) is None,
    ensures
        texts_of(items.take(end)) is None,
    decreases end - upto,
{
    if upto < end {
        lemma_texts_of_stays_none(items, upto, end - 1);
        assert(items.take(end).drop_last() =~= items.take(end - 1));
    }
}

/// Reads the texts under a member that must be there as an array of texts.
pub fn read_texts(doc: &Json, field: Field) -> (r: Result<Vec<String>, ShapeFault>)
    ensures
        match r {
            Ok(texts) => required_texts(doc@, field) == Ok::<Seq<Seq<char>>, ShapeFault>(
                texts.deep_view(),
            ),
            Err(fault) => required_texts(doc@, field) == Err::<Seq<Seq<char>>, ShapeFault>(
                fault,
            ),
        },
{
    match doc.get(field.name()) {
        None => Err(ShapeFault::Missing(field)),
        Some(value) => match value.as_array() {
            None => Err(ShapeFault::Invalid(field)),
            Some(items) => {
                let ghost docs = value@->Array_0;
                proof {
                    lemma_array_view(*items);
                }
                let mut texts: Vec<String> = Vec::new();
                let mut i: usize = 0;
                assert(docs.take(0) =~= Seq::<JsonView>::empty());
                assert(texts.deep_view() =~= Seq::<Seq<char>>::empty());
                while i < items.len()
                    invariant
                        i <= items.len(),
                        member(doc@, field_name(field)) == Some(value@),
                        value@ is Array,
                        docs == value@->Array_0,
                        docs.len() == items@.len(),
                        forall|k: int| 0 <= k < items@.len() ==> #[trigger] docs[k] == items@[k]@,
                        texts_of(docs.take(i as int)) == Some(texts.deep_view()),
                    decreases items.len() - i,
                {
                    proof {
                        assert(docs.take(i as int + 1).drop_last() =~= docs.take(i as int));
                        assert(docs.take(i as int + 1).last() == docs[i as int]);
                    }
                    match items[i].as_text() {
                        Some(text) => {
                            let ghost before = texts.deep_view();
                            texts.push(text.clone());
                            assert(texts.deep_view() =~= before.push(text@));
                        },
                        None => {
                            proof {
                                assert(texts_of(docs.take(i as int + 1)) is None);
                                lemma_texts_of_stays_none(docs, i as int + 1, docs.len() as int);
                                assert(docs.take(docs.len() as int) == docs);
                            }
                            return Err(ShapeFault::Invalid(field));
                        },
                    }
                    i += 1;
                }
                assert(docs.take(items@.len() as int) == docs);
                Ok(texts)
            },
        },
    }
}

/// Reads the object under a member that must be there as an object.
pub fn read_object(doc: &Json, field: Field) -> (r: Result<&Json, ShapeFault>)
    ensures
        match r {
            Ok(value) => required_object(doc@, field) == Ok::<JsonView, ShapeFault>(value@),
            Err(fault) => required_object(doc@, field) == Err::<JsonView, ShapeFault>(fault),
        },
{
    match doc.get(field.name()) {
        None => Err(ShapeFault::Missing(field)),
        Some(value) => {
            if value.as_object().is_some() {
                Ok(value)
            } else {
                Err(ShapeFault::Invalid(field))
            }
        },
    }
}

/// What a fault in a document's shape reads like.
pub open spec fn shape_fault_text(fault: ShapeFault) -> Seq<char> {
    match fault {
        ShapeFault::NotAnObject => "expected an object"@,
        ShapeFault::Missing(field) => "missing field `"@ + field_name(field) + "`"@,
        ShapeFault::Invalid(field) => "invalid type for field `"@ + field_name(field) + "`"@,
    }
}

/// What a fault in a document reads like: the parser's own message, or the shape fault.
pub open spec fn document_fault_text(fault: DocumentFaultView) -> Seq<char> {
    match fault {
        DocumentFaultView::Syntax(message) => message,
        DocumentFaultView::Shape(shape) => shape_fault_text(shape),
    }
}

impl ShapeFault {
    /// The fault in words.
    pub fn message(&self) -> (r: String)
        ensures
            r@ == shape_fault_text(*self),
    {
        match self {
            ShapeFault::NotAnObject => String::from_str("expected an object"),
            ShapeFault::Missing(field) => joined3("missing field `", field.name(), "`"),
            ShapeFault::Invalid(field) => joined3("invalid type for field `", field.name(), "`"),
        }
    }
}

impl DocumentFault {
    /// The fault in words.
    pub fn message(&self) -> (r: String)
        ensures
            r@ == document_fault_text(self@),
    {
        match self {
            DocumentFault::Syntax(message) => message.clone(),
            DocumentFault::Shape(shape) => shape.message(),
        }
    }
}

} // verus!
