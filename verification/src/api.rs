use crate::config::Config;
use crate::document::{
    field_name, read_object, read_text, read_texts, required_object, required_text,
    required_texts, DocumentFault, DocumentFaultView, Field, ShapeFault,
};
use crate::errors::{ApiError, ApiErrorView};
use crate::json::{
    json_parse, lemma_object_view, parsed_view, render, Json, JsonView, Member, MemberView,
};
use crate::text::{contains, joined, str_contains};
use vstd::prelude::*;
use vstd::string::*;

verus! {

/// A status of the success class.
pub open spec fn is_success_code(status: u16) -> bool {
    200 <= status < 300
}

/// A status of the client-error class.
pub open spec fn is_client_error_code(status: u16) -> bool {
    400 <= status < 500
}

/// A status of the server-error class.
pub open spec fn is_server_error_code(status: u16) -> bool {
    500 <= status < 600
}

/// Whether a status is of the success class.
pub fn is_success(status: u16) -> (r: bool)
    ensures
        r == is_success_code(status),
{
    200 <= status && status < 300
}

/// Whether a status is of the client-error class.
pub fn is_client_error(status: u16) -> (r: bool)
    ensures
        r == is_client_error_code(status),
{
    400 <= status && status < 500
}

/// Whether a status is of the server-error class.
pub fn is_server_error(status: u16) -> (r: bool)
    ensures
        r == is_server_error_code(status),
{
    500 <= status && status < 600
}

/// The verbs of the remote API. `List` is the API's own verb for reading a collection.
#[derive(Clone, Copy, Debug, PartialEq, Eq, Structural)]
pub enum Method {
    Get,
    Put,
    List,
}

/// A verb as it goes over the wire.
pub open spec fn method_name(method: Method) -> Seq<char> {
    match method {
        Method::Get => "GET"@,
        Method::Put => "PUT"@,
        Method::List => "LIST"@,
    }
}

impl Method {
    /// The verb as it goes over the wire.
    pub fn name(self) -> (r: &'static str)
        ensures
            r@ == method_name(self),
    {
        match self {
            Method::Get => "GET",
            Method::Put => "PUT",
            Method::List => "LIST",
        }
    }
}

/// A request to the remote API, ready to be sent: every request carries the token in
/// its header.
#[derive(Debug)]
pub struct Request {
    pub method: Method,
    pub url: String,
    pub header_name: String,
    pub header_value: String,
    /// The JSON text of the body, where the request has one.
    pub body: Option<String>,
}

/// What came back for a request: the status and the body's text.
#[derive(Debug)]
pub struct Response {
    pub status: u16,
    pub body: String,
}

/// What stands in the way of a client.
#[derive(Clone, Copy, Debug, PartialEq, Eq, Structural)]
pub enum ClientFault {
    /// The token cannot stand in a header.
    TokenNotHeaderValue,
    /// A custom certificate authority is set and no certificate was handed over.
    CertificateMissing,
}

/// The client of the remote API: where the server is, the token that every request
/// carries, and how the server's certificate is judged. It is made once and not changed.
#[derive(Debug)]
pub struct ApiClient {
    address: String,
    token: String,
    accept_invalid_certs: bool,
    certificate: Option<reqwest::Certificate>,
}

/// The mathematical value of an `ApiClient`.
pub ghost struct ApiClientView {
    /// The server's address.
    pub address: Seq<char>,
    /// The token that every request carries.
    pub token: Seq<char>,
    /// Whether a certificate that cannot be verified is accepted all the same.
    pub accept_invalid_certs: bool,
    /// The certificate of the custom certificate authority, where one is set.
    pub certificate: Option<reqwest::Certificate>,
}

impl View for ApiClient {
    type V = ApiClientView;

    closed spec fn view(&self) -> ApiClientView {
        ApiClientView {
            address: self.address@,
            token: self.token@,
            accept_invalid_certs: self.accept_invalid_certs,
            certificate: self.certificate,
        }
    }
}

/// A character that may stand in a header's value: a tab, or anything from the space
/// upwards but the delete character.
pub open spec fn is_header_char(c: char) -> bool {
    c == '\t' || (c >= ' ' && c != '\x7f')
}

/// A text that may stand as a header's value.
pub open spec fn is_header_value(text: Seq<char>) -> bool {
    forall|i: int| 0 <= i < text.len() ==> is_header_char(#[trigger] text[i])
}

/// `reqwest::header::HeaderValue::from_str`: whether a text is accepted as a header's
/// value. It is, where every byte is a tab or at least 32 and not 127; the bytes of a
/// character beyond ASCII are all above 127.
#[verifier::external_body]
fn header_value_accepted(text: &str) -> (r: bool)
    ensures
        r == is_header_value(text@),
{
    reqwest::header::HeaderValue::from_str(text).is_ok()
}

/// The name of the header that carries the token.
pub open spec fn token_header() -> Seq<char> {
    "X-Vault-Token"@
}

/// The body of a signing request: an object whose one member holds the public key.
pub open spec fn sign_body(key: Seq<char>) -> JsonView {
    JsonView::Object(
        seq![MemberView { name: field_name(Field::PublicKey), value: JsonView::Text(key) }],
    )
}

/// The API error that an error message of the server stands for. The messages are told
/// apart by what they contain, in this order.
pub open spec fn error_of_message(message: Seq<char>) -> ApiErrorView {
    if contains(message, "permission denied"@) {
        ApiErrorView::PermissionDenied
    } else if contains(message, "missing public_key"@) || contains(
        message,
        "failed to parse public_key as SSH key"@,
    ) {
        ApiErrorView::InvalidPublicKey
    } else if contains(message, "Unknown role"@) {
        ApiErrorView::UnknownRole
    } else {
        ApiErrorView::UnknownError
    }
}

/// The API error that the error messages of a reply stand for: the first one counts.
/// Where there is none, the error is unknown.
pub open spec fn error_of_messages(messages: Seq<Seq<char>>) -> ApiErrorView {
    if messages.len() == 0 {
        ApiErrorView::UnknownError
    } else {
        error_of_message(messages[0])
    }
}

/// The error messages that the body of a refused request holds.
pub open spec fn decode_errors(doc: JsonView) -> Result<Seq<Seq<char>>, ShapeFault> {
    if !(doc is Object) {
        Err(ShapeFault::NotAnObject)
    } else {
        required_texts(doc, Field::Errors)
    }
}

/// The object under `data` in the body of a reply.
pub open spec fn decode_data(doc: JsonView) -> Result<JsonView, ShapeFault> {
    if !(doc is Object) {
        Err(ShapeFault::NotAnObject)
    } else {
        required_object(doc, Field::Data)
    }
}

/// The signed certificate that the body of a reply holds.
pub open spec fn decode_signed_key(doc: JsonView) -> Result<Seq<char>, ShapeFault> {
    match decode_data(doc) {
        Err(fault) => Err(fault),
        Ok(data) => required_text(data, Field::SignedKey),
    }
}

/// The role names that the body of a reply holds.
pub open spec fn decode_role_keys(doc: JsonView) -> Result<Seq<Seq<char>>, ShapeFault> {
    match decode_data(doc) {
        Err(fault) => Err(fault),
        Ok(data) => required_texts(data, Field::Keys),
    }
}

/// The error that a reply of the client-error class stands for, given the parser's
/// verdict on its body.
pub open spec fn client_error(parsed: Result<JsonView, Seq<char>>) -> ApiErrorView {
    match parsed {
        Err(message) => ApiErrorView::DecodeFailure(DocumentFaultView::Syntax(message)),
        Ok(doc) => match decode_errors(doc) {
            Err(fault) => ApiErrorView::DecodeFailure(DocumentFaultView::Shape(fault)),
            Ok(messages) => error_of_messages(messages),
        },
    }
}

/// What a reply to a signing request means, given its status and the parser's verdict
/// on its body.
pub open spec fn sign_answer(status: u16, parsed: Result<JsonView, Seq<char>>) -> Result<
    Seq<char>,
    ApiErrorView,
> {
    if is_client_error_code(status) {
        Err(client_error(parsed))
    } else if is_server_error_code(status) {
        Err(ApiErrorView::ServerError)
    } else {
        match parsed {
            Err(message) => Err(ApiErrorView::DecodeFailure(DocumentFaultView::Syntax(message))),
            Ok(doc) => match decode_signed_key(doc) {
                Err(fault) => Err(ApiErrorView::DecodeFailure(DocumentFaultView::Shape(fault))),
                Ok(key) => Ok(key),
            },
        }
    }
}

/// What a reply to a request for the roles means, given its status and the parser's
/// verdict on its body.
pub open spec fn roles_answer(status: u16, parsed: Result<JsonView, Seq<char>>) -> Result<
    Seq<Seq<char>>,
    ApiErrorView,
> {
    if is_client_error_code(status) {
        Err(client_error(parsed))
    } else if is_server_error_code(status) {
        Err(ApiErrorView::ServerError)
    } else {
        match parsed {
            Err(message) => Err(ApiErrorView::DecodeFailure(DocumentFaultView::Syntax(message))),
            Ok(doc) => match decode_role_keys(doc) {
                Err(fault) => Err(ApiErrorView::DecodeFailure(DocumentFaultView::Shape(fault))),
                Ok(keys) => Ok(keys),
            },
        }
    }
}

/// An outcome that holds a text, seen as mathematical values.
pub open spec fn text_outcome(outcome: Result<String, ApiError>) -> Result<
    Seq<char>,
    ApiErrorView,
> {
    match outcome {
        Ok(text) => Ok(text@),
        Err(error) => Err(error@),
    }
}

/// An outcome that holds texts, seen as mathematical values.
pub open spec fn texts_outcome(outcome: Result<Vec<String>, ApiError>) -> Result<
    Seq<Seq<char>>,
    ApiErrorView,
> {
    match outcome {
        Ok(texts) => Ok(texts.deep_view()),
        Err(error) => Err(error@),
    }
}

/// An outcome that holds a truth value, seen as mathematical values.
pub open spec fn bool_outcome(outcome: Result<bool, ApiError>) -> Result<bool, ApiErrorView> {
    match outcome {
        Ok(b) => Ok(b),
        Err(error) => Err(error@),
    }
}

/// The mapping of the server's error messages, case by case: a message that contains
/// "permission denied" means that permission was denied; one that does not, and
/// contains "missing public_key" or "failed to parse public_key as SSH key", means an
/// invalid public key; one that contains none of these and contains "Unknown role"
/// means an unknown role; every other message means an unknown error. Of several
/// messages only the first one counts.
pub proof fn lemma_error_mapping(messages: Seq<Seq<char>>)
    requires
        messages.len() > 0,
    ensures
        error_of_messages(messages) == error_of_message(messages[0]),
        error_of_messages(messages) == error_of_messages(seq![messages[0]]),
        contains(messages[0], "permission denied"@) ==> error_of_messages(messages)
            == ApiErrorView::PermissionDenied,
        !contains(messages[0], "permission denied"@) && (contains(
            messages[0],
            "missing public_key"@,
        ) || contains(messages[0], "failed to parse public_key as SSH key"@))
            ==> error_of_messages(messages) == ApiErrorView::InvalidPublicKey,
        !contains(messages[0], "permission denied"@) && !contains(
            messages[0],
            "missing public_key"@,
        ) && !contains(messages[0], "failed to parse public_key as SSH key"@) && contains(
            messages[0],
            "Unknown role"@,
        ) ==> error_of_messages(messages) == ApiErrorView::UnknownRole,
        !contains(messages[0], "permission denied"@) && !contains(
            messages[0],
            "missing public_key"@,
        ) && !contains(messages[0], "failed to parse public_key as SSH key"@) && !contains(
            messages[0],
            "Unknown role"@,
        ) ==> error_of_messages(messages) == ApiErrorView::UnknownError,
{
}

impl ApiClient {
    /// Makes a client from the configuration. Certificates are verified where the
    /// configuration says so. Where a custom certificate authority is set, its
    /// certificate must be handed over; where none is set, `certificate` is dropped.
    pub fn from_config(config: &Config, certificate: Option<reqwest::Certificate>) -> (r: Result<
        ApiClient,
        ClientFault,
    >)
        ensures
            match r {
                Ok(client) => {
                    &&& is_header_value(config.token@)
                    &&& client@.address == config.server@
                    &&& client@.token == config.token@
                    &&& client@.accept_invalid_certs == !config.tls
                    &&& client@.certificate == if config.custom_ca@.len() > 0 {
                        certificate
                    } else {
                        None
                    }
                    &&& config.custom_ca@.len() > 0 ==> certificate is Some
                },
                Err(ClientFault::TokenNotHeaderValue) => !is_header_value(config.token@),
                Err(ClientFault::CertificateMissing) => is_header_value(config.token@)
                    && config.custom_ca@.len() > 0 && certificate is None,
            },
    {
        if !header_value_accepted(config.token.as_str()) {
            return Err(ClientFault::TokenNotHeaderValue);
        }
        let certificate = if config.uses_custom_ca() {
            if certificate.is_none() {
                return Err(ClientFault::CertificateMissing);
            }
            certificate
        } else {
            None
        };
        Ok(
            ApiClient {
                address: config.server.clone(),
                token: config.token.clone(),
                accept_invalid_certs: !config.tls,
                certificate,
            },
        )
    }

    /// The server's address.
    pub fn address(&self) -> (r: &String)
        ensures
            r@ == self@.address,
    {
        &self.address
    }

    /// The token that every request carries.
    pub fn token(&self) -> (r: &String)
        ensures
            r@ == self@.token,
    {
        &self.token
    }

    /// Whether a certificate that cannot be verified is accepted all the same.
    pub fn accepts_invalid_certificates(&self) -> (r: bool)
        ensures
            r == self@.accept_invalid_certs,
    {
        self.accept_invalid_certs
    }

    /// The certificate of the custom certificate authority, where one is set.
    pub fn certificate(&self) -> (r: &Option<reqwest::Certificate>)
        ensures
            *r == self@.certificate,
    {
        &self.certificate
    }

    /// A request for `path` below the server's address.
    fn request(&self, method: Method, path: &str, body: Option<String>) -> (r: Request)
        ensures
            r.method == method,
            r.url@ == self@.address + path@,
            r.header_name@ == token_header(),
            r.header_value@ == self@.token,
            r.body == body,
    {
        Request {
            method,
            url: joined(self.address.as_str(), path),
            header_name: String::from_str("X-Vault-Token"),
            header_value: self.token.clone(),
            body,
        }
    }

    /// The request that asks the server about the token itself.
    pub fn validate_request(&self) -> (r: Request)
        ensures
            r.method == Method::Get,
            r.url@ == self@.address + "/v1/auth/token/lookup-self"@,
            r.header_name@ == token_header(),
            r.header_value@ == self@.token,
            r.body is None,
    {
        self.request(Method::Get, "/v1/auth/token/lookup-self", None)
    }

    /// The request that asks for `key` to be signed under `role`.
    pub fn sign_request(&self, role: &str, key: &str) -> (r: Request)
        ensures
            r.method == Method::Put,
            r.url@ == self@.address + "/v1/ssh-ca/sign/"@ + role@,
            r.header_name@ == token_header(),
            r.header_value@ == self@.token,
            r.body matches Some(body) && body@ == render(sign_body(key@)),
    {
        let mut members: Vec<Member> = Vec::new();
        members.push(
            Member {
                name: String::from_str(Field::PublicKey.name()),
                value: Json::Text(String::from_str(key)),
            },
        );
        proof {
            lemma_object_view(members);
            assert(Json::Object(members)@->Object_0 =~= sign_body(key@)->Object_0);
        }
        let body = Json::Object(members).to_text();
        let path = joined("/v1/ssh-ca/sign/", role);
        let r = self.request(Method::Put, path.as_str(), Some(body));
        assert(r.url@ =~= self@.address + "/v1/ssh-ca/sign/"@ + role@);
        r
    }

    /// The request that asks for the roles to sign as.
    pub fn list_roles_request(&self) -> (r: Request)
        ensures
            r.method == Method::List,
            r.url@ == self@.address + "/v1/ssh-ca/roles"@,
            r.header_name@ == token_header(),
            r.header_value@ == self@.token,
            r.body is None,
    {
        self.request(Method::List, "/v1/ssh-ca/roles", None)
    }

    /// Converts the error messages of a refused request to an API error.
    pub fn response_to_error(messages: &Vec<String>) -> (r: ApiError)
        ensures
            r@ == error_of_messages(messages.deep_view()),
    {
        if messages.len() == 0 {
            return ApiError::UnknownError;
        }
        let first = messages[0].as_str();
        assert(messages.deep_view()[0] == first@);
        if str_contains(first, "permission denied") {
            ApiError::PermissionDenied
        } else if str_contains(first, "missing public_key") || str_contains(
            first,
            "failed to parse public_key as SSH key",
        ) {
            ApiError::InvalidPublicKey
        } else if str_contains(first, "Unknown role") {
            ApiError::UnknownRole
        } else {
            ApiError::UnknownError
        }
    }

    /// The error that a reply of the client-error class stands for, given the parser's
    /// verdict on its body.
    pub fn refusal(parsed: Result<Json, String>) -> (r: ApiError)
        ensures
            r@ == client_error(parsed_view(parsed)),
    {
        match parsed {
            Err(message) => ApiError::DecodeFailure(DocumentFault::Syntax(message)),
            Ok(doc) => {
                if doc.as_object().is_none() {
                    return ApiError::DecodeFailure(DocumentFault::Shape(ShapeFault::NotAnObject));
                }
                match read_texts(&doc, Field::Errors) {
                    Err(fault) => ApiError::DecodeFailure(DocumentFault::Shape(fault)),
                    Ok(messages) => ApiClient::response_to_error(&messages),
                }
            },
        }
    }

    /// Reads the object under `data` in the body of a reply.
    fn data_of(doc: &Json) -> (r: Result<&Json, ShapeFault>)
        ensures
            match r {
                Ok(data) => decode_data(doc@) == Ok::<JsonView, ShapeFault>(data@),
                Err(fault) => decode_data(doc@) == Err::<JsonView, ShapeFault>(fault),
            },
    {
        if doc.as_object().is_none() {
            return Err(ShapeFault::NotAnObject);
        }
        read_object(doc, Field::Data)
    }

    /// What a reply to a signing request means, given its status and the parser's
    /// verdict on its body.
    pub fn sign_parsed(status: u16, parsed: Result<Json, String>) -> (r: Result<String, ApiError>)
        ensures
            text_outcome(r) == sign_answer(status, parsed_view(parsed)),
    {
        if is_client_error(status) {
            Err(ApiClient::refusal(parsed))
        } else if is_server_error(status) {
            Err(ApiError::ServerError)
        } else {
            match parsed {
                Err(message) => Err(ApiError::DecodeFailure(DocumentFault::Syntax(message))),
                Ok(doc) => match ApiClient::data_of(&doc) {
                    Err(fault) => Err(ApiError::DecodeFailure(DocumentFault::Shape(fault))),
                    Ok(data) => match read_text(data, Field::SignedKey) {
                        Err(fault) => Err(ApiError::DecodeFailure(DocumentFault::Shape(fault))),
                        Ok(key) => Ok(key),
                    },
                },
            }
        }
    }

    /// What a reply to a request for the roles means, given its status and the parser's
    /// verdict on its body.
    pub fn list_roles_parsed(status: u16, parsed: Result<Json, String>) -> (r: Result<
        Vec<String>,
        ApiError,
    >)
        ensures
            texts_outcome(r) == roles_answer(status, parsed_view(parsed)),
    {
        if is_client_error(status) {
            Err(ApiClient::refusal(parsed))
        } else if is_server_error(status) {
            Err(ApiError::ServerError)
        } else {
            match parsed {
                Err(message) => Err(ApiError::DecodeFailure(DocumentFault::Syntax(message))),
                Ok(doc) => match ApiClient::data_of(&doc) {
                    Err(fault) => Err(ApiError::DecodeFailure(DocumentFault::Shape(fault))),
                    Ok(data) => match read_texts(data, Field::Keys) {
                        Err(fault) => Err(ApiError::DecodeFailure(DocumentFault::Shape(fault))),
                        Ok(keys) => Ok(keys),
                    },
                },
            }
        }
    }

    /// Whether the token is valid, from what came back for `validate_request`: `true`
    /// where the server answered with a status of the success class. A request that
    /// could not be sent is an error of its own, not a `false`.
    pub fn validate(&self, reply: Result<Response, String>) -> (r: Result<bool, ApiError>)
        ensures
            bool_outcome(r) == match reply {
                Err(reason) => Err::<bool, ApiErrorView>(ApiErrorView::SendFailure(reason@)),
                Ok(response) => Ok::<bool, ApiErrorView>(is_success_code(response.status)),
            },
    {
        match reply {
            Err(reason) => Err(ApiError::SendFailure(reason)),
            Ok(response) => Ok(is_success(response.status)),
        }
    }

    /// The signed certificate, from what came back for `sign_request`.
    pub fn sign(&self, reply: Result<Response, String>) -> (r: Result<String, ApiError>)
        ensures
            text_outcome(r) == match reply {
                Err(reason) => Err::<Seq<char>, ApiErrorView>(ApiErrorView::SendFailure(reason@)),
                Ok(response) => sign_answer(response.status, json_parse(response.body@)),
            },
    {
        match reply {
            Err(reason) => Err(ApiError::SendFailure(reason)),
            Ok(response) => {
                if is_server_error(response.status) {
                    Err(ApiError::ServerError)
                } else {
                    ApiClient::sign_parsed(response.status, Json::parse(response.body.as_str()))
                }
            },
        }
    }

    /// The roles to sign as, from what came back for `list_roles_request`.
    pub fn list_roles(&self, reply: Result<Response, String>) -> (r: Result<
        Vec<String>,
        ApiError,
    >)
        ensures
            texts_outcome(r) == match reply {
                Err(reason) => Err::<Seq<Seq<char>>, ApiErrorView>(
                    ApiErrorView::SendFailure(reason@),
                ),
                Ok(response) => roles_answer(response.status, json_parse(response.body@)),
            },
    {
        match reply {
            Err(reason) => Err(ApiError::SendFailure(reason)),
            Ok(response) => {
                if is_server_error(response.status) {
                    Err(ApiError::ServerError)
                } else {
                    ApiClient::list_roles_parsed(
                        response.status,
                        Json::parse(response.body.as_str()),
                    )
                }
            },
        }
    }
}

} // verus!
