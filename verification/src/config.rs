use crate::document::{
    field_name, lemma_field_names_differ, read_bool, read_text, required_bool, required_text,
    text_view, DocumentFault, DocumentFaultView, Field, ShapeFault,
};
use crate::errors::{ConfigError, ConfigErrorView, IoFailure, IoKind};
use crate::json::{
    json_parse, lemma_object_view, member, member_from, parsed_view, render, Json, JsonView, Member,
    MemberView,
};
use crate::profile::{
    decode_profile, encode_profile, lemma_profile_round_trip, text_member, text_to_member, Profile,
    ProfileMap, ProfileView,
};
use crate::system::home_directory;
use crate::text::{chars_of, joined, joined3};
use vstd::prelude::*;
use vstd::string::*;

verus! {

/// The persisted configuration.
#[derive(Debug)]
pub struct Config {
    /// The base URL of the remote secret-management endpoint.
    pub server: String,
    /// The authentication token.
    pub token: String,
    /// The mount path of the SSH certificate authority on the server.
    pub path: String,
    /// The path of a PEM certificate of a custom certificate authority; empty where
    /// none is used.
    pub custom_ca: String,
    /// Whether certificates are verified on outbound HTTPS connections.
    pub tls: bool,
    /// The connection profiles, by name.
    pub profiles: ProfileMap,
}

/// The mathematical value of a configuration.
pub ghost struct ConfigView {
    pub server: Seq<char>,
    pub token: Seq<char>,
    pub path: Seq<char>,
    pub custom_ca: Seq<char>,
    pub tls: bool,
    pub profiles: Map<Seq<char>, ProfileView>,
}

impl View for Config {
    type V = ConfigView;

    open spec fn view(&self) -> ConfigView {
        ConfigView {
            server: self.server@,
            token: self.token@,
            path: self.path@,
            custom_ca: self.custom_ca@,
            tls: self.tls,
            profiles: self.profiles@,
        }
    }
}

/// The members that stand for some profiles: one for each name of `order`, in that
/// order, holding the profile under that name.
pub open spec fn encode_profiles(
    order: Seq<Seq<char>>,
    profiles: Map<Seq<char>, ProfileView>,
) -> Seq<MemberView> {
    Seq::new(
        order.len(),
        |i: int| MemberView { name: order[i], value: encode_profile(profiles[order[i]]) },
    )
}

/// The document that stands for a configuration, its profiles in the given order.
pub open spec fn encode_config(config: ConfigView, order: Seq<Seq<char>>) -> JsonView {
    JsonView::Object(
        seq![
            text_member(Field::Server, config.server),
            text_member(Field::Token, config.token),
            text_member(Field::Path, config.path),
            text_member(Field::CustomCa, config.custom_ca),
            MemberView { name: field_name(Field::Tls), value: JsonView::Bool(config.tls) },
            MemberView {
                name: field_name(Field::Profiles),
                value: JsonView::Object(encode_profiles(order, config.profiles)),
            },
        ],
    )
}

/// The profiles that some members stand for, or the first fault met. Where a name
/// stands twice, the later member counts.
pub open spec fn decode_profiles(members: Seq<MemberView>) -> Result<
    Map<Seq<char>, ProfileView>,
    ShapeFault,
>
    decreases members.len(),
{
    if members.len() == 0 {
        Ok(Map::empty())
    } else {
        match decode_profiles(members.drop_last()) {
            Err(fault) => Err(fault),
            Ok(profiles) => match decode_profile(members.last().value) {
                Err(fault) => Err(fault),
                Ok(profile) => Ok(profiles.insert(members.last().name, profile)),
            },
        }
    }
}

/// The profiles under the member `profiles`, which must be there as an object.
pub open spec fn required_profiles(doc: JsonView) -> Result<
    Map<Seq<char>, ProfileView>,
    ShapeFault,
> {
    match member(doc, field_name(Field::Profiles)) {
        None => Err(ShapeFault::Missing(Field::Profiles)),
        Some(JsonView::Object(members)) => decode_profiles(members),
        Some(_) => Err(ShapeFault::Invalid(Field::Profiles)),
    }
}

/// The configuration that a document stands for, or the first fault met: all six
/// members must be there, `server`, `token`, `path` and `custom_ca` as texts, `tls` as
/// a truth value, `profiles` as an object of profiles. Members of other names are
/// passed over.
pub open spec fn decode_config(doc: JsonView) -> Result<ConfigView, ShapeFault> {
    if !(doc is Object) {
        Err(ShapeFault::NotAnObject)
    } else if required_text(doc, Field::Server) is Err {
        Err(required_text(doc, Field::Server)->Err_0)
    } else if required_text(doc, Field::Token) is Err {
        Err(required_text(doc, Field::Token)->Err_0)
    } else if required_text(doc, Field::Path) is Err {
        Err(required_text(doc, Field::Path)->Err_0)
    } else if required_text(doc, Field::CustomCa) is Err {
        Err(required_text(doc, Field::CustomCa)->Err_0)
    } else if required_bool(doc, Field::Tls) is Err {
        Err(required_bool(doc, Field::Tls)->Err_0)
    } else if required_profiles(doc) is Err {
        Err(required_profiles(doc)->Err_0)
    } else {
        Ok(
            ConfigView {
                server: required_text(doc, Field::Server)->Ok_0,
                token: required_text(doc, Field::Token)->Ok_0,
                path: required_text(doc, Field::Path)->Ok_0,
                custom_ca: required_text(doc, Field::CustomCa)->Ok_0,
                tls: required_bool(doc, Field::Tls)->Ok_0,
                profiles: required_profiles(doc)->Ok_0,
            },
        )
    }
}

/// The first names of `order`, written down and read back, give the profiles under
/// those names.
proof fn lemma_profiles_round_trip(
    order: Seq<Seq<char>>,
    profiles: Map<Seq<char>, ProfileView>,
    upto: int,
)
    requires
        0 <= upto <= order.len(),
        forall|i: int| 0 <= i < order.len() ==> profiles.contains_key(#[trigger] order[i]),
    ensures
        decode_profiles(encode_profiles(order, profiles).take(upto)) == Ok::<
            Map<Seq<char>, ProfileView>,
            ShapeFault,
        >(profiles.restrict(order.take(upto).to_set())),
    decreases upto,
{
    let members = encode_profiles(order, profiles).take(upto);
    if upto == 0 {
        assert(profiles.restrict(order.take(0).to_set()) =~= Map::<
            Seq<char>,
            ProfileView,
        >::empty());
    } else {
        lemma_profiles_round_trip(order, profiles, upto - 1);
        assert(members.drop_last() =~= encode_profiles(order, profiles).take(upto - 1));
        let name = order[upto - 1];
        assert(members.last().name == name);
        assert(members.last().value == encode_profile(profiles[name]));
        lemma_profile_round_trip(profiles[name]);
        let earlier = profiles.restrict(order.take(upto - 1).to_set());
        assert(order.take(upto).to_set() =~= order.take(upto - 1).to_set().insert(name)) by {
            assert(order.take(upto) =~= order.take(upto - 1).push(name));
            order.take(upto - 1).lemma_push_to_set_commute(name);
        }
        assert(earlier.insert(name, profiles[name]) =~= profiles.restrict(
            order.take(upto).to_set(),
        ));
    }
}

/// Round trip: a configuration that was written down reads back as itself, field for
/// field, whatever the order of its profiles, and also where it has no profile.
pub proof fn lemma_config_round_trip(config: ConfigView, order: Seq<Seq<char>>)
    requires
        order.to_set() == config.profiles.dom(),
    ensures
        decode_config(encode_config(config, order)) == Ok::<ConfigView, ShapeFault>(config),
{
    let doc = encode_config(config, order);
    reveal_with_fuel(member_from, 7);
    lemma_field_names_differ(Field::Server, Field::Token);
    lemma_field_names_differ(Field::Server, Field::Path);
    lemma_field_names_differ(Field::Server, Field::CustomCa);
    lemma_field_names_differ(Field::Server, Field::Tls);
    lemma_field_names_differ(Field::Server, Field::Profiles);
    lemma_field_names_differ(Field::Token, Field::Path);
    lemma_field_names_differ(Field::Token, Field::CustomCa);
    lemma_field_names_differ(Field::Token, Field::Tls);
    lemma_field_names_differ(Field::Token, Field::Profiles);
    lemma_field_names_differ(Field::Path, Field::CustomCa);
    lemma_field_names_differ(Field::Path, Field::Tls);
    lemma_field_names_differ(Field::Path, Field::Profiles);
    lemma_field_names_differ(Field::CustomCa, Field::Tls);
    lemma_field_names_differ(Field::CustomCa, Field::Profiles);
    lemma_field_names_differ(Field::Tls, Field::Profiles);
    assert(member(doc, field_name(Field::Server)) == Some(JsonView::Text(config.server)));
    assert(member(doc, field_name(Field::Token)) == Some(JsonView::Text(config.token)));
    assert(member(doc, field_name(Field::Path)) == Some(JsonView::Text(config.path)));
    assert(member(doc, field_name(Field::CustomCa)) == Some(JsonView::Text(config.custom_ca)));
    assert(member(doc, field_name(Field::Tls)) == Some(JsonView::Bool(config.tls)));
    let members = encode_profiles(order, config.profiles);
    assert(member(doc, field_name(Field::Profiles)) == Some(JsonView::Object(members)));
    assert forall|i: int| 0 <= i < order.len() implies config.profiles.contains_key(
        #[trigger] order[i],
    ) by {
        assert(order.to_set().contains(order[i]));
    }
    lemma_profiles_round_trip(order, config.profiles, order.len() as int);
    assert(members.take(order.len() as int) == members);
    assert(order.take(order.len() as int) == order);
    assert(config.profiles.restrict(order.to_set()) =~= config.profiles);
}

/// Round trip, for the document that `to_json` writes: it reads back as the
/// configuration itself.
pub proof fn lemma_written_reads_back(config: Config)
    requires
        config.profiles.wf(),
    ensures
        decode_config(encode_config(config@, config.profiles.names())) == Ok::<
            ConfigView,
            ShapeFault,
        >(config@),
{
    config.profiles.lemma_names();
    lemma_config_round_trip(config@, config.profiles.names());
}

/// `reqwest::Certificate`, carried to the client and not looked into.
#[verifier::external_type_specification]
#[verifier::external_body]
pub struct ExCertificate(reqwest::Certificate);

/// Why `url::Url::parse` refuses a text as an absolute URL, in the words of its error;
/// `None` where it accepts the text.
pub uninterp spec fn url_parse_failure(address: Seq<char>) -> Option<Seq<char>>;

/// `url::Url::parse`: whether a text is an absolute URL. The verdict is named; of a
/// refusal the error's own words are kept.
#[verifier::external_body]
fn url_failure(address: &str) -> (r: Option<String>)
    ensures
        text_view(r) == url_parse_failure(address@),
{
    match url::Url::parse(address) {
        Ok(_) => None,
        Err(error) => Some(error.to_string()),
    }
}

/// `reqwest::Certificate::from_pem`: the certificate that some bytes hold, or the
/// error's words. The TLS library of the machine decides, so nothing is promised of the
/// outcome.
#[verifier::external_body]
fn pem_certificate(pem: &[u8]) -> (r: Result<reqwest::Certificate, String>) {
    match reqwest::Certificate::from_pem(pem) {
        Ok(certificate) => Ok(certificate),
        Err(error) => Err(error.to_string()),
    }
}

/// A relative path below a directory: the two joined by one `/`, which is left out
/// where the directory's name is empty or ends in one.
pub open spec fn path_below(directory: Seq<char>, relative: Seq<char>) -> Seq<char> {
    if directory.len() == 0 || directory.last() == '/' {
        directory + relative
    } else {
        directory + "/"@ + relative
    }
}

/// Joins a relative path to a directory.
pub fn join_path(directory: &str, relative: &str) -> (r: String)
    ensures
        r@ == path_below(directory@, relative@),
{
    let chars = chars_of(directory);
    if chars.len() == 0 || chars[chars.len() - 1] == '/' {
        joined(directory, relative)
    } else {
        joined3(directory, "/", relative)
    }
}

/// Whether `verdict` is a verdict that validation may reach on a configuration, given
/// what reading the file of its custom certificate authority gave. All is fixed but
/// whether the bytes of that file hold a certificate.
pub open spec fn is_verdict(
    config: ConfigView,
    ca_file: Option<Result<Vec<u8>, IoFailure>>,
    verdict: Result<(), ConfigError>,
) -> bool {
    match verdict {
        Ok(_) => url_parse_failure(config.server) is None && config.token.len() > 0 && (
        config.custom_ca.len() == 0 || ca_file matches Some(Ok(_))),
        Err(ConfigError::InvalidUrl(m)) => url_parse_failure(config.server) == Some(m@),
        Err(ConfigError::InvalidToken) => url_parse_failure(config.server) is None
            && config.token.len() == 0,
        Err(ConfigError::ReadError(m)) => url_parse_failure(config.server) is None
            && config.token.len() > 0 && config.custom_ca.len() > 0 && match ca_file {
            None => m@ == unread_certificate_text(),
            Some(Err(failure)) => m@ == failure.message@,
            Some(Ok(_)) => false,
        },
        Err(ConfigError::CertificateDecodeError(_)) => url_parse_failure(config.server) is None
            && config.token.len() > 0 && config.custom_ca.len() > 0
            && ca_file matches Some(Ok(_)),
        Err(_) => false,
    }
}

/// What is said where a custom certificate authority is set and its file was not
/// handed over.
pub open spec fn unread_certificate_text() -> Seq<char> {
    "the certificate authority's file was not read"@
}

impl Config {
    /// Initializes a new configuration with the provided values and no profiles.
    pub fn new(server: String, token: String, path: String, custom_ca: String, tls: bool) -> (r:
        Self)
        ensures
            r@ == (ConfigView {
                server: server@,
                token: token@,
                path: path@,
                custom_ca: custom_ca@,
                tls,
                profiles: Map::empty(),
            }),
            r.profiles.names() == Seq::<Seq<char>>::empty(),
    {
        Config { server, token, path, custom_ca, tls, profiles: ProfileMap::new() }
    }

    /// Where the configuration is stored by default: `.config/vssh.yml` below the given
    /// home directory.
    pub fn default_path_in(home: &str) -> (r: String)
        ensures
            r@ == path_below(home@, ".config/vssh.yml"@),
    {
        join_path(home, ".config/vssh.yml")
    }

    /// Where the configuration is stored by default, below the user's home directory;
    /// `None` where the system names no home directory.
    pub fn default_path() -> (r: Option<String>)
        ensures
            r matches Some(path) ==> exists|home: Seq<char>|
                path@ == path_below(home, ".config/vssh.yml"@),
    {
        let home = home_directory();
        let ghost named = home;
        let r = Config::default_path_from(home);
        proof {
            if named is Some {
                assert(r->Some_0@ == path_below(named->Some_0@, ".config/vssh.yml"@));
            }
        }
        r
    }

    /// Where the configuration is stored by default, given the home directory that the
    /// system names, if it names one.
    pub fn default_path_from(home: Option<String>) -> (r: Option<String>)
        ensures
            match home {
                Some(directory) => r matches Some(path) && path@ == path_below(
                    directory@,
                    ".config/vssh.yml"@,
                ),
                None => r is None,
            },
    {
        match home {
            Some(directory) => Some(Config::default_path_in(directory.as_str())),
            None => None,
        }
    }

    /// Writes the configuration down as a document, the profiles in their order.
    pub fn to_json(&self) -> (r: Json)
        ensures
            r@ == encode_config(self@, self.profiles.names()),
    {
        let mut entries: Vec<Member> = Vec::new();
        let count = self.profiles.len();
        let mut i: usize = 0;
        while i < count
            invariant
                count == self.profiles.names().len(),
                i <= count,
                entries@.len() == i,
                forall|k: int|
                    0 <= k < i ==> (#[trigger] entries@[k]).name@ == self.profiles.names()[k]
                        && entries@[k].value@ == encode_profile(
                        self.profiles@[self.profiles.names()[k]],
                    ),
            decreases count - i,
        {
            let (name, profile) = self.profiles.entry_at(i);
            entries.push(Member { name: name.clone(), value: profile.to_json() });
            i += 1;
        }
        let profiles = Json::Object(entries);
        proof {
            lemma_object_view(entries);
            assert(profiles@->Object_0 =~= encode_profiles(
                self.profiles.names(),
                self.profiles@,
            ));
        }
        let mut members: Vec<Member> = Vec::new();
        members.push(text_to_member(Field::Server, &self.server));
        members.push(text_to_member(Field::Token, &self.token));
        members.push(text_to_member(Field::Path, &self.path));
        members.push(text_to_member(Field::CustomCa, &self.custom_ca));
        members.push(
            Member { name: String::from_str(Field::Tls.name()), value: Json::Bool(self.tls) },
        );
        members.push(Member { name: String::from_str(Field::Profiles.name()), value: profiles });
        proof {
            lemma_object_view(members);
            assert(Json::Object(members)@->Object_0 =~= encode_config(
                self@,
                self.profiles.names(),
            )->Object_0);
        }
        Json::Object(members)
    }

    /// Reads the profiles that the members of an object stand for.
    fn profiles_from_json(members: &Vec<Member>) -> (r: Result<ProfileMap, ShapeFault>)
        ensures
            match r {
                Ok(profiles) => decode_profiles(Json::Object(*members)@->Object_0) == Ok::<
                    Map<Seq<char>, ProfileView>,
                    ShapeFault,
                >(profiles@),
                Err(fault) => decode_profiles(Json::Object(*members)@->Object_0) == Err::<
                    Map<Seq<char>, ProfileView>,
                    ShapeFault,
                >(fault),
            },
    {
        let ghost docs = Json::Object(*members)@->Object_0;
        proof {
            lemma_object_view(*members);
        }
        let mut profiles = ProfileMap::new();
        let mut i: usize = 0;
        assert(docs.take(0) =~= Seq::<MemberView>::empty());
        while i < members.len()
            invariant
                i <= members.len(),
                docs == Json::Object(*members)@->Object_0,
                docs.len() == members@.len(),
                forall|k: int|
                    0 <= k < members@.len() ==> #[trigger] docs[k] == (MemberView {
                        name: members@[k].name@,
                        value: members@[k].value@,
                    }),
                decode_profiles(docs.take(i as int)) == Ok::<
                    Map<Seq<char>, ProfileView>,
                    ShapeFault,
                >(profiles@),
            decreases members.len() - i,
        {
            proof {
                assert(docs.take(i as int + 1).drop_last() =~= docs.take(i as int));
                assert(docs.take(i as int + 1).last() == docs[i as int]);
            }
            match Profile::from_json(&members[i].value) {
                Ok(profile) => {
                    profiles.insert(members[i].name.clone(), profile);
                },
                Err(fault) => {
                    proof {
                        assert(decode_profile(docs[i as int].value) == Err::<
                            ProfileView,
                            ShapeFault,
                        >(fault));
                        assert(decode_profiles(docs.take(i as int + 1)) == Err::<
                            Map<Seq<char>, ProfileView>,
                            ShapeFault,
                        >(fault));
                        lemma_profiles_fault_stays(docs, i as int + 1, docs.len() as int);
                        assert(docs.take(docs.len() as int) == docs);
                    }
                    return Err(fault);
                },
            }
            i += 1;
        }
        assert(docs.take(members@.len() as int) == docs);
        Ok(profiles)
    }

    /// Reads a configuration from a document.
    pub fn from_json(doc: &Json) -> (r: Result<Config, ShapeFault>)
        ensures
            match r {
                Ok(config) => decode_config(doc@) == Ok::<ConfigView, ShapeFault>(config@),
                Err(fault) => decode_config(doc@) == Err::<ConfigView, ShapeFault>(fault),
            },
    {
        if doc.as_object().is_none() {
            return Err(ShapeFault::NotAnObject);
        }
        let server = match read_text(doc, Field::Server) {
            Ok(text) => text,
            Err(fault) => {
                return Err(fault);
            },
        };
        let token = match read_text(doc, Field::Token) {
            Ok(text) => text,
            Err(fault) => {
                return Err(fault);
            },
        };
        let path = match read_text(doc, Field::Path) {
            Ok(text) => text,
            Err(fault) => {
                return Err(fault);
            },
        };
        let custom_ca = match read_text(doc, Field::CustomCa) {
            Ok(text) => text,
            Err(fault) => {
                return Err(fault);
            },
        };
        let tls = match read_bool(doc, Field::Tls) {
            Ok(b) => b,
            Err(fault) => {
                return Err(fault);
            },
        };
        let profiles = match doc.get(Field::Profiles.name()) {
            None => {
                return Err(ShapeFault::Missing(Field::Profiles));
            },
            Some(value) => match value.as_object() {
                None => {
                    return Err(ShapeFault::Invalid(Field::Profiles));
                },
                Some(members) => match Config::profiles_from_json(members) {
                    Ok(profiles) => profiles,
                    Err(fault) => {
                        return Err(fault);
                    },
                },
            },
        };
        Ok(Config { server, token, path, custom_ca, tls, profiles })
    }
}

/// The outcome of reading a configuration, given what the parser says of the text: the
/// configuration that the document stands for, or the fault in the text or in the
/// document's shape.
pub open spec fn reading_of(parsed: Result<JsonView, Seq<char>>) -> Result<
    ConfigView,
    ConfigErrorView,
> {
    match parsed {
        Err(message) => Err(ConfigErrorView::JsonError(DocumentFaultView::Syntax(message))),
        Ok(doc) => match decode_config(doc) {
            Ok(config) => Ok(config),
            Err(fault) => Err(ConfigErrorView::JsonError(DocumentFaultView::Shape(fault))),
        },
    }
}

/// The outcome of reading a configuration, seen as mathematical values.
pub open spec fn outcome_view(outcome: Result<Config, ConfigError>) -> Result<
    ConfigView,
    ConfigErrorView,
> {
    match outcome {
        Ok(config) => Ok(config@),
        Err(error) => Err(error@),
    }
}

impl Config {
    /// The text under which the configuration is stored: its document, written
    /// compactly.
    pub fn write(&self) -> (r: String)
        ensures
            r@ == render(encode_config(self@, self.profiles.names())),
    {
        self.to_json().to_text()
    }

    /// Makes a configuration of a parser's verdict on the stored text.
    pub fn from_parsed(parsed: Result<Json, String>) -> (r: Result<Config, ConfigError>)
        ensures
            outcome_view(r) == reading_of(parsed_view(parsed)),
    {
        match parsed {
            Err(message) => Err(ConfigError::JsonError(DocumentFault::Syntax(message))),
            Ok(doc) => match Config::from_json(&doc) {
                Ok(config) => Ok(config),
                Err(fault) => Err(ConfigError::JsonError(DocumentFault::Shape(fault))),
            },
        }
    }

    /// Reads a configuration from the stored text.
    pub fn from_text(text: &str) -> (r: Result<Config, ConfigError>)
        ensures
            outcome_view(r) == reading_of(json_parse(text@)),
    {
        Config::from_parsed(Json::parse(text))
    }

    /// Reads the configuration from what reading its file gave: the file's text, or the
    /// failure. A file that is not there is told apart from every other failure.
    pub fn read(file: Result<String, IoFailure>) -> (r: Result<Config, ConfigError>)
        ensures
            match file {
                Err(failure) => outcome_view(r) == Err::<ConfigView, ConfigErrorView>(
                    if failure.kind == IoKind::NotFound {
                        ConfigErrorView::NonExistentConfigFile
                    } else {
                        ConfigErrorView::ReadError(failure.message@)
                    },
                ),
                Ok(text) => outcome_view(r) == reading_of(json_parse(text@)),
            },
    {
        match file {
            Err(failure) => match failure.kind {
                IoKind::NotFound => Err(ConfigError::NonExistentConfigFile),
                _ => Err(ConfigError::ReadError(failure.message)),
            },
            Ok(text) => Config::from_text(text.as_str()),
        }
    }

    /// Whether a custom certificate authority is set.
    pub fn uses_custom_ca(&self) -> (r: bool)
        ensures
            r == (self.custom_ca@.len() > 0),
    {
        !self.custom_ca.as_str().is_empty()
    }

    /// Makes the outcome of reading the custom certificate of the outcome of parsing
    /// its bytes.
    pub fn certificate_outcome(parsed: Result<reqwest::Certificate, String>) -> (r: Result<
        reqwest::Certificate,
        ConfigError,
    >)
        ensures
            match parsed {
                Ok(certificate) => r matches Ok(c) && c == certificate,
                Err(reason) => r matches Err(ConfigError::CertificateDecodeError(m)) && m@
                    == reason@,
            },
    {
        match parsed {
            Ok(certificate) => Ok(certificate),
            Err(reason) => Err(ConfigError::CertificateDecodeError(reason)),
        }
    }

    /// Reads the PEM encoded certificate of the custom certificate authority from what
    /// reading its file gave: the file's bytes, or the failure.
    pub fn read_certificate(&self, file: Result<Vec<u8>, IoFailure>) -> (r: Result<
        reqwest::Certificate,
        ConfigError,
    >)
        ensures
            match file {
                Err(failure) => r matches Err(ConfigError::ReadError(m)) && m@ == failure.message@,
                Ok(_) => r is Ok || r matches Err(ConfigError::CertificateDecodeError(_)),
            },
    {
        match file {
            Err(failure) => Err(ConfigError::ReadError(failure.message)),
            Ok(pem) => Config::certificate_outcome(pem_certificate(pem.as_slice())),
        }
    }

    /// The verdict on the configuration, given the verdict on its address and the
    /// outcome of reading its custom certificate: the address counts first, then the
    /// token, then the certificate where one is set.
    pub fn check(&self, address_failure: Option<String>, certificate: Result<(), ConfigError>) -> (r:
        Result<(), ConfigError>)
        ensures
            match address_failure {
                Some(reason) => r matches Err(ConfigError::InvalidUrl(m)) && m@ == reason@,
                None => if self.token@.len() == 0 {
                    r matches Err(ConfigError::InvalidToken)
                } else if self.custom_ca@.len() == 0 {
                    r is Ok
                } else {
                    r == certificate
                },
            },
    {
        match address_failure {
            Some(reason) => Err(ConfigError::InvalidUrl(reason)),
            None => {
                if self.token.as_str().is_empty() {
                    Err(ConfigError::InvalidToken)
                } else if !self.uses_custom_ca() {
                    Ok(())
                } else {
                    certificate
                }
            },
        }
    }

    /// Validates the configuration: the address must be an absolute URL, the token must
    /// not be empty, and where a custom certificate authority is set, its file must
    /// have been read and hold a PEM certificate. `ca_file` is what reading that file
    /// gave; it is looked at only where a custom certificate authority is set and the
    /// address and the token are in order.
    pub fn validate(&self, ca_file: Option<Result<Vec<u8>, IoFailure>>) -> (r: Result<
        (),
        ConfigError,
    >)
        ensures
            is_verdict(self@, ca_file, r),
    {
        let address_failure = url_failure(self.server.as_str());
        let certificate = if self.uses_custom_ca() {
            match ca_file {
                None => Err(
                    ConfigError::ReadError(
                        String::from_str("the certificate authority's file was not read"),
                    ),
                ),
                Some(file) => match self.read_certificate(file) {
                    Ok(_) => Ok(()),
                    Err(error) => Err(error),
                },
            }
        } else {
            Ok(())
        };
        self.check(address_failure, certificate)
    }
}

/// A fault among the first members is the fault of the whole.
proof fn lemma_profiles_fault_stays(members: Seq<MemberView>, upto: int, end: int)
    requires
        0 <= upto <= end <= members.len(),
        decode_profiles(members.take(upto)) is Err,
    ensures
        decode_profiles(members.take(end)) == decode_profiles(members.take(upto)),
    decreases end - upto,
{
    if upto < end {
        lemma_profiles_fault_stays(members, upto, end - 1);
        assert(members.take(end).drop_last() =~= members.take(end - 1));
    }
}

} // verus!
