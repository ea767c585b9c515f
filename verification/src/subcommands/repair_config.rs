use crate::config::{
    decode_config, decode_profiles, encode_config, is_verdict, join_path, path_below, Config,
    ConfigView,
};
use crate::document::{
    document_fault_text, optional_bool, optional_text, read_optional_bool, read_optional_text,
    field_name, text_or, text_or_default, DocumentFault, DocumentFaultView, Field, ShapeFault,
};
use crate::errors::{config_error_text, ConfigError, ConfigErrorView, IoFailure};
use crate::json::{
    json_parse, lemma_object_view, member, parsed_view, render, Json, JsonView, Member, MemberView,
};
use crate::profile::{decode_profile, Profile, ProfileMap, ProfileView};
use crate::system::{home_directory, local_username};
use crate::text::{joined, joined3, lemma_empty_literal};
use vstd::prelude::*;
use vstd::string::*;

verus! {

/// The address that stands in where a configuration names no server.
pub open spec fn default_server() -> Seq<char> {
    "https://127.0.0.1:8200"@
}

/// The mount path that stands in where a configuration names none.
pub open spec fn default_mount() -> Seq<char> {
    "ssh-ca"@
}

/// The profile that a document stands for once what it lacks is filled in: the login
/// name of the local user for the user name, the empty text for the address, the role
/// and the options. A member of the wrong kind is a fault that is not repaired.
pub open spec fn repair_profile(doc: JsonView, username: Seq<char>) -> Result<
    ProfileView,
    ShapeFault,
> {
    if !(doc is Object) {
        Err(ShapeFault::NotAnObject)
    } else if optional_text(doc, Field::Username) is Err {
        Err(optional_text(doc, Field::Username)->Err_0)
    } else if optional_text(doc, Field::Address) is Err {
        Err(optional_text(doc, Field::Address)->Err_0)
    } else if optional_text(doc, Field::Role) is Err {
        Err(optional_text(doc, Field::Role)->Err_0)
    } else if optional_text(doc, Field::PrivateKey) is Err {
        Err(optional_text(doc, Field::PrivateKey)->Err_0)
    } else if optional_text(doc, Field::PublicKey) is Err {
        Err(optional_text(doc, Field::PublicKey)->Err_0)
    } else if optional_text(doc, Field::Options) is Err {
        Err(optional_text(doc, Field::Options)->Err_0)
    } else {
        Ok(
            ProfileView {
                username: text_or(optional_text(doc, Field::Username)->Ok_0, username),
                address: text_or(optional_text(doc, Field::Address)->Ok_0, Seq::empty()),
                role: text_or(optional_text(doc, Field::Role)->Ok_0, Seq::empty()),
                private_key: optional_text(doc, Field::PrivateKey)->Ok_0,
                public_key: optional_text(doc, Field::PublicKey)->Ok_0,
                options: text_or(optional_text(doc, Field::Options)->Ok_0, Seq::empty()),
            },
        )
    }
}

/// The profiles that some members stand for once each is repaired, or the first fault
/// met. Where a name stands twice, the later member counts.
pub open spec fn repair_profiles(members: Seq<MemberView>, username: Seq<char>) -> Result<
    Map<Seq<char>, ProfileView>,
    ShapeFault,
>
    decreases members.len(),
{
    if members.len() == 0 {
        Ok(Map::empty())
    } else {
        match repair_profiles(members.drop_last(), username) {
            Err(fault) => Err(fault),
            Ok(profiles) => match repair_profile(members.last().value, username) {
                Err(fault) => Err(fault),
                Ok(profile) => Ok(profiles.insert(members.last().name, profile)),
            },
        }
    }
}

/// The repaired profiles under the member `profiles`; none where the member is left out
/// or `null`.
pub open spec fn optional_profiles(doc: JsonView, username: Seq<char>) -> Result<
    Map<Seq<char>, ProfileView>,
    ShapeFault,
> {
    match member(doc, field_name(Field::Profiles)) {
        None => Ok(Map::empty()),
        Some(JsonView::Null) => Ok(Map::empty()),
        Some(JsonView::Object(members)) => repair_profiles(members, username),
        Some(_) => Err(ShapeFault::Invalid(Field::Profiles)),
    }
}

/// The configuration that a document stands for once what it lacks is filled in: the
/// default address for the server, the empty text for the token and the custom
/// certificate authority, the default mount path, verification switched on, no
/// profiles. A member of the wrong kind is a fault that is not repaired.
pub open spec fn repair(doc: JsonView, username: Seq<char>) -> Result<ConfigView, ShapeFault> {
    if !(doc is Object) {
        Err(ShapeFault::NotAnObject)
    } else if optional_text(doc, Field::Server) is Err {
        Err(optional_text(doc, Field::Server)->Err_0)
    } else if optional_text(doc, Field::Token) is Err {
        Err(optional_text(doc, Field::Token)->Err_0)
    } else if optional_text(doc, Field::Path) is Err {
        Err(optional_text(doc, Field::Path)->Err_0)
    } else if optional_text(doc, Field::CustomCa) is Err {
        Err(optional_text(doc, Field::CustomCa)->Err_0)
    } else if optional_bool(doc, Field::Tls) is Err {
        Err(optional_bool(doc, Field::Tls)->Err_0)
    } else if optional_profiles(doc, username) is Err {
        Err(optional_profiles(doc, username)->Err_0)
    } else {
        Ok(
            ConfigView {
                server: text_or(optional_text(doc, Field::Server)->Ok_0, default_server()),
                token: text_or(optional_text(doc, Field::Token)->Ok_0, Seq::empty()),
                path: text_or(optional_text(doc, Field::Path)->Ok_0, default_mount()),
                custom_ca: text_or(optional_text(doc, Field::CustomCa)->Ok_0, Seq::empty()),
                tls: match optional_bool(doc, Field::Tls)->Ok_0 {
                    Some(b) => b,
                    None => true,
                },
                profiles: optional_profiles(doc, username)->Ok_0,
            },
        )
    }
}

/// A profile that is sound is repaired to itself.
pub proof fn lemma_repair_keeps_profile(doc: JsonView, username: Seq<char>)
    requires
        decode_profile(doc) is Ok,
    ensures
        repair_profile(doc, username) == decode_profile(doc),
{
}

/// Profiles that are sound are repaired to themselves.
pub proof fn lemma_repair_keeps_profiles(members: Seq<MemberView>, username: Seq<char>)
    requires
        decode_profiles(members) is Ok,
    ensures
        repair_profiles(members, username) == decode_profiles(members),
    decreases members.len(),
{
    if members.len() > 0 {
        lemma_repair_keeps_profiles(members.drop_last(), username);
        lemma_repair_keeps_profile(members.last().value, username);
    }
}

/// A repair changes nothing that is in order: a document that holds a configuration
/// is repaired to that configuration, whoever the local user is.
pub proof fn lemma_repair_keeps_sound(doc: JsonView, username: Seq<char>)
    requires
        decode_config(doc) is Ok,
    ensures
        repair(doc, username) == decode_config(doc),
{
    match member(doc, field_name(Field::Profiles)) {
        Some(JsonView::Object(members)) => {
            lemma_repair_keeps_profiles(members, username);
        },
        _ => {},
    }
}

/// What stands in the way of a repair.
#[derive(Debug)]
pub enum RepairError {
    /// The configuration file could not be read; the system's message.
    ReadFailed(String),
    /// The file does not hold a document that can be repaired.
    Unparsable(DocumentFault),
    /// The repaired configuration is not valid.
    Invalid(ConfigError),
    /// The configuration file could not be opened for writing; the system's message.
    OpenFailed(String),
    /// The configuration file could not be written; the system's message.
    WriteFailed(String),
}

/// The mathematical value of what stands in the way of a repair.
pub ghost enum RepairErrorView {
    ReadFailed(Seq<char>),
    Unparsable(DocumentFaultView),
    Invalid(ConfigErrorView),
    OpenFailed(Seq<char>),
    WriteFailed(Seq<char>),
}

impl View for RepairError {
    type V = RepairErrorView;

    open spec fn view(&self) -> RepairErrorView {
        match self {
            RepairError::ReadFailed(reason) => RepairErrorView::ReadFailed(reason@),
            RepairError::Unparsable(fault) => RepairErrorView::Unparsable(fault@),
            RepairError::Invalid(error) => RepairErrorView::Invalid(error@),
            RepairError::OpenFailed(reason) => RepairErrorView::OpenFailed(reason@),
            RepairError::WriteFailed(reason) => RepairErrorView::WriteFailed(reason@),
        }
    }
}

/// What a failed repair reads like.
pub open spec fn repair_error_text(error: RepairErrorView) -> Seq<char> {
    match error {
        RepairErrorView::ReadFailed(reason) => "Failed to read configuration file: "@ + reason,
        RepairErrorView::Unparsable(fault) => "Provided configuration file has unparsable JSON: "@
            + document_fault_text(fault),
        RepairErrorView::Invalid(error) =>
            "Invalid configuration values, run vssh setup to reconfigure: "@ + config_error_text(
            error,
        ),
        RepairErrorView::OpenFailed(reason) => "Failed to open configuration file for writing: "@
            + reason,
        RepairErrorView::WriteFailed(reason) => "Failed to write configuration: "@ + reason,
    }
}

impl RepairError {
    /// The error in words, for the operator.
    pub fn message(&self) -> (r: String)
        ensures
            r@ == repair_error_text(self@),
    {
        match self {
            RepairError::ReadFailed(reason) => joined(
                "Failed to read configuration file: ",
                reason.as_str(),
            ),
            RepairError::Unparsable(fault) => {
                let detail = fault.message();
                joined("Provided configuration file has unparsable JSON: ", detail.as_str())
            },
            RepairError::Invalid(error) => {
                let detail = error.message();
                joined(
                    "Invalid configuration values, run vssh setup to reconfigure: ",
                    detail.as_str(),
                )
            },
            RepairError::OpenFailed(reason) => joined(
                "Failed to open configuration file for writing: ",
                reason.as_str(),
            ),
            RepairError::WriteFailed(reason) => joined(
                "Failed to write configuration: ",
                reason.as_str(),
            ),
        }
    }
}

/// The outcome of a repair, given what the parser says of the file's text and the
/// login name of the local user.
pub open spec fn repaired(parsed: Result<JsonView, Seq<char>>, username: Seq<char>) -> Result<
    ConfigView,
    RepairErrorView,
> {
    match parsed {
        Err(message) => Err(RepairErrorView::Unparsable(DocumentFaultView::Syntax(message))),
        Ok(doc) => match repair(doc, username) {
            Err(fault) => Err(RepairErrorView::Unparsable(DocumentFaultView::Shape(fault))),
            Ok(config) => Ok(config),
        },
    }
}

/// The outcome of a repair, given what reading the file gave and the login name of the
/// local user.
pub open spec fn repair_outcome(file: Result<Seq<char>, Seq<char>>, username: Seq<char>) -> Result<
    ConfigView,
    RepairErrorView,
> {
    match file {
        Err(reason) => Err(RepairErrorView::ReadFailed(reason)),
        Ok(text) => repaired(json_parse(text), username),
    }
}

/// The outcome of a repair, seen as mathematical values.
pub open spec fn outcome_view(outcome: Result<Config, RepairError>) -> Result<
    ConfigView,
    RepairErrorView,
> {
    match outcome {
        Ok(config) => Ok(config@),
        Err(error) => Err(error@),
    }
}

/// What reading a file gave, seen as mathematical values.
pub open spec fn file_view(file: Result<String, IoFailure>) -> Result<Seq<char>, Seq<char>> {
    match file {
        Ok(text) => Ok(text@),
        Err(failure) => Err(failure.message@),
    }
}

/// Reads a profile from a document and fills in what it lacks.
pub fn repair_profile_document(doc: &Json, username: &str) -> (r: Result<Profile, ShapeFault>)
    ensures
        match r {
            Ok(profile) => repair_profile(doc@, username@) == Ok::<ProfileView, ShapeFault>(
                profile@,
            ),
            Err(fault) => repair_profile(doc@, username@) == Err::<ProfileView, ShapeFault>(fault),
        },
{
    if doc.as_object().is_none() {
        return Err(ShapeFault::NotAnObject);
    }
    let given_username = match read_optional_text(doc, Field::Username) {
        Ok(text) => text,
        Err(fault) => {
            return Err(fault);
        },
    };
    let address = match read_optional_text(doc, Field::Address) {
        Ok(text) => text,
        Err(fault) => {
            return Err(fault);
        },
    };
    let role = match read_optional_text(doc, Field::Role) {
        Ok(text) => text,
        Err(fault) => {
            return Err(fault);
        },
    };
    let private_key = match read_optional_text(doc, Field::PrivateKey) {
        Ok(text) => text,
        Err(fault) => {
            return Err(fault);
        },
    };
    let public_key = match read_optional_text(doc, Field::PublicKey) {
        Ok(text) => text,
        Err(fault) => {
            return Err(fault);
        },
    };
    let options = match read_optional_text(doc, Field::Options) {
        Ok(text) => text,
        Err(fault) => {
            return Err(fault);
        },
    };
    proof {
        lemma_empty_literal();
    }
    Ok(
        Profile {
            username: text_or_default(given_username, username),
            address: text_or_default(address, ""),
            role: text_or_default(role, ""),
            private_key,
            public_key,
            options: text_or_default(options, ""),
        },
    )
}

/// A fault among the first members is the fault of the whole.
proof fn lemma_repair_fault_stays(
    members: Seq<MemberView>,
    username: Seq<char>,
    upto: int,
    end: int,
)
    requires
        0 <= upto <= end <= members.len(),
        repair_profiles(members.take(upto), username) is Err,
    ensures
        repair_profiles(members.take(end), username) == repair_profiles(
            members.take(upto),
            username,
        ),
    decreases end - upto,
{
    if upto < end {
        lemma_repair_fault_stays(members, username, upto, end - 1);
        assert(members.take(end).drop_last() =~= members.take(end - 1));
    }
}

/// Reads the profiles that the members of an object stand for, each one repaired.
fn repair_profile_members(members: &Vec<Member>, username: &str) -> (r: Result<
    ProfileMap,
    ShapeFault,
>)
    ensures
        match r {
            Ok(profiles) => repair_profiles(Json::Object(*members)@->Object_0, username@) == Ok::<
                Map<Seq<char>, ProfileView>,
                ShapeFault,
            >(profiles@),
            Err(fault) => repair_profiles(Json::Object(*members)@->Object_0, username@) == Err::<
                Map<Seq<char>, ProfileView>,
                ShapeFault,
            >(fault),
        },
{
    let ghost docs = Json::Object(*members)@->Object_0;
    proof {
        lemma_object_view(*members);
    }
    let mut profiles = ProfileMap::new();
    let mut i: usize = 0;
    assert(docs.take(0) =~= Seq::<MemberView>::empty());
    while i < members.len()
        invariant
            i <= members.len(),
            docs == Json::Object(*members)@->Object_0,
            docs.len() == members@.len(),
            forall|k: int|
                0 <= k < members@.len() ==> #[trigger] docs[k] == (MemberView {
                    name: members@[k].name@,
                    value: members@[k].value@,
                }),
            repair_profiles(docs.take(i as int), username@) == Ok::<
                Map<Seq<char>, ProfileView>,
                ShapeFault,
            >(profiles@),
        decreases members.len() - i,
    {
        proof {
            assert(docs.take(i as int + 1).drop_last() =~= docs.take(i as int));
            assert(docs.take(i as int + 1).last() == docs[i as int]);
        }
        match repair_profile_document(&members[i].value, username) {
            Ok(profile) => {
                profiles.insert(members[i].name.clone(), profile);
            },
            Err(fault) => {
                proof {
                    assert(repair_profile(docs[i as int].value, username@) == Err::<
                        ProfileView,
                        ShapeFault,
                    >(fault));
                    assert(repair_profiles(docs.take(i as int + 1), username@) == Err::<
                        Map<Seq<char>, ProfileView>,
                        ShapeFault,
                    >(fault));
                    lemma_repair_fault_stays(docs, username@, i as int + 1, docs.len() as int);
                    assert(docs.take(docs.len() as int) == docs);
                }
                return Err(fault);
            },
        }
        i += 1;
    }
    assert(docs.take(members@.len() as int) == docs);
    Ok(profiles)
}

/// Reads a configuration from a document and fills in what it lacks.
pub fn repair_document(doc: &Json, username: &str) -> (r: Result<Config, ShapeFault>)
    ensures
        match r {
            Ok(config) => repair(doc@, username@) == Ok::<ConfigView, ShapeFault>(config@),
            Err(fault) => repair(doc@, username@) == Err::<ConfigView, ShapeFault>(fault),
        },
{
    if doc.as_object().is_none() {
        return Err(ShapeFault::NotAnObject);
    }
    let server = match read_optional_text(doc, Field::Server) {
        Ok(text) => text,
        Err(fault) => {
            return Err(fault);
        },
    };
    let token = match read_optional_text(doc, Field::Token) {
        Ok(text) => text,
        Err(fault) => {
            return Err(fault);
        },
    };
    let path = match read_optional_text(doc, Field::Path) {
        Ok(text) => text,
        Err(fault) => {
            return Err(fault);
        },
    };
    let custom_ca = match read_optional_text(doc, Field::CustomCa) {
        Ok(text) => text,
        Err(fault) => {
            return Err(fault);
        },
    };
    let tls = match read_optional_bool(doc, Field::Tls) {
        Ok(b) => b,
        Err(fault) => {
            return Err(fault);
        },
    };
    let profiles = match doc.get(Field::Profiles.name()) {
        None => ProfileMap::new(),
        Some(value) => {
            if value.is_null() {
                ProfileMap::new()
            } else {
                match value.as_object() {
                    None => {
                        return Err(ShapeFault::Invalid(Field::Profiles));
                    },
                    Some(members) => match repair_profile_members(members, username) {
                        Ok(profiles) => profiles,
                        Err(fault) => {
                            return Err(fault);
                        },
                    },
                }
            }
        },
    };
    proof {
        lemma_empty_literal();
    }
    Ok(
        Config {
            server: text_or_default(server, "https://127.0.0.1:8200"),
            token: text_or_default(token, ""),
            path: text_or_default(path, "ssh-ca"),
            custom_ca: text_or_default(custom_ca, ""),
            tls: match tls {
                Some(b) => b,
                None => true,
            },
            profiles,
        },
    )
}

/// Repairs the configuration, given what the parser says of the file's text and the
/// login name of the local user.
pub fn repair_parsed(parsed: Result<Json, String>, username: &str) -> (r: Result<
    Config,
    RepairError,
>)
    ensures
        outcome_view(r) == repaired(parsed_view(parsed), username@),
{
    match parsed {
        Err(message) => Err(RepairError::Unparsable(DocumentFault::Syntax(message))),
        Ok(doc) => match repair_document(&doc, username) {
            Err(fault) => Err(RepairError::Unparsable(DocumentFault::Shape(fault))),
            Ok(config) => Ok(config),
        },
    }
}

/// Repairs the configuration, given what reading its file gave and the login name of
/// the local user.
pub fn repair_as(file: Result<String, IoFailure>, username: &str) -> (r: Result<
    Config,
    RepairError,
>)
    ensures
        outcome_view(r) == repair_outcome(file_view(file), username@),
{
    match file {
        Err(failure) => Err(RepairError::ReadFailed(failure.message)),
        Ok(text) => repair_parsed(Json::parse(text.as_str()), username),
    }
}

/// Repairs a configuration file, given what reading it gave: members that are left out
/// are filled in, the user names of profiles with the login name of the local user.
/// The repaired configuration is still to be validated and written back.
pub fn repair_config(file: Result<String, IoFailure>) -> (r: Result<Config, RepairError>)
    ensures
        exists|username: Seq<char>| outcome_view(r) == repair_outcome(file_view(file), username),
{
    let username = local_username();
    let r = repair_as(file, username.as_str());
    assert(outcome_view(r) == repair_outcome(file_view(file), username@));
    r
}

/// Where the configuration to repair is stored by default: `.config/vssh.json` below
/// the given home directory.
pub fn default_path_in(home: &str) -> (r: String)
    ensures
        r@ == path_below(home@, ".config/vssh.json"@),
{
    join_path(home, ".config/vssh.json")
}

/// The file to repair: the one that was named, or the default one below the user's
/// home directory; `None` where no file was named and the system names no home
/// directory.
pub fn repair_path(path: Option<String>) -> (r: Option<String>)
    ensures
        match path {
            Some(given) => r matches Some(p) && p@ == given@,
            None => r matches Some(p) ==> exists|home: Seq<char>|
                p@ == path_below(home, ".config/vssh.json"@),
        },
{
    match path {
        Some(given) => Some(given),
        None => match home_directory() {
            Some(home) => {
                let p = default_path_in(home.as_str());
                assert(p@ == path_below(home@, ".config/vssh.json"@));
                Some(p)
            },
            None => None,
        },
    }
}

/// The outcome of the last step of a repair, seen as mathematical values.
pub open spec fn text_outcome(outcome: Result<String, RepairError>) -> Result<
    Seq<char>,
    RepairErrorView,
> {
    match outcome {
        Ok(text) => Ok(text@),
        Err(error) => Err(error@),
    }
}

/// The text to write back, given the verdict of validation on the repaired
/// configuration: its document where it is valid.
pub fn repaired_text(config: &Config, verdict: Result<(), ConfigError>) -> (r: Result<
    String,
    RepairError,
>)
    ensures
        text_outcome(r) == match verdict {
            Ok(_) => Ok::<Seq<char>, RepairErrorView>(
                render(encode_config(config@, config.profiles.names())),
            ),
            Err(error) => Err::<Seq<char>, RepairErrorView>(RepairErrorView::Invalid(error@)),
        },
{
    match verdict {
        Ok(_) => Ok(config.write()),
        Err(error) => Err(RepairError::Invalid(error)),
    }
}

/// Validates the repaired configuration and gives the text to write back. `ca_file` is
/// what reading the file of its custom certificate authority gave, where one is set.
pub fn finish(config: &Config, ca_file: Option<Result<Vec<u8>, IoFailure>>) -> (r: Result<
    String,
    RepairError,
>)
    ensures
        match r {
            Ok(text) => is_verdict(config@, ca_file, Ok(())) && text@ == render(
                encode_config(config@, config.profiles.names()),
            ),
            Err(RepairError::Invalid(error)) => is_verdict(config@, ca_file, Err(error)),
            Err(_) => false,
        },
{
    repaired_text(config, config.validate(ca_file))
}

/// What the operator is told once the repaired configuration is written.
pub fn success_message(path: &str) -> (r: String)
    ensures
        r@ == "Successfully repaired configuration at '"@ + path@ + "'"@,
{
    joined3("Successfully repaired configuration at '", path, "'")
}

} // verus!
