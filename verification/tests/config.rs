use vssh::config::{join_path, Config};
use vssh::document::{DocumentFault, Field, ShapeFault};
use vssh::errors::{ConfigError, IoFailure, IoKind};
use vssh::json::Json;
use vssh::profile::{Profile, ProfileMap};

fn sample_config() -> Config {
    Config::new(
        String::from("https://vault.example.com:8200"),
        String::from("s.abcdef"),
        String::from("ssh-ca"),
        String::new(),
        true,
    )
}

fn sample_profile(address: &str) -> Profile {
    Profile {
        username: String::from("deploy"),
        address: String::from(address),
        role: String::from("admin"),
        private_key: Some(String::from("/home/me/.ssh/id_ed25519")),
        public_key: None,
        options: String::from("-p 2222"),
    }
}

fn failure(kind: IoKind, message: &str) -> IoFailure {
    IoFailure { kind, message: String::from(message) }
}

const CERTIFICATE: &str = "-----BEGIN CERTIFICATE-----
MIIBtjCCAVugAwIBAgITBmyf1XSXNmY/Owua2eiedgPySjAKBggqhkjOPQQDAjA5
MQswCQYDVQQGEwJVUzEPMA0GA1UEChMGQW1hem9uMRkwFwYDVQQDExBBbWF6b24g
Um9vdCBDQSAzMB4XDTE1MDUyNjAwMDAwMFoXDTQwMDUyNjAwMDAwMFowOTELMAkG
A1UEBhMCVVMxDzANBgNVBAoTBkFtYXpvbjEZMBcGA1UEAxMQQW1hem9uIFJvb3Qg
Q0EgMzBZMBMGByqGSM49AgEGCCqGSM49AwEHA0IABCmXp8ZBf8ANm+gBG1bG8lKl
ui2yEujSLtf6ycXYqm0fc4E7O5hrOXwzpcVOho6AF2hiRVd9RFgdszflZwjrZt6j
QjBAMA8GA1UdEwEB/wQFMAMBAf8wDgYDVR0PAQH/BAQDAgGGMB0GA1UdDgQWBBSr
ttvXBp43rDCGB5Fwx5zEGbF4wDAKBggqhkjOPQQDAgNJADBGAiEA4IWSoxe3jfkr
BqWTrBqYaGFy+uGh0PsceGCmQ5nFuMQCIQCcAu/xlJyzlvnrxir4tiz+OpAUFteM
YyRIHN8wfdVoOw==
-----END CERTIFICATE-----
";

#[test]
fn new_keeps_the_values_and_has_no_profiles() {
    let config = sample_config();
    assert_eq!(config.server, "https://vault.example.com:8200");
    assert_eq!(config.token, "s.abcdef");
    assert_eq!(config.path, "ssh-ca");
    assert_eq!(config.custom_ca, "");
    assert!(config.tls);
    assert!(config.profiles.is_empty());
    assert_eq!(config.profiles.len(), 0);
}

#[test]
fn write_gives_the_document_in_field_order() {
    assert_eq!(
        sample_config().write(),
        "{\"server\":\"https://vault.example.com:8200\",\"token\":\"s.abcdef\",\"path\":\"ssh-ca\",\"custom_ca\":\"\",\"tls\":true,\"profiles\":{}}"
    );
}

#[test]
fn write_gives_the_profiles_in_their_order() {
    let mut config = sample_config();
    config.profiles.insert(String::from("web"), sample_profile("10.0.0.1"));
    assert_eq!(
        config.write(),
        "{\"server\":\"https://vault.example.com:8200\",\"token\":\"s.abcdef\",\"path\":\"ssh-ca\",\"custom_ca\":\"\",\"tls\":true,\"profiles\":{\"web\":{\"username\":\"deploy\",\"address\":\"10.0.0.1\",\"role\":\"admin\",\"private_key\":\"/home/me/.ssh/id_ed25519\",\"public_key\":null,\"options\":\"-p 2222\"}}}"
    );
}

#[test]
fn round_trip_without_profiles() {
    let config = sample_config();
    let back = Config::read(Ok(config.write())).unwrap();
    assert_eq!(back.server, config.server);
    assert_eq!(back.token, config.token);
    assert_eq!(back.path, config.path);
    assert_eq!(back.custom_ca, config.custom_ca);
    assert_eq!(back.tls, config.tls);
    assert!(back.profiles.is_empty());
}

#[test]
fn round_trip_with_profiles() {
    let mut config = Config::new(
        String::from("http://10.1.2.3"),
        String::from("tok\"en\\with\nescapes"),
        String::from("ssh"),
        String::from("/etc/ssl/ca.pem"),
        false,
    );
    config.profiles.insert(String::from("web"), sample_profile("10.0.0.1"));
    config.profiles.insert(String::from("db \"main\""), sample_profile("db.example.com"));
    let back = Config::read(Ok(config.write())).unwrap();
    assert_eq!(back.server, config.server);
    assert_eq!(back.token, config.token);
    assert_eq!(back.path, config.path);
    assert_eq!(back.custom_ca, config.custom_ca);
    assert_eq!(back.tls, config.tls);
    assert_eq!(back.profiles.len(), 2);
    assert_eq!(back.profiles.get("web"), Some(&sample_profile("10.0.0.1")));
    assert_eq!(back.profiles.get("db \"main\""), Some(&sample_profile("db.example.com")));
}

#[test]
fn round_trip_by_documents() {
    let mut config = sample_config();
    config.profiles.insert(String::from("a"), sample_profile("a.example.com"));
    let back = Config::from_json(&config.to_json()).unwrap();
    assert_eq!(back.to_json(), config.to_json());
    assert_eq!(back.profiles.get("a"), Some(&sample_profile("a.example.com")));
}

#[test]
fn read_takes_a_stored_document() {
    let text = "{\"server\":\"https://v\",\"token\":\"t\",\"path\":\"ssh-ca\",\"custom_ca\":\"\",\"tls\":false,\"profiles\":{\"p\":{\"username\":\"u\",\"address\":\"a\",\"role\":\"r\",\"private_key\":null,\"public_key\":\"k.pub\",\"options\":\"\"}}}";
    let config = Config::read(Ok(String::from(text))).unwrap();
    assert_eq!(config.server, "https://v");
    assert!(!config.tls);
    let profile = config.profiles.get("p").unwrap();
    assert_eq!(profile.username, "u");
    assert_eq!(profile.private_key, None);
    assert_eq!(profile.public_key, Some(String::from("k.pub")));
}

#[test]
fn read_passes_over_members_it_does_not_know() {
    let text = "{\"extra\":1,\"server\":\"s\",\"token\":\"t\",\"path\":\"p\",\"custom_ca\":\"\",\"tls\":true,\"profiles\":{}}";
    assert!(Config::read(Ok(String::from(text))).is_ok());
}

#[test]
fn read_takes_a_profile_without_its_optional_keys() {
    let text = "{\"server\":\"s\",\"token\":\"t\",\"path\":\"p\",\"custom_ca\":\"\",\"tls\":true,\"profiles\":{\"p\":{\"username\":\"u\",\"address\":\"a\",\"role\":\"r\",\"options\":\"\"}}}";
    let config = Config::read(Ok(String::from(text))).unwrap();
    let profile = config.profiles.get("p").unwrap();
    assert_eq!(profile.private_key, None);
    assert_eq!(profile.public_key, None);
}

#[test]
fn read_tells_a_missing_file_apart() {
    let outcome = Config::read(Err(failure(IoKind::NotFound, "No such file or directory")));
    assert!(matches!(outcome, Err(ConfigError::NonExistentConfigFile)));
}

#[test]
fn read_reports_a_file_that_cannot_be_read() {
    let outcome = Config::read(Err(failure(IoKind::PermissionDenied, "Permission denied")));
    assert!(matches!(outcome, Err(ConfigError::ReadError(m)) if m == "Permission denied"));
    let outcome = Config::read(Err(failure(IoKind::Other, "Is a directory")));
    assert!(matches!(outcome, Err(ConfigError::ReadError(m)) if m == "Is a directory"));
}

#[test]
fn read_reports_text_that_is_no_json() {
    let outcome = Config::read(Ok(String::from("server: x")));
    assert!(matches!(outcome, Err(ConfigError::JsonError(DocumentFault::Syntax(_)))));
}

#[test]
fn read_reports_a_document_that_is_no_object() {
    let outcome = Config::read(Ok(String::from("[]")));
    assert!(matches!(
        outcome,
        Err(ConfigError::JsonError(DocumentFault::Shape(ShapeFault::NotAnObject)))
    ));
}

#[test]
fn read_reports_the_first_missing_member() {
    let outcome = Config::read(Ok(String::from("{\"server\":\"s\"}")));
    assert!(matches!(
        outcome,
        Err(ConfigError::JsonError(DocumentFault::Shape(ShapeFault::Missing(Field::Token))))
    ));
    let outcome = Config::read(Ok(String::from("{}")));
    assert!(matches!(
        outcome,
        Err(ConfigError::JsonError(DocumentFault::Shape(ShapeFault::Missing(Field::Server))))
    ));
    let outcome = Config::read(Ok(String::from(
        "{\"server\":\"s\",\"token\":\"t\",\"path\":\"p\",\"custom_ca\":\"\",\"tls\":true}",
    )));
    assert!(matches!(
        outcome,
        Err(ConfigError::JsonError(DocumentFault::Shape(ShapeFault::Missing(Field::Profiles))))
    ));
}

#[test]
fn read_reports_a_member_of_the_wrong_kind() {
    let outcome = Config::read(Ok(String::from(
        "{\"server\":\"s\",\"token\":\"t\",\"path\":\"p\",\"custom_ca\":\"\",\"tls\":\"yes\",\"profiles\":{}}",
    )));
    assert!(matches!(
        outcome,
        Err(ConfigError::JsonError(DocumentFault::Shape(ShapeFault::Invalid(Field::Tls))))
    ));
    let outcome = Config::read(Ok(String::from(
        "{\"server\":5,\"token\":\"t\",\"path\":\"p\",\"custom_ca\":\"\",\"tls\":true,\"profiles\":{}}",
    )));
    assert!(matches!(
        outcome,
        Err(ConfigError::JsonError(DocumentFault::Shape(ShapeFault::Invalid(Field::Server))))
    ));
    let outcome = Config::read(Ok(String::from(
        "{\"server\":\"s\",\"token\":\"t\",\"path\":\"p\",\"custom_ca\":\"\",\"tls\":true,\"profiles\":[]}",
    )));
    assert!(matches!(
        outcome,
        Err(ConfigError::JsonError(DocumentFault::Shape(ShapeFault::Invalid(Field::Profiles))))
    ));
}

#[test]
fn read_reports_a_fault_inside_a_profile() {
    let outcome = Config::read(Ok(String::from(
        "{\"server\":\"s\",\"token\":\"t\",\"path\":\"p\",\"custom_ca\":\"\",\"tls\":true,\"profiles\":{\"p\":{\"username\":\"u\"}}}",
    )));
    assert!(matches!(
        outcome,
        Err(ConfigError::JsonError(DocumentFault::Shape(ShapeFault::Missing(Field::Address))))
    ));
    let outcome = Config::read(Ok(String::from(
        "{\"server\":\"s\",\"token\":\"t\",\"path\":\"p\",\"custom_ca\":\"\",\"tls\":true,\"profiles\":{\"p\":\"x\"}}",
    )));
    assert!(matches!(
        outcome,
        Err(ConfigError::JsonError(DocumentFault::Shape(ShapeFault::NotAnObject)))
    ));
}

#[test]
fn from_parsed_agrees_with_from_text() {
    let text = sample_config().write();
    let by_text = Config::from_text(text.as_str()).unwrap();
    let by_parsed = Config::from_parsed(Json::parse(text.as_str())).unwrap();
    assert_eq!(by_text.to_json(), by_parsed.to_json());
    assert!(matches!(
        Config::from_parsed(Err(String::from("boom"))),
        Err(ConfigError::JsonError(DocumentFault::Syntax(m))) if m == "boom"
    ));
}

#[test]
fn validation_fails_on_the_address_before_the_token() {
    let config = Config::new(
        String::from("not a url"),
        String::from("x"),
        String::from("ssh-ca"),
        String::new(),
        true,
    );
    assert!(matches!(config.validate(None), Err(ConfigError::InvalidUrl(_))));
    let config = Config::new(
        String::from("not a url"),
        String::new(),
        String::from("ssh-ca"),
        String::new(),
        true,
    );
    assert!(matches!(config.validate(None), Err(ConfigError::InvalidUrl(_))));
}

#[test]
fn validation_says_why_the_address_is_refused() {
    let config = Config::new(
        String::from("not a url"),
        String::from("x"),
        String::from("ssh-ca"),
        String::new(),
        true,
    );
    match config.validate(None) {
        Err(error) => assert_eq!(error.message(), "Invalid URL: relative URL without a base"),
        Ok(_) => panic!("the address is no URL"),
    }
}

#[test]
fn validation_refuses_an_empty_token() {
    let config = Config::new(
        String::from("https://vault.example.com"),
        String::new(),
        String::from("ssh-ca"),
        String::new(),
        true,
    );
    assert!(matches!(config.validate(None), Err(ConfigError::InvalidToken)));
}

#[test]
fn validation_accepts_a_sound_configuration() {
    assert!(sample_config().validate(None).is_ok());
}

#[test]
fn validation_leaves_the_certificate_alone_where_none_is_set() {
    let broken = Some(Err(failure(IoKind::NotFound, "gone")));
    assert!(sample_config().validate(broken).is_ok());
}

#[test]
fn validation_wants_the_certificate_where_one_is_set() {
    let mut config = sample_config();
    config.custom_ca = String::from("/etc/ssl/ca.pem");
    assert!(matches!(
        config.validate(None),
        Err(ConfigError::ReadError(m)) if m == "the certificate authority's file was not read"
    ));
}

#[test]
fn validation_reports_a_certificate_that_cannot_be_read() {
    let mut config = sample_config();
    config.custom_ca = String::from("/etc/ssl/ca.pem");
    let outcome = config.validate(Some(Err(failure(IoKind::NotFound, "No such file"))));
    assert!(matches!(outcome, Err(ConfigError::ReadError(m)) if m == "No such file"));
}

#[test]
fn validation_reports_a_certificate_that_is_none() {
    let mut config = sample_config();
    config.custom_ca = String::from("/etc/ssl/ca.pem");
    let outcome = config.validate(Some(Ok(Vec::from("garbage".as_bytes()))));
    assert!(matches!(outcome, Err(ConfigError::CertificateDecodeError(_))));
}

#[test]
fn validation_accepts_a_certificate() {
    let mut config = sample_config();
    config.custom_ca = String::from("/etc/ssl/ca.pem");
    let outcome = config.validate(Some(Ok(Vec::from(CERTIFICATE.as_bytes()))));
    assert!(outcome.is_ok());
}

#[test]
fn validation_checks_the_token_before_the_certificate() {
    let mut config = sample_config();
    config.token = String::new();
    config.custom_ca = String::from("/etc/ssl/ca.pem");
    let outcome = config.validate(Some(Ok(Vec::from("garbage".as_bytes()))));
    assert!(matches!(outcome, Err(ConfigError::InvalidToken)));
}

#[test]
fn read_certificate_tells_the_failures_apart() {
    let config = sample_config();
    assert!(config.read_certificate(Ok(Vec::from(CERTIFICATE.as_bytes()))).is_ok());
    assert!(matches!(
        config.read_certificate(Ok(Vec::new())),
        Err(ConfigError::CertificateDecodeError(_))
    ));
    assert!(matches!(
        config.read_certificate(Err(failure(IoKind::Other, "broken"))),
        Err(ConfigError::ReadError(m)) if m == "broken"
    ));
}

#[test]
fn check_counts_the_address_first() {
    let config = sample_config();
    let outcome = config.check(Some(String::from("empty host")), Err(ConfigError::InvalidToken));
    assert!(matches!(outcome, Err(ConfigError::InvalidUrl(m)) if m == "empty host"));
    assert!(config.check(None, Err(ConfigError::InvalidToken)).is_ok());
}

#[test]
fn uses_custom_ca_says_whether_one_is_set() {
    let mut config = sample_config();
    assert!(!config.uses_custom_ca());
    config.custom_ca = String::from("ca.pem");
    assert!(config.uses_custom_ca());
}

#[test]
fn join_path_puts_one_separator_between() {
    assert_eq!(join_path("/home/me", ".config/vssh.yml"), "/home/me/.config/vssh.yml");
    assert_eq!(join_path("/home/me/", ".config/vssh.yml"), "/home/me/.config/vssh.yml");
    assert_eq!(join_path("/", "x"), "/x");
    assert_eq!(join_path("", "x"), "x");
}

#[test]
fn join_path_agrees_with_std() {
    for directory in ["/home/me", "/home/me/", "/", "", "relative/dir"] {
        let mut expected = std::path::PathBuf::from(directory);
        expected.push(".config/vssh.yml");
        assert_eq!(join_path(directory, ".config/vssh.yml"), expected.to_str().unwrap());
    }
}

#[test]
fn default_path_lies_below_the_home_directory() {
    assert_eq!(Config::default_path_in("/home/me"), "/home/me/.config/vssh.yml");
    if let Some(path) = Config::default_path() {
        assert!(path.ends_with(".config/vssh.yml"));
    }
}

#[test]
fn default_path_follows_the_home_directory_that_is_named() {
    assert_eq!(
        Config::default_path_from(Some(String::from("/home/me"))),
        Some(String::from("/home/me/.config/vssh.yml"))
    );
    assert_eq!(Config::default_path_from(None), None);
    assert_eq!(Config::default_path(), Config::default_path_from(
        dirs::home_dir().and_then(|home| home.to_str().map(String::from))
    ));
}

#[test]
fn profile_map_keeps_one_profile_to_a_name() {
    let mut profiles = ProfileMap::new();
    profiles.insert(String::from("a"), sample_profile("1"));
    profiles.insert(String::from("b"), sample_profile("2"));
    profiles.insert(String::from("a"), sample_profile("3"));
    assert_eq!(profiles.len(), 2);
    assert_eq!(profiles.keys(), vec!["a", "b"]);
    assert_eq!(profiles.get("a"), Some(&sample_profile("3")));
    assert_eq!(profiles.get("b"), Some(&sample_profile("2")));
    assert_eq!(profiles.get("c"), None);
    assert!(profiles.contains_key("a"));
    assert!(!profiles.contains_key("A"));
}

#[test]
fn profile_map_removes_by_name() {
    let mut profiles = ProfileMap::new();
    profiles.insert(String::from("a"), sample_profile("1"));
    profiles.insert(String::from("b"), sample_profile("2"));
    profiles.insert(String::from("c"), sample_profile("3"));
    profiles.remove("b");
    assert_eq!(profiles.keys(), vec!["a", "c"]);
    profiles.remove("b");
    assert_eq!(profiles.keys(), vec!["a", "c"]);
    assert_eq!(profiles.entry_at(1).0, "c");
    assert_eq!(profiles.entry_at(1).1, &sample_profile("3"));
}

#[test]
fn profile_document_has_the_six_members() {
    assert_eq!(
        sample_profile("h").to_json().to_text(),
        "{\"username\":\"deploy\",\"address\":\"h\",\"role\":\"admin\",\"private_key\":\"/home/me/.ssh/id_ed25519\",\"public_key\":null,\"options\":\"-p 2222\"}"
    );
    assert_eq!(Profile::from_json(&sample_profile("h").to_json()), Ok(sample_profile("h")));
}

#[test]
fn profile_clone_is_equal() {
    assert_eq!(sample_profile("h").clone(), sample_profile("h"));
}

#[test]
fn config_error_messages() {
    assert_eq!(ConfigError::InvalidUrl(String::from("empty host")).message(), "Invalid URL: empty host");
    assert_eq!(ConfigError::InvalidToken.message(), "Invalid authentication token");
    assert_eq!(
        ConfigError::NonExistentConfigFile.message(),
        "Configuration file does not exist"
    );
    assert_eq!(
        ConfigError::ReadError(String::from("denied")).message(),
        "Failed to read from file: denied"
    );
    assert_eq!(
        ConfigError::JsonError(DocumentFault::Syntax(String::from("EOF"))).message(),
        "Failed to decode JSON: EOF"
    );
    assert_eq!(
        ConfigError::JsonError(DocumentFault::Shape(ShapeFault::Missing(Field::Token))).message(),
        "Failed to decode JSON: missing field `token`"
    );
    assert_eq!(
        ConfigError::JsonError(DocumentFault::Shape(ShapeFault::Invalid(Field::CustomCa)))
            .message(),
        "Failed to decode JSON: invalid type for field `custom_ca`"
    );
    assert_eq!(
        ConfigError::JsonError(DocumentFault::Shape(ShapeFault::NotAnObject)).message(),
        "Failed to decode JSON: expected an object"
    );
    assert_eq!(
        ConfigError::CertificateDecodeError(String::from("bad")).message(),
        "Failed to decode certificate: bad"
    );
}
