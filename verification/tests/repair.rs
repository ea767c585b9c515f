use vssh::config::Config;
use vssh::document::{DocumentFault, Field, ShapeFault};
use vssh::errors::{ConfigError, IoFailure, IoKind};
use vssh::json::Json;
use vssh::subcommands::repair_config::{
    default_path_in, finish, repair_as, repair_config, repair_document, repair_parsed,
    repair_path, repaired_text, success_message, RepairError,
};

fn failure(kind: IoKind, message: &str) -> IoFailure {
    IoFailure { kind, message: String::from(message) }
}

fn repaired(text: &str) -> Config {
    repair_as(Ok(String::from(text)), "me").unwrap()
}

#[test]
fn an_empty_document_is_filled_with_the_defaults() {
    let config = repaired("{}");
    assert_eq!(config.server, "https://127.0.0.1:8200");
    assert_eq!(config.token, "");
    assert_eq!(config.path, "ssh-ca");
    assert_eq!(config.custom_ca, "");
    assert!(config.tls);
    assert!(config.profiles.is_empty());
}

#[test]
fn what_is_there_is_kept() {
    let config = repaired("{\"server\":\"https://v\",\"token\":\"t\",\"tls\":false}");
    assert_eq!(config.server, "https://v");
    assert_eq!(config.token, "t");
    assert_eq!(config.path, "ssh-ca");
    assert!(!config.tls);
}

#[test]
fn members_that_are_null_count_as_left_out() {
    let config = repaired("{\"server\":null,\"tls\":null,\"profiles\":null,\"path\":\"p\"}");
    assert_eq!(config.server, "https://127.0.0.1:8200");
    assert!(config.tls);
    assert!(config.profiles.is_empty());
    assert_eq!(config.path, "p");
}

#[test]
fn profiles_are_filled_in_too() {
    let config = repaired(
        "{\"profiles\":{\"web\":{\"address\":\"10.0.0.1\",\"private_key\":\"k\"},\"db\":{\"username\":\"postgres\"}}}",
    );
    let db = config.profiles.get("db").unwrap();
    assert_eq!(db.username, "postgres");
    assert_eq!(db.address, "");
    assert_eq!(db.role, "");
    assert_eq!(db.private_key, None);
    assert_eq!(db.public_key, None);
    assert_eq!(db.options, "");
    let web = config.profiles.get("web").unwrap();
    assert_eq!(web.username, "me");
    assert_eq!(web.address, "10.0.0.1");
    assert_eq!(web.private_key, Some(String::from("k")));
    assert_eq!(config.profiles.len(), 2);
}

#[test]
fn a_sound_configuration_is_repaired_to_itself() {
    let mut config = Config::new(
        String::from("https://vault.example.com"),
        String::from("t"),
        String::from("ssh"),
        String::from("ca.pem"),
        false,
    );
    config.profiles.insert(
        String::from("web"),
        vssh::profile::Profile {
            username: String::from("u"),
            address: String::from("a"),
            role: String::from("r"),
            private_key: None,
            public_key: Some(String::from("k.pub")),
            options: String::from("-v"),
        },
    );
    let again = repaired(config.write().as_str());
    assert_eq!(again.to_json(), config.to_json());
}

#[test]
fn a_member_of_the_wrong_kind_is_not_repaired() {
    let outcome = repair_as(Ok(String::from("{\"tls\":\"yes\"}")), "me");
    assert!(matches!(
        outcome,
        Err(RepairError::Unparsable(DocumentFault::Shape(ShapeFault::Invalid(Field::Tls))))
    ));
    let outcome = repair_as(Ok(String::from("{\"server\":1}")), "me");
    assert!(matches!(
        outcome,
        Err(RepairError::Unparsable(DocumentFault::Shape(ShapeFault::Invalid(Field::Server))))
    ));
    let outcome = repair_as(Ok(String::from("{\"profiles\":{\"p\":{\"role\":[]}}}")), "me");
    assert!(matches!(
        outcome,
        Err(RepairError::Unparsable(DocumentFault::Shape(ShapeFault::Invalid(Field::Role))))
    ));
    let outcome = repair_as(Ok(String::from("{\"profiles\":{\"p\":5}}")), "me");
    assert!(matches!(
        outcome,
        Err(RepairError::Unparsable(DocumentFault::Shape(ShapeFault::NotAnObject)))
    ));
    let outcome = repair_as(Ok(String::from("[]")), "me");
    assert!(matches!(
        outcome,
        Err(RepairError::Unparsable(DocumentFault::Shape(ShapeFault::NotAnObject)))
    ));
}

#[test]
fn text_that_is_no_json_is_not_repaired() {
    let outcome = repair_as(Ok(String::from("server: x")), "me");
    assert!(matches!(outcome, Err(RepairError::Unparsable(DocumentFault::Syntax(_)))));
}

#[test]
fn a_file_that_cannot_be_read_is_not_repaired() {
    let outcome = repair_as(Err(failure(IoKind::NotFound, "No such file")), "me");
    assert!(matches!(outcome, Err(RepairError::ReadFailed(m)) if m == "No such file"));
    let outcome = repair_config(Err(failure(IoKind::Other, "broken")));
    assert!(matches!(outcome, Err(RepairError::ReadFailed(m)) if m == "broken"));
}

#[test]
fn repair_asks_the_system_for_the_local_user() {
    let config = repair_config(Ok(String::from("{\"profiles\":{\"p\":{}}}"))).unwrap();
    assert_eq!(config.profiles.get("p").unwrap().username, whoami::username());
}

#[test]
fn repair_by_documents_agrees_with_repair_by_text() {
    let text = "{\"token\":\"t\",\"profiles\":{\"p\":{\"role\":\"r\"}}}";
    let by_document = repair_document(&Json::parse(text).unwrap(), "me").unwrap();
    let by_parsed = repair_parsed(Json::parse(text), "me").unwrap();
    assert_eq!(by_document.to_json(), repaired(text).to_json());
    assert_eq!(by_parsed.to_json(), repaired(text).to_json());
}

#[test]
fn a_repaired_configuration_must_still_be_valid() {
    let config = repaired("{}");
    assert!(matches!(
        finish(&config, None),
        Err(RepairError::Invalid(ConfigError::InvalidToken))
    ));
    let config = repaired("{\"server\":\"nonsense\",\"token\":\"t\"}");
    assert!(matches!(
        finish(&config, None),
        Err(RepairError::Invalid(ConfigError::InvalidUrl(_)))
    ));
}

#[test]
fn a_valid_repair_gives_the_text_to_write_back() {
    let config = repaired("{\"token\":\"t\"}");
    assert_eq!(
        finish(&config, None).unwrap(),
        "{\"server\":\"https://127.0.0.1:8200\",\"token\":\"t\",\"path\":\"ssh-ca\",\"custom_ca\":\"\",\"tls\":true,\"profiles\":{}}"
    );
    assert_eq!(repaired_text(&config, Ok(())).unwrap(), config.write());
    assert!(matches!(
        repaired_text(&config, Err(ConfigError::InvalidToken)),
        Err(RepairError::Invalid(ConfigError::InvalidToken))
    ));
}

#[test]
fn the_file_to_repair_is_the_named_one_or_the_default() {
    assert_eq!(repair_path(Some(String::from("/etc/vssh.json"))), Some(String::from("/etc/vssh.json")));
    assert_eq!(default_path_in("/home/me"), "/home/me/.config/vssh.json");
    if let Some(path) = repair_path(None) {
        assert!(path.ends_with(".config/vssh.json"));
    }
}

#[test]
fn repair_messages() {
    assert_eq!(
        success_message("/home/me/.config/vssh.json"),
        "Successfully repaired configuration at '/home/me/.config/vssh.json'"
    );
    assert_eq!(
        RepairError::ReadFailed(String::from("x")).message(),
        "Failed to read configuration file: x"
    );
    assert_eq!(
        RepairError::Unparsable(DocumentFault::Syntax(String::from("x"))).message(),
        "Provided configuration file has unparsable JSON: x"
    );
    assert_eq!(
        RepairError::Invalid(ConfigError::InvalidToken).message(),
        "Invalid configuration values, run vssh setup to reconfigure: Invalid authentication token"
    );
    assert_eq!(
        RepairError::OpenFailed(String::from("x")).message(),
        "Failed to open configuration file for writing: x"
    );
    assert_eq!(RepairError::WriteFailed(String::from("x")).message(), "Failed to write configuration: x");
}
