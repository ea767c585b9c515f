pub mod api;
pub mod cli;
pub mod config;
pub mod document;
pub mod errors;
pub mod json;
pub mod profile;
pub mod subcommands;
mod system;
pub mod text;

use crate::api::{ApiClient, Response};
use crate::config::{reading_of, Config, ConfigView};
use crate::errors::{
    api_error_text, config_error_text, ApiError, ApiErrorView, ConfigError, ConfigErrorView,
    IoFailure, IoKind,
};
use crate::json::json_parse;
use crate::text::joined;
use vstd::prelude::*;
use vstd::string::*;

verus! {

/// What the operator is told where a configuration could not be loaded: where to go
/// from a missing file and from a file of another format, and the error itself in every
/// other case.
pub open spec fn load_failure_text(error: ConfigErrorView) -> Seq<char> {
    match error {
        ConfigErrorView::NonExistentConfigFile =>
            "No configuration file is present. Run vssh setup or vssh --config /path/to/file.json"@,
        ConfigErrorView::JsonError(_) =>
            "Invalid configuration file format. Run vssh repair-config to fix it"@,
        _ => "Failed to load configuration: "@ + config_error_text(error),
    }
}

/// What loading makes of the outcome of reading the configuration.
pub open spec fn loaded_view(outcome: Result<ConfigView, ConfigErrorView>) -> Result<
    ConfigView,
    Seq<char>,
> {
    match outcome {
        Ok(config) => Ok(config),
        Err(error) => Err(load_failure_text(error)),
    }
}

/// The outcome of loading, seen as mathematical values.
pub open spec fn load_outcome(outcome: Result<Config, String>) -> Result<ConfigView, Seq<char>> {
    match outcome {
        Ok(config) => Ok(config@),
        Err(message) => Err(message@),
    }
}

/// The configuration that was read, or what the operator is told where it was not.
pub fn loaded(outcome: Result<Config, ConfigError>) -> (r: Result<Config, String>)
    ensures
        load_outcome(r) == loaded_view(crate::config::outcome_view(outcome)),
{
    match outcome {
        Ok(config) => Ok(config),
        Err(error) => match error {
            ConfigError::NonExistentConfigFile => Err(
                String::from_str(
                    "No configuration file is present. Run vssh setup or vssh --config /path/to/file.json",
                ),
            ),
            ConfigError::JsonError(_) => Err(
                String::from_str(
                    "Invalid configuration file format. Run vssh repair-config to fix it",
                ),
            ),
            _ => {
                let detail = error.message();
                Err(joined("Failed to load configuration: ", detail.as_str()))
            },
        },
    }
}

/// Loads the configuration from what reading its file gave, and turns an error into
/// what the operator is told.
pub fn load_config(file: Result<String, IoFailure>) -> (r: Result<Config, String>)
    ensures
        load_outcome(r) == loaded_view(
            match file {
                Err(failure) => Err::<ConfigView, ConfigErrorView>(
                    if failure.kind == IoKind::NotFound {
                        ConfigErrorView::NonExistentConfigFile
                    } else {
                        ConfigErrorView::ReadError(failure.message@)
                    },
                ),
                Ok(text) => reading_of(json_parse(text@)),
            },
        ),
{
    loaded(Config::read(file))
}

/// What the operator is told where the token was not found valid.
pub open spec fn token_failure_text(verdict: Result<bool, ApiErrorView>) -> Option<Seq<char>> {
    match verdict {
        Ok(true) => None,
        Ok(false) => Some("Invalid token, please ensure it is correct and try again"@),
        Err(error) => Some("Failed to validate token: "@ + api_error_text(error)),
    }
}

/// The client, once the server has found its token valid; or what the operator is told.
pub fn checked(client: ApiClient, verdict: Result<bool, ApiError>) -> (r: Result<
    ApiClient,
    String,
>)
    ensures
        match token_failure_text(crate::api::bool_outcome(verdict)) {
            None => r == Ok::<ApiClient, String>(client),
            Some(text) => r matches Err(message) && message@ == text,
        },
{
    match verdict {
        Ok(valid) => {
            if valid {
                Ok(client)
            } else {
                Err(String::from_str("Invalid token, please ensure it is correct and try again"))
            }
        },
        Err(error) => {
            let detail = error.message();
            Err(joined("Failed to validate token: ", detail.as_str()))
        },
    }
}

/// Makes sure that the client can reach the API with its token, from what came back
/// for the client's `validate_request`.
pub fn initialize_api(client: ApiClient, reply: Result<Response, String>) -> (r: Result<
    ApiClient,
    String,
>)
    ensures
        match token_failure_text(
            match reply {
                Err(reason) => Err::<bool, ApiErrorView>(ApiErrorView::SendFailure(reason@)),
                Ok(response) => Ok::<bool, ApiErrorView>(
                    crate::api::is_success_code(response.status),
                ),
            },
        ) {
            None => r == Ok::<ApiClient, String>(client),
            Some(text) => r matches Err(message) && message@ == text,
        },
{
    let verdict = client.validate(reply);
    checked(client, verdict)
}

} // verus!
