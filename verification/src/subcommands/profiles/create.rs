use crate::config::{Config, ConfigView};
use crate::document::{text_or, text_or_default, text_view};
use crate::errors::{ProfileError, ProfileErrorView};
use crate::profile::{Profile, ProfileView};
use crate::system::local_username;
use vstd::prelude::*;

verus! {

/// A configuration with one profile put under a name; nothing else changes.
pub open spec fn with_profile(config: ConfigView, name: Seq<char>, profile: ProfileView) -> ConfigView {
    ConfigView { profiles: config.profiles.insert(name, profile), ..config }
}

/// The profile that is created from what was given: the login name of the local user
/// stands in where no user name was given.
pub open spec fn new_profile(
    username: Option<Seq<char>>,
    address: Seq<char>,
    role: Seq<char>,
    private_key: Option<Seq<char>>,
    public_key: Option<Seq<char>>,
    options: Seq<char>,
    local: Seq<char>,
) -> ProfileView {
    ProfileView {
        username: text_or(username, local),
        address,
        role,
        private_key,
        public_key,
        options,
    }
}

/// What creating a profile gives: the configuration with the new profile, or the error
/// where the name is taken.
pub open spec fn created(config: ConfigView, name: Seq<char>, profile: ProfileView) -> Result<
    ConfigView,
    ProfileErrorView,
> {
    if config.profiles.contains_key(name) {
        Err(ProfileErrorView::AlreadyExists(name))
    } else {
        Ok(with_profile(config, name, profile))
    }
}

/// The outcome of a change to the profiles, seen as mathematical values.
pub open spec fn outcome_view(outcome: Result<Config, ProfileError>) -> Result<
    ConfigView,
    ProfileErrorView,
> {
    match outcome {
        Ok(config) => Ok(config@),
        Err(error) => Err(error@),
    }
}

/// Creates a profile, with the login name of the local user handed in. The new profile
/// goes last; the changed configuration is still to be stored.
pub fn create_as(
    name: String,
    username: Option<String>,
    address: String,
    role: String,
    private_key: Option<String>,
    public_key: Option<String>,
    options: String,
    config: Config,
    local: &str,
) -> (r: Result<Config, ProfileError>)
    ensures
        outcome_view(r) == created(
            config@,
            name@,
            new_profile(
                text_view(username),
                address@,
                role@,
                text_view(private_key),
                text_view(public_key),
                options@,
                local@,
            ),
        ),
        r matches Ok(updated) ==> updated.profiles.names() == config.profiles.names().push(name@),
{
    if config.profiles.contains_key(name.as_str()) {
        return Err(ProfileError::AlreadyExists(name));
    }
    let profile = Profile {
        username: text_or_default(username, local),
        address,
        role,
        private_key,
        public_key,
        options,
    };
    let mut config = config;
    config.profiles.insert(name, profile);
    Ok(config)
}

/// Creates a profile. Where no user name is given, the login name of the local user
/// stands in. The new profile goes last; the changed configuration is still to be
/// stored.
pub fn create(
    name: String,
    username: Option<String>,
    address: String,
    role: String,
    private_key: Option<String>,
    public_key: Option<String>,
    options: String,
    config: Config,
) -> (r: Result<Config, ProfileError>)
    ensures
        exists|local: Seq<char>|
            outcome_view(r) == created(
                config@,
                name@,
                new_profile(
                    text_view(username),
                    address@,
                    role@,
                    text_view(private_key),
                    text_view(public_key),
                    options@,
                    local,
                ),
            ),
        r matches Ok(updated) ==> updated.profiles.names() == config.profiles.names().push(name@),
{
    let local = local_username();
    let r = create_as(
        name,
        username,
        address,
        role,
        private_key,
        public_key,
        options,
        config,
        local.as_str(),
    );
    assert(outcome_view(r) == created(
        config@,
        name@,
        new_profile(
            text_view(username),
            address@,
            role@,
            text_view(private_key),
            text_view(public_key),
            options@,
            local@,
        ),
    ));
    r
}

} // verus!
