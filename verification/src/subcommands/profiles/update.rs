use crate::config::{Config, ConfigView};
use crate::document::{text_or, text_view};
use crate::errors::{ProfileError, ProfileErrorView};
use crate::profile::{clone_text, Profile, ProfileView};
use crate::subcommands::profiles::create::{outcome_view, with_profile};
use vstd::prelude::*;

verus! {

/// A text that may be absent, or what stands in for it where it is.
pub open spec fn option_or(text: Option<Seq<char>>, old: Option<Seq<char>>) -> Option<
    Seq<char>,
> {
    match text {
        Some(t) => Some(t),
        None => old,
    }
}

/// A profile after a partial update: each field that was given replaces the old one,
/// each field that was not given stays.
pub open spec fn merged(
    old: ProfileView,
    username: Option<Seq<char>>,
    address: Option<Seq<char>>,
    role: Option<Seq<char>>,
    private_key: Option<Seq<char>>,
    public_key: Option<Seq<char>>,
    options: Option<Seq<char>>,
) -> ProfileView {
    ProfileView {
        username: text_or(username, old.username),
        address: text_or(address, old.address),
        role: text_or(role, old.role),
        private_key: option_or(private_key, old.private_key),
        public_key: option_or(public_key, old.public_key),
        options: text_or(options, old.options),
    }
}

/// What updating a profile gives: the configuration with the merged profile, or the
/// error where no profile stands under the name.
pub open spec fn updated(
    config: ConfigView,
    name: Seq<char>,
    username: Option<Seq<char>>,
    address: Option<Seq<char>>,
    role: Option<Seq<char>>,
    private_key: Option<Seq<char>>,
    public_key: Option<Seq<char>>,
    options: Option<Seq<char>>,
) -> Result<ConfigView, ProfileErrorView> {
    if config.profiles.contains_key(name) {
        Ok(
            with_profile(
                config,
                name,
                merged(
                    config.profiles[name],
                    username,
                    address,
                    role,
                    private_key,
                    public_key,
                    options,
                ),
            ),
        )
    } else {
        Err(ProfileErrorView::NotFound(name))
    }
}

/// An update is a partial merge: a field that is not given keeps its value, whatever
/// else is given; so an update of the address alone leaves the user name, the role, the
/// keys and the options as they were, and an update that gives nothing changes
/// nothing.
pub proof fn lemma_update_is_partial(
    old: ProfileView,
    username: Option<Seq<char>>,
    address: Option<Seq<char>>,
    role: Option<Seq<char>>,
    private_key: Option<Seq<char>>,
    public_key: Option<Seq<char>>,
    options: Option<Seq<char>>,
)
    ensures
        username is None ==> merged(
            old,
            username,
            address,
            role,
            private_key,
            public_key,
            options,
        ).username == old.username,
        address is None ==> merged(
            old,
            username,
            address,
            role,
            private_key,
            public_key,
            options,
        ).address == old.address,
        role is None ==> merged(old, username, address, role, private_key, public_key, options).role
            == old.role,
        private_key is None ==> merged(
            old,
            username,
            address,
            role,
            private_key,
            public_key,
            options,
        ).private_key == old.private_key,
        public_key is None ==> merged(
            old,
            username,
            address,
            role,
            private_key,
            public_key,
            options,
        ).public_key == old.public_key,
        options is None ==> merged(
            old,
            username,
            address,
            role,
            private_key,
            public_key,
            options,
        ).options == old.options,
        address matches Some(new_address) ==> merged(old, None, address, None, None, None, None)
            == (ProfileView { address: new_address, ..old }),
        merged(old, None, None, None, None, None, None) == old,
{
}

/// An update touches the profile under its name and no other.
pub proof fn lemma_update_is_local(
    config: ConfigView,
    name: Seq<char>,
    other: Seq<char>,
    username: Option<Seq<char>>,
    address: Option<Seq<char>>,
    role: Option<Seq<char>>,
    private_key: Option<Seq<char>>,
    public_key: Option<Seq<char>>,
    options: Option<Seq<char>>,
)
    requires
        config.profiles.contains_key(name),
        other != name,
    ensures
        updated(config, name, username, address, role, private_key, public_key, options)
            matches Ok(after) && after.profiles.contains_key(other)
            == config.profiles.contains_key(other) && (config.profiles.contains_key(other)
            ==> after.profiles[other] == config.profiles[other]),
{
}

/// The text that replaces another where it is given.
fn replaced(new: Option<String>, old: &String) -> (r: String)
    ensures
        r@ == text_or(text_view(new), old@),
{
    match new {
        Some(text) => text,
        None => old.clone(),
    }
}

/// The optional text that replaces another where it is given.
fn replaced_option(new: Option<String>, old: &Option<String>) -> (r: Option<String>)
    ensures
        text_view(r) == option_or(text_view(new), text_view(*old)),
{
    match new {
        Some(text) => Some(text),
        None => clone_text(old),
    }
}

/// Updates the profile under `name`: each field that is given replaces the stored one,
/// each field that is not given stays. The profiles keep their order; the changed
/// configuration is still to be stored.
pub fn update(
    name: String,
    username: Option<String>,
    address: Option<String>,
    role: Option<String>,
    private_key: Option<String>,
    public_key: Option<String>,
    options: Option<String>,
    config: Config,
) -> (r: Result<Config, ProfileError>)
    ensures
        outcome_view(r) == updated(
            config@,
            name@,
            text_view(username),
            text_view(address),
            text_view(role),
            text_view(private_key),
            text_view(public_key),
            text_view(options),
        ),
        r matches Ok(after) ==> after.profiles.names() == config.profiles.names(),
{
    let profile = match config.profiles.get(name.as_str()) {
        None => {
            return Err(ProfileError::NotFound(name));
        },
        Some(old) => Profile {
            username: replaced(username, &old.username),
            address: replaced(address, &old.address),
            role: replaced(role, &old.role),
            private_key: replaced_option(private_key, &old.private_key),
            public_key: replaced_option(public_key, &old.public_key),
            options: replaced(options, &old.options),
        },
    };
    let mut config = config;
    config.profiles.insert(name, profile);
    Ok(config)
}

} // verus!
