use crate::config::Config;
use crate::document::{text_or, text_view};
use crate::errors::{ProfileError, ProfileErrorView};
use crate::profile::ProfileView;
use vstd::prelude::*;
use vstd::string::*;

verus! {

/// What is shown of a profile: its name and, line by line, the user name, the role, the
/// address and the two keys, `None` for a key that is not set.
pub open spec fn profile_text(name: Seq<char>, profile: ProfileView) -> Seq<char> {
    name + ":\n\tUsername: "@ + profile.username + "\n\tRole: "@ + profile.role
        + "\n\tAddress: "@ + profile.address + "\n\tPrivate Key: "@ + text_or(
        profile.private_key,
        "None"@,
    ) + "\n\tPublic Key: "@ + text_or(profile.public_key, "None"@)
}

/// The text under a key that may not be set.
fn key_text(key: &Option<String>) -> (r: String)
    ensures
        r@ == text_or(text_view(*key), "None"@),
{
    match key {
        Some(path) => path.clone(),
        None => String::from_str("None"),
    }
}

/// What is shown of the profile under `name`; an error where there is none.
pub fn read(name: &str, config: &Config) -> (r: Result<String, ProfileError>)
    ensures
        match r {
            Ok(text) => config@.profiles.contains_key(name@) && text@ == profile_text(
                name@,
                config@.profiles[name@],
            ),
            Err(error) => !config@.profiles.contains_key(name@) && error@
                == ProfileErrorView::NotFound(name@),
        },
{
    match config.profiles.get(name) {
        None => Err(ProfileError::NotFound(String::from_str(name))),
        Some(profile) => {
            let mut text = String::from_str(name);
            text.append(":\n\tUsername: ");
            text.append(profile.username.as_str());
            text.append("\n\tRole: ");
            text.append(profile.role.as_str());
            text.append("\n\tAddress: ");
            text.append(profile.address.as_str());
            text.append("\n\tPrivate Key: ");
            let private_key = key_text(&profile.private_key);
            text.append(private_key.as_str());
            text.append("\n\tPublic Key: ");
            let public_key = key_text(&profile.public_key);
            text.append(public_key.as_str());
            Ok(text)
        },
    }
}

} // verus!
