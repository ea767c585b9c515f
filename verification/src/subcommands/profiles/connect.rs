use crate::config::Config;
use crate::errors::{ProfileError, ProfileErrorView};
use crate::profile::{clone_text, ProfileView};
use crate::subcommands::connect::{
    chosen_private_key, start_state, Action, ActionView, Lifecycle, LifecycleView,
};
use crate::text::joined3;
use vstd::prelude::*;
use vstd::string::*;

verus! {

/// The target of a profile's session: the user name, an `@`, the address.
pub open spec fn target(profile: ProfileView) -> Seq<char> {
    profile.username + "@"@ + profile.address
}

/// The state in which the lifecycle of a profile's session starts.
pub open spec fn profile_start(profile: ProfileView, sftp: bool) -> LifecycleView {
    start_state(
        profile.role,
        profile.private_key,
        profile.public_key,
        target(profile),
        sftp,
        profile.options,
    )
}

/// Begins the lifecycle of an ephemeral credential for the session of the profile under
/// `name`; an error where there is none.
pub fn connect(name: &str, sftp: bool, config: &Config) -> (r: Result<
    (Lifecycle, Action),
    ProfileError,
>)
    ensures
        match r {
            Ok((lifecycle, action)) => config@.profiles.contains_key(name@) && lifecycle@
                == profile_start(config@.profiles[name@], sftp) && action@ == ActionView::Resolve(
                chosen_private_key(config@.profiles[name@].private_key),
            ),
            Err(error) => !config@.profiles.contains_key(name@) && error@
                == ProfileErrorView::NotFound(name@),
        },
{
    match config.profiles.get(name) {
        None => Err(ProfileError::NotFound(String::from_str(name))),
        Some(profile) => Ok(
            crate::subcommands::connect::connect(
                profile.role.clone(),
                clone_text(&profile.private_key),
                clone_text(&profile.public_key),
                joined3(profile.username.as_str(), "@", profile.address.as_str()),
                sftp,
                profile.options.clone(),
            ),
        ),
    }
}

} // verus!
