use vstd::prelude::*;

verus! {

/// `whoami::username`: the login name of the user who runs the program. It depends on
/// the machine and the session, so nothing is promised of it.
#[verifier::external_body]
pub(crate) fn local_username() -> (r: String) {
    whoami::username()
}

/// `dirs::home_dir`: the user's home directory, where the system names one and the name
/// is Unicode. It depends on the machine and the session, so nothing is promised of it.
#[verifier::external_body]
pub(crate) fn home_directory() -> (r: Option<String>) {
    match dirs::home_dir() {
        Some(home) => match home.to_str() {
            Some(text) => Some(text.to_owned()),
            None => None,
        },
        None => None,
    }
}

} // verus!
