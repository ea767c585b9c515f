use crate::config::{Config, ConfigView};
use vstd::prelude::*;

verus! {

/// A configuration without the profile under a name; nothing else changes.
pub open spec fn without_profile(config: ConfigView, name: Seq<char>) -> ConfigView {
    ConfigView { profiles: config.profiles.remove(name), ..config }
}

/// Deleting a name under which no profile stands changes nothing.
pub proof fn lemma_delete_absent(config: ConfigView, name: Seq<char>)
    requires
        !config.profiles.contains_key(name),
    ensures
        without_profile(config, name) == config,
{
    assert(config.profiles.remove(name) =~= config.profiles);
}

/// Deleting twice is deleting once.
pub proof fn lemma_delete_twice(config: ConfigView, name: Seq<char>)
    ensures
        without_profile(without_profile(config, name), name) == without_profile(config, name),
{
    lemma_delete_absent(without_profile(config, name), name);
}

/// Deletes the profile under `name` if there is one; a name under which no profile
/// stands is no error. The other profiles keep their order; the changed configuration
/// is still to be stored.
pub fn delete(name: &str, config: Config) -> (r: Config)
    ensures
        r@ == without_profile(config@, name@),
        !config@.profiles.contains_key(name@) ==> r@ == config@ && r.profiles.names()
            == config.profiles.names(),
        config@.profiles.contains_key(name@) ==> r.profiles.names()
            == config.profiles.names().remove(config.profiles.names().index_of(name@)),
{
    proof {
        if !config@.profiles.contains_key(name@) {
            lemma_delete_absent(config@, name@);
        }
    }
    let mut config = config;
    config.profiles.remove(name);
    config
}

} // verus!
