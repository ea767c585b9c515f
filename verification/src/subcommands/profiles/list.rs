use crate::config::Config;
use vstd::prelude::*;

verus! {

/// The names of the profiles, each once, in the order in which they are stored.
pub fn list(config: &Config) -> (r: Vec<String>)
    ensures
        r.deep_view() == config.profiles.names(),
        r.len() == config@.profiles.len(),
{
    let names = config.profiles.keys();
    let count = config.profiles.len();
    assert(names.deep_view().len() == names.len());
    names
}

} // verus!
