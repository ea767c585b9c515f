use crate::errors::{api_error_text, ApiError};
use crate::text::joined;
use vstd::prelude::*;
use vstd::string::*;

verus! {

/// What listing the roles shows: the roles as the signing client gave them, one to a
/// line; or, where the client failed, what the operator is told.
pub fn list(roles: Result<Vec<String>, ApiError>) -> (r: Result<Vec<String>, String>)
    ensures
        match roles {
            Ok(names) => r == Ok::<Vec<String>, String>(names),
            Err(error) => r matches Err(message) && message@ == "Failed to list roles: "@
                + api_error_text(error@),
        },
{
    match roles {
        Ok(names) => Ok(names),
        Err(error) => {
            let detail = error.message();
            Err(joined("Failed to list roles: ", detail.as_str()))
        },
    }
}

} // verus!
