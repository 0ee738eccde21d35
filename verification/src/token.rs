//! Credential resolution: the single session token used for every request,
//! chosen once from a small ordered list of sources.
//!
//! The sources themselves (the process environment and a token file found
//! by the embedding application) are handed in as plain optional values;
//! this function owns the precedence and the trimming.

use vstd::prelude::*;

use crate::text;

verus! {

/// Resolves the session token: a value from the environment wins outright;
/// otherwise the contents of a token file are used with trailing whitespace
/// trimmed; if neither source yields a value, resolution fails, and the
/// caller decides how fatal that is.
pub fn resolve_token(env_token: Option<String>, file_contents: Option<String>) -> (r: Option<
    String,
>)
    ensures
        env_token matches Some(t) ==> (r matches Some(s) && s@ == t@),
        env_token is None ==> (file_contents matches Some(c) ==> r matches Some(s) && s@
            == text::spec_trim_end(c@)),
        env_token is None && file_contents is None ==> r is None,
{
    match env_token {
        Some(t) => Some(t),
        None => match file_contents {
            Some(c) => Some(text::trim_end_ws(c.as_str())),
            None => None,
        },
    }
}

} // verus!
