//! The direct-invocation facade.
//!
//! A caller-facing payload may carry the exports directory under either of
//! two equivalent keys; the snake_case key wins when both are present, and
//! a payload with neither is rejected with an error naming both accepted
//! keys.  The caller reads the loosely-typed payload at its boundary and
//! hands the two optional text values in.

use vstd::prelude::*;

verus! {

/// The run request as the caller's payload carries it.  Each field holds
/// the value of one accepted key, when that key is present with a text
/// value: `exports_dir` the snake_case key, `exports_dir_camel` the
/// camelCase key `exportsDir`.
pub struct RunPayload {
    pub exports_dir: Option<String>,
    pub exports_dir_camel: Option<String>,
}

pub open spec fn missing_param_message() -> Seq<char> {
    "Missing required parameter `exports_dir` or `exportsDir`"@
}

pub open spec fn opt_view(o: Option<String>) -> Option<Seq<char>> {
    match o {
        Some(s) => Some(s@),
        None => None,
    }
}

/// Resolution order over the two keys: snake_case first, then camelCase,
/// else the error naming both.
pub open spec fn resolve_spec(snake: Option<Seq<char>>, camel: Option<Seq<char>>) -> Result<
    Seq<char>,
    Seq<char>,
> {
    match snake {
        Some(d) => Ok(d),
        None => match camel {
            Some(d) => Ok(d),
            None => Err(missing_param_message()),
        },
    }
}

/// Extract the exports directory from a payload, or the error that a
/// direct invocation reports when both keys are absent.
pub fn resolve_exports_dir(payload: RunPayload) -> (r: Result<String, String>)
    ensures
        match r {
            Ok(d) => resolve_spec(
                opt_view(payload.exports_dir),
                opt_view(payload.exports_dir_camel),
            ) == Ok::<Seq<char>, Seq<char>>(d@),
            Err(m) => resolve_spec(
                opt_view(payload.exports_dir),
                opt_view(payload.exports_dir_camel),
            ) == Err::<Seq<char>, Seq<char>>(m@),
        },
{
    match payload.exports_dir {
        Some(d) => Ok(d),
        None => match payload.exports_dir_camel {
            Some(d) => Ok(d),
            None => Err(
                String::from_str("Missing required parameter `exports_dir` or `exportsDir`"),
            ),
        },
    }
}

} // verus!
