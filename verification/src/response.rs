use vstd::prelude::*;

use crate::json::{json_accepts, json_pretty_of, json_reformat};

verus! {

/// Converts a JSON string into formatted JSON; text that is not JSON passes
/// through unchanged.
pub fn format_body(body: &str) -> (r: String)
    ensures
        json_accepts(body@) ==> r@ == json_pretty_of(body@),
        !json_accepts(body@) ==> r@ == body@,
{
    match json_reformat(body) {
        Some(pretty) => pretty,
        None => String::from_str(body),
    }
}

} // verus!
