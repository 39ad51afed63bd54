//! Reading one table of the store from its JSON payload.

use std::collections::HashMap;
use vstd::prelude::*;

verus! {

/// What an executable table holds, as a map from ids to character
/// sequences.
pub open spec fn table_view(table: &HashMap<usize, String>) -> Map<usize, Seq<char>> {
    table@.map_values(|text: String| text@)
}

/// The error that `serde_json` reports for a payload it cannot read.
#[verifier::external_type_specification]
#[verifier::external_body]
pub struct ExJsonError(serde_json::Error);

/// The table that `serde_json::from_str` reads from `payload` when asked
/// for a `HashMap<usize, String>`, or `None` where it reports an error.
/// It reads a table from one JSON object whose keys are ids and whose
/// values are strings.
pub uninterp spec fn parsed_table(payload: Seq<char>) -> Option<Map<usize, Seq<char>>>;

/// Calls `serde_json::from_str` for a `HashMap<usize, String>`.
///
/// Trusted: the parser's answer depends on the payload alone, so the
/// table it returns is `parsed_table` of the payload, and it reports an
/// error exactly where `parsed_table` is `None`.
#[verifier::external_body]
pub(crate) fn parse_table(payload: &str) -> (parsed: Result<
    HashMap<usize, String>,
    serde_json::Error,
>)
    ensures
        match parsed {
            Ok(table) => parsed_table(payload@) == Some(table_view(&table)),
            Err(_) => parsed_table(payload@).is_none(),
        },
{
    serde_json::from_str(payload)
}

} // verus!
