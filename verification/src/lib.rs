//! Inspection of compact signed tokens: structural parsing, claims analysis,
//! signature verification against a caller-supplied key, and assembly of a
//! sectioned textual report.

use vstd::prelude::*;
use vstd::string::StringExecFns;

pub mod builder;
pub mod claims;
pub mod errors;
pub mod jsonval;
pub mod jwt_extension;
pub mod parser;
pub mod textnum;
pub mod verification;

verus! {

/// State for the sample database-client extension; it holds nothing yet.
pub struct ZedDbclient {}

/// The fixed sample query-result table, as Markdown.
pub open spec fn query_results_table() -> Seq<char> {
    "| id | name | email |\n"@ + "| --- | --- | --- |\n"@
        + "| 1 | Alice | alice@example.com |\n"@ + "| 2 | Bob | bob@example.com |\n"@
}

/// Renders the sample query result as a Markdown table.
pub fn format_query_results() -> (r: String)
    ensures
        r@ == query_results_table(),
{
    let mut table = String::new();
    table.append("| id | name | email |\n");
    table.append("| --- | --- | --- |\n");
    table.append("| 1 | Alice | alice@example.com |\n");
    table.append("| 2 | Bob | bob@example.com |\n");
    table
}

} // verus!
