//! Checking a schema's text before it is migrated.
use vstd::prelude::*;

use graphql_parser::schema::ParseError;

verus! {

#[verifier::external_type_specification]
#[verifier::external_body]
pub struct ExParseError(ParseError);

/// Whether a text is a GraphQL schema document.
pub uninterp spec fn schema_parses(s: Seq<char>) -> bool;

/// Relies on graphql_parser::schema::parse_schema: whether it accepts a text
/// depends on the text alone, and it asks for at least one definition, so it
/// refuses an empty text.
#[verifier::external_body]
fn parse_schema_text(schema: &str) -> (r: Result<(), ParseError>)
    ensures
        r is Ok == schema_parses(schema@),
        schema@.len() == 0 ==> r is Err,
{
    match graphql_parser::schema::parse_schema::<&str>(schema) {
        Ok(_) => Ok(()),
        Err(e) => Err(e),
    }
}

/// Why a schema cannot be migrated.
#[derive(Debug)]
pub enum MigrateError {
    /// The text is not a schema document.
    Syntax(ParseError),
}

/// Checks that a schema's text is a schema document.
pub fn migrate(schema: &str) -> (r: Result<(), MigrateError>)
    ensures
        r is Ok == schema_parses(schema@),
        schema@.len() == 0 ==> r is Err,
{
    match parse_schema_text(schema) {
        Ok(()) => Ok(()),
        Err(e) => Err(MigrateError::Syntax(e)),
    }
}

} // verus!
