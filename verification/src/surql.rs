use vstd::prelude::*;
use crate::otherroutes::{INFO_SQL, SCHEMA_SQL};
use crate::productroutes::PRODUCTS_SELECT_SQL;
use crate::userroutes::USERS_SELECT_SQL;

verus! {

#[verifier::external_type_specification]
#[verifier::external_body]
pub struct ExQuery(surrealdb::sql::Query);

// `Query` dereferences to a vector of `Statement`s, so Verus needs this
// type declared as well; nothing here uses it directly.
#[verifier::external_type_specification]
#[verifier::external_body]
pub struct ExStatement(surrealdb::sql::Statement);

#[verifier::external_type_specification]
#[verifier::external_body]
pub struct ExSurrealError(surrealdb::Error);

/// The query that SurrealDB's parser makes of `text`, or `None` where it
/// refuses the text.
pub uninterp spec fn surql_parse(text: Seq<char>) -> Option<surrealdb::sql::Query>;

/// `text` is one of the fixed scripts of this library.
pub open spec fn is_fixed_script(text: Seq<char>) -> bool {
    ||| text == SCHEMA_SQL@
    ||| text == INFO_SQL@
    ||| text == PRODUCTS_SELECT_SQL@
    ||| text == USERS_SELECT_SQL@
}

/// Calls `surrealdb::sql::parse` on one of the library's fixed scripts. On
/// such a text the parse depends on the text alone: it succeeds exactly when
/// [`surql_parse`] of the text is `Some`, with that query.
/// Nothing wider is claimed: on other texts the parser's source can panic
/// (an unpaired `\u` escape, an impossible calendar date, an overflowing
/// duration), recurse without bound, or draw random values (`DEFINE LOGIN`).
#[verifier::external_body]
pub(crate) fn parse_surql(text: &str) -> (res: Result<surrealdb::sql::Query, surrealdb::Error>)
    requires
        is_fixed_script(text@),
    ensures
        res is Ok <==> surql_parse(text@) is Some,
        res matches Ok(q) ==> surql_parse(text@) == Some(q),
{
    surrealdb::sql::parse(text)
}

} // verus!
