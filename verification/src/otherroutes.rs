use vstd::prelude::*;
use crate::placeholders::{lemma_placeholders_from, placeholders};
use crate::query::{Binding, DbQuery, ParamView, QueryView, text_binding};
use crate::surql::{parse_surql, surql_parse};

verus! {

/// A product category as submitted.
#[derive(Clone, Debug, PartialEq, Eq)]
pub struct DataInsertProddescr {
    pub descr: String,
}

/// The statement that records a product category.
pub const PRODDESCR_SQL: &'static str = "\n    CREATE prodcategory SET descr = $descr;";

/// The script that defines every table, field and index of the store.
pub const SCHEMA_SQL: &'static str = "\n    DEFINE TABLE users SCHEMAFULL;\n    DEFINE FIELD usid ON users TYPE string ASSERT is::uuid($value);\n    DEFINE FIELD fullname ON users TYPE string; \n    DEFINE FIELD dob ON users TYPE string;\n    DEFINE FIELD gender ON users TYPE string;\n    DEFINE FIELD email ON users TYPE string ASSERT is::email($value);\n    DEFINE FIELD mob_phone ON users TYPE string;\n    DEFINE FIELD passwd ON users TYPE string;\n    DEFINE FIELD created_at ON users TYPE string;\n    DEFINE INDEX email_idx ON users COLUMNS email UNIQUE;\n    DEFINE INDEX mob_phone_idx ON users COLUMNS mob_phone UNIQUE;\n\n    DEFINE TABLE useraddr SCHEMAFULL;\n    DEFINE FIELD addrid ON useraddr TYPE string;\n    DEFINE FIELD usid ON useraddr TYPE record(users);\n    DEFINE FIELD address ON useraddr TYPE string;\n    DEFINE FIELD city ON useraddr TYPE string;\n    DEFINE FIELD postcode ON useraddr TYPE string;\n\n    DEFINE TABLE prodcategory SCHEMAFULL;\n    DEFINE FIELD descr ON prodcategory TYPE string;\n    DEFINE INDEX descr_idx ON prodcategory COLUMNS descr UNIQUE;\n\n    DEFINE TABLE products SCHEMAFULL;\n    DEFINE FIELD productid ON products TYPE string;\n    DEFINE FIELD prodname ON products TYPE string;\n    DEFINE FIELD proddescr ON products TYPE string;\n    DEFINE FIELD prodsku ON products TYPE string;\n    DEFINE FIELD descr ON products TYPE record(prodcategory);\n    DEFINE FIELD availableqty ON products TYPE int;\n    DEFINE FIELD price ON products TYPE string;\n    DEFINE FIELD created_at ON products TYPE string;\n    DEFINE INDEX prodname_idx ON products COLUMNS prodname UNIQUE;\n    DEFINE INDEX prodsku_idx ON products COLUMNS prodsku UNIQUE;\n\n    DEFINE TABLE productimages SCHEMAFULL;\n    DEFINE FIELD productimgid ON productimages TYPE string;\n    DEFINE FIELD prodsku ON productimages TYPE record(products);\n    DEFINE FIELD imageone ON productimages TYPE string;\n    DEFINE FIELD imagetwo ON productimages TYPE string;\n    DEFINE FIELD imagethree ON productimages TYPE string;\n    DEFINE FIELD imagefour ON productimages TYPE string;\n\n    DEFINE TABLE orderdet SCHEMAFULL;\n    DEFINE FIELD orderid ON orderdet TYPE string;\n    DEFINE FIELD usid ON orderdet TYPE record(users);\n    DEFINE FIELD total ON orderdet TYPE float;\n    DEFINE FIELD created_at ON orderdet TYPE string;\n\n\n    DEFINE TABLE listitems SCHEMAFULL;\n    DEFINE FIELD productid ON listitems TYPE record(products);\n    DEFINE FIELD orderidretr ON listitems TYPE int;\n    DEFINE FIELD quantity ON listitems TYPE int;\n\n    DEFINE TABLE favourites SCHEMAFULL;\n    DEFINE FIELD favid ON favourites TYPE string;\n    DEFINE FIELD usid ON favourites TYPE record(users);\n    DEFINE FIELD productid ON favourites TYPE record(products);\n\n    ";

/// The script that reports on the key-value store, the namespace, the
/// database and the `users` table.
pub const INFO_SQL: &'static str = "INFO FOR KV;\n        INFO FOR NS;\n        INFO FOR DB;\n        INFO FOR TABLE users;\n\n    ";

/// The query that records the category `body`.
pub open spec fn proddescr_query_view(body: DataInsertProddescr) -> QueryView {
    QueryView { text: PRODDESCR_SQL@, bindings: seq![("descr"@, ParamView::Text(body.descr@))] }
}

/// The variables that [`PRODDESCR_SQL`] mentions, in order.
pub proof fn lemma_proddescr_sql_placeholders()
    ensures
        placeholders(PRODDESCR_SQL@) == seq!["descr"@],
{
    reveal_strlit("\n    CREATE prodcategory SET descr = $descr;");
    reveal_strlit("descr");
    let t = PRODDESCR_SQL@;
    let dollars = seq![37int];
    assert(dollars[0] == 37);
    lemma_placeholders_from(t, 0, dollars, seq![43]);
    assert(t.subrange(38, 43) =~= "descr"@);
    assert(placeholders(t) =~= seq!["descr"@]);
}

/// The query that records the category `body`.
pub fn proddescr(body: &DataInsertProddescr) -> (q: DbQuery)
    ensures
        q@ == proddescr_query_view(*body),
        q@.names_distinct(),
        q@.binds_its_placeholders(),
{
    let mut vars: Vec<Binding> = Vec::new();
    vars.push(text_binding("descr", body.descr.clone()));
    let q = DbQuery { text: PRODDESCR_SQL.to_owned(), vars };
    assert(q@.bindings =~= proddescr_query_view(*body).bindings);
    proof {
        lemma_proddescr_sql_placeholders();
        assert(q@.names() =~= seq!["descr"@]);
    }
    q
}

/// The parsed schema script; it fails exactly when the parser refuses
/// [`SCHEMA_SQL`].
pub fn createtable() -> (res: Result<surrealdb::sql::Query, surrealdb::Error>)
    ensures
        res is Ok <==> surql_parse(SCHEMA_SQL@) is Some,
        res matches Ok(q) ==> surql_parse(SCHEMA_SQL@) == Some(q),
{
    parse_surql(SCHEMA_SQL)
}

/// The parsed report script; it fails exactly when the parser refuses
/// [`INFO_SQL`].
pub fn getinfo() -> (res: Result<surrealdb::sql::Query, surrealdb::Error>)
    ensures
        res is Ok <==> surql_parse(INFO_SQL@) is Some,
        res matches Ok(q) ==> surql_parse(INFO_SQL@) == Some(q),
{
    parse_surql(INFO_SQL)
}

} // verus!
