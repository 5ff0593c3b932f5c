use storefront::otherroutes::{createtable, getinfo, SCHEMA_SQL};
use storefront::productroutes::getproducts;
use storefront::userroutes::fetchusers;

#[test]
fn schema_script_parses() {
    let q = createtable().expect("schema parses");
    assert_eq!(q.len(), 51);
    assert!(SCHEMA_SQL.contains("DEFINE TABLE favourites SCHEMAFULL;"));
}

#[test]
fn info_script_parses() {
    assert_eq!(getinfo().expect("info parses").len(), 4);
}

#[test]
fn select_queries_parse() {
    assert_eq!(getproducts().expect("products parse").len(), 1);
    assert_eq!(fetchusers().expect("users parse").len(), 1);
}

use std::collections::BTreeSet;
use storefront::orderroutes::{LISTITEMS_SQL, ORDER_SQL};
use storefront::otherroutes::PRODDESCR_SQL;
use storefront::productroutes::{FAVOURITES_SQL, PRODUCT_IMAGES_SQL, PRODUCT_SQL};
use storefront::userroutes::USER_SQL;

fn declared(table: &str) -> BTreeSet<String> {
    SCHEMA_SQL
        .lines()
        .filter_map(|l| l.trim().strip_prefix("DEFINE FIELD "))
        .filter_map(|rest| {
            let mut words = rest.split(' ');
            let field = words.next()?;
            if words.next()? == "ON" && words.next()? == table {
                Some(field.to_string())
            } else {
                None
            }
        })
        .collect()
}

fn variables(sql: &str) -> BTreeSet<String> {
    sql.split('$')
        .skip(1)
        .map(|s| s.chars().take_while(|c| c.is_ascii_alphanumeric() || *c == '_').collect())
        .collect()
}

#[test]
fn writers_bind_the_declared_fields() {
    let mut users = USER_SQL.split(";\n");
    assert_eq!(declared("users"), variables(users.next().unwrap()));
    assert_eq!(declared("useraddr"), variables(users.next().unwrap()));
    assert_eq!(declared("prodcategory"), variables(PRODDESCR_SQL));
    assert_eq!(declared("products"), variables(PRODUCT_SQL));
    assert_eq!(declared("productimages"), variables(PRODUCT_IMAGES_SQL));
    assert_eq!(declared("orderdet"), variables(ORDER_SQL));
    assert_eq!(declared("listitems"), variables(LISTITEMS_SQL));
    assert_eq!(declared("favourites"), variables(FAVOURITES_SQL));
    assert_eq!(declared("orderdet").len(), 4);
}

#[test]
fn parsing_a_fixed_script_gives_the_same_query() {
    assert_eq!(createtable().unwrap(), createtable().unwrap());
    assert_eq!(getinfo().unwrap(), getinfo().unwrap());
    assert_ne!(getproducts().unwrap(), fetchusers().unwrap());
}
