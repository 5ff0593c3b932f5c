use std::collections::BTreeSet;

use storefront::orderroutes::{listitems, order_query, Listitems, ProductUpdate, LISTITEMS_SQL, ORDER_SQL};
use storefront::otherroutes::{proddescr, DataInsertProddescr, PRODDESCR_SQL};
use storefront::productroutes::{
    favourites_query, product_images_query, product_query, Favourites, Product, ProductImages,
    FAVOURITES_SQL, PRODUCT_IMAGES_SQL, PRODUCT_SQL,
};
use storefront::query::{Binding, DbQuery, Param};
use storefront::userroutes::{user_query, UserReg, USER_SQL};

fn text(name: &str, value: &str) -> Binding {
    Binding { name: name.to_string(), value: Param::Text(value.to_string()) }
}

fn int_var(name: &str, value: i64) -> Binding {
    Binding { name: name.to_string(), value: Param::Int(value) }
}

/// The names that follow a `$` in a statement.
fn placeholders(sql: &str) -> BTreeSet<String> {
    let mut out = BTreeSet::new();
    let chars: Vec<char> = sql.chars().collect();
    let mut i = 0;
    while i < chars.len() {
        if chars[i] == '$' {
            let mut j = i + 1;
            while j < chars.len() && (chars[j].is_ascii_alphanumeric() || chars[j] == '_') {
                j += 1;
            }
            out.insert(chars[i + 1..j].iter().collect());
            i = j;
        } else {
            i += 1;
        }
    }
    out
}

fn names(q: &DbQuery) -> Vec<String> {
    q.vars.iter().map(|b| b.name.clone()).collect()
}

fn assert_placeholders_bound(q: &DbQuery) {
    let ns = names(q);
    let set: BTreeSet<String> = ns.iter().cloned().collect();
    assert_eq!(set.len(), ns.len(), "a name is bound twice");
    assert_eq!(placeholders(&q.text), set);
}

fn sample_user() -> UserReg {
    UserReg {
        fullname: "Ada Lovelace".to_string(),
        dob: "1815-12-10".to_string(),
        gender: "f".to_string(),
        mob_phone: "+44 7000 000000".to_string(),
        email: "ada@example.org".to_string(),
        passwd: "analytical".to_string(),
        address: "12 St James's Square".to_string(),
        city: "London".to_string(),
        postcode: "SW1Y 4JH".to_string(),
    }
}

#[test]
fn order_query_binds_the_order() {
    let body = ProductUpdate { usid: "u-1".to_string(), total: 12.5f32.to_bits() };
    let q = order_query(&body, "o-1".to_string(), "2024-01-02T03:04:05+00:00".to_string());
    assert_eq!(
        q.text,
        "\n    CREATE orderdet SET orderid = $orderid, usid = $usid, total = $total, created_at = $created_at;\n    "
    );
    assert_eq!(q.text, ORDER_SQL);
    assert_eq!(
        q.vars,
        vec![
            text("orderid", "o-1"),
            text("usid", "u-1"),
            Binding { name: "total".to_string(), value: Param::Float32(0x4148_0000) },
            text("created_at", "2024-01-02T03:04:05+00:00"),
        ]
    );
    assert_placeholders_bound(&q);
}

#[test]
fn listitems_query_binds_the_line() {
    let body = Listitems { productid: "p-9".to_string(), orderidretr: 42, quantity: -3 };
    let q = listitems(&body);
    assert_eq!(q.text, LISTITEMS_SQL);
    assert_eq!(q.vars, vec![text("productid", "p-9"), int_var("orderidretr", 42), int_var("quantity", -3)]);
    assert_placeholders_bound(&q);
}

#[test]
fn proddescr_query_binds_the_category() {
    let q = proddescr(&DataInsertProddescr { descr: "garden".to_string() });
    assert_eq!(q.text, "\n    CREATE prodcategory SET descr = $descr;");
    assert_eq!(q.text, PRODDESCR_SQL);
    assert_eq!(q.vars, vec![text("descr", "garden")]);
    assert_placeholders_bound(&q);
}

#[test]
fn product_query_binds_the_product() {
    let body = Product {
        prodname: "Spade".to_string(),
        proddescr: "A sturdy spade".to_string(),
        prodsku: "SP-1".to_string(),
        descr: "prodcategory:garden".to_string(),
        availableqty: 7,
        price: "19.99".to_string(),
    };
    let q = product_query(&body, "p-1".to_string(), "t".to_string());
    assert_eq!(q.text, PRODUCT_SQL);
    assert!(q.text.contains("price = <float> $price"));
    assert_eq!(
        q.vars,
        vec![
            text("productid", "p-1"),
            text("prodname", "Spade"),
            text("proddescr", "A sturdy spade"),
            text("prodsku", "SP-1"),
            text("descr", "prodcategory:garden"),
            int_var("availableqty", 7),
            text("price", "19.99"),
            text("created_at", "t"),
        ]
    );
    assert_placeholders_bound(&q);
}

#[test]
fn product_images_query_binds_the_images() {
    let body = ProductImages {
        prodsku: "SP-1".to_string(),
        imageone: "a.png".to_string(),
        imagetwo: "b.png".to_string(),
        imagethree: "c.png".to_string(),
        imagefour: "d.png".to_string(),
    };
    let q = product_images_query(&body, "i-1".to_string());
    assert_eq!(q.text, PRODUCT_IMAGES_SQL);
    assert_eq!(
        q.vars,
        vec![
            text("productimgid", "i-1"),
            text("prodsku", "SP-1"),
            text("imageone", "a.png"),
            text("imagetwo", "b.png"),
            text("imagethree", "c.png"),
            text("imagefour", "d.png"),
        ]
    );
    assert_placeholders_bound(&q);
}

#[test]
fn favourites_query_binds_the_favourite() {
    let body = Favourites { usid: "u-1".to_string(), productid: "p-1".to_string() };
    let q = favourites_query(&body, "f-1".to_string());
    assert_eq!(q.text, FAVOURITES_SQL);
    assert_eq!(q.vars, vec![text("favid", "f-1"), text("usid", "u-1"), text("productid", "p-1")]);
    assert_placeholders_bound(&q);
}

#[test]
fn user_query_binds_user_and_address() {
    let body = sample_user();
    let q = user_query(&body, "u-1".to_string(), "a-1".to_string(), "HASH".to_string(), "t".to_string());
    assert_eq!(q.text, USER_SQL);
    assert_eq!(
        q.vars,
        vec![
            text("usid", "u-1"),
            text("fullname", "Ada Lovelace"),
            text("dob", "1815-12-10"),
            text("gender", "f"),
            text("mob_phone", "+44 7000 000000"),
            text("email", "ada@example.org"),
            text("passwd", "HASH"),
            text("created_at", "t"),
            text("addrid", "a-1"),
            text("address", "12 St James's Square"),
            text("city", "London"),
            text("postcode", "SW1Y 4JH"),
        ]
    );
    assert_eq!(q.text.matches("$usid").count(), 2);
    assert_placeholders_bound(&q);
}
