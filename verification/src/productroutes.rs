use vstd::prelude::*;
use crate::clock::{is_clock_reading, is_utc_rfc3339, now_rfc3339};
use crate::ids::{fresh_id, is_drawn_id, is_v4_uuid_text};
use crate::placeholders::{lemma_placeholders_from, placeholders};
use crate::query::{Binding, DbQuery, ParamView, QueryView, int_binding, text_binding};
use crate::surql::{parse_surql, surql_parse};

verus! {

/// A product as submitted for the catalogue.
#[derive(Clone, Debug, PartialEq, Eq)]
pub struct Product {
    pub prodname: String,
    pub proddescr: String,
    pub prodsku: String,
    pub descr: String,
    pub availableqty: i64,
    pub price: String,
}

/// The four images of the product with stock-keeping unit `prodsku`.
#[derive(Clone, Debug, PartialEq, Eq)]
pub struct ProductImages {
    pub prodsku: String,
    pub imageone: String,
    pub imagetwo: String,
    pub imagethree: String,
    pub imagefour: String,
}

/// A product that a user marks as a favourite.
#[derive(Clone, Debug, PartialEq, Eq)]
pub struct Favourites {
    pub usid: String,
    pub productid: String,
}

/// The query that lists the catalogue.
pub const PRODUCTS_SELECT_SQL: &'static str = "SELECT * FROM products;";

/// The statement that records a product; the price is cast to a float by the database.
pub const PRODUCT_SQL: &'static str = "\n    CREATE products SET productid = $productid, prodname = $prodname, proddescr = $proddescr, prodsku = $prodsku, descr = $descr, availableqty = $availableqty, price = <float> $price, created_at = $created_at;\n    ";

/// The statement that records the images of a product.
pub const PRODUCT_IMAGES_SQL: &'static str = "\n    CREATE productimages SET productimgid = $productimgid, prodsku = $prodsku, imageone = $imageone, imagetwo = $imagetwo, imagethree = $imagethree, imagefour = $imagefour;\n    ";

/// The statement that records a favourite.
pub const FAVOURITES_SQL: &'static str = "\n    CREATE favourites SET favid = $favid, usid = $usid, productid = $productid;\n    ";

/// The query that records `body` as the product `productid`, created at `created_at`.
pub open spec fn product_query_view(body: Product, productid: Seq<char>, created_at: Seq<char>) -> QueryView {
    QueryView {
        text: PRODUCT_SQL@,
        bindings: seq![
            ("productid"@, ParamView::Text(productid)),
            ("prodname"@, ParamView::Text(body.prodname@)),
            ("proddescr"@, ParamView::Text(body.proddescr@)),
            ("prodsku"@, ParamView::Text(body.prodsku@)),
            ("descr"@, ParamView::Text(body.descr@)),
            ("availableqty"@, ParamView::Int(body.availableqty)),
            ("price"@, ParamView::Text(body.price@)),
            ("created_at"@, ParamView::Text(created_at)),
        ],
    }
}

/// The query that records the images `body` under the identifier `productimgid`.
pub open spec fn product_images_query_view(body: ProductImages, productimgid: Seq<char>) -> QueryView {
    QueryView {
        text: PRODUCT_IMAGES_SQL@,
        bindings: seq![
            ("productimgid"@, ParamView::Text(productimgid)),
            ("prodsku"@, ParamView::Text(body.prodsku@)),
            ("imageone"@, ParamView::Text(body.imageone@)),
            ("imagetwo"@, ParamView::Text(body.imagetwo@)),
            ("imagethree"@, ParamView::Text(body.imagethree@)),
            ("imagefour"@, ParamView::Text(body.imagefour@)),
        ],
    }
}

/// The query that records the favourite `body` under the identifier `favid`.
pub open spec fn favourites_query_view(body: Favourites, favid: Seq<char>) -> QueryView {
    QueryView {
        text: FAVOURITES_SQL@,
        bindings: seq![
            ("favid"@, ParamView::Text(favid)),
            ("usid"@, ParamView::Text(body.usid@)),
            ("productid"@, ParamView::Text(body.productid@)),
        ],
    }
}

/// The variables that [`PRODUCT_SQL`] mentions, in order.
pub proof fn lemma_product_sql_placeholders()
    ensures
        placeholders(PRODUCT_SQL@) == seq!["productid"@, "prodname"@, "proddescr"@, "prodsku"@, "descr"@, "availableqty"@, "price"@, "created_at"@],
{
    reveal_strlit("\n    CREATE products SET productid = $productid, prodname = $prodname, proddescr = $proddescr, prodsku = $prodsku, descr = $descr, availableqty = $availableqty, price = <float> $price, created_at = $created_at;\n    ");
    reveal_strlit("productid");
    reveal_strlit("prodname");
    reveal_strlit("proddescr");
    reveal_strlit("prodsku");
    reveal_strlit("descr");
    reveal_strlit("availableqty");
    reveal_strlit("price");
    reveal_strlit("created_at");
    let t = PRODUCT_SQL@;
    lemma_placeholders_from(t, 0, seq![37, 60, 83, 105, 123, 146, 177, 198], seq![47, 69, 93, 113, 129, 159, 183, 209]);
    assert(t.subrange(38, 47) =~= "productid"@);
    assert(t.subrange(61, 69) =~= "prodname"@);
    assert(t.subrange(84, 93) =~= "proddescr"@);
    assert(t.subrange(106, 113) =~= "prodsku"@);
    assert(t.subrange(124, 129) =~= "descr"@);
    assert(t.subrange(147, 159) =~= "availableqty"@);
    assert(t.subrange(178, 183) =~= "price"@);
    assert(t.subrange(199, 209) =~= "created_at"@);
    assert(placeholders(t) =~= seq!["productid"@, "prodname"@, "proddescr"@, "prodsku"@, "descr"@, "availableqty"@, "price"@, "created_at"@]);
}

/// The variables that [`PRODUCT_IMAGES_SQL`] mentions, in order.
pub proof fn lemma_product_images_sql_placeholders()
    ensures
        placeholders(PRODUCT_IMAGES_SQL@) == seq!["productimgid"@, "prodsku"@, "imageone"@, "imagetwo"@, "imagethree"@, "imagefour"@],
{
    reveal_strlit("\n    CREATE productimages SET productimgid = $productimgid, prodsku = $prodsku, imageone = $imageone, imagetwo = $imagetwo, imagethree = $imagethree, imagefour = $imagefour;\n    ");
    reveal_strlit("productimgid");
    reveal_strlit("prodsku");
    reveal_strlit("imageone");
    reveal_strlit("imagetwo");
    reveal_strlit("imagethree");
    reveal_strlit("imagefour");
    let t = PRODUCT_IMAGES_SQL@;
    lemma_placeholders_from(t, 0, seq![45, 70, 91, 113, 137, 162], seq![58, 78, 100, 122, 148, 172]);
    assert(t.subrange(46, 58) =~= "productimgid"@);
    assert(t.subrange(71, 78) =~= "prodsku"@);
    assert(t.subrange(92, 100) =~= "imageone"@);
    assert(t.subrange(114, 122) =~= "imagetwo"@);
    assert(t.subrange(138, 148) =~= "imagethree"@);
    assert(t.subrange(163, 172) =~= "imagefour"@);
    assert(placeholders(t) =~= seq!["productimgid"@, "prodsku"@, "imageone"@, "imagetwo"@, "imagethree"@, "imagefour"@]);
}

/// The variables that [`FAVOURITES_SQL`] mentions, in order.
pub proof fn lemma_favourites_sql_placeholders()
    ensures
        placeholders(FAVOURITES_SQL@) == seq!["favid"@, "usid"@, "productid"@],
{
    reveal_strlit("\n    CREATE favourites SET favid = $favid, usid = $usid, productid = $productid;\n    ");
    reveal_strlit("favid");
    reveal_strlit("usid");
    reveal_strlit("productid");
    let t = FAVOURITES_SQL@;
    lemma_placeholders_from(t, 0, seq![35, 50, 69], seq![41, 55, 79]);
    assert(t.subrange(36, 41) =~= "favid"@);
    assert(t.subrange(51, 55) =~= "usid"@);
    assert(t.subrange(70, 79) =~= "productid"@);
    assert(placeholders(t) =~= seq!["favid"@, "usid"@, "productid"@]);
}

/// The parsed query that lists the catalogue; it fails exactly when the
/// parser refuses [`PRODUCTS_SELECT_SQL`].
pub fn getproducts() -> (res: Result<surrealdb::sql::Query, surrealdb::Error>)
    ensures
        res is Ok <==> surql_parse(PRODUCTS_SELECT_SQL@) is Some,
        res matches Ok(q) ==> surql_parse(PRODUCTS_SELECT_SQL@) == Some(q),
{
    parse_surql(PRODUCTS_SELECT_SQL)
}

/// Records `body` as the product `productid`, created at `created_at`.
pub fn product_query(body: &Product, productid: String, created_at: String) -> (q: DbQuery)
    ensures
        q@ == product_query_view(*body, productid@, created_at@),
        q@.names_distinct(),
        q@.binds_its_placeholders(),
{
    let mut vars: Vec<Binding> = Vec::new();
    vars.push(text_binding("productid", productid));
    vars.push(text_binding("prodname", body.prodname.clone()));
    vars.push(text_binding("proddescr", body.proddescr.clone()));
    vars.push(text_binding("prodsku", body.prodsku.clone()));
    vars.push(text_binding("descr", body.descr.clone()));
    vars.push(int_binding("availableqty", body.availableqty));
    vars.push(text_binding("price", body.price.clone()));
    vars.push(text_binding("created_at", created_at));
    let q = DbQuery { text: PRODUCT_SQL.to_owned(), vars };
    assert(q@.bindings =~= product_query_view(*body, productid@, created_at@).bindings);
    proof {
        reveal_strlit("productid");
        reveal_strlit("prodname");
        reveal_strlit("proddescr");
        reveal_strlit("prodsku");
        reveal_strlit("descr");
        reveal_strlit("availableqty");
        reveal_strlit("price");
        reveal_strlit("created_at");
    }
    proof {
        lemma_product_sql_placeholders();
        assert(q@.names() =~= seq!["productid"@, "prodname"@, "proddescr"@, "prodsku"@, "descr"@, "availableqty"@, "price"@, "created_at"@]);
    }
    assert forall|i: int, j: int| 0 <= i < j < 8 implies q@.bindings[i].0 != q@.bindings[j].0 by {
        assert(q@.bindings[i].0.len() != q@.bindings[j].0.len() || q@.bindings[i].0[4] != q@.bindings[j].0[4]);
    }
    q
}

/// The query for a new product: a fresh identifier, the current time and the submitted fields.
pub fn insertproduct(body: &Product) -> (q: DbQuery)
    ensures
        exists|productid: Seq<char>, created_at: Seq<char>|
            is_v4_uuid_text(productid) && is_drawn_id(productid) && is_utc_rfc3339(created_at)
                && is_clock_reading(created_at) && q@
                == #[trigger] product_query_view(*body, productid, created_at),
        q@.names_distinct(),
        q@.binds_its_placeholders(),
{
    let productid = fresh_id();
    let now = now_rfc3339();
    let ghost (id, ts) = (productid@, now@);
    let q = product_query(body, productid, now);
    assert(q@ == product_query_view(*body, id, ts));
    q
}

/// Records the images `body` under the identifier `productimgid`.
pub fn product_images_query(body: &ProductImages, productimgid: String) -> (q: DbQuery)
    ensures
        q@ == product_images_query_view(*body, productimgid@),
        q@.names_distinct(),
        q@.binds_its_placeholders(),
{
    let mut vars: Vec<Binding> = Vec::new();
    vars.push(text_binding("productimgid", productimgid));
    vars.push(text_binding("prodsku", body.prodsku.clone()));
    vars.push(text_binding("imageone", body.imageone.clone()));
    vars.push(text_binding("imagetwo", body.imagetwo.clone()));
    vars.push(text_binding("imagethree", body.imagethree.clone()));
    vars.push(text_binding("imagefour", body.imagefour.clone()));
    let q = DbQuery { text: PRODUCT_IMAGES_SQL.to_owned(), vars };
    assert(q@.bindings =~= product_images_query_view(*body, productimgid@).bindings);
    proof {
        reveal_strlit("productimgid");
        reveal_strlit("prodsku");
        reveal_strlit("imageone");
        reveal_strlit("imagetwo");
        reveal_strlit("imagethree");
        reveal_strlit("imagefour");
    }
    proof {
        lemma_product_images_sql_placeholders();
        assert(q@.names() =~= seq!["productimgid"@, "prodsku"@, "imageone"@, "imagetwo"@, "imagethree"@, "imagefour"@]);
    }
    assert forall|i: int, j: int| 0 <= i < j < 6 implies q@.bindings[i].0 != q@.bindings[j].0 by {
        assert(q@.bindings[i].0.len() != q@.bindings[j].0.len() || q@.bindings[i].0[5] != q@.bindings[j].0[5]);
    }
    q
}

/// The query for a product's images, under a fresh identifier.
pub fn insertproductimages(body: &ProductImages) -> (q: DbQuery)
    ensures
        exists|productimgid: Seq<char>|
            is_v4_uuid_text(productimgid) && is_drawn_id(productimgid) && q@ == #[trigger] product_images_query_view(*body, productimgid),
        q@.names_distinct(),
        q@.binds_its_placeholders(),
{
    let productimgid = fresh_id();
    let ghost id = productimgid@;
    let q = product_images_query(body, productimgid);
    assert(q@ == product_images_query_view(*body, id));
    q
}

/// Records the favourite `body` under the identifier `favid`.
pub fn favourites_query(body: &Favourites, favid: String) -> (q: DbQuery)
    ensures
        q@ == favourites_query_view(*body, favid@),
        q@.names_distinct(),
        q@.binds_its_placeholders(),
{
    let mut vars: Vec<Binding> = Vec::new();
    vars.push(text_binding("favid", favid));
    vars.push(text_binding("usid", body.usid.clone()));
    vars.push(text_binding("productid", body.productid.clone()));
    let q = DbQuery { text: FAVOURITES_SQL.to_owned(), vars };
    assert(q@.bindings =~= favourites_query_view(*body, favid@).bindings);
    proof {
        reveal_strlit("favid");
        reveal_strlit("usid");
        reveal_strlit("productid");
    }
    proof {
        lemma_favourites_sql_placeholders();
        assert(q@.names() =~= seq!["favid"@, "usid"@, "productid"@]);
    }
    assert forall|i: int, j: int| 0 <= i < j < 3 implies q@.bindings[i].0 != q@.bindings[j].0 by {
        assert(q@.bindings[i].0[0] != q@.bindings[j].0[0]);
    }
    q
}

/// The query for a new favourite, under a fresh identifier.
pub fn favourites(body: &Favourites) -> (q: DbQuery)
    ensures
        exists|favid: Seq<char>| is_v4_uuid_text(favid) && is_drawn_id(favid) && q@ == #[trigger] favourites_query_view(*body, favid),
        q@.names_distinct(),
        q@.binds_its_placeholders(),
{
    let favid = fresh_id();
    let ghost id = favid@;
    let q = favourites_query(body, favid);
    assert(q@ == favourites_query_view(*body, id));
    q
}

} // verus!
