use vstd::prelude::*;
use crate::clock::{is_clock_reading, is_utc_rfc3339, now_rfc3339};
use crate::ids::{fresh_id, is_drawn_id, is_v4_uuid_text};
use crate::placeholders::{lemma_placeholders_from, placeholders};
use crate::query::{Binding, DbQuery, ParamView, QueryView, float32_binding, int_binding, text_binding};

verus! {

/// An order as submitted: the user who places it and its total.
#[derive(Clone, Debug, PartialEq, Eq)]
pub struct ProductUpdate {
    pub usid: String,
    /// The order total, a single-precision float held by its IEEE-754 bits.
    pub total: u32,
}

/// One line of an order: a product, the order it belongs to and a quantity.
#[derive(Clone, Debug, PartialEq, Eq)]
pub struct Listitems {
    pub productid: String,
    pub orderidretr: i64,
    pub quantity: i64,
}

/// The statement that records an order.
pub const ORDER_SQL: &'static str = "\n    CREATE orderdet SET orderid = $orderid, usid = $usid, total = $total, created_at = $created_at;\n    ";

/// The statement that records an order line.
pub const LISTITEMS_SQL: &'static str = "\n    CREATE listitems SET productid = $productid, orderidretr = $orderidretr, quantity = $quantity;\n    ";

/// The query that records `body` as the order `orderid`, placed at `created_at`.
pub open spec fn order_query_view(body: ProductUpdate, orderid: Seq<char>, created_at: Seq<char>) -> QueryView {
    QueryView {
        text: ORDER_SQL@,
        bindings: seq![
            ("orderid"@, ParamView::Text(orderid)),
            ("usid"@, ParamView::Text(body.usid@)),
            ("total"@, ParamView::Float32(body.total)),
            ("created_at"@, ParamView::Text(created_at)),
        ],
    }
}

/// The query that records the order line `body`.
pub open spec fn listitems_query_view(body: Listitems) -> QueryView {
    QueryView {
        text: LISTITEMS_SQL@,
        bindings: seq![
            ("productid"@, ParamView::Text(body.productid@)),
            ("orderidretr"@, ParamView::Int(body.orderidretr)),
            ("quantity"@, ParamView::Int(body.quantity)),
        ],
    }
}

/// The variables that [`ORDER_SQL`] mentions.
pub proof fn lemma_order_sql_placeholders()
    ensures
        placeholders(ORDER_SQL@) == seq!["orderid"@, "usid"@, "total"@, "created_at"@],
{
    reveal_strlit("\n    CREATE orderdet SET orderid = $orderid, usid = $usid, total = $total, created_at = $created_at;\n    ");
    reveal_strlit("orderid");
    reveal_strlit("usid");
    reveal_strlit("total");
    reveal_strlit("created_at");
    let t = ORDER_SQL@;
    lemma_placeholders_from(t, 0, seq![35, 52, 67, 88], seq![43, 57, 73, 99]);
    assert(t.subrange(36, 43) =~= "orderid"@);
    assert(t.subrange(53, 57) =~= "usid"@);
    assert(t.subrange(68, 73) =~= "total"@);
    assert(t.subrange(89, 99) =~= "created_at"@);
    assert(placeholders(ORDER_SQL@) =~= seq!["orderid"@, "usid"@, "total"@, "created_at"@]);
}

/// The variables that [`LISTITEMS_SQL`] mentions.
pub proof fn lemma_listitems_sql_placeholders()
    ensures
        placeholders(LISTITEMS_SQL@) == seq!["productid"@, "orderidretr"@, "quantity"@],
{
    reveal_strlit("\n    CREATE listitems SET productid = $productid, orderidretr = $orderidretr, quantity = $quantity;\n    ");
    reveal_strlit("productid");
    reveal_strlit("orderidretr");
    reveal_strlit("quantity");
    let t = LISTITEMS_SQL@;
    lemma_placeholders_from(t, 0, seq![38, 64, 89], seq![48, 76, 98]);
    assert(t.subrange(39, 48) =~= "productid"@);
    assert(t.subrange(65, 76) =~= "orderidretr"@);
    assert(t.subrange(90, 98) =~= "quantity"@);
    assert(placeholders(t) =~= seq!["productid"@, "orderidretr"@, "quantity"@]);
}

/// Records `body` as the order `orderid`, placed at `created_at`.
pub fn order_query(body: &ProductUpdate, orderid: String, created_at: String) -> (q: DbQuery)
    ensures
        q@ == order_query_view(*body, orderid@, created_at@),
        q@.names_distinct(),
        q@.binds_its_placeholders(),
{
    let mut vars: Vec<Binding> = Vec::new();
    vars.push(text_binding("orderid", orderid));
    vars.push(text_binding("usid", body.usid.clone()));
    vars.push(float32_binding("total", body.total));
    vars.push(text_binding("created_at", created_at));
    let q = DbQuery { text: ORDER_SQL.to_owned(), vars };
    assert(q@.bindings =~= order_query_view(*body, orderid@, created_at@).bindings);
    proof {
        reveal_strlit("orderid");
        reveal_strlit("usid");
        reveal_strlit("total");
        reveal_strlit("created_at");
    }
    proof {
        lemma_order_sql_placeholders();
        assert(q@.names() =~= seq!["orderid"@, "usid"@, "total"@, "created_at"@]);
    }
    assert forall|i: int, j: int| 0 <= i < j < 4 implies q@.bindings[i].0 != q@.bindings[j].0 by {
        assert(q@.bindings[i].0.len() != q@.bindings[j].0.len() || q@.bindings[i].0[0] != q@.bindings[j].0[0]);
    }
    q
}

/// The query for a new order: a fresh identifier, the current time and the
/// submitted user and total.
pub fn orderhandler(body: &ProductUpdate) -> (q: DbQuery)
    ensures
        exists|orderid: Seq<char>, created_at: Seq<char>|
            is_v4_uuid_text(orderid) && is_drawn_id(orderid) && is_utc_rfc3339(created_at)
                && is_clock_reading(created_at) && q@
                == #[trigger] order_query_view(*body, orderid, created_at),
        q@.names_distinct(),
        q@.binds_its_placeholders(),
{
    let orderid = fresh_id();
    let now = now_rfc3339();
    let ghost (id, ts) = (orderid@, now@);
    let q = order_query(body, orderid, now);
    assert(q@ == order_query_view(*body, id, ts));
    q
}

/// The query that records the order line `body`.
pub fn listitems(body: &Listitems) -> (q: DbQuery)
    ensures
        q@ == listitems_query_view(*body),
        q@.names_distinct(),
        q@.binds_its_placeholders(),
{
    let mut vars: Vec<Binding> = Vec::new();
    vars.push(text_binding("productid", body.productid.clone()));
    vars.push(int_binding("orderidretr", body.orderidretr));
    vars.push(int_binding("quantity", body.quantity));
    let q = DbQuery { text: LISTITEMS_SQL.to_owned(), vars };
    assert(q@.bindings =~= listitems_query_view(*body).bindings);
    proof {
        reveal_strlit("productid");
        reveal_strlit("orderidretr");
        reveal_strlit("quantity");
    }
    proof {
        lemma_listitems_sql_placeholders();
        assert(q@.names() =~= seq!["productid"@, "orderidretr"@, "quantity"@]);
    }
    assert forall|i: int, j: int| 0 <= i < j < 3 implies q@.bindings[i].0 != q@.bindings[j].0 by {
        assert(q@.bindings[i].0.len() != q@.bindings[j].0.len() || q@.bindings[i].0[0] != q@.bindings[j].0[0]);
    }
    q
}

} // verus!
