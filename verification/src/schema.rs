//! What the schema script declares, and the law that every table is
//! written with exactly the fields it declares.

use vstd::prelude::*;
use crate::orderroutes::{LISTITEMS_SQL, ORDER_SQL, lemma_listitems_sql_placeholders, lemma_order_sql_placeholders};
use crate::otherroutes::{PRODDESCR_SQL, SCHEMA_SQL, lemma_proddescr_sql_placeholders};
use crate::productroutes::{
    FAVOURITES_SQL, PRODUCT_IMAGES_SQL, PRODUCT_SQL, lemma_favourites_sql_placeholders,
    lemma_product_images_sql_placeholders, lemma_product_sql_placeholders,
};
use crate::userroutes::{USER_SQL, lemma_user_sql_placeholders};
use crate::placeholders::{is_name_char, placeholders};

verus! {

/// `pat` occurs in `t` starting at index `i`.
pub open spec fn occurs_at(t: Seq<char>, i: int, pat: Seq<char>) -> bool {
    0 <= i && i + pat.len() <= t.len() && t.subrange(i, i + pat.len()) == pat
}

/// A non-empty run of name characters.
pub open spec fn is_name(s: Seq<char>) -> bool {
    s.len() > 0 && forall|j: int| 0 <= j < s.len() ==> is_name_char(#[trigger] s[j])
}

/// The text that declares `field` on `table` in a schema script.
pub open spec fn field_declaration(table: Seq<char>, field: Seq<char>) -> Seq<char> {
    "DEFINE FIELD "@ + field + " ON "@ + table + " "@
}

/// `schema` declares the field `field` on the table `table`.
pub open spec fn declares_field(schema: Seq<char>, table: Seq<char>, field: Seq<char>) -> bool {
    is_name(field) && exists|i: int| occurs_at(schema, i, field_declaration(table, field))
}

/// The fields that `schema` declares on `table`.
pub open spec fn declared_fields(schema: Seq<char>, table: Seq<char>) -> Set<Seq<char>> {
    Set::new(|f: Seq<char>| declares_field(schema, table, f))
}

/// All name characters from `a` up to `b`, and none at `b`.
pub open spec fn name_run(t: Seq<char>, a: int, b: int) -> bool {
    &&& 0 <= a < b < t.len()
    &&& forall|m: int| a <= m < b ==> is_name_char(#[trigger] t[m])
    &&& !is_name_char(t[b])
}

/// The field declarations of `t`, given every place where `DEFINE FIELD `
/// starts (`starts`), where each field name ends (`fields`) and where each
/// table name ends (`tables`).
pub proof fn lemma_declares_field(
    t: Seq<char>,
    starts: Seq<int>,
    fields: Seq<int>,
    tables: Seq<int>,
    names: Seq<Seq<char>>,
    tabs: Seq<Seq<char>>,
    table: Seq<char>,
    field: Seq<char>,
)
    requires
        is_name(table),
        starts.len() == fields.len() && fields.len() == tables.len(),
        names.len() == starts.len() && tabs.len() == starts.len(),
        forall|m: int| occurs_at(t, m, "DEFINE FIELD "@) ==> starts.contains(m),
        forall|k: int|
            #![trigger starts[k]]
            0 <= k < starts.len() ==> {
                &&& occurs_at(t, starts[k], "DEFINE FIELD "@)
                &&& name_run(t, starts[k] + 13, fields[k])
                &&& occurs_at(t, fields[k], " ON "@)
                &&& name_run(t, fields[k] + 4, tables[k])
                &&& t[tables[k]] == ' '
                &&& t.subrange(starts[k] + 13, fields[k]) == names[k]
                &&& t.subrange(fields[k] + 4, tables[k]) == tabs[k]
            },
    ensures
        declares_field(t, table, field) <==> exists|k: int|
            0 <= k < names.len() && #[trigger] names[k] == field && tabs[k] == table,
{
    reveal_strlit("DEFINE FIELD ");
    reveal_strlit(" ON ");
    reveal_strlit(" ");
    let d = "DEFINE FIELD "@;
    let o = " ON "@;
    let pat = field_declaration(table, field);
    if declares_field(t, table, field) {
        let i = choose|i: int| occurs_at(t, i, pat);
        let lf = field.len() as int;
        let lt = table.len() as int;
        assert(pat.len() == 13 + lf + 4 + lt + 1);
        assert(t.subrange(i, i + 13) =~= d) by {
            assert forall|j: int| 0 <= j < 13 implies t.subrange(i, i + 13)[j] == d[j] by {
                assert(t[i + j] == pat[j]);
            }
        }
        assert(occurs_at(t, i, d));
        assert(starts.contains(i));
        let k = choose|k: int| 0 <= k < starts.len() && starts[k] == i;
        assert(0 <= k < starts.len() && starts[k] == i);
        let fe = fields[k];
        let te = tables[k];
        assert(name_run(t, i + 13, fe));
        assert(name_run(t, fe + 4, te));
        assert forall|j: int| 0 <= j < lf implies t[i + 13 + j] == field[j] by {
            assert(t[i + 13 + j] == pat[13 + j]);
        }
        assert(t[i + 13 + lf] == ' ') by {
            assert(t[i + 13 + lf] == pat[13 + lf]);
        }
        if i + 13 + lf < fe {
            assert(is_name_char(t[i + 13 + lf]));
        }
        if i + 13 + lf > fe {
            assert(field[fe - i - 13] == t[fe]);
            assert(is_name_char(field[fe - i - 13]));
        }
        assert(fe == i + 13 + lf);
        assert(field =~= t.subrange(i + 13, fe));
        assert forall|j: int| 0 <= j < lt implies t[fe + 4 + j] == table[j] by {
            assert(t[fe + 4 + j] == pat[13 + lf + 4 + j]);
        }
        assert(t[fe + 4 + lt] == ' ') by {
            assert(t[fe + 4 + lt] == pat[13 + lf + 4 + lt]);
        }
        if fe + 4 + lt < te {
            assert(is_name_char(t[fe + 4 + lt]));
        }
        if fe + 4 + lt > te {
            assert(table[te - fe - 4] == t[te]);
            assert(is_name_char(table[te - fe - 4]));
        }
        assert(te == fe + 4 + lt);
        assert(table =~= t.subrange(fe + 4, te));
        assert(names[k] == field && tabs[k] == table);
    }
    if exists|k: int| 0 <= k < names.len() && #[trigger] names[k] == field && tabs[k] == table {
        let k = choose|k: int| 0 <= k < names.len() && #[trigger] names[k] == field && tabs[k] == table;
        let s = starts[k];
        let fe = fields[k];
        let te = tables[k];
        assert(is_name(field));
        assert(t.subrange(s, te + 1) =~= pat) by {
            assert(t.subrange(s, s + 13) == d);
            assert(t.subrange(fe, fe + 4) == o);
            assert forall|j: int| 0 <= j < te + 1 - s implies t.subrange(s, te + 1)[j] == pat[j] by {
                if j < 13 {
                    assert(t.subrange(s, s + 13)[j] == d[j]);
                } else if j < fe - s {
                } else if j < fe - s + 4 {
                    assert(t.subrange(fe, fe + 4)[j - (fe - s)] == o[j - (fe - s)]);
                } else {
                }
            }
        }
        assert(occurs_at(t, s, pat));
    }
}

/// Where each `DEFINE FIELD ` of [`SCHEMA_SQL`] starts.
#[verifier::opaque]
spec fn schema_starts() -> Seq<int> {
    seq![40, 108, 157, 200, 246, 316, 365, 411, 624, 673, 727, 777, 824, 918, 1074, 1126, 1177, 1229, 1279, 1341, 1393, 1441, 1670, 1730, 1795, 1851, 1907, 1965, 2061, 2111, 2165, 2212, 2306, 2369, 2421, 2511, 2561, 2617]
}

/// Where the field name of each declaration of [`SCHEMA_SQL`] ends.
#[verifier::opaque]
spec fn schema_field_ends() -> Seq<int> {
    seq![57, 129, 173, 219, 264, 338, 384, 434, 643, 690, 747, 794, 845, 936, 1096, 1147, 1199, 1249, 1297, 1366, 1411, 1464, 1695, 1750, 1816, 1872, 1930, 1987, 2081, 2128, 2183, 2235, 2328, 2393, 2442, 2529, 2578, 2639]
}

/// Where the table name of each declaration of [`SCHEMA_SQL`] ends.
#[verifier::opaque]
spec fn schema_table_ends() -> Seq<int> {
    seq![66, 138, 182, 228, 273, 347, 393, 443, 655, 702, 759, 806, 857, 952, 1108, 1159, 1211, 1261, 1309, 1378, 1423, 1476, 1712, 1767, 1833, 1889, 1947, 2004, 2093, 2140, 2195, 2247, 2341, 2406, 2455, 2543, 2592, 2653]
}

/// The field of each declaration of [`SCHEMA_SQL`], in order.
pub open spec fn schema_field_names() -> Seq<Seq<char>> {
    seq!["usid"@, "fullname"@, "dob"@, "gender"@, "email"@, "mob_phone"@, "passwd"@, "created_at"@, "addrid"@, "usid"@, "address"@, "city"@, "postcode"@, "descr"@, "productid"@, "prodname"@, "proddescr"@, "prodsku"@, "descr"@, "availableqty"@, "price"@, "created_at"@, "productimgid"@, "prodsku"@, "imageone"@, "imagetwo"@, "imagethree"@, "imagefour"@, "orderid"@, "usid"@, "total"@, "created_at"@, "productid"@, "orderidretr"@, "quantity"@, "favid"@, "usid"@, "productid"@]
}

/// The table of each declaration of [`SCHEMA_SQL`], in order.
pub open spec fn schema_table_names() -> Seq<Seq<char>> {
    seq!["users"@, "users"@, "users"@, "users"@, "users"@, "users"@, "users"@, "users"@, "useraddr"@, "useraddr"@, "useraddr"@, "useraddr"@, "useraddr"@, "prodcategory"@, "products"@, "products"@, "products"@, "products"@, "products"@, "products"@, "products"@, "products"@, "productimages"@, "productimages"@, "productimages"@, "productimages"@, "productimages"@, "productimages"@, "orderdet"@, "orderdet"@, "orderdet"@, "orderdet"@, "listitems"@, "listitems"@, "listitems"@, "favourites"@, "favourites"@, "favourites"@]
}

/// The layout of the field declarations in [`SCHEMA_SQL`].
#[verifier::rlimit(100)]
proof fn lemma_schema_layout()
    ensures
        schema_starts().len() == 38,
        schema_field_ends().len() == 38,
        schema_table_ends().len() == 38,
        forall|m: int| occurs_at(SCHEMA_SQL@, m, "DEFINE FIELD "@) ==> schema_starts().contains(m),
        forall|k: int|
            #![trigger schema_starts()[k]]
            0 <= k < schema_starts().len() ==> {
                &&& occurs_at(SCHEMA_SQL@, schema_starts()[k], "DEFINE FIELD "@)
                &&& name_run(SCHEMA_SQL@, schema_starts()[k] + 13, schema_field_ends()[k])
                &&& occurs_at(SCHEMA_SQL@, schema_field_ends()[k], " ON "@)
                &&& name_run(SCHEMA_SQL@, schema_field_ends()[k] + 4, schema_table_ends()[k])
                &&& SCHEMA_SQL@[schema_table_ends()[k]] == ' '
                &&& SCHEMA_SQL@.subrange(schema_starts()[k] + 13, schema_field_ends()[k])
                    == schema_field_names()[k]
                &&& SCHEMA_SQL@.subrange(schema_field_ends()[k] + 4, schema_table_ends()[k])
                    == schema_table_names()[k]
            },
{
    reveal_strlit("\n    DEFINE TABLE users SCHEMAFULL;\n    DEFINE FIELD usid ON users TYPE string ASSERT is::uuid($value);\n    DEFINE FIELD fullname ON users TYPE string; \n    DEFINE FIELD dob ON users TYPE string;\n    DEFINE FIELD gender ON users TYPE string;\n    DEFINE FIELD email ON users TYPE string ASSERT is::email($value);\n    DEFINE FIELD mob_phone ON users TYPE string;\n    DEFINE FIELD passwd ON users TYPE string;\n    DEFINE FIELD created_at ON users TYPE string;\n    DEFINE INDEX email_idx ON users COLUMNS email UNIQUE;\n    DEFINE INDEX mob_phone_idx ON users COLUMNS mob_phone UNIQUE;\n\n    DEFINE TABLE useraddr SCHEMAFULL;\n    DEFINE FIELD addrid ON useraddr TYPE string;\n    DEFINE FIELD usid ON useraddr TYPE record(users);\n    DEFINE FIELD address ON useraddr TYPE string;\n    DEFINE FIELD city ON useraddr TYPE string;\n    DEFINE FIELD postcode ON useraddr TYPE string;\n\n    DEFINE TABLE prodcategory SCHEMAFULL;\n    DEFINE FIELD descr ON prodcategory TYPE string;\n    DEFINE INDEX descr_idx ON prodcategory COLUMNS descr UNIQUE;\n\n    DEFINE TABLE products SCHEMAFULL;\n    DEFINE FIELD productid ON products TYPE string;\n    DEFINE FIELD prodname ON products TYPE string;\n    DEFINE FIELD proddescr ON products TYPE string;\n    DEFINE FIELD prodsku ON products TYPE string;\n    DEFINE FIELD descr ON products TYPE record(prodcategory);\n    DEFINE FIELD availableqty ON products TYPE int;\n    DEFINE FIELD price ON products TYPE string;\n    DEFINE FIELD created_at ON products TYPE string;\n    DEFINE INDEX prodname_idx ON products COLUMNS prodname UNIQUE;\n    DEFINE INDEX prodsku_idx ON products COLUMNS prodsku UNIQUE;\n\n    DEFINE TABLE productimages SCHEMAFULL;\n    DEFINE FIELD productimgid ON productimages TYPE string;\n    DEFINE FIELD prodsku ON productimages TYPE record(products);\n    DEFINE FIELD imageone ON productimages TYPE string;\n    DEFINE FIELD imagetwo ON productimages TYPE string;\n    DEFINE FIELD imagethree ON productimages TYPE string;\n    DEFINE FIELD imagefour ON productimages TYPE string;\n\n    DEFINE TABLE orderdet SCHEMAFULL;\n    DEFINE FIELD orderid ON orderdet TYPE string;\n    DEFINE FIELD usid ON orderdet TYPE record(users);\n    DEFINE FIELD total ON orderdet TYPE float;\n    DEFINE FIELD created_at ON orderdet TYPE string;\n\n\n    DEFINE TABLE listitems SCHEMAFULL;\n    DEFINE FIELD productid ON listitems TYPE record(products);\n    DEFINE FIELD orderidretr ON listitems TYPE int;\n    DEFINE FIELD quantity ON listitems TYPE int;\n\n    DEFINE TABLE favourites SCHEMAFULL;\n    DEFINE FIELD favid ON favourites TYPE string;\n    DEFINE FIELD usid ON favourites TYPE record(users);\n    DEFINE FIELD productid ON favourites TYPE record(products);\n\n    ");
    reveal_strlit("DEFINE FIELD ");
    reveal_strlit(" ON ");
    reveal(schema_starts);
    reveal(schema_field_ends);
    reveal(schema_table_ends);
    reveal_strlit("address");
    reveal_strlit("addrid");
    reveal_strlit("availableqty");
    reveal_strlit("city");
    reveal_strlit("created_at");
    reveal_strlit("descr");
    reveal_strlit("dob");
    reveal_strlit("email");
    reveal_strlit("favid");
    reveal_strlit("fullname");
    reveal_strlit("gender");
    reveal_strlit("imagefour");
    reveal_strlit("imageone");
    reveal_strlit("imagethree");
    reveal_strlit("imagetwo");
    reveal_strlit("mob_phone");
    reveal_strlit("orderid");
    reveal_strlit("orderidretr");
    reveal_strlit("passwd");
    reveal_strlit("postcode");
    reveal_strlit("price");
    reveal_strlit("proddescr");
    reveal_strlit("prodname");
    reveal_strlit("prodsku");
    reveal_strlit("productid");
    reveal_strlit("productimgid");
    reveal_strlit("quantity");
    reveal_strlit("total");
    reveal_strlit("usid");
    reveal_strlit("users");
    reveal_strlit("useraddr");
    reveal_strlit("prodcategory");
    reveal_strlit("products");
    reveal_strlit("productimages");
    reveal_strlit("orderdet");
    reveal_strlit("listitems");
    reveal_strlit("favourites");
    let t = SCHEMA_SQL@;
    let d = "DEFINE FIELD "@;
    let starts = schema_starts();
    assert forall|m: int| occurs_at(t, m, d) implies starts.contains(m) by {
        assert(t[m] == t.subrange(m, m + 13)[0] && t[m + 7] == t.subrange(m, m + 13)[7] && t[m + 8] == t.subrange(m, m + 13)[8]);
        if m == 40 { assert(starts[0] == 40); }
        if m == 108 { assert(starts[1] == 108); }
        if m == 157 { assert(starts[2] == 157); }
        if m == 200 { assert(starts[3] == 200); }
        if m == 246 { assert(starts[4] == 246); }
        if m == 316 { assert(starts[5] == 316); }
        if m == 365 { assert(starts[6] == 365); }
        if m == 411 { assert(starts[7] == 411); }
        if m == 624 { assert(starts[8] == 624); }
        if m == 673 { assert(starts[9] == 673); }
        if m == 727 { assert(starts[10] == 727); }
        if m == 777 { assert(starts[11] == 777); }
        if m == 824 { assert(starts[12] == 824); }
        if m == 918 { assert(starts[13] == 918); }
        if m == 1074 { assert(starts[14] == 1074); }
        if m == 1126 { assert(starts[15] == 1126); }
        if m == 1177 { assert(starts[16] == 1177); }
        if m == 1229 { assert(starts[17] == 1229); }
        if m == 1279 { assert(starts[18] == 1279); }
        if m == 1341 { assert(starts[19] == 1341); }
        if m == 1393 { assert(starts[20] == 1393); }
        if m == 1441 { assert(starts[21] == 1441); }
        if m == 1670 { assert(starts[22] == 1670); }
        if m == 1730 { assert(starts[23] == 1730); }
        if m == 1795 { assert(starts[24] == 1795); }
        if m == 1851 { assert(starts[25] == 1851); }
        if m == 1907 { assert(starts[26] == 1907); }
        if m == 1965 { assert(starts[27] == 1965); }
        if m == 2061 { assert(starts[28] == 2061); }
        if m == 2111 { assert(starts[29] == 2111); }
        if m == 2165 { assert(starts[30] == 2165); }
        if m == 2212 { assert(starts[31] == 2212); }
        if m == 2306 { assert(starts[32] == 2306); }
        if m == 2369 { assert(starts[33] == 2369); }
        if m == 2421 { assert(starts[34] == 2421); }
        if m == 2511 { assert(starts[35] == 2511); }
        if m == 2561 { assert(starts[36] == 2561); }
        if m == 2617 { assert(starts[37] == 2617); }
    }
    assert(t.subrange(40, 53) =~= d);
    assert(t.subrange(57, 61) =~= " ON "@);
    assert(t.subrange(53, 57) =~= "usid"@);
    assert(t.subrange(61, 66) =~= "users"@);
    assert(t.subrange(108, 121) =~= d);
    assert(t.subrange(129, 133) =~= " ON "@);
    assert(t.subrange(121, 129) =~= "fullname"@);
    assert(t.subrange(133, 138) =~= "users"@);
    assert(t.subrange(157, 170) =~= d);
    assert(t.subrange(173, 177) =~= " ON "@);
    assert(t.subrange(170, 173) =~= "dob"@);
    assert(t.subrange(177, 182) =~= "users"@);
    assert(t.subrange(200, 213) =~= d);
    assert(t.subrange(219, 223) =~= " ON "@);
    assert(t.subrange(213, 219) =~= "gender"@);
    assert(t.subrange(223, 228) =~= "users"@);
    assert(t.subrange(246, 259) =~= d);
    assert(t.subrange(264, 268) =~= " ON "@);
    assert(t.subrange(259, 264) =~= "email"@);
    assert(t.subrange(268, 273) =~= "users"@);
    assert(t.subrange(316, 329) =~= d);
    assert(t.subrange(338, 342) =~= " ON "@);
    assert(t.subrange(329, 338) =~= "mob_phone"@);
    assert(t.subrange(342, 347) =~= "users"@);
    assert(t.subrange(365, 378) =~= d);
    assert(t.subrange(384, 388) =~= " ON "@);
    assert(t.subrange(378, 384) =~= "passwd"@);
    assert(t.subrange(388, 393) =~= "users"@);
    assert(t.subrange(411, 424) =~= d);
    assert(t.subrange(434, 438) =~= " ON "@);
    assert(t.subrange(424, 434) =~= "created_at"@);
    assert(t.subrange(438, 443) =~= "users"@);
    assert(t.subrange(624, 637) =~= d);
    assert(t.subrange(643, 647) =~= " ON "@);
    assert(t.subrange(637, 643) =~= "addrid"@);
    assert(t.subrange(647, 655) =~= "useraddr"@);
    assert(t.subrange(673, 686) =~= d);
    assert(t.subrange(690, 694) =~= " ON "@);
    assert(t.subrange(686, 690) =~= "usid"@);
    assert(t.subrange(694, 702) =~= "useraddr"@);
    assert(t.subrange(727, 740) =~= d);
    assert(t.subrange(747, 751) =~= " ON "@);
    assert(t.subrange(740, 747) =~= "address"@);
    assert(t.subrange(751, 759) =~= "useraddr"@);
    assert(t.subrange(777, 790) =~= d);
    assert(t.subrange(794, 798) =~= " ON "@);
    assert(t.subrange(790, 794) =~= "city"@);
    assert(t.subrange(798, 806) =~= "useraddr"@);
    assert(t.subrange(824, 837) =~= d);
    assert(t.subrange(845, 849) =~= " ON "@);
    assert(t.subrange(837, 845) =~= "postcode"@);
    assert(t.subrange(849, 857) =~= "useraddr"@);
    assert(t.subrange(918, 931) =~= d);
    assert(t.subrange(936, 940) =~= " ON "@);
    assert(t.subrange(931, 936) =~= "descr"@);
    assert(t.subrange(940, 952) =~= "prodcategory"@);
    assert(t.subrange(1074, 1087) =~= d);
    assert(t.subrange(1096, 1100) =~= " ON "@);
    assert(t.subrange(1087, 1096) =~= "productid"@);
    assert(t.subrange(1100, 1108) =~= "products"@);
    assert(t.subrange(1126, 1139) =~= d);
    assert(t.subrange(1147, 1151) =~= " ON "@);
    assert(t.subrange(1139, 1147) =~= "prodname"@);
    assert(t.subrange(1151, 1159) =~= "products"@);
    assert(t.subrange(1177, 1190) =~= d);
    assert(t.subrange(1199, 1203) =~= " ON "@);
    assert(t.subrange(1190, 1199) =~= "proddescr"@);
    assert(t.subrange(1203, 1211) =~= "products"@);
    assert(t.subrange(1229, 1242) =~= d);
    assert(t.subrange(1249, 1253) =~= " ON "@);
    assert(t.subrange(1242, 1249) =~= "prodsku"@);
    assert(t.subrange(1253, 1261) =~= "products"@);
    assert(t.subrange(1279, 1292) =~= d);
    assert(t.subrange(1297, 1301) =~= " ON "@);
    assert(t.subrange(1292, 1297) =~= "descr"@);
    assert(t.subrange(1301, 1309) =~= "products"@);
    assert(t.subrange(1341, 1354) =~= d);
    assert(t.subrange(1366, 1370) =~= " ON "@);
    assert(t.subrange(1354, 1366) =~= "availableqty"@);
    assert(t.subrange(1370, 1378) =~= "products"@);
    assert(t.subrange(1393, 1406) =~= d);
    assert(t.subrange(1411, 1415) =~= " ON "@);
    assert(t.subrange(1406, 1411) =~= "price"@);
    assert(t.subrange(1415, 1423) =~= "products"@);
    assert(t.subrange(1441, 1454) =~= d);
    assert(t.subrange(1464, 1468) =~= " ON "@);
    assert(t.subrange(1454, 1464) =~= "created_at"@);
    assert(t.subrange(1468, 1476) =~= "products"@);
    assert(t.subrange(1670, 1683) =~= d);
    assert(t.subrange(1695, 1699) =~= " ON "@);
    assert(t.subrange(1683, 1695) =~= "productimgid"@);
    assert(t.subrange(1699, 1712) =~= "productimages"@);
    assert(t.subrange(1730, 1743) =~= d);
    assert(t.subrange(1750, 1754) =~= " ON "@);
    assert(t.subrange(1743, 1750) =~= "prodsku"@);
    assert(t.subrange(1754, 1767) =~= "productimages"@);
    assert(t.subrange(1795, 1808) =~= d);
    assert(t.subrange(1816, 1820) =~= " ON "@);
    assert(t.subrange(1808, 1816) =~= "imageone"@);
    assert(t.subrange(1820, 1833) =~= "productimages"@);
    assert(t.subrange(1851, 1864) =~= d);
    assert(t.subrange(1872, 1876) =~= " ON "@);
    assert(t.subrange(1864, 1872) =~= "imagetwo"@);
    assert(t.subrange(1876, 1889) =~= "productimages"@);
    assert(t.subrange(1907, 1920) =~= d);
    assert(t.subrange(1930, 1934) =~= " ON "@);
    assert(t.subrange(1920, 1930) =~= "imagethree"@);
    assert(t.subrange(1934, 1947) =~= "productimages"@);
    assert(t.subrange(1965, 1978) =~= d);
    assert(t.subrange(1987, 1991) =~= " ON "@);
    assert(t.subrange(1978, 1987) =~= "imagefour"@);
    assert(t.subrange(1991, 2004) =~= "productimages"@);
    assert(t.subrange(2061, 2074) =~= d);
    assert(t.subrange(2081, 2085) =~= " ON "@);
    assert(t.subrange(2074, 2081) =~= "orderid"@);
    assert(t.subrange(2085, 2093) =~= "orderdet"@);
    assert(t.subrange(2111, 2124) =~= d);
    assert(t.subrange(2128, 2132) =~= " ON "@);
    assert(t.subrange(2124, 2128) =~= "usid"@);
    assert(t.subrange(2132, 2140) =~= "orderdet"@);
    assert(t.subrange(2165, 2178) =~= d);
    assert(t.subrange(2183, 2187) =~= " ON "@);
    assert(t.subrange(2178, 2183) =~= "total"@);
    assert(t.subrange(2187, 2195) =~= "orderdet"@);
    assert(t.subrange(2212, 2225) =~= d);
    assert(t.subrange(2235, 2239) =~= " ON "@);
    assert(t.subrange(2225, 2235) =~= "created_at"@);
    assert(t.subrange(2239, 2247) =~= "orderdet"@);
    assert(t.subrange(2306, 2319) =~= d);
    assert(t.subrange(2328, 2332) =~= " ON "@);
    assert(t.subrange(2319, 2328) =~= "productid"@);
    assert(t.subrange(2332, 2341) =~= "listitems"@);
    assert(t.subrange(2369, 2382) =~= d);
    assert(t.subrange(2393, 2397) =~= " ON "@);
    assert(t.subrange(2382, 2393) =~= "orderidretr"@);
    assert(t.subrange(2397, 2406) =~= "listitems"@);
    assert(t.subrange(2421, 2434) =~= d);
    assert(t.subrange(2442, 2446) =~= " ON "@);
    assert(t.subrange(2434, 2442) =~= "quantity"@);
    assert(t.subrange(2446, 2455) =~= "listitems"@);
    assert(t.subrange(2511, 2524) =~= d);
    assert(t.subrange(2529, 2533) =~= " ON "@);
    assert(t.subrange(2524, 2529) =~= "favid"@);
    assert(t.subrange(2533, 2543) =~= "favourites"@);
    assert(t.subrange(2561, 2574) =~= d);
    assert(t.subrange(2578, 2582) =~= " ON "@);
    assert(t.subrange(2574, 2578) =~= "usid"@);
    assert(t.subrange(2582, 2592) =~= "favourites"@);
    assert(t.subrange(2617, 2630) =~= d);
    assert(t.subrange(2639, 2643) =~= " ON "@);
    assert(t.subrange(2630, 2639) =~= "productid"@);
    assert(t.subrange(2643, 2653) =~= "favourites"@);
}

/// The declarations of [`SCHEMA_SQL`]: it declares `field` on `table`
/// exactly when the pair is one of its listed declarations.
pub proof fn lemma_schema_declares(table: Seq<char>, field: Seq<char>)
    requires
        is_name(table),
    ensures
        declares_field(SCHEMA_SQL@, table, field) <==> exists|k: int|
            0 <= k < schema_field_names().len() && #[trigger] schema_field_names()[k] == field
                && schema_table_names()[k] == table,
{
    lemma_schema_layout();
    lemma_declares_field(
        SCHEMA_SQL@,
        schema_starts(),
        schema_field_ends(),
        schema_table_ends(),
        schema_field_names(),
        schema_table_names(),
        table,
        field,
    );
}

/// The fields that [`SCHEMA_SQL`] declares on the table `users`.
pub proof fn lemma_users_fields()
    ensures
        declared_fields(SCHEMA_SQL@, "users"@) == set!["usid"@, "fullname"@, "dob"@, "gender"@, "email"@, "mob_phone"@, "passwd"@, "created_at"@],
{
    reveal_strlit("users");
    reveal_strlit("useraddr");
    reveal_strlit("prodcategory");
    reveal_strlit("products");
    reveal_strlit("productimages");
    reveal_strlit("orderdet");
    reveal_strlit("listitems");
    reveal_strlit("favourites");
    let names = schema_field_names();
    let tables = schema_table_names();
    assert forall|f: Seq<char>| declares_field(SCHEMA_SQL@, "users"@, f) <==> #[trigger] set!["usid"@, "fullname"@, "dob"@, "gender"@, "email"@, "mob_phone"@, "passwd"@, "created_at"@].contains(f) by {
        lemma_schema_declares("users"@, f);
        assert(names[0] == "usid"@ && tables[0] == "users"@);
        assert(names[1] == "fullname"@ && tables[1] == "users"@);
        assert(names[2] == "dob"@ && tables[2] == "users"@);
        assert(names[3] == "gender"@ && tables[3] == "users"@);
        assert(names[4] == "email"@ && tables[4] == "users"@);
        assert(names[5] == "mob_phone"@ && tables[5] == "users"@);
        assert(names[6] == "passwd"@ && tables[6] == "users"@);
        assert(names[7] == "created_at"@ && tables[7] == "users"@);
    }
    assert(declared_fields(SCHEMA_SQL@, "users"@) =~= set!["usid"@, "fullname"@, "dob"@, "gender"@, "email"@, "mob_phone"@, "passwd"@, "created_at"@]);
}

/// The fields that [`SCHEMA_SQL`] declares on the table `useraddr`.
pub proof fn lemma_useraddr_fields()
    ensures
        declared_fields(SCHEMA_SQL@, "useraddr"@) == set!["addrid"@, "usid"@, "address"@, "city"@, "postcode"@],
{
    reveal_strlit("users");
    reveal_strlit("useraddr");
    reveal_strlit("prodcategory");
    reveal_strlit("products");
    reveal_strlit("productimages");
    reveal_strlit("orderdet");
    reveal_strlit("listitems");
    reveal_strlit("favourites");
    assert("useraddr"@[0] != "products"@[0]);
    assert("useraddr"@[0] != "orderdet"@[0]);
    let names = schema_field_names();
    let tables = schema_table_names();
    assert forall|f: Seq<char>| declares_field(SCHEMA_SQL@, "useraddr"@, f) <==> #[trigger] set!["addrid"@, "usid"@, "address"@, "city"@, "postcode"@].contains(f) by {
        lemma_schema_declares("useraddr"@, f);
        assert(names[8] == "addrid"@ && tables[8] == "useraddr"@);
        assert(names[9] == "usid"@ && tables[9] == "useraddr"@);
        assert(names[10] == "address"@ && tables[10] == "useraddr"@);
        assert(names[11] == "city"@ && tables[11] == "useraddr"@);
        assert(names[12] == "postcode"@ && tables[12] == "useraddr"@);
    }
    assert(declared_fields(SCHEMA_SQL@, "useraddr"@) =~= set!["addrid"@, "usid"@, "address"@, "city"@, "postcode"@]);
}

/// The fields that [`SCHEMA_SQL`] declares on the table `prodcategory`.
pub proof fn lemma_prodcategory_fields()
    ensures
        declared_fields(SCHEMA_SQL@, "prodcategory"@) == set!["descr"@],
{
    reveal_strlit("users");
    reveal_strlit("useraddr");
    reveal_strlit("prodcategory");
    reveal_strlit("products");
    reveal_strlit("productimages");
    reveal_strlit("orderdet");
    reveal_strlit("listitems");
    reveal_strlit("favourites");
    let names = schema_field_names();
    let tables = schema_table_names();
    assert forall|f: Seq<char>| declares_field(SCHEMA_SQL@, "prodcategory"@, f) <==> #[trigger] set!["descr"@].contains(f) by {
        lemma_schema_declares("prodcategory"@, f);
        assert(names[13] == "descr"@ && tables[13] == "prodcategory"@);
    }
    assert(declared_fields(SCHEMA_SQL@, "prodcategory"@) =~= set!["descr"@]);
}

/// The fields that [`SCHEMA_SQL`] declares on the table `products`.
pub proof fn lemma_products_fields()
    ensures
        declared_fields(SCHEMA_SQL@, "products"@) == set!["productid"@, "prodname"@, "proddescr"@, "prodsku"@, "descr"@, "availableqty"@, "price"@, "created_at"@],
{
    reveal_strlit("users");
    reveal_strlit("useraddr");
    reveal_strlit("prodcategory");
    reveal_strlit("products");
    reveal_strlit("productimages");
    reveal_strlit("orderdet");
    reveal_strlit("listitems");
    reveal_strlit("favourites");
    assert("products"@[0] != "useraddr"@[0]);
    assert("products"@[0] != "orderdet"@[0]);
    let names = schema_field_names();
    let tables = schema_table_names();
    assert forall|f: Seq<char>| declares_field(SCHEMA_SQL@, "products"@, f) <==> #[trigger] set!["productid"@, "prodname"@, "proddescr"@, "prodsku"@, "descr"@, "availableqty"@, "price"@, "created_at"@].contains(f) by {
        lemma_schema_declares("products"@, f);
        assert(names[14] == "productid"@ && tables[14] == "products"@);
        assert(names[15] == "prodname"@ && tables[15] == "products"@);
        assert(names[16] == "proddescr"@ && tables[16] == "products"@);
        assert(names[17] == "prodsku"@ && tables[17] == "products"@);
        assert(names[18] == "descr"@ && tables[18] == "products"@);
        assert(names[19] == "availableqty"@ && tables[19] == "products"@);
        assert(names[20] == "price"@ && tables[20] == "products"@);
        assert(names[21] == "created_at"@ && tables[21] == "products"@);
    }
    assert(declared_fields(SCHEMA_SQL@, "products"@) =~= set!["productid"@, "prodname"@, "proddescr"@, "prodsku"@, "descr"@, "availableqty"@, "price"@, "created_at"@]);
}

/// The fields that [`SCHEMA_SQL`] declares on the table `productimages`.
pub proof fn lemma_productimages_fields()
    ensures
        declared_fields(SCHEMA_SQL@, "productimages"@) == set!["productimgid"@, "prodsku"@, "imageone"@, "imagetwo"@, "imagethree"@, "imagefour"@],
{
    reveal_strlit("users");
    reveal_strlit("useraddr");
    reveal_strlit("prodcategory");
    reveal_strlit("products");
    reveal_strlit("productimages");
    reveal_strlit("orderdet");
    reveal_strlit("listitems");
    reveal_strlit("favourites");
    let names = schema_field_names();
    let tables = schema_table_names();
    assert forall|f: Seq<char>| declares_field(SCHEMA_SQL@, "productimages"@, f) <==> #[trigger] set!["productimgid"@, "prodsku"@, "imageone"@, "imagetwo"@, "imagethree"@, "imagefour"@].contains(f) by {
        lemma_schema_declares("productimages"@, f);
        assert(names[22] == "productimgid"@ && tables[22] == "productimages"@);
        assert(names[23] == "prodsku"@ && tables[23] == "productimages"@);
        assert(names[24] == "imageone"@ && tables[24] == "productimages"@);
        assert(names[25] == "imagetwo"@ && tables[25] == "productimages"@);
        assert(names[26] == "imagethree"@ && tables[26] == "productimages"@);
        assert(names[27] == "imagefour"@ && tables[27] == "productimages"@);
    }
    assert(declared_fields(SCHEMA_SQL@, "productimages"@) =~= set!["productimgid"@, "prodsku"@, "imageone"@, "imagetwo"@, "imagethree"@, "imagefour"@]);
}

/// The fields that [`SCHEMA_SQL`] declares on the table `orderdet`.
pub proof fn lemma_orderdet_fields()
    ensures
        declared_fields(SCHEMA_SQL@, "orderdet"@) == set!["orderid"@, "usid"@, "total"@, "created_at"@],
{
    reveal_strlit("users");
    reveal_strlit("useraddr");
    reveal_strlit("prodcategory");
    reveal_strlit("products");
    reveal_strlit("productimages");
    reveal_strlit("orderdet");
    reveal_strlit("listitems");
    reveal_strlit("favourites");
    assert("orderdet"@[0] != "useraddr"@[0]);
    assert("orderdet"@[0] != "products"@[0]);
    let names = schema_field_names();
    let tables = schema_table_names();
    assert forall|f: Seq<char>| declares_field(SCHEMA_SQL@, "orderdet"@, f) <==> #[trigger] set!["orderid"@, "usid"@, "total"@, "created_at"@].contains(f) by {
        lemma_schema_declares("orderdet"@, f);
        assert(names[28] == "orderid"@ && tables[28] == "orderdet"@);
        assert(names[29] == "usid"@ && tables[29] == "orderdet"@);
        assert(names[30] == "total"@ && tables[30] == "orderdet"@);
        assert(names[31] == "created_at"@ && tables[31] == "orderdet"@);
    }
    assert(declared_fields(SCHEMA_SQL@, "orderdet"@) =~= set!["orderid"@, "usid"@, "total"@, "created_at"@]);
}

/// The fields that [`SCHEMA_SQL`] declares on the table `listitems`.
pub proof fn lemma_listitems_fields()
    ensures
        declared_fields(SCHEMA_SQL@, "listitems"@) == set!["productid"@, "orderidretr"@, "quantity"@],
{
    reveal_strlit("users");
    reveal_strlit("useraddr");
    reveal_strlit("prodcategory");
    reveal_strlit("products");
    reveal_strlit("productimages");
    reveal_strlit("orderdet");
    reveal_strlit("listitems");
    reveal_strlit("favourites");
    let names = schema_field_names();
    let tables = schema_table_names();
    assert forall|f: Seq<char>| declares_field(SCHEMA_SQL@, "listitems"@, f) <==> #[trigger] set!["productid"@, "orderidretr"@, "quantity"@].contains(f) by {
        lemma_schema_declares("listitems"@, f);
        assert(names[32] == "productid"@ && tables[32] == "listitems"@);
        assert(names[33] == "orderidretr"@ && tables[33] == "listitems"@);
        assert(names[34] == "quantity"@ && tables[34] == "listitems"@);
    }
    assert(declared_fields(SCHEMA_SQL@, "listitems"@) =~= set!["productid"@, "orderidretr"@, "quantity"@]);
}

/// The fields that [`SCHEMA_SQL`] declares on the table `favourites`.
pub proof fn lemma_favourites_fields()
    ensures
        declared_fields(SCHEMA_SQL@, "favourites"@) == set!["favid"@, "usid"@, "productid"@],
{
    reveal_strlit("users");
    reveal_strlit("useraddr");
    reveal_strlit("prodcategory");
    reveal_strlit("products");
    reveal_strlit("productimages");
    reveal_strlit("orderdet");
    reveal_strlit("listitems");
    reveal_strlit("favourites");
    let names = schema_field_names();
    let tables = schema_table_names();
    assert forall|f: Seq<char>| declares_field(SCHEMA_SQL@, "favourites"@, f) <==> #[trigger] set!["favid"@, "usid"@, "productid"@].contains(f) by {
        lemma_schema_declares("favourites"@, f);
        assert(names[35] == "favid"@ && tables[35] == "favourites"@);
        assert(names[36] == "usid"@ && tables[36] == "favourites"@);
        assert(names[37] == "productid"@ && tables[37] == "favourites"@);
    }
    assert(declared_fields(SCHEMA_SQL@, "favourites"@) =~= set!["favid"@, "usid"@, "productid"@]);
}

/// Each table of the schema is written with exactly the fields it declares:
/// the variables of the statement that creates its records (the first
/// statement of [`USER_SQL`] for `users`, the second for `useraddr`) are the
/// fields that [`SCHEMA_SQL`] declares on that table.
pub proof fn lemma_writers_bind_declared_fields()
    ensures
        declared_fields(SCHEMA_SQL@, "users"@) == placeholders(USER_SQL@).take(8).to_set(),
        declared_fields(SCHEMA_SQL@, "useraddr"@) == placeholders(USER_SQL@).skip(8).to_set(),
        declared_fields(SCHEMA_SQL@, "prodcategory"@) == placeholders(PRODDESCR_SQL@).to_set(),
        declared_fields(SCHEMA_SQL@, "products"@) == placeholders(PRODUCT_SQL@).to_set(),
        declared_fields(SCHEMA_SQL@, "productimages"@) == placeholders(PRODUCT_IMAGES_SQL@).to_set(),
        declared_fields(SCHEMA_SQL@, "orderdet"@) == placeholders(ORDER_SQL@).to_set(),
        declared_fields(SCHEMA_SQL@, "listitems"@) == placeholders(LISTITEMS_SQL@).to_set(),
        declared_fields(SCHEMA_SQL@, "favourites"@) == placeholders(FAVOURITES_SQL@).to_set(),
{
    lemma_users_fields();
    lemma_useraddr_fields();
    lemma_prodcategory_fields();
    lemma_products_fields();
    lemma_productimages_fields();
    lemma_orderdet_fields();
    lemma_listitems_fields();
    lemma_favourites_fields();
    lemma_user_sql_placeholders();
    lemma_proddescr_sql_placeholders();
    lemma_product_sql_placeholders();
    lemma_product_images_sql_placeholders();
    lemma_order_sql_placeholders();
    lemma_listitems_sql_placeholders();
    lemma_favourites_sql_placeholders();
    assert(placeholders(USER_SQL@).take(8) =~= seq![
        "usid"@, "fullname"@, "dob"@, "gender"@, "mob_phone"@, "email"@, "passwd"@, "created_at"@,
    ]);
    assert(placeholders(USER_SQL@).skip(8) =~= seq!["addrid"@, "usid"@, "address"@, "city"@, "postcode"@]);
    assert(placeholders(USER_SQL@).take(8).to_set() =~= declared_fields(SCHEMA_SQL@, "users"@));
    assert(placeholders(USER_SQL@).skip(8).to_set() =~= declared_fields(SCHEMA_SQL@, "useraddr"@));
    assert(placeholders(PRODDESCR_SQL@)[0] == "descr"@);
    assert(placeholders(PRODDESCR_SQL@).to_set() =~= declared_fields(SCHEMA_SQL@, "prodcategory"@));
    assert(placeholders(PRODUCT_SQL@).to_set() =~= declared_fields(SCHEMA_SQL@, "products"@));
    assert(placeholders(PRODUCT_IMAGES_SQL@).to_set() =~= declared_fields(SCHEMA_SQL@, "productimages"@));
    assert(placeholders(ORDER_SQL@).to_set() =~= declared_fields(SCHEMA_SQL@, "orderdet"@));
    assert(placeholders(LISTITEMS_SQL@).to_set() =~= declared_fields(SCHEMA_SQL@, "listitems"@));
    assert(placeholders(FAVOURITES_SQL@).to_set() =~= declared_fields(SCHEMA_SQL@, "favourites"@));
}

} // verus!
