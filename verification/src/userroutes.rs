use vstd::prelude::*;
use crate::clock::{is_clock_reading, is_utc_rfc3339, now_rfc3339};
use crate::ids::{fresh_id, is_drawn_id, is_v4_uuid_text};
use crate::password::{hash_password, is_drawn_salt, is_salt16_b64, new_salt, phc_string};
use crate::placeholders::{lemma_placeholders_from, placeholders};
use crate::query::{Binding, DbQuery, ParamView, QueryView, text_binding};
use crate::surql::{parse_surql, surql_parse};

verus! {

/// A registration: the user's details, password and address.
#[derive(Clone, Debug, PartialEq, Eq)]
pub struct UserReg {
    pub fullname: String,
    pub dob: String,
    pub gender: String,
    pub mob_phone: String,
    pub email: String,
    pub passwd: String,
    pub address: String,
    pub city: String,
    pub postcode: String,
}

/// The statements that record a user and the user's address; both records
/// carry the same `$usid`.
pub const USER_SQL: &'static str = "\n    CREATE users SET usid = $usid, fullname = $fullname, dob = $dob, gender = $gender, mob_phone = $mob_phone, email = $email, passwd = $passwd, created_at = $created_at;\n    CREATE useraddr SET addrid = $addrid, usid = $usid, address = $address, city = $city, postcode = $postcode;\n    ";

/// The query that lists the users.
pub const USERS_SELECT_SQL: &'static str = "SELECT * FROM users;";

/// The query that records `body` as user `usid` with address `addrid`,
/// storing `passwd` in place of the submitted password.
pub open spec fn user_query_view(
    body: UserReg,
    usid: Seq<char>,
    addrid: Seq<char>,
    passwd: Seq<char>,
    created_at: Seq<char>,
) -> QueryView {
    QueryView {
        text: USER_SQL@,
        bindings: seq![
            ("usid"@, ParamView::Text(usid)),
            ("fullname"@, ParamView::Text(body.fullname@)),
            ("dob"@, ParamView::Text(body.dob@)),
            ("gender"@, ParamView::Text(body.gender@)),
            ("mob_phone"@, ParamView::Text(body.mob_phone@)),
            ("email"@, ParamView::Text(body.email@)),
            ("passwd"@, ParamView::Text(passwd)),
            ("created_at"@, ParamView::Text(created_at)),
            ("addrid"@, ParamView::Text(addrid)),
            ("address"@, ParamView::Text(body.address@)),
            ("city"@, ParamView::Text(body.city@)),
            ("postcode"@, ParamView::Text(body.postcode@)),
        ],
    }
}

/// The variables that [`USER_SQL`] mentions, in order.
pub proof fn lemma_user_sql_placeholders()
    ensures
        placeholders(USER_SQL@) == seq!["usid"@, "fullname"@, "dob"@, "gender"@, "mob_phone"@, "email"@, "passwd"@, "created_at"@, "addrid"@, "usid"@, "address"@, "city"@, "postcode"@],
{
    reveal_strlit("\n    CREATE users SET usid = $usid, fullname = $fullname, dob = $dob, gender = $gender, mob_phone = $mob_phone, email = $email, passwd = $passwd, created_at = $created_at;\n    CREATE useraddr SET addrid = $addrid, usid = $usid, address = $address, city = $city, postcode = $postcode;\n    ");
    reveal_strlit("usid");
    reveal_strlit("fullname");
    reveal_strlit("dob");
    reveal_strlit("gender");
    reveal_strlit("mob_phone");
    reveal_strlit("email");
    reveal_strlit("passwd");
    reveal_strlit("created_at");
    reveal_strlit("addrid");
    reveal_strlit("address");
    reveal_strlit("city");
    reveal_strlit("postcode");
    let t = USER_SQL@;
    lemma_placeholders_from(t, 0, seq![29, 47, 64, 79, 100, 120, 137, 159, 205, 221, 238, 255, 273], seq![34, 56, 68, 86, 110, 126, 144, 170, 212, 226, 246, 260, 282]);
    assert(t.subrange(30, 34) =~= "usid"@);
    assert(t.subrange(48, 56) =~= "fullname"@);
    assert(t.subrange(65, 68) =~= "dob"@);
    assert(t.subrange(80, 86) =~= "gender"@);
    assert(t.subrange(101, 110) =~= "mob_phone"@);
    assert(t.subrange(121, 126) =~= "email"@);
    assert(t.subrange(138, 144) =~= "passwd"@);
    assert(t.subrange(160, 170) =~= "created_at"@);
    assert(t.subrange(206, 212) =~= "addrid"@);
    assert(t.subrange(222, 226) =~= "usid"@);
    assert(t.subrange(239, 246) =~= "address"@);
    assert(t.subrange(256, 260) =~= "city"@);
    assert(t.subrange(274, 282) =~= "postcode"@);
    assert(placeholders(t) =~= seq!["usid"@, "fullname"@, "dob"@, "gender"@, "mob_phone"@, "email"@, "passwd"@, "created_at"@, "addrid"@, "usid"@, "address"@, "city"@, "postcode"@]);
}

/// Records `body` as user `usid` with address `addrid`, storing
/// `passwd_hash` as the password, created at `created_at`.
pub fn user_query(
    body: &UserReg,
    usid: String,
    addrid: String,
    passwd_hash: String,
    created_at: String,
) -> (q: DbQuery)
    ensures
        q@ == user_query_view(*body, usid@, addrid@, passwd_hash@, created_at@),
        q@.names_distinct(),
        q@.binds_its_placeholders(),
{
    let mut vars: Vec<Binding> = Vec::new();
    vars.push(text_binding("usid", usid));
    vars.push(text_binding("fullname", body.fullname.clone()));
    vars.push(text_binding("dob", body.dob.clone()));
    vars.push(text_binding("gender", body.gender.clone()));
    vars.push(text_binding("mob_phone", body.mob_phone.clone()));
    vars.push(text_binding("email", body.email.clone()));
    vars.push(text_binding("passwd", passwd_hash));
    vars.push(text_binding("created_at", created_at));
    vars.push(text_binding("addrid", addrid));
    vars.push(text_binding("address", body.address.clone()));
    vars.push(text_binding("city", body.city.clone()));
    vars.push(text_binding("postcode", body.postcode.clone()));
    let q = DbQuery { text: USER_SQL.to_owned(), vars };
    assert(q@.bindings =~= user_query_view(
        *body,
        usid@,
        addrid@,
        passwd_hash@,
        created_at@,
    ).bindings);
    proof {
        reveal_strlit("usid");
        reveal_strlit("fullname");
        reveal_strlit("dob");
        reveal_strlit("gender");
        reveal_strlit("mob_phone");
        reveal_strlit("email");
        reveal_strlit("passwd");
        reveal_strlit("created_at");
        reveal_strlit("addrid");
        reveal_strlit("address");
        reveal_strlit("city");
        reveal_strlit("postcode");
    }
    proof {
        lemma_user_sql_placeholders();
        let ph = placeholders(q@.text);
        assert(q@.names() =~= seq!["usid"@, "fullname"@, "dob"@, "gender"@, "mob_phone"@, "email"@, "passwd"@, "created_at"@, "addrid"@, "address"@, "city"@, "postcode"@]);
        assert(ph.to_set() =~= q@.names().to_set()) by {
            assert forall|n: Seq<char>| ph.contains(n) implies q@.names().contains(n) by {
                let k = choose|k: int| 0 <= k < ph.len() && ph[k] == n;
                if k < 9 {
                    assert(q@.names()[k] == n);
                } else if k == 9 {
                    assert(q@.names()[0] == n);
                } else {
                    assert(q@.names()[k - 1] == n);
                }
            }
            assert forall|n: Seq<char>| q@.names().contains(n) implies ph.contains(n) by {
                let k = choose|k: int| 0 <= k < q@.names().len() && q@.names()[k] == n;
                if k < 9 {
                    assert(ph[k] == n);
                } else {
                    assert(ph[k + 1] == n);
                }
            }
        }
    }
    assert forall|i: int, j: int| 0 <= i < j < 12 implies q@.bindings[i].0 != q@.bindings[j].0 by {
        assert(q@.bindings[i].0.len() != q@.bindings[j].0.len() || q@.bindings[i].0[0] != q@.bindings[j].0[0]);
    }
    q
}

/// The query for a registration: fresh identifiers for the user and the
/// address, the password replaced by its Argon2id PHC string under a fresh
/// salt, and the current time.
pub fn userregister(body: &UserReg) -> (q: DbQuery)
    requires
        vstd::utf8::encode_utf8(body.passwd@).len() <= u32::MAX,
    ensures
        exists|usid: Seq<char>, addrid: Seq<char>, salt: Seq<char>, created_at: Seq<char>|
            {
                &&& is_v4_uuid_text(usid) && is_drawn_id(usid)
                &&& is_v4_uuid_text(addrid) && is_drawn_id(addrid)
                &&& is_salt16_b64(salt) && is_drawn_salt(salt)
                &&& is_utc_rfc3339(created_at) && is_clock_reading(created_at)
                &&& q@ == #[trigger] user_query_view(
                    *body,
                    usid,
                    addrid,
                    phc_string(vstd::utf8::encode_utf8(body.passwd@), salt),
                    created_at,
                )
            },
        q@.names_distinct(),
        q@.binds_its_placeholders(),
{
    let usid = fresh_id();
    let addrid = fresh_id();
    let salt = new_salt();
    let passwd_hash = hash_password(body.passwd.as_str(), salt.as_str());
    let now = now_rfc3339();
    let ghost (u, a, s, p, t) = (usid@, addrid@, salt@, passwd_hash@, now@);
    let q = user_query(body, usid, addrid, passwd_hash, now);
    assert(q@ == user_query_view(*body, u, a, p, t));
    q
}

/// The parsed query that lists the users; it fails exactly when the parser
/// refuses [`USERS_SELECT_SQL`].
pub fn fetchusers() -> (res: Result<surrealdb::sql::Query, surrealdb::Error>)
    ensures
        res is Ok <==> surql_parse(USERS_SELECT_SQL@) is Some,
        res matches Ok(q) ==> surql_parse(USERS_SELECT_SQL@) == Some(q),
{
    parse_surql(USERS_SELECT_SQL)
}

} // verus!
