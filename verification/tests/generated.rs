use argon2::password_hash::{PasswordHash, PasswordVerifier};
use argon2::Argon2;

use storefront::clock::now_rfc3339;
use storefront::ids::{fresh_id, uuid_string};
use storefront::orderroutes::{orderhandler, ProductUpdate};
use storefront::password::{hash_password, new_salt};
use storefront::productroutes::{favourites, insertproduct, insertproductimages, Favourites, Product, ProductImages};
use storefront::query::{DbQuery, Param};
use storefront::userroutes::{userregister, UserReg};

fn text_of<'a>(q: &'a DbQuery, name: &str) -> &'a str {
    match &q.vars.iter().find(|b| b.name == name).expect("bound").value {
        Param::Text(s) => s.as_str(),
        other => panic!("not text: {:?}", other),
    }
}

fn assert_v4_text(s: &str) {
    let cs: Vec<char> = s.chars().collect();
    assert_eq!(cs.len(), 36, "{}", s);
    for (i, c) in cs.iter().enumerate() {
        if [8, 13, 18, 23].contains(&i) {
            assert_eq!(*c, '-', "{}", s);
        } else {
            assert!(c.is_ascii_digit() || ('a'..='f').contains(c), "{}", s);
        }
    }
    assert_eq!(cs[14], '4', "{}", s);
    assert!(['8', '9', 'a', 'b'].contains(&cs[19]), "{}", s);
}

#[test]
fn uuid_string_is_hyphenated_lowercase() {
    assert_eq!(uuid_string(0x67e5504410b1426f9247bb680e5fe0c8), "67e55044-10b1-426f-9247-bb680e5fe0c8");
    assert_eq!(uuid_string(0), "00000000-0000-0000-0000-000000000000");
    assert_eq!(uuid_string(u128::MAX), "ffffffff-ffff-ffff-ffff-ffffffffffff");
}

#[test]
fn fresh_ids_are_version_four() {
    let a = fresh_id();
    let b = fresh_id();
    assert_v4_text(&a);
    assert_v4_text(&b);
    assert_ne!(a, b);
}

#[test]
fn timestamps_are_utc_rfc3339() {
    let t = now_rfc3339();
    assert!(t.ends_with("+00:00"), "{}", t);
    let cs: Vec<char> = t.chars().collect();
    assert_eq!((cs[4], cs[7], cs[10], cs[13], cs[16]), ('-', '-', 'T', ':', ':'), "{}", t);
    assert!([25, 29, 32, 35].contains(&cs.len()), "{}", t);
    for i in [0, 1, 2, 3, 5, 6, 8, 9, 11, 12, 14, 15, 17, 18] {
        assert!(cs[i].is_ascii_digit(), "{}", t);
    }
    assert!(chrono::DateTime::parse_from_rfc3339(&t).is_ok(), "{}", t);
}

#[test]
fn salts_are_sixteen_bytes_of_b64() {
    let s = new_salt();
    assert_eq!(s.len(), 22);
    assert!(s.chars().all(|c| c.is_ascii_alphanumeric() || c == '+' || c == '/'));
    assert!(['A', 'Q', 'g', 'w'].contains(&s.chars().last().unwrap()));
}

#[test]
fn password_hash_is_argon2id_phc() {
    let salt = "c2FsdHNhbHRzYWx0c2FsdA";
    let h = hash_password("hunter2", salt);
    assert!(h.starts_with("$argon2id$v=19$m=19456,t=2,p=1$c2FsdHNhbHRzYWx0c2FsdA$"), "{}", h);
    assert_eq!(h.len(), 97);
    assert_eq!(h, hash_password("hunter2", salt));
    assert_ne!(h, hash_password("hunter3", salt));
    let parsed = PasswordHash::new(&h).unwrap();
    assert!(Argon2::default().verify_password(b"hunter2", &parsed).is_ok());
    assert!(Argon2::default().verify_password(b"hunter3", &parsed).is_err());
}

#[test]
fn orderhandler_fills_id_and_time() {
    let body = ProductUpdate { usid: "u-7".to_string(), total: 3.25f32.to_bits() };
    let q = orderhandler(&body);
    assert_v4_text(text_of(&q, "orderid"));
    assert!(text_of(&q, "created_at").ends_with("+00:00"));
    assert_eq!(text_of(&q, "usid"), "u-7");
    assert_eq!(q.vars[2].value, Param::Float32(3.25f32.to_bits()));
}

#[test]
fn insertproduct_fills_id_and_time() {
    let body = Product {
        prodname: "Rake".to_string(),
        proddescr: "d".to_string(),
        prodsku: "RK".to_string(),
        descr: "c".to_string(),
        availableqty: 1,
        price: "5".to_string(),
    };
    let q = insertproduct(&body);
    assert_v4_text(text_of(&q, "productid"));
    assert!(text_of(&q, "created_at").ends_with("+00:00"));
    assert_eq!(text_of(&q, "prodname"), "Rake");
}

#[test]
fn insertproductimages_and_favourites_fill_ids() {
    let imgs = ProductImages {
        prodsku: "RK".to_string(),
        imageone: "1".to_string(),
        imagetwo: "2".to_string(),
        imagethree: "3".to_string(),
        imagefour: "4".to_string(),
    };
    assert_v4_text(text_of(&insertproductimages(&imgs), "productimgid"));
    let fav = Favourites { usid: "u".to_string(), productid: "p".to_string() };
    let q = favourites(&fav);
    assert_v4_text(text_of(&q, "favid"));
    assert_eq!(text_of(&q, "productid"), "p");
}

#[test]
fn userregister_stores_a_hash_of_the_password() {
    let body = UserReg {
        fullname: "Grace Hopper".to_string(),
        dob: "1906-12-09".to_string(),
        gender: "f".to_string(),
        mob_phone: "1".to_string(),
        email: "grace@example.org".to_string(),
        passwd: "cobol".to_string(),
        address: "a".to_string(),
        city: "c".to_string(),
        postcode: "p".to_string(),
    };
    let q = userregister(&body);
    let usid = text_of(&q, "usid");
    let addrid = text_of(&q, "addrid");
    assert_v4_text(usid);
    assert_v4_text(addrid);
    assert_ne!(usid, addrid);
    let stored = text_of(&q, "passwd");
    assert_ne!(stored, "cobol");
    assert!(stored.starts_with("$argon2id$v=19$m=19456,t=2,p=1$"));
    let parsed = PasswordHash::new(stored).unwrap();
    assert!(Argon2::default().verify_password(b"cobol", &parsed).is_ok());
    assert!(text_of(&q, "created_at").ends_with("+00:00"));
    assert_eq!(text_of(&q, "email"), "grace@example.org");
}
