use vstd::prelude::*;

verus! {

/// The lowercase hexadecimal digit of a nibble value `n < 16`.
pub open spec fn hex_digit(n: int) -> char {
    if n < 10 {
        (48 + n) as char
    } else {
        (87 + n) as char
    }
}

/// Whether index `i` of the 36-character hyphenated form holds a hyphen.
pub open spec fn is_dash_position(i: int) -> bool {
    i == 8 || i == 13 || i == 18 || i == 23
}

/// The position, among the 32 hex digits, of the digit at index `i` of the
/// hyphenated form.
pub open spec fn digit_index(i: int) -> int {
    if i < 8 {
        i
    } else if i < 13 {
        i - 1
    } else if i < 18 {
        i - 2
    } else if i < 23 {
        i - 3
    } else {
        i - 4
    }
}

/// The `k`-th nibble of `v`, counting from the most significant (`k == 0`).
pub open spec fn nibble(v: u128, k: int) -> int {
    ((v >> ((31 - k) * 4) as u128) & 15u128) as int
}

/// The hyphenated lowercase text of the UUID whose big-endian value is `v`,
/// such as `67e55044-10b1-426f-9247-bb680e5fe0c8`.
pub open spec fn uuid_text(v: u128) -> Seq<char> {
    Seq::new(
        36,
        |i: int|
            if is_dash_position(i) {
                '-'
            } else {
                hex_digit(nibble(v, digit_index(i)))
            },
    )
}

/// The version nibble of `v` is 4 and its variant bits are `10`.
pub open spec fn is_v4_bits(v: u128) -> bool {
    &&& (v >> 76u128) & 15u128 == 4
    &&& (v >> 62u128) & 3u128 == 2
}

/// `s` is the hyphenated text of a version-4 UUID.
pub open spec fn is_v4_uuid_text(s: Seq<char>) -> bool {
    exists|v: u128| is_v4_bits(v) && #[trigger] uuid_text(v) == s
}

/// A lowercase hexadecimal digit.
pub open spec fn is_lower_hex(c: char) -> bool {
    ('0' <= c && c <= '9') || ('a' <= c && c <= 'f')
}

/// Every version-4 identifier text is 36 characters long, has a hyphen at
/// indices 8, 13, 18 and 23 and a lowercase hex digit everywhere else, with
/// the version digit `4` at index 14 and one of `8`, `9`, `a`, `b` at index 19.
pub proof fn lemma_v4_uuid_text_shape(s: Seq<char>)
    requires
        is_v4_uuid_text(s),
    ensures
        s.len() == 36,
        forall|i: int| 0 <= i < 36 && is_dash_position(i) ==> s[i] == '-',
        forall|i: int| 0 <= i < 36 && !is_dash_position(i) ==> is_lower_hex(#[trigger] s[i]),
        s[14] == '4',
        s[19] == '8' || s[19] == '9' || s[19] == 'a' || s[19] == 'b',
{
    let v = choose|v: u128| is_v4_bits(v) && #[trigger] uuid_text(v) == s;
    assert forall|k: int| 0 <= k < 32 implies 0 <= #[trigger] nibble(v, k) < 16 by {
        let sh = ((31 - k) * 4) as u128;
        assert((v >> sh) & 15u128 <= 15u128) by (bit_vector);
    }
    assert(nibble(v, 12) == 4);
    let n16 = (v >> 60u128) & 15u128;
    assert(8 <= n16 <= 11) by (bit_vector)
        requires
            (v >> 62u128) & 3u128 == 2,
            n16 == (v >> 60u128) & 15u128,
    ;
    assert(nibble(v, 16) == n16);
    assert(s[14] == hex_digit(nibble(v, 12)));
    assert(s[19] == hex_digit(nibble(v, 16)));
}

/// Calls `uuid::Uuid::new_v4` and reads the UUID as its big-endian 128-bit
/// value with `as_u128`. The value is random; the crate's source fixes its
/// version nibble to 4 and its variant bits to `10`, and that is all that is
/// claimed. The call panics when the operating system gives no random bytes,
/// which no argument controls.
#[verifier::external_body]
fn new_v4_bits() -> (v: u128)
    ensures
        is_v4_bits(v),
{
    uuid::Uuid::new_v4().as_u128()
}

/// Builds the UUID of big-endian value `v` with `uuid::Uuid::from_u128`
/// (the type that `sqlx::types::Uuid` re-exports) and formats it with
/// `to_string`, which writes the hyphenated lowercase form: claimed to be
/// exactly [`uuid_text`]`(v)`.
#[verifier::external_body]
fn hyphenated(v: u128) -> (s: String)
    ensures
        s@ == uuid_text(v),
{
    uuid::Uuid::from_u128(v).to_string()
}

/// The hyphenated text of the UUID with big-endian value `v`.
pub fn uuid_string(v: u128) -> (s: String)
    ensures
        s@ == uuid_text(v),
{
    hyphenated(v)
}

/// `s` was drawn by [`fresh_id`] from the random source. Outside this
/// module the predicate is abstract: only [`fresh_id`] establishes it, so
/// an identifier made up elsewhere (a fixed UUID, one reused from another
/// record) cannot be shown to be one; [`lemma_drawn_id_form`] gives its form.
pub closed spec fn is_drawn_id(s: Seq<char>) -> bool {
    is_v4_uuid_text(s)
}

/// Every drawn identifier is the hyphenated text of a version-4 UUID.
pub proof fn lemma_drawn_id_form(s: Seq<char>)
    requires
        is_drawn_id(s),
    ensures
        is_v4_uuid_text(s),
{
}

/// A fresh random identifier: the hyphenated text of a new version-4 UUID.
pub fn fresh_id() -> (s: String)
    ensures
        is_v4_uuid_text(s@),
        is_drawn_id(s@),
{
    let v = new_v4_bits();
    hyphenated(v)
}

} // verus!
