use vstd::prelude::*;

verus! {

/// A character that may continue a variable name: an ASCII letter, an ASCII
/// digit or `_`.
pub open spec fn is_name_char(c: char) -> bool {
    ||| ('a' <= c && c <= 'z')
    ||| ('A' <= c && c <= 'Z')
    ||| ('0' <= c && c <= '9')
    ||| c == '_'
}

/// The index just past the run of name characters that starts at `i`.
pub open spec fn name_end(t: Seq<char>, i: int) -> int
    decreases t.len() - i,
{
    if 0 <= i < t.len() && is_name_char(t[i]) {
        name_end(t, i + 1)
    } else {
        i
    }
}

/// The variables that `t` mentions from index `i` on, in order: each `$`
/// followed by the longest run of name characters after it.
pub open spec fn placeholders_from(t: Seq<char>, i: int) -> Seq<Seq<char>>
    decreases t.len() - i,
{
    if i < 0 || i >= t.len() {
        Seq::empty()
    } else if t[i] == '$' {
        seq![t.subrange(i + 1, name_end(t, i + 1))] + placeholders_from(t, i + 1)
    } else {
        placeholders_from(t, i + 1)
    }
}

/// The variables that the statement `t` mentions, in order of appearance.
pub open spec fn placeholders(t: Seq<char>) -> Seq<Seq<char>> {
    placeholders_from(t, 0)
}

/// Where no `$` stands between `i` and `j`, nothing is mentioned there.
proof fn lemma_skip_plain(t: Seq<char>, i: int, j: int)
    requires
        0 <= i <= j <= t.len(),
        forall|k: int| i <= k < j ==> t[k] != '$',
    ensures
        placeholders_from(t, i) == placeholders_from(t, j),
    decreases j - i,
{
    if i < j {
        lemma_skip_plain(t, i + 1, j);
    }
}

/// A run of name characters from `i` up to `j`, not followed by one, ends at `j`.
proof fn lemma_name_end(t: Seq<char>, i: int, j: int)
    requires
        0 <= i <= j <= t.len(),
        forall|k: int| i <= k < j ==> is_name_char(t[k]),
        j == t.len() || !is_name_char(t[j]),
    ensures
        name_end(t, i) == j,
    decreases j - i,
{
    if i < j {
        lemma_name_end(t, i + 1, j);
    }
}

/// The variables mentioned from `i` on, given every `$` at or after `i`
/// (at the increasing indices `dollars`) and the end of the name after
/// each (`ends`).
pub proof fn lemma_placeholders_from(t: Seq<char>, i: int, dollars: Seq<int>, ends: Seq<int>)
    requires
        0 <= i <= t.len(),
        dollars.len() == ends.len(),
        forall|k: int| 0 <= k < dollars.len() ==> i <= #[trigger] dollars[k] < t.len(),
        forall|k: int, l: int| 0 <= k < l < dollars.len() ==> dollars[k] < dollars[l],
        forall|k: int| 0 <= k < dollars.len() ==> t[#[trigger] dollars[k]] == '$',
        forall|m: int| i <= m < t.len() && t[m] == '$' ==> dollars.contains(m),
        forall|k: int|
            0 <= k < dollars.len() ==> dollars[k] < #[trigger] ends[k] <= t.len() && (forall|m: int|
                dollars[k] < m < ends[k] ==> is_name_char(#[trigger] t[m])) && (ends[k] == t.len()
                || !is_name_char(t[ends[k]])),
    ensures
        placeholders_from(t, i) == Seq::new(
            dollars.len(),
            |k: int| t.subrange(dollars[k] + 1, ends[k]),
        ),
    decreases dollars.len(),
{
    if dollars.len() == 0 {
        lemma_skip_plain(t, i, t.len() as int);
        assert(placeholders_from(t, t.len() as int) =~= Seq::<Seq<char>>::empty());
    } else {
        let p = dollars[0];
        assert forall|k: int| i <= k < p implies t[k] != '$' by {
            if t[k] == '$' {
                let l = choose|l: int| 0 <= l < dollars.len() && dollars[l] == k;
                if l > 0 {
                    assert(dollars[0] < dollars[l]);
                }
            }
        }
        lemma_skip_plain(t, i, p);
        lemma_name_end(t, p + 1, ends[0]);
        let ds = dollars.drop_first();
        let es = ends.drop_first();
        assert forall|m: int| p + 1 <= m < t.len() && t[m] == '$' implies ds.contains(m) by {
            let l = choose|l: int| 0 <= l < dollars.len() && dollars[l] == m;
            assert(l > 0);
            assert(ds[l - 1] == m);
        }
        assert forall|k: int| 0 <= k < ds.len() implies p + 1 <= #[trigger] ds[k] < t.len() by {
            assert(dollars[0] < dollars[k + 1]);
        }
        assert forall|k: int| 0 <= k < ds.len() implies t[#[trigger] ds[k]] == '$' by {
            assert(ds[k] == dollars[k + 1]);
        }
        assert forall|k: int|
            0 <= k < ds.len() implies ds[k] < #[trigger] es[k] <= t.len() && (forall|m: int|
                ds[k] < m < es[k] ==> is_name_char(#[trigger] t[m])) && (es[k] == t.len()
                || !is_name_char(t[es[k]])) by {
            assert(ds[k] == dollars[k + 1] && es[k] == ends[k + 1]);
        }
        lemma_placeholders_from(t, p + 1, ds, es);
        assert(placeholders_from(t, i) =~= Seq::new(
            dollars.len(),
            |k: int| t.subrange(dollars[k] + 1, ends[k]),
        ));
    }
}

} // verus!
