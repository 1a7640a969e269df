//! Verified text primitives: substring search and replacement, whitespace
//! and separator splitting, decimal rendering, and list joining.
//!
//! Argument resolution, legacy tokenisation and classpath assembly are all
//! built from these.  Each executable function is proved equal to a spec
//! function that states its result directly over character sequences.

use vstd::prelude::*;

verus! {

/// Sequence of views of a vector of strings.
pub open spec fn seq_views(v: Seq<String>) -> Seq<Seq<char>> {
    v.map_values(|x: String| x@)
}

/// Leftmost-first, non-overlapping replacement of `pat` by `sub` in `s`.
/// An empty pattern replaces nothing, and emitted replacement text is
/// not rescanned.
pub open spec fn spec_replace(s: Seq<char>, pat: Seq<char>, sub: Seq<char>) -> Seq<char>
    decreases s.len(),
{
    if pat.len() == 0 || s.len() < pat.len() {
        s
    } else if s.subrange(0, pat.len() as int) == pat {
        sub + spec_replace(s.subrange(pat.len() as int, s.len() as int), pat, sub)
    } else {
        seq![s[0]] + spec_replace(s.subrange(1, s.len() as int), pat, sub)
    }
}

/// True when `pat` occurs in `s` at position `k`.
pub open spec fn spec_match_at(s: Seq<char>, pat: Seq<char>, k: int) -> bool {
    0 <= k && k + pat.len() <= s.len() && s.subrange(k, k + pat.len() as int) == pat
}

/// True when `pat` occurs somewhere in `s`.
pub open spec fn spec_contains(s: Seq<char>, pat: Seq<char>) -> bool {
    exists|k: int| spec_match_at(s, pat, k)
}

/// Whether `pat` occurs in `s` starting at character position `i`.
pub fn match_at(s: &str, i: usize, pat: &str) -> (r: bool)
    requires
        i + pat@.len() <= s@.len(),
        i + pat@.len() <= usize::MAX,
    ensures
        r == (s@.subrange(i as int, i + pat@.len()) == pat@),
{
    let m = pat.unicode_len();
    let mut j: usize = 0;
    while j < m
        invariant
            m == pat@.len(),
            i + m <= s@.len(),
            i + m <= usize::MAX,
            j <= m,
            forall|k: int| 0 <= k < j ==> s@[i + k] == pat@[k],
        decreases m - j,
    {
        if s.get_char(i + j) != pat.get_char(j) {
            proof {
                assert(s@.subrange(i as int, i + pat@.len())[j as int] == s@[i + j]);
            }
            return false;
        }
        j = j + 1;
    }
    proof {
        assert(s@.subrange(i as int, i + pat@.len()) =~= pat@);
    }
    true
}

/// Character-sequence equality of two string slices.
pub fn str_eq(a: &str, b: &str) -> (r: bool)
    ensures
        r == (a@ == b@),
{
    let n = a.unicode_len();
    if n != b.unicode_len() {
        return false;
    }
    let mut j: usize = 0;
    while j < n
        invariant
            n == a@.len(),
            n == b@.len(),
            j <= n,
            forall|k: int| 0 <= k < j ==> a@[k] == b@[k],
        decreases n - j,
    {
        if a.get_char(j) != b.get_char(j) {
            return false;
        }
        j = j + 1;
    }
    proof {
        assert(a@ =~= b@);
    }
    true
}

/// Whether `pat` occurs anywhere in `s`.
pub fn contains_str(s: &str, pat: &str) -> (r: bool)
    ensures
        r == spec_contains(s@, pat@),
{
    let n = s.unicode_len();
    let m = pat.unicode_len();
    if m == 0 {
        proof {
            assert(s@.subrange(0, 0) =~= pat@);
            assert(spec_match_at(s@, pat@, 0));
        }
        return true;
    }
    if m > n {
        proof {
            assert(forall|k: int| !spec_match_at(s@, pat@, k));
        }
        return false;
    }
    let mut k: usize = 0;
    while k <= n - m
        invariant
            n == s@.len(),
            m == pat@.len(),
            1 <= m <= n,
            k <= n - m + 1,
            forall|j: int| 0 <= j < k ==> !spec_match_at(s@, pat@, j),
        decreases n - k,
    {
        if match_at(s, k, pat) {
            proof {
                assert(spec_match_at(s@, pat@, k as int));
            }
            return true;
        }
        k = k + 1;
    }
    proof {
        assert(forall|j: int| !spec_match_at(s@, pat@, j));
    }
    false
}

/// Replaces every occurrence of `pat` in `s` by `sub`, leftmost first,
/// without rescanning replaced text.
pub fn replace_all(s: &str, pat: &str, sub: &str) -> (r: String)
    ensures
        r@ == spec_replace(s@, pat@, sub@),
{
    let n = s.unicode_len();
    let m = pat.unicode_len();
    if m == 0 {
        return String::from_str(s);
    }
    let mut out = String::new();
    let mut i: usize = 0;
    proof {
        assert(s@.subrange(0, n as int) =~= s@);
        assert(out@ + spec_replace(s@, pat@, sub@) =~= spec_replace(s@, pat@, sub@));
    }
    while i < n
        invariant
            n == s@.len(),
            m == pat@.len(),
            1 <= m,
            i <= n,
            spec_replace(s@, pat@, sub@) == out@ + spec_replace(
                s@.subrange(i as int, n as int),
                pat@,
                sub@,
            ),
        decreases n - i,
    {
        let ghost t = s@.subrange(i as int, n as int);
        if m <= n - i && match_at(s, i, pat) {
            proof {
                assert(t.subrange(0, m as int) =~= s@.subrange(i as int, i + m));
                assert(t.subrange(m as int, t.len() as int) =~= s@.subrange(i + m, n as int));
                assert(spec_replace(t, pat@, sub@) == sub@ + spec_replace(
                    s@.subrange(i + m, n as int),
                    pat@,
                    sub@,
                ));
                assert((out@ + sub@) + spec_replace(s@.subrange(i + m, n as int), pat@, sub@)
                    =~= out@ + (sub@ + spec_replace(s@.subrange(i + m, n as int), pat@, sub@)));
            }
            out.append(sub);
            i = i + m;
        } else {
            let piece = s.substring_char(i, i + 1);
            proof {
                assert(piece@ =~= seq![s@[i as int]]);
                assert(t[0] == s@[i as int]);
                if t.len() >= m {
                    assert(t.subrange(0, m as int) =~= s@.subrange(i as int, i + m));
                }
                assert(t.subrange(1, t.len() as int) =~= s@.subrange(i + 1, n as int));
                assert(spec_replace(t, pat@, sub@) == seq![s@[i as int]] + spec_replace(
                    s@.subrange(i + 1, n as int),
                    pat@,
                    sub@,
                ));
                assert((out@ + seq![s@[i as int]]) + spec_replace(
                    s@.subrange(i + 1, n as int),
                    pat@,
                    sub@,
                ) =~= out@ + (seq![s@[i as int]] + spec_replace(
                    s@.subrange(i + 1, n as int),
                    pat@,
                    sub@,
                )));
            }
            out.append(piece);
            i = i + 1;
        }
    }
    proof {
        assert(s@.subrange(i as int, n as int).len() == 0);
        assert(out@ + spec_replace(s@.subrange(i as int, n as int), pat@, sub@) =~= out@);
    }
    out
}

/// The whitespace characters on which legacy argument strings are split:
/// the Unicode `White_Space` set.
pub open spec fn spec_is_ws(c: char) -> bool {
    let u = c as u32;
    ||| (0x09 <= u && u <= 0x0D)
    ||| u == 0x20
    ||| u == 0x85
    ||| u == 0xA0
    ||| u == 0x1680
    ||| (0x2000 <= u && u <= 0x200A)
    ||| u == 0x2028
    ||| u == 0x2029
    ||| u == 0x202F
    ||| u == 0x205F
    ||| u == 0x3000
}

/// Whether `c` is whitespace for token splitting.
pub fn is_ws_char(c: char) -> (r: bool)
    ensures
        r == spec_is_ws(c),
{
    let u = c as u32;
    (0x09 <= u && u <= 0x0D) || u == 0x20 || u == 0x85 || u == 0xA0 || u == 0x1680
        || (0x2000 <= u && u <= 0x200A) || u == 0x2028 || u == 0x2029 || u == 0x202F
        || u == 0x205F || u == 0x3000
}

/// Whitespace splitting with an explicit in-progress token: tokens are the
/// maximal whitespace-free runs of `s`, in order, with `cur` prefixed to
/// the first of them.
pub open spec fn spec_split_ws_rec(s: Seq<char>, cur: Seq<char>) -> Seq<Seq<char>>
    decreases s.len(),
{
    if s.len() == 0 {
        if cur.len() == 0 {
            seq![]
        } else {
            seq![cur]
        }
    } else if spec_is_ws(s[0]) {
        if cur.len() == 0 {
            spec_split_ws_rec(s.drop_first(), Seq::empty())
        } else {
            seq![cur] + spec_split_ws_rec(s.drop_first(), Seq::empty())
        }
    } else {
        spec_split_ws_rec(s.drop_first(), cur.push(s[0]))
    }
}

/// The whitespace-separated tokens of `s`, in order, empties dropped.
pub open spec fn spec_split_ws(s: Seq<char>) -> Seq<Seq<char>> {
    spec_split_ws_rec(s, Seq::empty())
}

/// Splits `s` into its whitespace-separated tokens.
pub fn split_whitespace_tokens(s: &str) -> (r: Vec<String>)
    ensures
        seq_views(r@) == spec_split_ws(s@),
{
    let n = s.unicode_len();
    let mut out: Vec<String> = Vec::new();
    let mut cur = String::new();
    let mut i: usize = 0;
    proof {
        assert(s@.subrange(0, n as int) =~= s@);
        assert(cur@ =~= Seq::<char>::empty());
        assert(seq_views(out@) =~= Seq::<Seq<char>>::empty());
        assert(seq_views(out@) + spec_split_ws_rec(s@.subrange(0, n as int), cur@)
            =~= spec_split_ws_rec(s@, Seq::empty()));
    }
    while i < n
        invariant
            n == s@.len(),
            i <= n,
            spec_split_ws(s@) == seq_views(out@) + spec_split_ws_rec(
                s@.subrange(i as int, n as int),
                cur@,
            ),
        decreases n - i,
    {
        let ghost t = s@.subrange(i as int, n as int);
        proof {
            assert(t[0] == s@[i as int]);
            assert(t.drop_first() =~= s@.subrange(i + 1, n as int));
        }
        let c = s.get_char(i);
        if is_ws_char(c) {
            if !cur.as_str().is_empty() {
                proof {
                    assert(seq_views(out@.push(cur)) =~= seq_views(out@) + seq![cur@]);
                    assert((seq_views(out@) + seq![cur@]) + spec_split_ws_rec(
                        s@.subrange(i + 1, n as int),
                        Seq::empty(),
                    ) =~= seq_views(out@) + (seq![cur@] + spec_split_ws_rec(
                        s@.subrange(i + 1, n as int),
                        Seq::empty(),
                    )));
                }
                out.push(cur);
                cur = String::new();
            } else {
                proof {
                    assert(cur@ =~= Seq::<char>::empty());
                }
            }
        } else {
            let piece = s.substring_char(i, i + 1);
            proof {
                assert(piece@ =~= seq![s@[i as int]]);
                assert(cur@ + piece@ =~= cur@.push(s@[i as int]));
            }
            cur.append(piece);
        }
        i = i + 1;
    }
    proof {
        assert(s@.subrange(i as int, n as int).len() == 0);
    }
    if !cur.as_str().is_empty() {
        proof {
            assert(seq_views(out@.push(cur)) =~= seq_views(out@) + seq![cur@]);
        }
        out.push(cur);
    } else {
        proof {
            assert(seq_views(out@) + Seq::<Seq<char>>::empty() =~= seq_views(out@));
        }
    }
    out
}

/// Separator splitting with an explicit in-progress piece: the result is
/// the pieces of `s` between occurrences of `sep`, with `cur` prefixed to
/// the first of them.  There is always at least one piece.
pub open spec fn spec_split_sep_rec(s: Seq<char>, sep: char, cur: Seq<char>) -> Seq<Seq<char>>
    decreases s.len(),
{
    if s.len() == 0 {
        seq![cur]
    } else if s[0] == sep {
        seq![cur] + spec_split_sep_rec(s.drop_first(), sep, Seq::empty())
    } else {
        spec_split_sep_rec(s.drop_first(), sep, cur.push(s[0]))
    }
}

/// The pieces of `s` between occurrences of `sep`, empties kept.
pub open spec fn spec_split_sep(s: Seq<char>, sep: char) -> Seq<Seq<char>> {
    spec_split_sep_rec(s, sep, Seq::empty())
}

/// Splits `s` on every occurrence of the character `sep`.
pub fn split_on_char(s: &str, sep: char) -> (r: Vec<String>)
    ensures
        seq_views(r@) == spec_split_sep(s@, sep),
{
    let n = s.unicode_len();
    let mut out: Vec<String> = Vec::new();
    let mut cur = String::new();
    let mut i: usize = 0;
    proof {
        assert(s@.subrange(0, n as int) =~= s@);
        assert(cur@ =~= Seq::<char>::empty());
        assert(seq_views(out@) =~= Seq::<Seq<char>>::empty());
        assert(seq_views(out@) + spec_split_sep_rec(s@.subrange(0, n as int), sep, cur@)
            =~= spec_split_sep_rec(s@, sep, Seq::empty()));
    }
    while i < n
        invariant
            n == s@.len(),
            i <= n,
            spec_split_sep(s@, sep) == seq_views(out@) + spec_split_sep_rec(
                s@.subrange(i as int, n as int),
                sep,
                cur@,
            ),
        decreases n - i,
    {
        let ghost t = s@.subrange(i as int, n as int);
        proof {
            assert(t[0] == s@[i as int]);
            assert(t.drop_first() =~= s@.subrange(i + 1, n as int));
        }
        let c = s.get_char(i);
        if c == sep {
            proof {
                assert(seq_views(out@.push(cur)) =~= seq_views(out@) + seq![cur@]);
                assert((seq_views(out@) + seq![cur@]) + spec_split_sep_rec(
                    s@.subrange(i + 1, n as int),
                    sep,
                    Seq::empty(),
                ) =~= seq_views(out@) + (seq![cur@] + spec_split_sep_rec(
                    s@.subrange(i + 1, n as int),
                    sep,
                    Seq::empty(),
                )));
            }
            out.push(cur);
            cur = String::new();
        } else {
            let piece = s.substring_char(i, i + 1);
            proof {
                assert(piece@ =~= seq![s@[i as int]]);
                assert(cur@ + piece@ =~= cur@.push(s@[i as int]));
            }
            cur.append(piece);
        }
        i = i + 1;
    }
    proof {
        assert(s@.subrange(i as int, n as int).len() == 0);
        assert(seq_views(out@.push(cur)) =~= seq_views(out@) + seq![cur@]);
    }
    out.push(cur);
    out
}

/// The decimal digit character for `d`.
pub open spec fn spec_digit_char(d: nat) -> char
    recommends
        d < 10,
{
    if d == 0 {
        '0'
    } else if d == 1 {
        '1'
    } else if d == 2 {
        '2'
    } else if d == 3 {
        '3'
    } else if d == 4 {
        '4'
    } else if d == 5 {
        '5'
    } else if d == 6 {
        '6'
    } else if d == 7 {
        '7'
    } else if d == 8 {
        '8'
    } else {
        '9'
    }
}

/// The decimal rendering of `n`, without sign or leading zeros.
pub open spec fn spec_decimal(n: nat) -> Seq<char>
    decreases n,
{
    if n < 10 {
        seq![spec_digit_char(n)]
    } else {
        spec_decimal(n / 10) + seq![spec_digit_char(n % 10)]
    }
}

/// The one-character string for the decimal digit `d`.
pub fn digit_str(d: u32) -> (r: &'static str)
    requires
        d < 10,
    ensures
        r@ == seq![spec_digit_char(d as nat)],
{
    proof {
        reveal_strlit("0");
        reveal_strlit("1");
        reveal_strlit("2");
        reveal_strlit("3");
        reveal_strlit("4");
        reveal_strlit("5");
        reveal_strlit("6");
        reveal_strlit("7");
        reveal_strlit("8");
        reveal_strlit("9");
    }
    if d == 0 {
        "0"
    } else if d == 1 {
        "1"
    } else if d == 2 {
        "2"
    } else if d == 3 {
        "3"
    } else if d == 4 {
        "4"
    } else if d == 5 {
        "5"
    } else if d == 6 {
        "6"
    } else if d == 7 {
        "7"
    } else if d == 8 {
        "8"
    } else {
        "9"
    }
}

/// Renders `x` in decimal.
pub fn u32_to_decimal(x: u32) -> (r: String)
    ensures
        r@ == spec_decimal(x as nat),
{
    if x < 10 {
        return String::from_str(digit_str(x));
    }
    let mut n = x;
    let mut out = String::new();
    while n > 0
        invariant
            spec_decimal(x as nat) == if n > 0 {
                spec_decimal(n as nat) + out@
            } else {
                out@
            },
        decreases n,
    {
        let d = n % 10;
        let ghost n_old = n as nat;
        let mut piece = String::from_str(digit_str(d));
        piece.append(out.as_str());
        proof {
            assert(n_old % 10 < 10);
            if n_old >= 10 {
                assert(spec_decimal(n_old) == spec_decimal(n_old / 10) + seq![
                    spec_digit_char(n_old % 10),
                ]);
                assert((spec_decimal(n_old / 10) + seq![spec_digit_char(n_old % 10)]) + out@
                    =~= spec_decimal(n_old / 10) + (seq![spec_digit_char(n_old % 10)] + out@));
            } else {
                assert(spec_decimal(n_old) == seq![spec_digit_char(n_old)]);
            }
        }
        out = piece;
        n = n / 10;
    }
    out
}

/// De-duplication with an explicit memory: the elements of `s` in order,
/// dropping any element already in `seen` or already kept earlier.
pub open spec fn spec_dedup_rec(s: Seq<Seq<char>>, seen: Seq<Seq<char>>) -> Seq<Seq<char>>
    decreases s.len(),
{
    if s.len() == 0 {
        Seq::empty()
    } else if seen.contains(s[0]) {
        spec_dedup_rec(s.drop_first(), seen)
    } else {
        seq![s[0]] + spec_dedup_rec(s.drop_first(), seen.push(s[0]))
    }
}

/// The elements of `s` with every repeat dropped: each element keeps its
/// first occurrence only, in order.
pub open spec fn spec_dedup_first(s: Seq<Seq<char>>) -> Seq<Seq<char>> {
    spec_dedup_rec(s, Seq::empty())
}

/// Whether some string of `v` has the characters of `x`.
pub fn contains_string(v: &Vec<String>, x: &str) -> (r: bool)
    ensures
        r == seq_views(v@).contains(x@),
{
    let mut i: usize = 0;
    while i < v.len()
        invariant
            i <= v@.len(),
            forall|j: int| 0 <= j < i ==> seq_views(v@)[j] != x@,
        decreases v@.len() - i,
    {
        if str_eq(v[i].as_str(), x) {
            proof {
                assert(seq_views(v@)[i as int] == x@);
            }
            return true;
        }
        proof {
            assert(seq_views(v@)[i as int] == v@[i as int]@);
        }
        i = i + 1;
    }
    proof {
        assert(forall|j: int| 0 <= j < v@.len() ==> seq_views(v@)[j] != x@);
    }
    false
}

/// Keeps the first occurrence of each string of `v`, in order.
pub fn dedup_first(v: &Vec<String>) -> (r: Vec<String>)
    ensures
        seq_views(r@) == spec_dedup_first(seq_views(v@)),
{
    let ghost full = seq_views(v@);
    let mut out: Vec<String> = Vec::new();
    let mut i: usize = 0;
    proof {
        assert(full.skip(0) =~= full);
        assert(seq_views(out@) =~= Seq::<Seq<char>>::empty());
        assert(seq_views(out@) + spec_dedup_rec(full.skip(0), seq_views(out@))
            =~= spec_dedup_first(full));
    }
    while i < v.len()
        invariant
            i <= v@.len(),
            full == seq_views(v@),
            spec_dedup_first(full) == seq_views(out@) + spec_dedup_rec(
                full.skip(i as int),
                seq_views(out@),
            ),
        decreases v@.len() - i,
    {
        proof {
            assert(full.skip(i as int)[0] == v@[i as int]@);
            assert(full.skip(i as int).drop_first() =~= full.skip(i + 1));
        }
        if !contains_string(&out, v[i].as_str()) {
            let kept = v[i].clone();
            proof {
                lemma_views_push(out@, kept);
                assert(seq_views(out@).push(kept@) =~= seq_views(out@) + seq![kept@]);
                assert(seq_views(out@.push(kept)) =~= seq_views(out@).push(kept@));
                lemma_concat_assoc(
                    seq_views(out@),
                    seq![kept@],
                    spec_dedup_rec(full.skip(i + 1), seq_views(out@).push(kept@)),
                );
            }
            out.push(kept);
        }
        i = i + 1;
    }
    proof {
        assert(full.skip(full.len() as int).len() == 0);
        assert(seq_views(out@) + spec_dedup_rec(full.skip(full.len() as int), seq_views(out@))
            =~= seq_views(out@));
    }
    out
}

/// Pushing a string onto a vector appends its view to the vector's views.
pub proof fn lemma_views_push(v: Seq<String>, x: String)
    ensures
        seq_views(v.push(x)) == seq_views(v) + seq![x@],
{
    assert(seq_views(v.push(x)) =~= seq_views(v) + seq![x@]);
}

/// Sequence concatenation is associative.
pub proof fn lemma_concat_assoc<T>(a: Seq<T>, b: Seq<T>, c: Seq<T>)
    ensures
        (a + b) + c == a + (b + c),
{
    assert((a + b) + c =~= a + (b + c));
}

/// The elements of `parts` joined by `sep`.
pub open spec fn spec_join(parts: Seq<Seq<char>>, sep: Seq<char>) -> Seq<char>
    decreases parts.len(),
{
    if parts.len() == 0 {
        Seq::empty()
    } else if parts.len() == 1 {
        parts.last()
    } else {
        spec_join(parts.drop_last(), sep) + sep + parts.last()
    }
}

/// Joins the strings of `parts` with the separator `sep`.
pub fn join_with(parts: &Vec<String>, sep: &str) -> (r: String)
    ensures
        r@ == spec_join(seq_views(parts@), sep@),
{
    let mut out = String::new();
    let mut i: usize = 0;
    while i < parts.len()
        invariant
            i <= parts@.len(),
            out@ == spec_join(seq_views(parts@).take(i as int), sep@),
        decreases parts@.len() - i,
    {
        proof {
            assert(seq_views(parts@).take(i + 1).drop_last() =~= seq_views(parts@).take(i as int));
            assert(seq_views(parts@).take(i + 1).last() == parts@[i as int]@);
        }
        if i > 0 {
            out.append(sep);
        }
        out.append(parts[i].as_str());
        i = i + 1;
    }
    proof {
        assert(seq_views(parts@).take(parts@.len() as int) =~= seq_views(parts@));
    }
    out
}

} // verus!
