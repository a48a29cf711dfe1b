//! Character-exact text building blocks: decimal rendering of integers,
//! zero-padding, substring search, equality of character sequences,
//! half-to-even rounding, and the separator-joining scheme the composer
//! uses. Every executable function is pinned to a spec-level definition
//! over `Seq<char>`.

use vstd::prelude::*;

verus! {

/// The decimal digit character for a value below ten.
pub open spec fn spec_digit_char(d: int) -> char {
    if d == 0 {
        '0'
    } else if d == 1 {
        '1'
    } else if d == 2 {
        '2'
    } else if d == 3 {
        '3'
    } else if d == 4 {
        '4'
    } else if d == 5 {
        '5'
    } else if d == 6 {
        '6'
    } else if d == 7 {
        '7'
    } else if d == 8 {
        '8'
    } else {
        '9'
    }
}

/// The decimal rendering of a non-negative integer, most significant digit
/// first, no leading zeros (zero itself renders as "0").
pub open spec fn spec_dec(n: int) -> Seq<char>
    decreases n,
{
    if n < 10 {
        seq![spec_digit_char(n)]
    } else {
        spec_dec(n / 10).push(spec_digit_char(n % 10))
    }
}

pub open spec fn spec_is_digit_char(c: char) -> bool {
    c == '0' || c == '1' || c == '2' || c == '3' || c == '4' || c == '5' || c == '6' || c == '7'
        || c == '8' || c == '9'
}

/// Ten to the given power.
pub open spec fn spec_pow10(k: nat) -> int
    decreases k,
{
    if k == 0 {
        1
    } else {
        10 * spec_pow10((k - 1) as nat)
    }
}

pub proof fn lemma_dec_len_pos(n: int)
    ensures
        spec_dec(n).len() >= 1,
    decreases n,
{
}

/// A value below ten to the k renders in at most k digits.
pub proof fn lemma_dec_len_bound(n: int, k: nat)
    requires
        k >= 1,
        0 <= n < spec_pow10(k),
    ensures
        spec_dec(n).len() <= k,
    decreases n,
{
    if n >= 10 {
        assert(k >= 2) by {
            if k == 1 {
                assert(spec_pow10(1) == 10);
            }
        }
        assert(n / 10 < spec_pow10((k - 1) as nat));
        lemma_dec_len_bound(n / 10, (k - 1) as nat);
    }
}

/// Every character of a decimal rendering is a digit.
pub proof fn lemma_dec_all_digits(n: int)
    requires
        n >= 0,
    ensures
        forall|i: int|
            0 <= i < spec_dec(n).len() ==> #[trigger] spec_is_digit_char(spec_dec(n)[i]),
    decreases n,
{
    if n < 10 {
        assert(spec_is_digit_char(spec_dec(n)[0]));
    } else {
        lemma_dec_all_digits(n / 10);
        assert forall|i: int|
            0 <= i < spec_dec(n).len() implies #[trigger] spec_is_digit_char(spec_dec(n)[i]) by {
            if i < spec_dec(n).len() - 1 {
                assert(spec_dec(n)[i] == spec_dec(n / 10)[i]);
            } else {
                assert(spec_dec(n)[i] == spec_digit_char(n % 10));
                assert(spec_is_digit_char(spec_digit_char(n % 10)));
            }
        }
    }
}

/// A positive value never renders with a leading '0'.
pub proof fn lemma_dec_first_nonzero(n: int)
    requires
        n >= 1,
    ensures
        spec_dec(n)[0] != '0',
    decreases n,
{
    if n >= 10 {
        lemma_dec_first_nonzero(n / 10);
        lemma_dec_len_pos(n / 10);
        assert(spec_dec(n)[0] == spec_dec(n / 10)[0]);
    }
}

/// The one-character string for a decimal digit.
pub fn digit_str(d: u64) -> (r: &'static str)
    requires
        d < 10,
    ensures
        r@ == seq![spec_digit_char(d as int)],
{
    proof {
        reveal_strlit("0");
        reveal_strlit("1");
        reveal_strlit("2");
        reveal_strlit("3");
        reveal_strlit("4");
        reveal_strlit("5");
        reveal_strlit("6");
        reveal_strlit("7");
        reveal_strlit("8");
        reveal_strlit("9");
    }
    let r: &'static str = if d == 0 {
        "0"
    } else if d == 1 {
        "1"
    } else if d == 2 {
        "2"
    } else if d == 3 {
        "3"
    } else if d == 4 {
        "4"
    } else if d == 5 {
        "5"
    } else if d == 6 {
        "6"
    } else if d == 7 {
        "7"
    } else if d == 8 {
        "8"
    } else {
        "9"
    };
    proof {
        assert(r@ =~= seq![spec_digit_char(d as int)]);
    }
    r
}

/// Renders a non-negative integer in decimal.
pub fn dec_u128(n: u128) -> (r: String)
    ensures
        r@ == spec_dec(n as int),
    decreases n,
{
    if n < 10 {
        let r = digit_str(n as u64).to_owned();
        proof {
            assert(r@ =~= spec_dec(n as int));
        }
        r
    } else {
        let mut s = dec_u128(n / 10);
        s.append(digit_str((n % 10) as u64));
        proof {
            assert(s@ =~= spec_dec(n as int));
        }
        s
    }
}

/// A run of k '0' characters (empty when k is not positive).
pub open spec fn spec_zeros(k: int) -> Seq<char>
    decreases k,
{
    if k <= 0 {
        Seq::<char>::empty()
    } else {
        spec_zeros(k - 1).push('0')
    }
}

pub proof fn lemma_zeros(k: int)
    ensures
        spec_zeros(k).len() == if k <= 0 { 0int } else { k },
        forall|i: int| 0 <= i < spec_zeros(k).len() ==> spec_zeros(k)[i] == '0',
    decreases k,
{
    if k > 0 {
        lemma_zeros(k - 1);
    }
}

/// The sequence, left-padded with '0' up to width w.
pub open spec fn spec_pad_left(s: Seq<char>, w: int) -> Seq<char>
    decreases w - s.len(),
{
    if s.len() >= w {
        s
    } else {
        spec_pad_left(seq!['0'].add(s), w)
    }
}

/// Left-padding is the same as putting the missing zeros in front.
pub proof fn lemma_pad_left_as_zeros(s: Seq<char>, w: int)
    ensures
        spec_pad_left(s, w) == spec_zeros(w - s.len()).add(s),
    decreases w - s.len(),
{
    lemma_zeros(w - s.len());
    if s.len() >= w {
        assert(spec_zeros(w - s.len()).add(s) =~= s);
    } else {
        lemma_pad_left_as_zeros(seq!['0'].add(s), w);
        lemma_zeros(w - s.len() - 1);
        assert(spec_zeros(w - s.len() - 1).add(seq!['0'].add(s)) =~= spec_zeros(w - s.len()).add(
            s,
        ));
    }
}

pub proof fn lemma_pad_left_len(s: Seq<char>, w: int)
    ensures
        spec_pad_left(s, w).len() == if s.len() >= w { s.len() as int } else { w },
{
    lemma_pad_left_as_zeros(s, w);
    lemma_zeros(w - s.len());
}

/// Left-pads a rendered number with '0' up to the given width.
pub fn pad_left_zeros(s: String, w: usize) -> (r: String)
    ensures
        r@ == spec_pad_left(s@, w as int),
{
    let len = s.as_str().unicode_len();
    let mut z = String::new();
    if len < w {
        let need = w - len;
        let mut i: usize = 0;
        while i < need
            invariant
                i <= need,
                z@ == spec_zeros(i as int),
            decreases need - i,
        {
            proof {
                reveal_strlit("0");
            }
            z.append("0");
            proof {
                assert(z@ =~= spec_zeros(i + 1));
            }
            i += 1;
        }
    }
    let r = z.concat(s.as_str());
    proof {
        lemma_pad_left_as_zeros(s@, w as int);
        assert(r@ =~= spec_pad_left(s@, w as int));
    }
    r
}

/// The characters after the last occurrence of ch (the whole sequence
/// when ch does not occur in it).
pub open spec fn spec_tail_after_last(s: Seq<char>, ch: char) -> Seq<char>
    decreases s.len(),
{
    if s.len() == 0 {
        s
    } else if s.last() == ch {
        Seq::<char>::empty()
    } else {
        spec_tail_after_last(s.drop_last(), ch).push(s.last())
    }
}

/// The index just after the last occurrence of ch (zero when none).
pub open spec fn spec_cut_after_last(s: Seq<char>, ch: char) -> int
    decreases s.len(),
{
    if s.len() == 0 {
        0
    } else if s.last() == ch {
        s.len() as int
    } else {
        spec_cut_after_last(s.drop_last(), ch)
    }
}

proof fn lemma_tail_is_suffix(s: Seq<char>, ch: char)
    ensures
        0 <= spec_cut_after_last(s, ch) <= s.len(),
        spec_tail_after_last(s, ch) == s.subrange(spec_cut_after_last(s, ch), s.len() as int),
    decreases s.len(),
{
    if s.len() == 0 {
        assert(s.subrange(0, 0) =~= s);
    } else if s.last() == ch {
        assert(s.subrange(s.len() as int, s.len() as int) =~= Seq::<char>::empty());
    } else {
        lemma_tail_is_suffix(s.drop_last(), ch);
        let c = spec_cut_after_last(s, ch);
        assert(s.drop_last().subrange(c, s.len() - 1).push(s.last()) =~= s.subrange(
            c,
            s.len() as int,
        ));
    }
}

/// Appending characters other than ch extends the tail by them.
pub proof fn lemma_tail_skips_clean_suffix(x: Seq<char>, y: Seq<char>, ch: char)
    requires
        forall|j: int| 0 <= j < y.len() ==> y[j] != ch,
    ensures
        spec_tail_after_last(x.add(y), ch) == spec_tail_after_last(x, ch).add(y),
    decreases y.len(),
{
    if y.len() == 0 {
        assert(x.add(y) =~= x);
        assert(spec_tail_after_last(x, ch).add(y) =~= spec_tail_after_last(x, ch));
    } else {
        lemma_tail_skips_clean_suffix(x, y.drop_last(), ch);
        assert(x.add(y).drop_last() =~= x.add(y.drop_last()));
        assert(x.add(y).last() == y.last());
        assert(spec_tail_after_last(x, ch).add(y.drop_last()).push(y.last())
            =~= spec_tail_after_last(x, ch).add(y));
    }
}

/// A sequence ending in ch has an empty tail after the last ch.
pub proof fn lemma_tail_after_final_ch(x: Seq<char>, ch: char)
    ensures
        spec_tail_after_last(x.push(ch), ch) == Seq::<char>::empty(),
{
    assert(x.push(ch).last() == ch);
}

/// The substring after the last occurrence of ch.
pub fn tail_after_last_char(s: &str, ch: char) -> (r: &str)
    ensures
        r@ == spec_tail_after_last(s@, ch),
{
    let n = s.unicode_len();
    let mut cut: usize = 0;
    let mut k: usize = 0;
    proof {
        assert(s@.take(0) =~= Seq::<char>::empty());
    }
    while k < n
        invariant
            k <= n,
            n == s@.len(),
            cut <= k,
            cut as int == spec_cut_after_last(s@.take(k as int), ch),
        decreases n - k,
    {
        let c = s.get_char(k);
        proof {
            assert(s@.take(k as int + 1).drop_last() =~= s@.take(k as int));
            assert(s@.take(k as int + 1).last() == s@[k as int]);
        }
        if c == ch {
            cut = k + 1;
        }
        k += 1;
    }
    proof {
        assert(s@.take(n as int) =~= s@);
        lemma_tail_is_suffix(s@, ch);
    }
    s.substring_char(cut, n)
}

/// Whether n occurs as a contiguous run inside h.
pub open spec fn spec_contains(h: Seq<char>, n: Seq<char>) -> bool {
    exists|i: int| 0 <= i && i + n.len() <= h.len() && #[trigger] h.subrange(i, i + n.len()) == n
}

fn match_at(h: &str, n: &str, i: usize) -> (r: bool)
    requires
        i + n@.len() <= h@.len(),
    ensures
        r == (h@.subrange(i as int, i + n@.len()) == n@),
{
    let hlen = h.unicode_len();
    let nlen = n.unicode_len();
    let mut j: usize = 0;
    while j < nlen
        invariant
            hlen == h@.len(),
            nlen == n@.len(),
            i + nlen <= hlen,
            j <= nlen,
            forall|k: int| 0 <= k < j ==> h@[i + k] == n@[k],
        decreases nlen - j,
    {
        let hc = h.get_char(i + j);
        let nc = n.get_char(j);
        if hc != nc {
            proof {
                assert(h@.subrange(i as int, i + n@.len())[j as int] != n@[j as int]);
            }
            return false;
        }
        j += 1;
    }
    proof {
        assert(h@.subrange(i as int, i + n@.len()) =~= n@);
    }
    true
}

/// Substring search: whether the needle occurs anywhere in the haystack.
pub fn contains_check(h: &str, n: &str) -> (r: bool)
    ensures
        r == spec_contains(h@, n@),
{
    let hlen = h.unicode_len();
    let nlen = n.unicode_len();
    if nlen > hlen {
        return false;
    }
    if nlen == 0 {
        proof {
            assert(h@.subrange(0, 0 + n@.len() as int) =~= n@);
            assert(0 <= 0 && 0 + n@.len() as int <= h@.len() && h@.subrange(0, 0 + n@.len() as int) == n@);
        }
        return true;
    }
    let mut i: usize = 0;
    while i <= hlen - nlen
        invariant
            hlen == h@.len(),
            nlen == n@.len(),
            1 <= nlen <= hlen,
            i <= hlen - nlen + 1,
            forall|ii: int| 0 <= ii < i ==> #[trigger] h@.subrange(ii, ii + n@.len()) != n@,
        decreases hlen - nlen - i + 1,
    {
        if match_at(h, n, i) {
            return true;
        }
        i += 1;
    }
    false
}

/// Character-exact equality of two string slices.
pub fn str_eq_check(a: &str, b: &str) -> (r: bool)
    ensures
        r == (a@ == b@),
{
    let alen = a.unicode_len();
    let blen = b.unicode_len();
    if alen != blen {
        return false;
    }
    let mut i: usize = 0;
    while i < alen
        invariant
            alen == a@.len(),
            alen == b@.len(),
            i <= alen,
            forall|j: int| 0 <= j < i ==> a@[j] == b@[j],
        decreases alen - i,
    {
        let ac = a.get_char(i);
        let bc = b.get_char(i);
        if ac != bc {
            return false;
        }
        i += 1;
    }
    proof {
        assert(a@ =~= b@);
    }
    true
}

/// Half-to-even rounding of n/m: the nearest integer, ties going to the
/// even neighbour.
pub open spec fn spec_round_half_even(n: int, m: int) -> int
    recommends
        n >= 0,
        m > 0,
{
    let q = n / m;
    let r = n % m;
    if 2 * r < m {
        q
    } else if 2 * r > m {
        q + 1
    } else if q % 2 == 0 {
        q
    } else {
        q + 1
    }
}

pub fn round_half_even_u128(n: u128, m: u128) -> (r: u128)
    requires
        m > 0,
        n <= u128::MAX / 2,
    ensures
        r as int == spec_round_half_even(n as int, m as int),
{
    let q = n / m;
    let rem = n % m;
    proof {
        assert(n as int % m as int <= n as int) by (nonlinear_arith)
            requires
                m > 0,
                n >= 0,
        ;
    }
    if 2 * rem < m {
        q
    } else if 2 * rem > m {
        q + 1
    } else if q % 2 == 0 {
        q
    } else {
        q + 1
    }
}

/// The views of a sequence of owned strings.
pub open spec fn views_of(parts: Seq<String>) -> Seq<Seq<char>> {
    Seq::new(parts.len(), |i: int| parts[i]@)
}

/// Joins pieces with a separator between neighbours; no separator in front
/// of the first piece or after the last.
pub open spec fn spec_join_sep(parts: Seq<Seq<char>>, sep: Seq<char>) -> Seq<char>
    decreases parts.len(),
{
    if parts.len() == 0 {
        Seq::<char>::empty()
    } else if parts.len() == 1 {
        parts[0]
    } else {
        spec_join_sep(parts.drop_last(), sep).add(sep).add(parts.last())
    }
}

/// The subsequence of non-empty pieces, order kept.
pub open spec fn spec_keep_nonempty(parts: Seq<Seq<char>>) -> Seq<Seq<char>>
    decreases parts.len(),
{
    if parts.len() == 0 {
        parts
    } else if parts.last().len() > 0 {
        spec_keep_nonempty(parts.drop_last()).push(parts.last())
    } else {
        spec_keep_nonempty(parts.drop_last())
    }
}

/// What the composer produces from a list of candidate pieces: the empty
/// ones are dropped, the rest are joined with the separator.
pub open spec fn spec_compose(parts: Seq<Seq<char>>, sep: Seq<char>) -> Seq<char> {
    spec_join_sep(spec_keep_nonempty(parts), sep)
}

proof fn lemma_join_push(q: Seq<Seq<char>>, p: Seq<char>, sep: Seq<char>)
    ensures
        spec_join_sep(q.push(p), sep) == if q.len() == 0 {
            p
        } else {
            spec_join_sep(q, sep).add(sep).add(p)
        },
{
    assert(q.push(p).drop_last() =~= q);
    assert(q.push(p).last() == p);
    if q.len() == 0 {
        assert(q.push(p)[0] == p);
    }
}

proof fn lemma_keep_nonempty_skips_empty(parts: Seq<Seq<char>>, i: int)
    requires
        0 <= i < parts.len(),
        parts[i].len() == 0,
    ensures
        spec_keep_nonempty(parts) == spec_keep_nonempty(parts.remove(i)),
    decreases parts.len(),
{
    if i == parts.len() - 1 {
        assert(parts.remove(i) =~= parts.drop_last());
    } else {
        lemma_keep_nonempty_skips_empty(parts.drop_last(), i);
        assert(parts.remove(i).drop_last() =~= parts.drop_last().remove(i));
        assert(parts.remove(i).last() == parts.last());
    }
}

/// Law: an empty piece leaves no trace in the composed line — composing
/// with an empty piece at any position yields exactly the line composed
/// without that piece, so an omitted segment leaves no stray separator.
pub proof fn lemma_compose_omits_empty(parts: Seq<Seq<char>>, sep: Seq<char>, i: int)
    requires
        0 <= i < parts.len(),
        parts[i].len() == 0,
    ensures
        spec_compose(parts, sep) == spec_compose(parts.remove(i), sep),
{
    lemma_keep_nonempty_skips_empty(parts, i);
}

/// The total character count of a list of pieces.
pub open spec fn spec_total_len(parts: Seq<Seq<char>>) -> int
    decreases parts.len(),
{
    if parts.len() == 0 {
        0
    } else {
        spec_total_len(parts.drop_last()) + parts.last().len()
    }
}

/// Law: joining puts the separator strictly between neighbours — the
/// joined length is the pieces' total length plus one separator per gap,
/// so there is never a leading, trailing or doubled separator.
pub proof fn lemma_join_len(parts: Seq<Seq<char>>, sep: Seq<char>)
    requires
        parts.len() > 0,
    ensures
        spec_join_sep(parts, sep).len() == spec_total_len(parts) + sep.len() * (parts.len() - 1),
    decreases parts.len(),
{
    let s = sep.len() as int;
    let k = parts.len() as int;
    if parts.len() == 1 {
        assert(spec_join_sep(parts, sep) == parts[0]);
        assert(spec_total_len(parts.drop_last()) == 0);
        assert(parts.last() == parts[0]);
        assert(s * (k - 1) == 0) by (nonlinear_arith)
            requires
                k == 1,
        ;
    } else {
        lemma_join_len(parts.drop_last(), sep);
        assert(s * (k - 1) == s * (k - 2) + s) by (nonlinear_arith);
        assert(spec_join_sep(parts, sep).len() == spec_join_sep(parts.drop_last(), sep).len() + s
            + parts.last().len());
        assert(spec_total_len(parts) == spec_total_len(parts.drop_last()) + parts.last().len());
    }
}

/// Joins the non-empty pieces with the separator.
pub fn compose_pieces(pieces: &Vec<String>, sep: &str) -> (r: String)
    ensures
        r@ == spec_compose(views_of(pieces@), sep@),
{
    let mut out = String::new();
    let mut started = false;
    let mut i: usize = 0;
    while i < pieces.len()
        invariant
            i <= pieces@.len(),
            out@ == spec_join_sep(spec_keep_nonempty(views_of(pieces@.take(i as int))), sep@),
            started == (spec_keep_nonempty(views_of(pieces@.take(i as int))).len() > 0),
        decreases pieces@.len() - i,
    {
        let ghost prev = views_of(pieces@.take(i as int));
        let p = &pieces[i];
        if !p.as_str().is_empty() {
            if started {
                out.append(sep);
            }
            out.append(p.as_str());
            started = true;
        }
        proof {
            let cur = views_of(pieces@.take(i + 1));
            assert(cur.drop_last() =~= prev);
            assert(cur.last() == pieces@[i as int]@);
            if p@.len() > 0 {
                lemma_join_push(spec_keep_nonempty(prev), p@, sep@);
            }
        }
        i += 1;
    }
    proof {
        assert(pieces@.take(pieces@.len() as int) =~= pieces@);
    }
    out
}

} // verus!
