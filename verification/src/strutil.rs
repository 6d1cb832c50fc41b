//! Verified text primitives: equality, substring search, splitting,
//! trimming, digit parsing and rendering. Contracts are stated over the
//! `Seq<char>` views of `&str` and `String`.

use vstd::prelude::*;
use vstd::string::{StrSliceExecFns, StringExecFns};

verus! {

/// The views of a sequence of strings.
pub open spec fn seq_views(v: Seq<String>) -> Seq<Seq<char>> {
    v.map_values(|s: String| s@)
}

/// Appending a string appends its view.
pub proof fn lemma_seq_views_push(v: Seq<String>, x: String)
    ensures
        seq_views(v.push(x)) == seq_views(v).push(x@),
{
    assert(seq_views(v.push(x)) =~~= seq_views(v).push(x@));
}

/// `pat` occurs in `s` starting at position `i`.
pub open spec fn is_substring_at(s: Seq<char>, pat: Seq<char>, i: int) -> bool {
    0 <= i && i + pat.len() <= s.len() && s.subrange(i, i + pat.len()) == pat
}

/// `pat` occurs somewhere in `s`.
pub open spec fn has_substring(s: Seq<char>, pat: Seq<char>) -> bool {
    exists|i: int| is_substring_at(s, pat, i)
}

/// `pre` is a prefix of `s`.
pub open spec fn has_prefix(s: Seq<char>, pre: Seq<char>) -> bool {
    pre.len() <= s.len() && s.subrange(0, pre.len() as int) == pre
}

/// `suf` is a suffix of `s`.
pub open spec fn has_suffix(s: Seq<char>, suf: Seq<char>) -> bool {
    suf.len() <= s.len() && s.subrange(s.len() - suf.len(), s.len() as int) == suf
}

/// Character-for-character string equality.
pub fn str_eq(a: &str, b: &str) -> (r: bool)
    ensures
        r == (a@ == b@),
{
    let alen = a.unicode_len();
    let blen = b.unicode_len();
    if alen != blen {
        return false;
    }
    let mut i: usize = 0;
    while i < alen
        invariant
            alen == a@.len(),
            blen == b@.len(),
            alen == blen,
            i <= alen,
            forall|j: int| 0 <= j < i ==> a@[j] == b@[j],
        decreases alen - i,
    {
        if a.get_char(i) != b.get_char(i) {
            return false;
        }
        i += 1;
    }
    proof {
        assert(a@ =~= b@);
    }
    true
}

/// Whether `c` occurs in `s`.
pub fn contains_char(s: &str, c: char) -> (r: bool)
    ensures
        r == s@.contains(c),
{
    let slen = s.unicode_len();
    let mut i: usize = 0;
    while i < slen
        invariant
            slen == s@.len(),
            i <= slen,
            forall|j: int| 0 <= j < i ==> s@[j] != c,
        decreases slen - i,
    {
        if s.get_char(i) == c {
            return true;
        }
        i += 1;
    }
    false
}

/// Whether `pat` occurs in `s` starting at `i`.
fn match_at(s: &str, pat: &str, i: usize) -> (r: bool)
    requires
        i + pat@.len() <= s@.len(),
    ensures
        r == is_substring_at(s@, pat@, i as int),
{
    let slen = s.unicode_len();
    let plen = pat.unicode_len();
    let mut j: usize = 0;
    while j < plen
        invariant
            slen == s@.len(),
            plen == pat@.len(),
            i + plen <= s@.len(),
            j <= plen,
            forall|t: int| 0 <= t < j ==> s@[i + t] == pat@[t],
        decreases plen - j,
    {
        if s.get_char(i + j) != pat.get_char(j) {
            proof {
                assert(s@.subrange(i as int, i + pat@.len())[j as int] == s@[i + j]);
            }
            return false;
        }
        j += 1;
    }
    proof {
        assert(s@.subrange(i as int, i + pat@.len()) =~= pat@);
    }
    true
}

/// Whether `pat` occurs anywhere in `s`.
pub fn contains_substr(s: &str, pat: &str) -> (r: bool)
    ensures
        r == has_substring(s@, pat@),
{
    let slen = s.unicode_len();
    let plen = pat.unicode_len();
    if plen > slen {
        return false;
    }
    if plen == 0 {
        proof {
            assert(s@.subrange(0, 0) =~= pat@);
            assert(is_substring_at(s@, pat@, 0));
        }
        return true;
    }
    let mut i: usize = 0;
    while i <= slen - plen
        invariant
            slen == s@.len(),
            plen == pat@.len(),
            1 <= plen <= slen,
            i <= slen - plen + 1,
            forall|k: int| 0 <= k < i ==> !is_substring_at(s@, pat@, k),
        decreases slen - plen - i + 1,
    {
        if match_at(s, pat, i) {
            return true;
        }
        i += 1;
    }
    false
}

/// Whether `pre` is a prefix of `s`.
pub fn starts_with(s: &str, pre: &str) -> (r: bool)
    ensures
        r == has_prefix(s@, pre@),
{
    let slen = s.unicode_len();
    let plen = pre.unicode_len();
    if plen > slen {
        return false;
    }
    let r = match_at(s, pre, 0);
    proof {
        assert(s@.subrange(0, pre@.len() as int) == s@.subrange(0, 0 + pre@.len() as int));
    }
    r
}

/// Whether `suf` is a suffix of `s`.
pub fn ends_with(s: &str, suf: &str) -> (r: bool)
    ensures
        r == has_suffix(s@, suf@),
{
    let slen = s.unicode_len();
    let plen = suf.unicode_len();
    if plen > slen {
        return false;
    }
    let r = match_at(s, suf, slen - plen);
    proof {
        assert(s@.len() - suf@.len() == slen - plen);
    }
    r
}

/// Appends the character at position `i` of `src` to `out`.
fn push_char_from(out: &mut String, src: &str, i: usize)
    requires
        i < src@.len(),
        src@.len() <= usize::MAX,
    ensures
        final(out)@ == old(out)@.push(src@[i as int]),
{
    let piece = src.substring_char(i, i + 1);
    out.append(piece);
    proof {
        assert(piece@ =~= seq![src@[i as int]]);
        assert(old(out)@ + piece@ =~= old(out)@.push(src@[i as int]));
    }
}

/// `s` with every occurrence of `from` replaced by `to`; `alt` is `to`
/// spelled as a one-character string, which the builder appends in its
/// place.
pub fn replace_char(s: &str, from: char, to: char, alt: &str) -> (r: String)
    requires
        alt@ == seq![to],
    ensures
        r@ == s@.map_values(|c: char| if c == from { to } else { c }),
{
    let slen = s.unicode_len();
    let mut out = String::new();
    let mut i: usize = 0;
    while i < slen
        invariant
            slen == s@.len(),
            i <= slen,
            alt@ == seq![to],
            out@ == s@.take(i as int).map_values(|c: char| if c == from { to } else { c }),
        decreases slen - i,
    {
        let c = s.get_char(i);
        if c == from {
            out.append(alt);
        } else {
            push_char_from(&mut out, s, i);
        }
        proof {
            assert(s@.take(i + 1) =~= s@.take(i as int).push(s@[i as int]));
            assert(s@.take(i + 1).map_values(|c: char| if c == from { to } else { c }) =~= s@.take(
                i as int,
            ).map_values(|c: char| if c == from { to } else { c }).push(
                if c == from {
                    to
                } else {
                    c
                },
            ));
        }
        i += 1;
    }
    proof {
        assert(s@.take(slen as int) =~= s@);
    }
    out
}

/// The split of `s` on `sep`: the parts between separators, in order, empty
/// parts included; splitting the empty string gives one empty part.
pub open spec fn spec_split(s: Seq<char>, sep: char) -> Seq<Seq<char>>
    decreases s.len(),
{
    if s.len() == 0 {
        seq![Seq::<char>::empty()]
    } else if s[0] == sep {
        seq![Seq::<char>::empty()] + spec_split(s.drop_first(), sep)
    } else {
        let rest = spec_split(s.drop_first(), sep);
        seq![seq![s[0]] + rest[0]] + rest.drop_first()
    }
}

pub proof fn lemma_split_len(s: Seq<char>, sep: char)
    ensures
        spec_split(s, sep).len() >= 1,
    decreases s.len(),
{
    if s.len() == 0 {
    } else if s[0] == sep {
        lemma_split_len(s.drop_first(), sep);
    } else {
        lemma_split_len(s.drop_first(), sep);
    }
}

/// Extending the input by one character extends the split: a separator opens
/// a new empty part, any other character lands at the end of the last part.
pub proof fn lemma_split_push(s: Seq<char>, sep: char, c: char)
    ensures
        spec_split(s.push(c), sep) == if c == sep {
            spec_split(s, sep).push(Seq::<char>::empty())
        } else {
            spec_split(s, sep).update(
                spec_split(s, sep).len() - 1,
                spec_split(s, sep).last().push(c),
            )
        },
    decreases s.len(),
{
    lemma_split_len(s, sep);
    if s.len() == 0 {
        assert(s.push(c) =~= seq![c]);
        assert(s.push(c)[0] == c);
        assert(s.push(c).drop_first() =~= Seq::<char>::empty());
        assert(spec_split(Seq::<char>::empty(), sep) =~~= seq![Seq::<char>::empty()]);
        assert(s =~= Seq::<char>::empty());
        if c == sep {
            assert(spec_split(s.push(c), sep) =~~= spec_split(s, sep).push(Seq::<char>::empty()));
        } else {
            assert(spec_split(s.push(c), sep) =~~= spec_split(s, sep).update(
                spec_split(s, sep).len() - 1,
                spec_split(s, sep).last().push(c),
            ));
        }
    } else {
        let t = s.drop_first();
        assert(s.push(c)[0] == s[0]);
        assert(s.push(c).drop_first() =~= t.push(c));
        lemma_split_push(t, sep, c);
        lemma_split_len(t, sep);
        let rest = spec_split(t, sep);
        if c == sep {
            if s[0] == sep {
                assert(spec_split(s.push(c), sep) =~~= spec_split(s, sep).push(
                    Seq::<char>::empty(),
                ));
            } else {
                assert(rest.push(Seq::<char>::empty())[0] == rest[0]);
                assert(spec_split(s.push(c), sep) =~~= spec_split(s, sep).push(
                    Seq::<char>::empty(),
                ));
            }
        } else {
            if s[0] == sep {
                assert(spec_split(s.push(c), sep) =~~= spec_split(s, sep).update(
                    spec_split(s, sep).len() - 1,
                    spec_split(s, sep).last().push(c),
                ));
            } else {
                if rest.len() == 1 {
                    assert(spec_split(s.push(c), sep) =~~= spec_split(s, sep).update(
                        spec_split(s, sep).len() - 1,
                        spec_split(s, sep).last().push(c),
                    ));
                } else {
                    assert(rest.update(rest.len() - 1, rest.last().push(c))[0] == rest[0]);
                    assert(spec_split(s.push(c), sep) =~~= spec_split(s, sep).update(
                        spec_split(s, sep).len() - 1,
                        spec_split(s, sep).last().push(c),
                    ));
                }
            }
        }
    }
}

/// Splits `s` on `sep`, as `spec_split` describes.
pub fn split_on(s: &str, sep: char) -> (r: Vec<String>)
    ensures
        seq_views(r@) == spec_split(s@, sep),
        r@.len() >= 1,
{
    let slen = s.unicode_len();
    let mut parts: Vec<String> = Vec::new();
    let mut cur: String = String::new();
    let mut i: usize = 0;
    proof {
        assert(seq_views(parts@).push(cur@) =~~= spec_split(s@.take(0), sep));
    }
    while i < slen
        invariant
            slen == s@.len(),
            i <= slen,
            seq_views(parts@).push(cur@) == spec_split(s@.take(i as int), sep),
        decreases slen - i,
    {
        let c = s.get_char(i);
        proof {
            lemma_split_push(s@.take(i as int), sep, c);
            assert(s@.take(i + 1) =~= s@.take(i as int).push(s@[i as int]));
        }
        if c == sep {
            let ghost old_parts = parts@;
            let ghost old_cur = cur@;
            parts.push(cur);
            cur = String::new();
            proof {
                assert(seq_views(parts@) =~~= seq_views(old_parts).push(old_cur));
                assert(seq_views(parts@).push(cur@) =~~= spec_split(s@.take(i + 1), sep));
            }
        } else {
            let ghost old_cur = cur@;
            push_char_from(&mut cur, s, i);
            proof {
                let prev = spec_split(s@.take(i as int), sep);
                assert(prev.len() == seq_views(parts@).len() + 1);
                assert(prev.last() == old_cur);
                assert(seq_views(parts@).push(cur@) =~~= prev.update(
                    prev.len() - 1,
                    prev.last().push(c),
                ));
            }
        }
        i += 1;
    }
    proof {
        assert(s@.take(slen as int) =~= s@);
    }
    parts.push(cur);
    proof {
        assert(seq_views(parts@) =~~= spec_split(s@, sep));
        lemma_split_len(s@, sep);
    }
    parts
}

/// An ASCII decimal digit.
pub open spec fn is_digit(c: char) -> bool {
    '0' <= c && c <= '9'
}

/// Every character of `s` is a digit.
pub open spec fn all_digits(s: Seq<char>) -> bool {
    forall|i: int| 0 <= i < s.len() ==> is_digit(#[trigger] s[i])
}

/// The numeric value of a digit character.
pub open spec fn digit_val(c: char) -> int {
    c as int - 48
}

/// The value of a digit string read in base ten.
pub open spec fn seq_value(s: Seq<char>) -> int
    decreases s.len(),
{
    if s.len() == 0 {
        0
    } else {
        seq_value(s.drop_last()) * 10 + digit_val(s.last())
    }
}

pub proof fn lemma_seq_value_nonneg(s: Seq<char>)
    requires
        all_digits(s),
    ensures
        seq_value(s) >= 0,
    decreases s.len(),
{
    if s.len() > 0 {
        assert(all_digits(s.drop_last())) by {
            assert(forall|i: int|
                0 <= i < s.drop_last().len() ==> #[trigger] s.drop_last()[i] == s[i]);
        }
        lemma_seq_value_nonneg(s.drop_last());
    }
}

/// The value of a digit string is at least the value of any of its prefixes.
pub proof fn lemma_seq_value_prefix(s: Seq<char>, i: int)
    requires
        all_digits(s),
        0 <= i <= s.len(),
    ensures
        seq_value(s.take(i)) <= seq_value(s),
    decreases s.len() - i,
{
    if i < s.len() {
        assert(all_digits(s.take(i + 1))) by {
            assert(forall|j: int| 0 <= j < i + 1 ==> #[trigger] s.take(i + 1)[j] == s[j]);
        }
        assert(s.take(i + 1).drop_last() =~= s.take(i));
        assert(seq_value(s.take(i + 1)) == seq_value(s.take(i)) * 10 + digit_val(s[i]));
        lemma_seq_value_nonneg(s.take(i));
        assert(seq_value(s.take(i)) * 10 >= seq_value(s.take(i))) by (nonlinear_arith)
            requires
                seq_value(s.take(i)) >= 0,
        ;
        assert(digit_val(s[i]) >= 0);
        lemma_seq_value_prefix(s, i + 1);
    } else {
        assert(s.take(i) =~= s);
    }
}

/// Parses a string of decimal digits. Returns the value exactly when the
/// string is nonempty, all digits, and the value fits in the result type.
pub fn parse_u32(s: &str) -> (r: Option<u32>)
    ensures
        r is Some <==> (s@.len() > 0 && all_digits(s@) && seq_value(s@) <= u32::MAX),
        r is Some ==> r->0 == seq_value(s@),
{
    let slen = s.unicode_len();
    if slen == 0 {
        return None;
    }
    let mut acc: u32 = 0;
    let mut i: usize = 0;
    while i < slen
        invariant
            slen == s@.len(),
            0 < slen,
            i <= slen,
            all_digits(s@.take(i as int)),
            acc == seq_value(s@.take(i as int)),
        decreases slen - i,
    {
        let c = s.get_char(i);
        if c < '0' || c > '9' {
            return None;
        }
        let d: u32 = (c as u32) - 48;
        proof {
            assert(s@.take(i + 1).drop_last() =~= s@.take(i as int));
            assert(all_digits(s@.take(i + 1))) by {
                assert(forall|j: int|
                    0 <= j < i + 1 ==> #[trigger] s@.take(i + 1)[j] == s@.take(i as int).push(
                        s@[i as int],
                    )[j]);
                assert(s@.take(i + 1) =~= s@.take(i as int).push(s@[i as int]));
            }
        }
        if acc > (u32::MAX - d) / 10 {
            proof {
                assert(seq_value(s@.take(i + 1)) == acc * 10 + d);
                assert(acc * 10 + d > u32::MAX) by (nonlinear_arith)
                    requires
                        acc > (u32::MAX - d) / 10,
                        d <= 9,
                ;
                if all_digits(s@) {
                    lemma_seq_value_prefix(s@, i + 1);
                }
            }
            return None;
        }
        proof {
            assert(acc * 10 + d <= u32::MAX) by (nonlinear_arith)
                requires
                    acc <= (u32::MAX - d) / 10,
                    d <= 9,
            ;
            assert(seq_value(s@.take(i + 1)) == acc * 10 + d);
        }
        acc = acc * 10 + d;
        i += 1;
    }
    proof {
        assert(s@.take(slen as int) =~= s@);
    }
    Some(acc)
}

/// Renders `n` in decimal: all digits, no leading zero, value `n`.
pub fn u64_to_string(n: u64) -> (r: String)
    ensures
        all_digits(r@),
        r@.len() >= 1,
        seq_value(r@) == n,
        r@.len() > 1 ==> r@[0] != '0',
{
    let digits_src = "0123456789";
    proof {
        reveal_strlit("0123456789");
    }
    let mut out = String::new();
    if n == 0 {
        push_char_from(&mut out, digits_src, 0);
        proof {
            assert(out@ =~= seq!['0']);
            assert(out@.drop_last() =~= Seq::<char>::empty());
            assert(seq_value(Seq::<char>::empty()) == 0);
            assert(digit_val('0') == 0);
            assert(seq_value(out@) == seq_value(out@.drop_last()) * 10 + digit_val(out@.last()));
        }
        return out;
    }
    let mut ds: Vec<u64> = Vec::new();
    let mut m: u64 = n;
    while m > 0
        invariant
            n == rev_value(ds@) + m * pow10(ds@.len() as nat),
            forall|j: int| 0 <= j < ds@.len() ==> 0 <= #[trigger] ds@[j] < 10,
            m == 0 ==> ds@.len() > 0,
            ds@.len() > 0 && m == 0 ==> ds@.last() != 0,
            n > 0,
        decreases m,
    {
        let d: u64 = m % 10;
        let next: u64 = m / 10;
        proof {
            lemma_rev_value_push(ds@, d);
            assert(m == next * 10 + d);
            assert(rev_value(ds@.push(d)) + next * pow10(ds@.push(d).len() as nat) == rev_value(
                ds@,
            ) + m * pow10(ds@.len() as nat)) by (nonlinear_arith)
                requires
                    rev_value(ds@.push(d)) == rev_value(ds@) + d * pow10(ds@.len() as nat),
                    ds@.push(d).len() == ds@.len() + 1,
                    pow10((ds@.len() + 1) as nat) == 10 * pow10(ds@.len() as nat),
                    m == next * 10 + d,
            ;
            assert(pow10((ds@.len() + 1) as nat) == 10 * pow10(ds@.len() as nat)) by {
                lemma_pow10_step(ds@.len() as nat);
            }
        }
        ds.push(d);
        m = next;
    }
    proof {
        assert(m == 0);
        assert(m * pow10(ds@.len() as nat) == 0);
        assert(n == rev_value(ds@));
    }
    let mut k: usize = ds.len();
    while k > 0
        invariant
            k <= ds@.len(),
            ds@.len() > 0,
            forall|j: int| 0 <= j < ds@.len() ==> 0 <= #[trigger] ds@[j] < 10,
            ds@.last() != 0,
            all_digits(out@),
            seq_value(out@) == rev_value(ds@.skip(k as int)),
            out@.len() == ds@.len() - k,
            out@.len() > 0 ==> out@[0] == digit_char(ds@.last()),
            digits_src@ == "0123456789"@,
            digits_src@.len() == 10,
            forall|j: int| 0 <= j < 10 ==> digit_val(#[trigger] digits_src@[j]) == j,
        decreases k,
    {
        let d = ds[k - 1];
        let ghost old_out = out@;
        push_char_from(&mut out, digits_src, d as usize);
        k -= 1;
        proof {
            let dc = digits_src@[d as int];
            assert(out@ == old_out.push(dc));
            assert(out@.drop_last() =~= old_out);
            assert(seq_value(out@) == seq_value(old_out) * 10 + digit_val(dc));
            lemma_rev_value_skip(ds@, k as int);
            assert(is_digit(dc));
            assert(all_digits(out@)) by {
                assert(forall|j: int| 0 <= j < old_out.len() ==> #[trigger] out@[j] == old_out[j]);
            }
            if old_out.len() == 0 {
                assert(k as int == ds@.len() - 1);
                assert(out@[0] == dc);
                assert(d == ds@.last());
            }
        }
    }
    proof {
        assert(ds@.skip(0) =~= ds@);
        assert(seq_value(out@) == rev_value(ds@));
        if out@.len() > 1 {
            assert(digit_val(out@[0]) == ds@.last());
            assert(out@[0] != '0');
        }
    }
    out
}

/// The digit character for a value below ten.
pub open spec fn digit_char(d: u64) -> char {
    "0123456789"@[d as int]
}

/// Ten to the power `k`.
pub open spec fn pow10(k: nat) -> int
    decreases k,
{
    if k == 0 {
        1
    } else {
        10 * pow10((k - 1) as nat)
    }
}

proof fn lemma_pow10_step(k: nat)
    ensures
        pow10(k + 1) == 10 * pow10(k),
{
}

/// The value of a digit vector read least-significant first.
pub open spec fn rev_value(ds: Seq<u64>) -> int
    decreases ds.len(),
{
    if ds.len() == 0 {
        0
    } else {
        ds[0] + 10 * rev_value(ds.drop_first())
    }
}

proof fn lemma_rev_value_push(ds: Seq<u64>, d: u64)
    ensures
        rev_value(ds.push(d)) == rev_value(ds) + d * pow10(ds.len() as nat),
    decreases ds.len(),
{
    if ds.len() == 0 {
        assert(ds.push(d) =~= seq![d]);
        assert(rev_value(seq![d].drop_first()) == 0) by {
            assert(seq![d].drop_first() =~= Seq::<u64>::empty());
        }
    } else {
        assert(ds.push(d).drop_first() =~= ds.drop_first().push(d));
        lemma_rev_value_push(ds.drop_first(), d);
        lemma_pow10_step(ds.drop_first().len() as nat);
        assert(rev_value(ds.push(d)) == ds[0] + 10 * (rev_value(ds.drop_first()) + d * pow10(
            ds.drop_first().len() as nat,
        )));
        assert(10 * (rev_value(ds.drop_first()) + d * pow10(ds.drop_first().len() as nat)) == 10
            * rev_value(ds.drop_first()) + d * (10 * pow10(ds.drop_first().len() as nat)))
            by (nonlinear_arith);
    }
}

/// Peeling one more digit off the top of the pending range multiplies the
/// rendered value by ten and adds that digit.
proof fn lemma_rev_value_skip(ds: Seq<u64>, k: int)
    requires
        0 <= k < ds.len(),
    ensures
        rev_value(ds.skip(k)) == rev_value(ds.skip(k + 1)) * 10 + ds[k],
{
    assert(ds.skip(k)[0] == ds[k]);
    assert(ds.skip(k).drop_first() =~= ds.skip(k + 1));
    assert(ds[k] + 10 * rev_value(ds.skip(k + 1)) == rev_value(ds.skip(k + 1)) * 10 + ds[k]);
}

/// A space, tab, carriage return or newline.
pub open spec fn is_space(c: char) -> bool {
    c == ' ' || c == '\t' || c == '\r' || c == '\n'
}

/// How many leading space characters `s` has.
pub open spec fn leading_spaces(s: Seq<char>) -> int
    decreases s.len(),
{
    if s.len() == 0 {
        0
    } else if is_space(s[0]) {
        1 + leading_spaces(s.drop_first())
    } else {
        0
    }
}

/// How many trailing space characters `s` has.
pub open spec fn trailing_spaces(s: Seq<char>) -> int
    decreases s.len(),
{
    if s.len() == 0 {
        0
    } else if is_space(s.last()) {
        1 + trailing_spaces(s.drop_last())
    } else {
        0
    }
}

/// `s` without its leading and trailing spaces.
pub open spec fn spec_trim(s: Seq<char>) -> Seq<char> {
    if leading_spaces(s) == s.len() {
        Seq::<char>::empty()
    } else {
        s.subrange(leading_spaces(s), s.len() - trailing_spaces(s))
    }
}

proof fn lemma_leading_spaces(s: Seq<char>)
    ensures
        0 <= leading_spaces(s) <= s.len(),
        forall|j: int| 0 <= j < leading_spaces(s) ==> is_space(#[trigger] s[j]),
        leading_spaces(s) < s.len() ==> !is_space(s[leading_spaces(s)]),
    decreases s.len(),
{
    if s.len() > 0 && is_space(s[0]) {
        lemma_leading_spaces(s.drop_first());
        assert forall|j: int| 0 <= j < leading_spaces(s) implies is_space(#[trigger] s[j]) by {
            if j > 0 {
                assert(s.drop_first()[j - 1] == s[j]);
                assert(is_space(s.drop_first()[j - 1]));
            }
        }
        if leading_spaces(s) < s.len() {
            assert(s.drop_first()[leading_spaces(s) - 1] == s[leading_spaces(s)]);
        }
    }
}

proof fn lemma_trailing_spaces(s: Seq<char>)
    ensures
        0 <= trailing_spaces(s) <= s.len(),
        forall|j: int| s.len() - trailing_spaces(s) <= j < s.len() ==> is_space(#[trigger] s[j]),
        trailing_spaces(s) < s.len() ==> !is_space(s[s.len() - trailing_spaces(s) - 1]),
    decreases s.len(),
{
    if s.len() > 0 && is_space(s.last()) {
        lemma_trailing_spaces(s.drop_last());
        assert forall|j: int| s.len() - trailing_spaces(s) <= j < s.len() implies is_space(
            #[trigger] s[j],
        ) by {
            if j < s.len() - 1 {
                assert(s.drop_last()[j] == s[j]);
                assert(is_space(s.drop_last()[j]));
            }
        }
        if trailing_spaces(s) < s.len() {
            assert(s.drop_last()[s.len() - trailing_spaces(s) - 1] == s[s.len() - trailing_spaces(
                s,
            ) - 1]);
        }
    }
}

/// The first index of a non-space character scanning from `i`, given that
/// everything before `i` is space.
proof fn lemma_leading_spaces_from(s: Seq<char>, i: int)
    requires
        0 <= i <= s.len(),
        forall|j: int| 0 <= j < i ==> is_space(#[trigger] s[j]),
        i < s.len() ==> !is_space(s[i]),
    ensures
        leading_spaces(s) == i,
    decreases s.len(),
{
    if s.len() > 0 {
        if i == 0 {
        } else {
            assert(is_space(s[0]));
            assert(forall|j: int|
                0 <= j < i - 1 ==> #[trigger] s.drop_first()[j] == s[j + 1] && is_space(s[j + 1]));
            if i - 1 < s.drop_first().len() {
                assert(s.drop_first()[i - 1] == s[i]);
            }
            lemma_leading_spaces_from(s.drop_first(), i - 1);
        }
    }
}

proof fn lemma_trailing_spaces_from(s: Seq<char>, t: int)
    requires
        0 <= t <= s.len(),
        forall|j: int| s.len() - t <= j < s.len() ==> is_space(#[trigger] s[j]),
        t < s.len() ==> !is_space(s[s.len() - t - 1]),
    ensures
        trailing_spaces(s) == t,
    decreases s.len(),
{
    if s.len() > 0 {
        if t == 0 {
        } else {
            assert(is_space(s.last()));
            assert(forall|j: int|
                s.drop_last().len() - (t - 1) <= j < s.drop_last().len()
                    ==> #[trigger] s.drop_last()[j] == s[j] && is_space(s[j]));
            if t - 1 < s.drop_last().len() {
                assert(s.drop_last()[s.drop_last().len() - (t - 1) - 1] == s[s.len() - t - 1]);
            }
            lemma_trailing_spaces_from(s.drop_last(), t - 1);
        }
    }
}

/// `s` with leading and trailing spaces, tabs, carriage returns and
/// newlines removed.
pub fn trim(s: &str) -> (r: String)
    ensures
        r@ == spec_trim(s@),
{
    let slen = s.unicode_len();
    let mut a: usize = 0;
    while a < slen && is_space_char(s.get_char(a))
        invariant
            slen == s@.len(),
            a <= slen,
            forall|j: int| 0 <= j < a ==> is_space(#[trigger] s@[j]),
        decreases slen - a,
    {
        a += 1;
    }
    if a == slen {
        proof {
            lemma_leading_spaces_from(s@, a as int);
        }
        return String::new();
    }
    proof {
        lemma_leading_spaces_from(s@, a as int);
    }
    let mut b: usize = slen;
    while b > a && is_space_char(s.get_char(b - 1))
        invariant
            slen == s@.len(),
            a <= b <= slen,
            a < slen,
            !is_space(s@[a as int]),
            forall|j: int| b <= j < slen ==> is_space(#[trigger] s@[j]),
        decreases b,
    {
        b -= 1;
    }
    proof {
        assert(!is_space(s@[b - 1]));
        lemma_trailing_spaces_from(s@, slen - b);
    }
    let piece = s.substring_char(a, b);
    let r = String::from_str(piece);
    proof {
        assert(r@ =~= spec_trim(s@));
    }
    r
}

/// Whether `c` is a space, tab, carriage return or newline.
pub fn is_space_char(c: char) -> (r: bool)
    ensures
        r == is_space(c),
{
    c == ' ' || c == '\t' || c == '\r' || c == '\n'
}

} // verus!
