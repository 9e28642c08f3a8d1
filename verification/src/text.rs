//! Character-level text model: splitting, trimming, line breaking, decimal
//! numbers. Every executable helper here is proved against the spec function
//! that states what the corresponding `str` operation does.

use vstd::prelude::*;
use vstd::string::*;

verus! {

// ---------------------------------------------------------------------------
// Specifications
// ---------------------------------------------------------------------------

/// `char::is_whitespace`: the Unicode `White_Space` property.
pub open spec fn is_whitespace(c: char) -> bool {
    ||| c == ' '
    ||| ('\t' <= c && c <= '\r')
    ||| c == '\u{85}'
    ||| c == '\u{a0}'
    ||| c == '\u{1680}'
    ||| ('\u{2000}' <= c && c <= '\u{200a}')
    ||| c == '\u{2028}'
    ||| c == '\u{2029}'
    ||| c == '\u{202f}'
    ||| c == '\u{205f}'
    ||| c == '\u{3000}'
}

/// `str::trim_start`.
pub open spec fn trim_start(s: Seq<char>) -> Seq<char>
    decreases s.len(),
{
    if s.len() > 0 && is_whitespace(s[0]) {
        trim_start(s.drop_first())
    } else {
        s
    }
}

/// `str::trim_end`.
pub open spec fn trim_end(s: Seq<char>) -> Seq<char>
    decreases s.len(),
{
    if s.len() > 0 && is_whitespace(s.last()) {
        trim_end(s.drop_last())
    } else {
        s
    }
}

/// `str::trim`: whitespace removed from both ends.
pub open spec fn trim(s: Seq<char>) -> Seq<char> {
    trim_end(trim_start(s))
}

/// `str::split` on one character: the pieces between separators, always at
/// least one.
pub open spec fn split_seq(s: Seq<char>, sep: char) -> Seq<Seq<char>>
    decreases s.len(),
{
    if s.len() == 0 {
        seq![Seq::<char>::empty()]
    } else {
        let init = split_seq(s.drop_last(), sep);
        if s.last() == sep {
            init.push(Seq::<char>::empty())
        } else {
            init.update(init.len() - 1, init.last().push(s.last()))
        }
    }
}

/// One trailing carriage return removed.
pub open spec fn strip_cr(l: Seq<char>) -> Seq<char> {
    if l.len() > 0 && l.last() == '\r' {
        l.drop_last()
    } else {
        l
    }
}

/// `str::lines`: pieces between `\n`, each `\n`-terminated piece without a
/// trailing `\r`, and no final empty piece.
pub open spec fn lines_of(s: Seq<char>) -> Seq<Seq<char>> {
    let p = split_seq(s, '\n');
    let done = p.drop_last().map_values(|l: Seq<char>| strip_cr(l));
    if p.last().len() == 0 {
        done
    } else {
        done.push(p.last())
    }
}

/// The character sequences held by a sequence of vectors.
pub open spec fn views(v: Seq<Vec<char>>) -> Seq<Seq<char>> {
    v.map_values(|x: Vec<char>| x@)
}

pub open spec fn starts_with(s: Seq<char>, prefix: Seq<char>) -> bool {
    prefix.len() <= s.len() && s.subrange(0, prefix.len() as int) == prefix
}

/// `str::contains` for a pattern string.
pub open spec fn contains(s: Seq<char>, pat: Seq<char>) -> bool {
    exists|i: int|
        0 <= i && i + pat.len() <= s.len() && #[trigger] s.subrange(i, i + pat.len()) == pat
}

pub open spec fn is_digit(c: char) -> bool {
    '0' <= c && c <= '9'
}

pub open spec fn digit_value(c: char) -> nat {
    ((c as int) - ('0' as int)) as nat
}

pub open spec fn all_digits(s: Seq<char>) -> bool {
    forall|i: int| 0 <= i < s.len() ==> #[trigger] is_digit(s[i])
}

/// Value of a string of decimal digits.
pub open spec fn digits_value(s: Seq<char>) -> nat
    decreases s.len(),
{
    if s.len() == 0 {
        0
    } else {
        digits_value(s.drop_last()) * 10 + digit_value(s.last())
    }
}

/// The digits of an unsigned number text, after an optional leading `+`.
pub open spec fn unsigned_body(s: Seq<char>) -> Seq<char> {
    if s.len() > 0 && s[0] == '+' {
        s.drop_first()
    } else {
        s
    }
}

/// `FromStr` of an unsigned integer type whose largest value is `max`
/// (`u32::from_str` for `u32::MAX`, `u64::from_str` for `u64::MAX`).
pub open spec fn parse_unsigned(s: Seq<char>, max: nat) -> Option<nat> {
    let d = unsigned_body(s);
    if d.len() > 0 && all_digits(d) && digits_value(d) <= max {
        Some(digits_value(d))
    } else {
        None
    }
}

pub open spec fn digit_char(d: nat) -> char {
    if d == 0 {
        '0'
    } else if d == 1 {
        '1'
    } else if d == 2 {
        '2'
    } else if d == 3 {
        '3'
    } else if d == 4 {
        '4'
    } else if d == 5 {
        '5'
    } else if d == 6 {
        '6'
    } else if d == 7 {
        '7'
    } else if d == 8 {
        '8'
    } else {
        '9'
    }
}

/// Decimal representation of a natural number, as `Display` writes it.
pub open spec fn decimal(n: nat) -> Seq<char>
    decreases n,
{
    if n < 10 {
        seq![digit_char(n)]
    } else {
        decimal(n / 10).push(digit_char(n % 10))
    }
}

// ---------------------------------------------------------------------------
// Lemmas
// ---------------------------------------------------------------------------

pub proof fn lemma_split_nonempty(s: Seq<char>, sep: char)
    ensures
        split_seq(s, sep).len() >= 1,
    decreases s.len(),
{
    if s.len() > 0 {
        lemma_split_nonempty(s.drop_last(), sep);
    }
}

proof fn lemma_digit_char_value(d: nat)
    requires
        d < 10,
    ensures
        is_digit(digit_char(d)),
        digit_value(digit_char(d)) == d,
{
}

/// The decimal text of a number is a nonempty run of digits worth that number.
proof fn lemma_decimal_digits(n: nat)
    ensures
        decimal(n).len() > 0,
        all_digits(decimal(n)),
        digits_value(decimal(n)) == n,
    decreases n,
{
    if n >= 10 {
        lemma_decimal_digits(n / 10);
        let d = decimal(n);
        assert(d.drop_last() =~= decimal(n / 10));
        assert(d.last() == digit_char(n % 10));
        assert forall|i: int| 0 <= i < d.len() implies #[trigger] is_digit(d[i]) by {
            if i < d.len() - 1 {
                assert(d[i] == decimal(n / 10)[i]);
            }
        }
        lemma_digit_char_value(n % 10);
        assert(digits_value(d) == digits_value(decimal(n / 10)) * 10 + digit_value(
            digit_char(n % 10),
        ));
        assert((n / 10) * 10 + n % 10 == n) by (nonlinear_arith);
    } else {
        lemma_digit_char_value(n);
        assert(decimal(n).drop_last() =~= Seq::<char>::empty());
        assert(digits_value(decimal(n)) == digits_value(Seq::<char>::empty()) * 10 + digit_value(
            digit_char(n),
        ));
    }
}

/// Every number up to `max`, written in decimal, reads back as itself:
/// `FromStr` accepts what `Display` writes, one-digit numbers included.
pub proof fn lemma_decimal_parses(n: nat, max: nat)
    requires
        n <= max,
    ensures
        parse_unsigned(decimal(n), max) == Some(n),
{
    lemma_decimal_digits(n);
    assert(is_digit(decimal(n)[0]));
    assert(unsigned_body(decimal(n)) == decimal(n));
}

/// Two-character prefixes are decided by the first two characters.
pub(crate) proof fn lemma_two_char_prefix(s: Seq<char>, p: Seq<char>)
    requires
        p.len() == 2,
    ensures
        starts_with(s, p) <==> (s.len() >= 2 && s[0] == p[0] && s[1] == p[1]),
{
    if s.len() >= 2 && s[0] == p[0] && s[1] == p[1] {
        assert(s.subrange(0, 2) =~= p);
    }
    if starts_with(s, p) {
        assert(s.subrange(0, 2)[0] == s[0] && s.subrange(0, 2)[1] == s[1]);
    }
}

proof fn lemma_prefix_value_le(d: Seq<char>, k: int)
    requires
        0 <= k <= d.len(),
        all_digits(d),
    ensures
        digits_value(d.take(k)) <= digits_value(d),
    decreases d.len(),
{
    if k < d.len() {
        assert(d.drop_last().take(k) =~= d.take(k));
        lemma_prefix_value_le(d.drop_last(), k);
    } else {
        assert(d.take(k) =~= d);
    }
}

// ---------------------------------------------------------------------------
// Executable helpers
// ---------------------------------------------------------------------------

/// The characters of a string slice.
pub fn chars_of(s: &str) -> (v: Vec<char>)
    ensures
        v@ == s@,
{
    let n = s.unicode_len();
    let mut v: Vec<char> = Vec::new();
    for i in 0..n
        invariant
            n == s@.len(),
            v@ == s@.take(i as int),
    {
        v.push(s.get_char(i));
        assert(s@.take(i + 1) =~= s@.take(i as int).push(s@[i as int]));
    }
    assert(s@.take(n as int) =~= s@);
    v
}

/// Collects characters into a `String` (`FromIterator<char> for String`).
#[verifier::external_body]
pub fn string_from_chars(v: &Vec<char>) -> (s: String)
    ensures
        s@ == v@,
{
    v.iter().collect()
}

/// Appends the characters of `lit` to `out`.
pub fn push_str(out: &mut Vec<char>, lit: &str)
    ensures
        final(out)@ == old(out)@ + lit@,
{
    let n = lit.unicode_len();
    for i in 0..n
        invariant
            n == lit@.len(),
            out@ == old(out)@ + lit@.take(i as int),
    {
        out.push(lit.get_char(i));
        assert(lit@.take(i + 1) =~= lit@.take(i as int).push(lit@[i as int]));
    }
    assert(lit@.take(n as int) =~= lit@);
}

/// Appends the characters of `src` to `out`.
pub fn push_chars(out: &mut Vec<char>, src: &Vec<char>)
    ensures
        final(out)@ == old(out)@ + src@,
{
    let n = src.len();
    for i in 0..n
        invariant
            n == src@.len(),
            out@ == old(out)@ + src@.take(i as int),
    {
        out.push(src[i]);
        assert(src@.take(i + 1) =~= src@.take(i as int).push(src@[i as int]));
    }
    assert(src@.take(n as int) =~= src@);
}

/// Whether `v` holds exactly the characters of `lit`.
pub fn eq_str(v: &Vec<char>, lit: &str) -> (r: bool)
    ensures
        r == (v@ == lit@),
{
    let n = lit.unicode_len();
    if v.len() != n {
        return false;
    }
    for i in 0..n
        invariant
            n == lit@.len(),
            n == v@.len(),
            forall|j: int| 0 <= j < i ==> v@[j] == lit@[j],
    {
        if v[i] != lit.get_char(i) {
            return false;
        }
    }
    assert(v@ =~= lit@);
    true
}

/// Whether two character vectors are equal.
pub fn eq_chars(a: &Vec<char>, b: &Vec<char>) -> (r: bool)
    ensures
        r == (a@ == b@),
{
    let n = a.len();
    if b.len() != n {
        return false;
    }
    for i in 0..n
        invariant
            n == a@.len(),
            n == b@.len(),
            forall|j: int| 0 <= j < i ==> a@[j] == b@[j],
    {
        if a[i] != b[i] {
            return false;
        }
    }
    assert(a@ =~= b@);
    true
}

/// Whether `v` begins with the characters of `lit`.
pub fn starts_with_str(v: &Vec<char>, lit: &str) -> (r: bool)
    ensures
        r == starts_with(v@, lit@),
{
    let n = lit.unicode_len();
    if v.len() < n {
        return false;
    }
    for i in 0..n
        invariant
            n == lit@.len(),
            n <= v@.len(),
            forall|j: int| 0 <= j < i ==> v@[j] == lit@[j],
    {
        if v[i] != lit.get_char(i) {
            assert(v@.subrange(0, n as int)[i as int] != lit@[i as int]);
            return false;
        }
    }
    assert(v@.subrange(0, n as int) =~= lit@);
    true
}

/// Whether `lit` occurs somewhere in `v`.
pub fn contains_str(v: &Vec<char>, lit: &str) -> (r: bool)
    ensures
        r == contains(v@, lit@),
{
    let pat = chars_of(lit);
    let n = pat.len();
    if n == 0 {
        assert(v@.subrange(0, 0 + lit@.len() as int) =~= lit@);
        return true;
    }
    if v.len() < n {
        assert forall|i: int| 0 <= i && i + n <= v@.len() implies #[trigger] v@.subrange(
            i,
            i + n,
        ) != lit@ by {}
        return false;
    }
    let last = v.len() - n;
    let mut i: usize = 0;
    while i <= last
        invariant
            0 < n,
            n == pat@.len(),
            n == pat.len(),
            last + n == v.len(),
            pat@ == lit@,
            last + n == v@.len(),
            forall|k: int| 0 <= k < i ==> #[trigger] v@.subrange(k, k + n) != lit@,
        decreases last + 1 - i,
    {
        let mut j: usize = 0;
        let mut same = true;
        while j < n
            invariant
                n == pat@.len(),
                n == pat.len(),
                last + n == v.len(),
                i <= last,
                last + n == v@.len(),
                0 <= j <= n,
                same == (forall|t: int| 0 <= t < j ==> v@[i + t] == pat@[t]),
            decreases n - j,
        {
            if v[i + j] != pat[j] {
                same = false;
            }
            j = j + 1;
        }
        if same {
            assert(v@.subrange(i as int, i + n) =~= lit@);
            return true;
        }
        assert(v@.subrange(i as int, i + n) != lit@) by {
            let t = choose|t: int| 0 <= t < n && v@[i + t] != pat@[t];
            assert(v@.subrange(i as int, i + n)[t] == v@[i + t]);
        }
        i = i + 1;
    }
    false
}

/// The pieces of `s` between occurrences of `sep`, as `str::split` gives them.
pub fn split_chars(s: &Vec<char>, sep: char) -> (r: Vec<Vec<char>>)
    ensures
        views(r@) == split_seq(s@, sep),
{
    let mut pieces: Vec<Vec<char>> = Vec::new();
    let mut cur: Vec<char> = Vec::new();
    let n = s.len();
    assert(s@.take(0) =~= Seq::<char>::empty());
    assert(views(pieces@).push(cur@) =~= seq![Seq::<char>::empty()]);
    for i in 0..n
        invariant
            n == s@.len(),
            split_seq(s@.take(i as int), sep) == views(pieces@).push(cur@),
    {
        let c = s[i];
        let ghost prev = s@.take(i as int);
        let ghost old_pieces = pieces@;
        let ghost old_cur = cur@;
        assert(s@.take(i + 1).drop_last() =~= prev);
        assert(s@.take(i + 1).last() == c);
        if c == sep {
            pieces.push(cur);
            cur = Vec::new();
            assert(views(pieces@) =~= views(old_pieces).push(old_cur));
            assert(views(pieces@).push(cur@) =~= split_seq(prev, sep).push(
                Seq::<char>::empty(),
            ));
        } else {
            cur.push(c);
            assert(views(pieces@).push(cur@) =~= split_seq(prev, sep).update(
                split_seq(prev, sep).len() - 1,
                split_seq(prev, sep).last().push(c),
            ));
        }
    }
    assert(s@.take(n as int) =~= s@);
    let ghost old_pieces = pieces@;
    let ghost old_cur = cur@;
    pieces.push(cur);
    assert(views(pieces@) =~= views(old_pieces).push(old_cur));
    pieces
}

/// A copy of `l` without one trailing carriage return.
pub fn strip_cr_chars(l: &Vec<char>) -> (r: Vec<char>)
    ensures
        r@ == strip_cr(l@),
{
    let mut r: Vec<char> = Vec::new();
    push_chars(&mut r, l);
    assert(r@ =~= l@);
    let n = r.len();
    if n > 0 && r[n - 1] == '\r' {
        r.pop();
    }
    r
}

/// The lines of `s`, as `str::lines` yields them.
pub fn lines_chars(s: &str) -> (r: Vec<Vec<char>>)
    ensures
        views(r@) == lines_of(s@),
{
    let chars = chars_of(s);
    let pieces = split_chars(&chars, '\n');
    let ghost p = split_seq(s@, '\n');
    proof {
        lemma_split_nonempty(s@, '\n');
    }
    let n = pieces.len();
    let mut out: Vec<Vec<char>> = Vec::new();
    let ghost done = p.drop_last().map_values(|l: Seq<char>| strip_cr(l));
    for i in 0..n - 1
        invariant
            n == p.len(),
            n >= 1,
            views(pieces@) == p,
            done == p.drop_last().map_values(|l: Seq<char>| strip_cr(l)),
            views(out@) == done.take(i as int),
    {
        assert(views(pieces@)[i as int] == pieces@[i as int]@);
        let line = strip_cr_chars(&pieces[i]);
        let ghost before = out@;
        out.push(line);
        assert(views(out@) =~= views(before).push(line@));
        assert(done[i as int] == strip_cr(p[i as int]));
        assert(done.take(i + 1) =~= done.take(i as int).push(done[i as int]));
    }
    assert(done.take(n - 1) =~= done);
    assert(views(pieces@)[n - 1] == pieces@[n - 1]@);
    if pieces[n - 1].len() > 0 {
        let mut keep: Vec<char> = Vec::new();
        push_chars(&mut keep, &pieces[n - 1]);
        let ghost before = out@;
        out.push(keep);
        assert(views(out@) =~= views(before).push(p.last()));
    }
    out
}

/// The characters `lo..hi` of `v` with surrounding whitespace removed.
pub fn trim_range(v: &Vec<char>, lo: usize, hi: usize) -> (r: Vec<char>)
    requires
        lo <= hi <= v@.len(),
    ensures
        r@ == trim(v@.subrange(lo as int, hi as int)),
{
    let mut a = lo;
    while a < hi && is_whitespace_char(v[a])
        invariant
            lo <= a <= hi <= v@.len(),
            trim_start(v@.subrange(lo as int, hi as int)) == trim_start(
                v@.subrange(a as int, hi as int),
            ),
        decreases hi - a,
    {
        assert(v@.subrange(a as int, hi as int).drop_first() =~= v@.subrange(a + 1, hi as int));
        a = a + 1;
    }
    let mut b = hi;
    while b > a && is_whitespace_char(v[b - 1])
        invariant
            lo <= a <= b <= hi <= v@.len(),
            trim(v@.subrange(lo as int, hi as int)) == trim_end(v@.subrange(a as int, b as int)),
        decreases b - a,
    {
        assert(v@.subrange(a as int, b as int).drop_last() =~= v@.subrange(a as int, b - 1));
        b = b - 1;
    }
    let mut out: Vec<char> = Vec::new();
    for i in a..b
        invariant
            a <= b <= v@.len(),
            out@ == v@.subrange(a as int, i as int),
    {
        out.push(v[i]);
        assert(v@.subrange(a as int, i + 1) =~= v@.subrange(a as int, i as int).push(v@[i as int]));
    }
    out
}

/// `char::is_whitespace`.
pub fn is_whitespace_char(c: char) -> (r: bool)
    ensures
        r == is_whitespace(c),
{
    c == ' ' || ('\t' <= c && c <= '\r') || c == '\u{85}' || c == '\u{a0}' || c == '\u{1680}' || (
    '\u{2000}' <= c && c <= '\u{200a}') || c == '\u{2028}' || c == '\u{2029}' || c == '\u{202f}'
        || c == '\u{205f}' || c == '\u{3000}'
}

/// A copy of `v` with surrounding whitespace removed.
pub fn trim_chars(v: &Vec<char>) -> (r: Vec<char>)
    ensures
        r@ == trim(v@),
{
    assert(v@.subrange(0, v@.len() as int) =~= v@);
    trim_range(v, 0, v.len())
}

/// Parses an unsigned number text as `FromStr` of an unsigned integer type
/// with largest value `max` does.
pub fn parse_unsigned_chars(s: &Vec<char>, max: u64) -> (r: Option<u64>)
    ensures
        r matches Some(n) ==> parse_unsigned(s@, max as nat) == Some(n as nat),
        r is None ==> parse_unsigned(s@, max as nat) is None,
{
    let len = s.len();
    let start: usize = if len > 0 && s[0] == '+' {
        1
    } else {
        0
    };
    let ghost d = unsigned_body(s@);
    assert(d =~= s@.subrange(start as int, len as int));
    if start == len {
        return None;
    }
    let mut acc: u64 = 0;
    let mut i = start;
    assert(d.take(0) =~= Seq::<char>::empty());
    while i < len
        invariant
            start <= i <= len,
            len == s@.len(),
            d == s@.subrange(start as int, len as int),
            d == unsigned_body(s@),
            all_digits(d.take(i - start)),
            acc as nat == digits_value(d.take(i - start)),
            acc <= max,
        decreases len - i,
    {
        let c = s[i];
        let k = i - start;
        assert(d[k as int] == c);
        if !(c >= '0' && c <= '9') {
            assert(k < d.len());
            assert(!is_digit(d[k as int]));
            assert(!all_digits(d));
            return None;
        }
        let dv: u64 = (c as u64) - ('0' as u64);
        assert(dv as nat == digit_value(c));
        assert(d.take(k + 1).drop_last() =~= d.take(k as int));
        assert(d.take(k + 1).last() == c);
        if dv > max || acc > (max - dv) / 10 {
            assert(acc * 10 + dv > max) by (nonlinear_arith)
                requires
                    dv > max || acc > (max - dv) / 10,
            ;
            proof {
                assert(digits_value(d.take(k + 1)) == digits_value(d.take(k as int)) * 10
                    + digit_value(c));
                if all_digits(d) {
                    lemma_prefix_value_le(d, k + 1);
                    assert(digits_value(d) > max);
                }
            }
            return None;
        }
        assert(acc * 10 + dv <= max) by (nonlinear_arith)
            requires
                acc <= (max - dv) / 10,
                dv <= max,
        ;
        acc = acc * 10 + dv;
        i = i + 1;
        assert(all_digits(d.take(i - start))) by {
            assert forall|t: int| 0 <= t < d.take(i - start).len() implies #[trigger] is_digit(
                d.take(i - start)[t],
            ) by {
                if t < k {
                    assert(d.take(i - start)[t] == d.take(k as int)[t]);
                }
            }
        }
    }
    assert(d.take(len - start) =~= d);
    Some(acc)
}

/// Appends the decimal representation of `n`.
pub fn push_decimal(out: &mut Vec<char>, n: u64)
    ensures
        final(out)@ == old(out)@ + decimal(n as nat),
    decreases n,
{
    if n >= 10 {
        push_decimal(out, n / 10);
    }
    let d = n % 10;
    let c = if d == 0 {
        '0'
    } else if d == 1 {
        '1'
    } else if d == 2 {
        '2'
    } else if d == 3 {
        '3'
    } else if d == 4 {
        '4'
    } else if d == 5 {
        '5'
    } else if d == 6 {
        '6'
    } else if d == 7 {
        '7'
    } else if d == 8 {
        '8'
    } else {
        '9'
    };
    out.push(c);
    assert(out@ =~= old(out)@ + decimal(n as nat));
}

} // verus!
