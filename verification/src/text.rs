//! Sequence-level specifications for the text shapes the agent reads
//! (whitespace-separated fields, line-oriented tables, decimal numbers),
//! and the executable scanners proved against them.

use vstd::prelude::*;

verus! {

/// A character is an ASCII decimal digit.
pub open spec fn is_digit_char(c: char) -> bool {
    '0' <= c && c <= '9'
}

/// A character is ASCII whitespace, as `char::is_ascii_whitespace` counts it.
pub open spec fn is_ws(c: char) -> bool {
    c == ' ' || c == '\t' || c == '\n' || c == '\r' || c == '\x0c'
}

/// Every character of `s` is an ASCII decimal digit.
pub open spec fn all_digits(s: Seq<char>) -> bool {
    forall|i: int| 0 <= i < s.len() ==> is_digit_char(#[trigger] s[i])
}

/// The numeric value of one decimal digit character.
pub open spec fn digit_of(c: char) -> nat {
    (c as int - '0' as int) as nat
}

/// The numeric value of a sequence of decimal digits, most significant first.
pub open spec fn digits_val(s: Seq<char>) -> nat
    decreases s.len(),
{
    if s.len() == 0 {
        0
    } else {
        digits_val(s.drop_last()) * 10 + digit_of(s.last())
    }
}

/// `s` is a string that `u64` decimal parsing accepts: nonempty, digits only,
/// and its value fits in a `u64`.
pub open spec fn is_u64_string(s: Seq<char>) -> bool {
    s.len() > 0 && all_digits(s) && digits_val(s) <= u64::MAX
}

/// The value of a digit prefix never exceeds the value of the whole digit
/// string.
pub proof fn lemma_digits_val_prefix_le(s: Seq<char>, i: int)
    requires
        all_digits(s),
        0 <= i <= s.len(),
    ensures
        digits_val(s.subrange(0, i)) <= digits_val(s),
    decreases s.len() - i,
{
    if i < s.len() {
        assert(s.subrange(0, i + 1).drop_last() =~= s.subrange(0, i));
        assert(digits_val(s.subrange(0, i)) <= digits_val(s.subrange(0, i + 1)));
        lemma_digits_val_prefix_le(s, i + 1);
        assert(s.subrange(0, s.len() as int) =~= s);
    } else {
        assert(s.subrange(0, i) =~= s);
    }
}

/// Parses a whole string as an unsigned decimal number, exactly as far as the
/// grammar of `is_u64_string` allows: nonempty, digits only, value in range.
pub fn parse_u64_str(s: &str) -> (r: Option<u64>)
    ensures
        r is Some <==> is_u64_string(s@),
        r is Some ==> r->0 == digits_val(s@),
{
    let n = s.unicode_len();
    if n == 0 {
        return None;
    }
    let mut val: u64 = 0;
    let mut i: usize = 0;
    while i < n
        invariant
            0 < n == s@.len(),
            0 <= i <= n,
            all_digits(s@.subrange(0, i as int)),
            val == digits_val(s@.subrange(0, i as int)),
        decreases n - i,
    {
        let c = s.get_char(i);
        if c < '0' || c > '9' {
            assert(!all_digits(s@));
            return None;
        }
        let d: u64 = (c as u32 as u64) - 48;
        assert(d == digit_of(s@[i as int]));
        if val > (u64::MAX - d) / 10 {
            proof {
                assert(s@.subrange(0, i + 1).drop_last() =~= s@.subrange(0, i as int));
                assert(digits_val(s@.subrange(0, i + 1)) == val * 10 + d);
                assert(val * 10 + d > u64::MAX) by (nonlinear_arith)
                    requires
                        val > (u64::MAX - d) / 10,
                        d <= 9,
                ;
                if all_digits(s@) {
                    lemma_digits_val_prefix_le(s@, i + 1);
                }
            }
            return None;
        }
        proof {
            assert(s@.subrange(0, i + 1).drop_last() =~= s@.subrange(0, i as int));
            assert(val * 10 + d <= u64::MAX) by (nonlinear_arith)
                requires
                    val <= (u64::MAX - d) / 10,
                    d <= 9,
            ;
        }
        val = val * 10 + d;
        i = i + 1;
    }
    assert(s@.subrange(0, n as int) =~= s@);
    Some(val)
}

/// One step of whitespace tokenisation: the tokens already finished, and the
/// token being built.
pub open spec fn token_step(acc: (Seq<Seq<char>>, Seq<char>), c: char) -> (Seq<Seq<char>>, Seq<char>) {
    if is_ws(c) {
        if acc.1.len() > 0 {
            (acc.0.push(acc.1), Seq::empty())
        } else {
            acc
        }
    } else {
        (acc.0, acc.1.push(c))
    }
}

/// Tokenisation state after reading all of `s`.
pub open spec fn tokens_partial(s: Seq<char>) -> (Seq<Seq<char>>, Seq<char>)
    decreases s.len(),
{
    if s.len() == 0 {
        (Seq::empty(), Seq::empty())
    } else {
        token_step(tokens_partial(s.drop_last()), s.last())
    }
}

/// The maximal runs of non-whitespace characters of `s`, in order: what
/// splitting on ASCII whitespace yields.
pub open spec fn tokens_of(s: Seq<char>) -> Seq<Seq<char>> {
    let (done, pending) = tokens_partial(s);
    if pending.len() > 0 {
        done.push(pending)
    } else {
        done
    }
}

/// Splits `s` into its maximal runs of non-whitespace characters.
pub fn split_whitespace(s: &str) -> (r: Vec<String>)
    ensures
        r.deep_view() == tokens_of(s@),
{
    let n = s.unicode_len();
    let mut out: Vec<String> = Vec::new();
    let mut cur: String = String::new();
    let mut i: usize = 0;
    while i < n
        invariant
            n == s@.len(),
            0 <= i <= n,
            out.deep_view() == tokens_partial(s@.subrange(0, i as int)).0,
            cur@ == tokens_partial(s@.subrange(0, i as int)).1,
        decreases n - i,
    {
        let c = s.get_char(i);
        proof {
            assert(s@.subrange(0, i + 1).drop_last() =~= s@.subrange(0, i as int));
        }
        if c == ' ' || c == '\t' || c == '\n' || c == '\r' || c == '\x0c' {
            if !cur.as_str().is_empty() {
                let finished = cur;
                cur = String::new();
                out.push(finished);
                proof {
                    assert(out.deep_view() =~= tokens_partial(s@.subrange(0, i + 1)).0);
                }
            }
        } else {
            crate::strutil::push_char(&mut cur, c);
        }
        i = i + 1;
    }
    proof {
        assert(s@.subrange(0, n as int) =~= s@);
    }
    if !cur.as_str().is_empty() {
        out.push(cur);
        proof {
            assert(out.deep_view() =~= tokens_of(s@));
        }
    }
    out
}

/// Drops a single trailing carriage return, as line splitting does at each
/// line feed.
pub open spec fn strip_cr(s: Seq<char>) -> Seq<char> {
    if s.len() > 0 && s.last() == '\r' {
        s.drop_last()
    } else {
        s
    }
}

/// One step of line splitting: the lines already finished, and the line being
/// built.
pub open spec fn line_step(acc: (Seq<Seq<char>>, Seq<char>), c: char) -> (Seq<Seq<char>>, Seq<char>) {
    if c == '\n' {
        (acc.0.push(strip_cr(acc.1)), Seq::empty())
    } else {
        (acc.0, acc.1.push(c))
    }
}

/// Line-splitting state after reading all of `s`.
pub open spec fn lines_partial(s: Seq<char>) -> (Seq<Seq<char>>, Seq<char>)
    decreases s.len(),
{
    if s.len() == 0 {
        (Seq::empty(), Seq::empty())
    } else {
        line_step(lines_partial(s.drop_last()), s.last())
    }
}

/// The lines of `s`, split at `\n` or `\r\n`, with the final line ending
/// optional: what `str::lines` yields.
pub open spec fn lines_of(s: Seq<char>) -> Seq<Seq<char>> {
    let (done, pending) = lines_partial(s);
    if pending.len() > 0 {
        done.push(pending)
    } else {
        done
    }
}

/// Drops one trailing carriage return from `s`, if present.
pub fn strip_trailing_cr(s: String) -> (r: String)
    ensures
        r@ == strip_cr(s@),
{
    let n = s.as_str().unicode_len();
    if n > 0 && s.as_str().get_char(n - 1) == '\r' {
        let r = String::from_str(s.as_str().substring_char(0, n - 1));
        proof {
            assert(s@.subrange(0, n - 1) =~= s@.drop_last());
        }
        r
    } else {
        s
    }
}

/// Splits `s` into lines, at `\n` or `\r\n`, the final line ending optional.
pub fn split_lines(s: &str) -> (r: Vec<String>)
    ensures
        r.deep_view() == lines_of(s@),
{
    let n = s.unicode_len();
    let mut out: Vec<String> = Vec::new();
    let mut cur: String = String::new();
    let mut i: usize = 0;
    while i < n
        invariant
            n == s@.len(),
            0 <= i <= n,
            out.deep_view() == lines_partial(s@.subrange(0, i as int)).0,
            cur@ == lines_partial(s@.subrange(0, i as int)).1,
        decreases n - i,
    {
        let c = s.get_char(i);
        proof {
            assert(s@.subrange(0, i + 1).drop_last() =~= s@.subrange(0, i as int));
        }
        if c == '\n' {
            let finished = cur;
            cur = String::new();
            out.push(strip_trailing_cr(finished));
            proof {
                assert(out.deep_view() =~= lines_partial(s@.subrange(0, i + 1)).0);
            }
        } else {
            crate::strutil::push_char(&mut cur, c);
        }
        i = i + 1;
    }
    proof {
        assert(s@.subrange(0, n as int) =~= s@);
    }
    if !cur.as_str().is_empty() {
        out.push(cur);
        proof {
            assert(out.deep_view() =~= lines_of(s@));
        }
    }
    out
}

/// Splits `s` at the first occurrence of `c`: the part before (not holding
/// `c`) and the part after.
pub open spec fn split_at_first(s: Seq<char>, c: char) -> Option<(Seq<char>, Seq<char>)>
    decreases s.len(),
{
    if s.len() == 0 {
        None
    } else if s[0] == c {
        Some((Seq::empty(), s.drop_first()))
    } else {
        match split_at_first(s.drop_first(), c) {
            None => None,
            Some(p) => Some((seq![s[0]] + p.0, p.1)),
        }
    }
}

/// Splits `s` at the first occurrence of `c`, dropping that occurrence.
pub fn split_once_char(s: &str, c: char) -> (r: Option<(String, String)>)
    ensures
        match (r, split_at_first(s@, c)) {
            (Some(p), Some(q)) => p.0@ == q.0 && p.1@ == q.1,
            (None, None) => true,
            _ => false,
        },
{
    let n = s.unicode_len();
    let mut i: usize = 0;
    while i < n
        invariant
            n == s@.len(),
            0 <= i <= n,
            forall|j: int| 0 <= j < i ==> s@[j] != c,
        decreases n - i,
    {
        if s.get_char(i) == c {
            let before = String::from_str(s.substring_char(0, i));
            let after = String::from_str(s.substring_char(i + 1, n));
            proof {
                lemma_split_first_hit(s@, c, i as int);
            }
            return Some((before, after));
        }
        i = i + 1;
    }
    proof {
        lemma_split_first_miss(s@, c);
    }
    None
}

/// When `s[i]` is the first occurrence of `c`, `split_at_first` cuts exactly
/// there.
proof fn lemma_split_first_hit(s: Seq<char>, c: char, i: int)
    requires
        0 <= i < s.len(),
        s[i] == c,
        forall|j: int| 0 <= j < i ==> s[j] != c,
    ensures
        split_at_first(s, c) == Some((s.subrange(0, i), s.subrange(i + 1, s.len() as int))),
    decreases s.len(),
{
    if i == 0 {
        assert(s.subrange(0, 0) =~= Seq::<char>::empty());
        assert(s.subrange(1, s.len() as int) =~= s.drop_first());
    } else {
        assert(forall|j: int| 0 <= j < i - 1 ==> s.drop_first()[j] == #[trigger] s[j + 1]);
        lemma_split_first_hit(s.drop_first(), c, i - 1);
        let q = split_at_first(s.drop_first(), c).unwrap();
        assert(seq![s[0]] + q.0 =~= s.subrange(0, i));
        assert(q.1 =~= s.subrange(i + 1, s.len() as int));
    }
}

/// When `c` does not occur in `s`, `split_at_first` finds nothing.
proof fn lemma_split_first_miss(s: Seq<char>, c: char)
    requires
        forall|j: int| 0 <= j < s.len() ==> s[j] != c,
    ensures
        split_at_first(s, c) is None,
    decreases s.len(),
{
    if s.len() > 0 {
        assert(forall|j: int| 0 <= j < s.drop_first().len() ==> #[trigger] s.drop_first()[j] == s[j + 1]);
        lemma_split_first_miss(s.drop_first(), c);
    }
}

/// `s` without its leading ASCII whitespace.
pub open spec fn trim_start_spec(s: Seq<char>) -> Seq<char>
    decreases s.len(),
{
    if s.len() > 0 && is_ws(s[0]) {
        trim_start_spec(s.drop_first())
    } else {
        s
    }
}

/// `s` without its trailing ASCII whitespace.
pub open spec fn trim_end_spec(s: Seq<char>) -> Seq<char>
    decreases s.len(),
{
    if s.len() > 0 && is_ws(s.last()) {
        trim_end_spec(s.drop_last())
    } else {
        s
    }
}

/// `s` without leading and trailing ASCII whitespace.
pub open spec fn trim_spec(s: Seq<char>) -> Seq<char> {
    trim_end_spec(trim_start_spec(s))
}

/// When the first `a` characters are whitespace and the next one is not,
/// trimming the start cuts exactly there.
proof fn lemma_trim_start_ix(s: Seq<char>, a: int)
    requires
        0 <= a <= s.len(),
        forall|j: int| 0 <= j < a ==> is_ws(#[trigger] s[j]),
        a == s.len() || !is_ws(s[a]),
    ensures
        trim_start_spec(s) == s.subrange(a, s.len() as int),
    decreases a,
{
    if a == 0 {
        assert(s.subrange(0, s.len() as int) =~= s);
    } else {
        assert(forall|j: int| 0 <= j < s.drop_first().len() ==> #[trigger] s.drop_first()[j] == s[j + 1]);
        lemma_trim_start_ix(s.drop_first(), a - 1);
        assert(s.drop_first().subrange(a - 1, s.drop_first().len() as int) =~= s.subrange(
            a,
            s.len() as int,
        ));
    }
}

/// When the characters from `b` on are whitespace and the one before is not,
/// trimming the end cuts exactly there.
proof fn lemma_trim_end_ix(s: Seq<char>, b: int)
    requires
        0 <= b <= s.len(),
        forall|j: int| b <= j < s.len() ==> is_ws(#[trigger] s[j]),
        b == 0 || !is_ws(s[b - 1]),
    ensures
        trim_end_spec(s) == s.subrange(0, b),
    decreases s.len() - b,
{
    if b == s.len() {
        assert(s.subrange(0, b) =~= s);
    } else {
        lemma_trim_end_ix(s.drop_last(), b);
        assert(s.drop_last().subrange(0, b) =~= s.subrange(0, b));
    }
}

/// Whether `c` is ASCII whitespace.
pub fn ws_char(c: char) -> (r: bool)
    ensures
        r == is_ws(c),
{
    c == ' ' || c == '\t' || c == '\n' || c == '\r' || c == '\x0c'
}

/// `s` without leading and trailing ASCII whitespace.
pub fn trim_str<'a>(s: &'a str) -> (r: &'a str)
    ensures
        r@ == trim_spec(s@),
{
    let n = s.unicode_len();
    let mut a: usize = 0;
    while a < n && ws_char(s.get_char(a))
        invariant
            n == s@.len(),
            0 <= a <= n,
            forall|j: int| 0 <= j < a ==> is_ws(#[trigger] s@[j]),
        decreases n - a,
    {
        a = a + 1;
    }
    proof {
        lemma_trim_start_ix(s@, a as int);
    }
    if a == n {
        let r = s.substring_char(n, n);
        proof {
            assert(trim_start_spec(s@) =~= Seq::<char>::empty());
            assert(trim_spec(s@) =~= Seq::<char>::empty());
        }
        return r;
    }
    let mut b: usize = n;
    while b > a && ws_char(s.get_char(b - 1))
        invariant
            n == s@.len(),
            a <= b <= n,
            forall|j: int| b <= j < n ==> is_ws(#[trigger] s@[j]),
        decreases b,
    {
        b = b - 1;
    }
    let r = s.substring_char(a, b);
    proof {
        let t = s@.subrange(a as int, n as int);
        assert(forall|j: int| 0 <= j < t.len() ==> #[trigger] t[j] == s@[j + a]);
        lemma_trim_end_ix(t, b - a);
        assert(t.subrange(0, b - a) =~= s@.subrange(a as int, b as int));
    }
    r
}

/// The decimal digit character of a value below ten.
pub open spec fn digit_char_of(n: int) -> char {
    ((n + 48) as u8) as char
}

/// The decimal rendering of a number, no leading zeroes.
pub open spec fn dec_of(v: nat) -> Seq<char>
    decreases v,
{
    if v < 10 {
        seq![digit_char_of(v as int)]
    } else {
        dec_of(v / 10).push(digit_char_of((v % 10) as int))
    }
}

/// Renders a number in decimal.
pub fn format_u64(v: u64) -> (r: String)
    ensures
        r@ == dec_of(v as nat),
    decreases v,
{
    if v < 10 {
        let mut s = String::new();
        crate::strutil::push_char(&mut s, ((v as u8) + 48) as char);
        proof {
            assert(s@ =~= dec_of(v as nat));
        }
        s
    } else {
        let mut s = format_u64(v / 10);
        crate::strutil::push_char(&mut s, (((v % 10) as u8) + 48) as char);
        s
    }
}

/// `s` without trailing ASCII whitespace.
pub fn trim_end_str<'a>(s: &'a str) -> (r: &'a str)
    ensures
        r@ == trim_end_spec(s@),
{
    let n = s.unicode_len();
    let mut b: usize = n;
    while b > 0 && ws_char(s.get_char(b - 1))
        invariant
            n == s@.len(),
            0 <= b <= n,
            forall|j: int| b <= j < n ==> is_ws(#[trigger] s@[j]),
        decreases b,
    {
        b = b - 1;
    }
    proof {
        lemma_trim_end_ix(s@, b as int);
    }
    s.substring_char(0, b)
}

/// `p` is a prefix of `s`.
pub open spec fn has_prefix(s: Seq<char>, p: Seq<char>) -> bool {
    s.len() >= p.len() && s.subrange(0, p.len() as int) == p
}

/// Whether `p` is a prefix of `s`.
pub fn starts_with(s: &str, p: &str) -> (r: bool)
    ensures
        r == has_prefix(s@, p@),
{
    let n = s.unicode_len();
    let m = p.unicode_len();
    if n < m {
        assert(!has_prefix(s@, p@));
        return false;
    }
    let mut i: usize = 0;
    while i < m
        invariant
            n == s@.len(),
            m == p@.len(),
            m <= n,
            0 <= i <= m,
            forall|j: int| 0 <= j < i ==> s@[j] == p@[j],
        decreases m - i,
    {
        if s.get_char(i) != p.get_char(i) {
            assert(s@.subrange(0, m as int)[i as int] != p@[i as int]);
            return false;
        }
        i = i + 1;
    }
    proof {
        assert(s@.subrange(0, m as int) =~= p@);
    }
    true
}

/// `s` without its first `k` characters.
pub fn skip_chars<'a>(s: &'a str, k: usize) -> (r: &'a str)
    requires
        k <= s@.len(),
    ensures
        r@ == s@.skip(k as int),
{
    let n = s.unicode_len();
    let r = s.substring_char(k, n);
    proof {
        assert(s@.subrange(k as int, n as int) =~= s@.skip(k as int));
    }
    r
}

} // verus!
