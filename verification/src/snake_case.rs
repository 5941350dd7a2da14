//! Normalising a host name into a slug: alphanumeric runs lowered,
//! every run of other characters collapsed into a single underscore.

use vstd::prelude::*;

verus! {

/// A character that survives slug normalisation.
pub open spec fn is_alnum(c: char) -> bool {
    ('a' <= c && c <= 'z') || ('A' <= c && c <= 'Z') || ('0' <= c && c <= '9')
}

/// An ASCII upper-case letter lowered; any other character unchanged.
pub open spec fn lower_char_spec(c: char) -> char {
    if 'A' <= c && c <= 'Z' {
        (((c as u8) + 32) as char)
    } else {
        c
    }
}

/// One step of slug building: the output so far, and whether a separator run
/// is pending before the next kept character.
pub open spec fn snake_step(acc: (Seq<char>, bool), c: char) -> (Seq<char>, bool) {
    if is_alnum(c) {
        if acc.1 {
            (acc.0.push('_').push(lower_char_spec(c)), false)
        } else {
            (acc.0.push(lower_char_spec(c)), false)
        }
    } else {
        (acc.0, true)
    }
}

/// Slug-building state after reading all of `s`.
pub open spec fn snake_acc(s: Seq<char>) -> (Seq<char>, bool)
    decreases s.len(),
{
    if s.len() == 0 {
        (Seq::empty(), false)
    } else {
        snake_step(snake_acc(s.drop_last()), s.last())
    }
}

/// The slug of `s`: alphanumeric characters lowered, each separator run
/// before a kept character turned into one underscore, a trailing separator
/// run dropped.
pub open spec fn snake_of(s: Seq<char>) -> Seq<char> {
    snake_acc(s).0
}

/// A character a slug may hold: a lower-case ASCII alphanumeric, or the
/// underscore standing for a collapsed separator run.
pub open spec fn is_slug_char(c: char) -> bool {
    ('a' <= c && c <= 'z') || ('0' <= c && c <= '9') || c == '_'
}

/// Whatever the input, a slug holds only lower-case alphanumerics and
/// underscores.
pub proof fn lemma_slug_chars(s: Seq<char>)
    ensures
        forall|i: int| 0 <= i < snake_of(s).len() ==> is_slug_char(#[trigger] snake_of(s)[i]),
    decreases s.len(),
{
    if s.len() > 0 {
        lemma_slug_chars(s.drop_last());
        let prev = snake_acc(s.drop_last());
        let c = s.last();
        if is_alnum(c) {
            assert(is_slug_char(lower_char_spec(c)));
        }
        assert forall|i: int| 0 <= i < snake_of(s).len() implies is_slug_char(
            #[trigger] snake_of(s)[i],
        ) by {
            if i < prev.0.len() {
                assert(is_slug_char(snake_of(s.drop_last())[i]));
            }
        }
    }
}

/// Lowers one ASCII upper-case letter; leaves any other character unchanged.
fn lower_char(c: char) -> (r: char)
    ensures
        r == lower_char_spec(c),
{
    if 'A' <= c && c <= 'Z' {
        ((c as u8) + 32) as char
    } else {
        c
    }
}

/// Normalises a name into a slug of lower-case alphanumerics and single
/// underscores.
pub fn make_snake_case(s: &str) -> (r: String)
    ensures
        r@ == snake_of(s@),
{
    let n = s.unicode_len();
    let mut out: String = String::new();
    let mut pending: bool = false;
    let mut i: usize = 0;
    while i < n
        invariant
            n == s@.len(),
            0 <= i <= n,
            out@ == snake_acc(s@.subrange(0, i as int)).0,
            pending == snake_acc(s@.subrange(0, i as int)).1,
        decreases n - i,
    {
        let c = s.get_char(i);
        proof {
            assert(s@.subrange(0, i + 1).drop_last() =~= s@.subrange(0, i as int));
        }
        let alnum = ('a' <= c && c <= 'z') || ('A' <= c && c <= 'Z') || ('0' <= c && c <= '9');
        if alnum {
            if pending {
                crate::strutil::push_char(&mut out, '_');
                pending = false;
            }
            crate::strutil::push_char(&mut out, lower_char(c));
        } else {
            pending = true;
        }
        i = i + 1;
    }
    proof {
        assert(s@.subrange(0, n as int) =~= s@);
    }
    out
}

} // verus!
