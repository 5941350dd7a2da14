//! The stable, privacy-preserving machine identifier: the local machine
//! identifier is parsed, keyed-hashed with an application constant, and
//! the first half of the digest rendered as a hyphenated identifier — the
//! raw machine identifier itself is never published. Reading the
//! identifier file happens at the runtime's edge.

use vstd::prelude::*;
use crate::parser::ParseError;
use crate::text::trim_end_spec;

verus! {

/// The HMAC-SHA-256 digest of `input` under `key`. Its value is fixed by
/// the two arguments alone; the library states nothing further of it.
pub uninterp spec fn hmac_sha256_of(input: Seq<u8>, key: Seq<u8>) -> Seq<u8>;

/// Relies on `hmac_sha256::HMAC::mac`: the 32-byte HMAC-SHA-256 tag of the
/// input under the key, a function of the two arguments alone.
#[verifier::external_body]
fn hmac_mac(input: &Vec<u8>, key: &Vec<u8>) -> (r: Vec<u8>)
    ensures
        r@ == hmac_sha256_of(input@, key@),
        r@.len() == 32,
{
    hmac_sha256::HMAC::mac(input.as_slice(), key.as_slice()).to_vec()
}

/// A character is a hexadecimal digit, either case.
pub open spec fn is_hex_digit(c: char) -> bool {
    ('0' <= c && c <= '9') || ('a' <= c && c <= 'f') || ('A' <= c && c <= 'F')
}

/// The numeric value of a hexadecimal digit.
pub open spec fn hex_val(c: char) -> nat {
    if '0' <= c && c <= '9' {
        (c as int - '0' as int) as nat
    } else if 'a' <= c && c <= 'f' {
        (c as int - 'a' as int + 10) as nat
    } else if 'A' <= c && c <= 'F' {
        (c as int - 'A' as int + 10) as nat
    } else {
        0
    }
}

/// The identifier text with the four separators of the hyphenated form
/// removed; any other text is left as it stands.
pub open spec fn without_hyphens(s: Seq<char>) -> Seq<char> {
    if s.len() == 36 && s[8] == '-' && s[13] == '-' && s[18] == '-' && s[23] == '-' {
        s.subrange(0, 8) + s.subrange(9, 13) + s.subrange(14, 18) + s.subrange(19, 23)
            + s.subrange(24, 36)
    } else {
        s
    }
}

/// The byte at position `i` of a 32-digit hexadecimal string.
pub open spec fn hex_byte_at(h: Seq<char>, i: int) -> u8 {
    (hex_val(h[2 * i]) * 16 + hex_val(h[2 * i + 1])) as u8
}

/// What parsing an identifier text yields: 16 bytes from 32 hexadecimal
/// digits, the hyphenated form accepted alongside the plain one.
pub open spec fn uuid_bytes_spec(s: Seq<char>) -> Option<Seq<u8>> {
    let h = without_hyphens(s);
    if h.len() == 32 && (forall|i: int| 0 <= i < 32 ==> is_hex_digit(#[trigger] h[i])) {
        Some(Seq::new(16, |i: int| hex_byte_at(h, i)))
    } else {
        None
    }
}

/// The numeric value of a hexadecimal digit character.
fn hex_digit_val(c: char) -> (r: Option<u8>)
    ensures
        r is Some <==> is_hex_digit(c),
        r is Some ==> r->0 == hex_val(c),
{
    if '0' <= c && c <= '9' {
        Some(((c as u8) - 48) as u8)
    } else if 'a' <= c && c <= 'f' {
        Some(((c as u8) - 97 + 10) as u8)
    } else if 'A' <= c && c <= 'F' {
        Some(((c as u8) - 65 + 10) as u8)
    } else {
        None
    }
}

/// Parses an identifier text into its 16 bytes: 32 hexadecimal digits,
/// plain or hyphenated.
pub fn parse_uuid(s: &str) -> (r: Result<Vec<u8>, ParseError>)
    ensures
        match (r, uuid_bytes_spec(s@)) {
            (Ok(v), Some(sv)) => v@ == sv,
            (Err(_), None) => true,
            _ => false,
        },
{
    let n = s.unicode_len();
    let h: String = if n == 36 && s.get_char(8) == '-' && s.get_char(13) == '-' && s.get_char(18)
        == '-' && s.get_char(23) == '-' {
        let mut h = String::from_str(s.substring_char(0, 8));
        crate::strutil::append_str(&mut h, s.substring_char(9, 13));
        crate::strutil::append_str(&mut h, s.substring_char(14, 18));
        crate::strutil::append_str(&mut h, s.substring_char(19, 23));
        crate::strutil::append_str(&mut h, s.substring_char(24, 36));
        h
    } else {
        String::from_str(s)
    };
    proof {
        assert(h@ == without_hyphens(s@));
    }
    let hn = h.as_str().unicode_len();
    if hn != 32 {
        return Err(ParseError::BadFormat);
    }
    let mut out: Vec<u8> = Vec::new();
    let mut i: usize = 0;
    while i < 16
        invariant
            h@ == without_hyphens(s@),
            h@.len() == 32,
            0 <= i <= 16,
            out@.len() == i,
            forall|j: int| 0 <= j < i ==> out@[j] == hex_byte_at(h@, j),
            forall|j: int| 0 <= j < 2 * i ==> is_hex_digit(#[trigger] h@[j]),
        decreases 16 - i,
    {
        let c1 = h.as_str().get_char(2 * i);
        let c2 = h.as_str().get_char(2 * i + 1);
        let v1 = match hex_digit_val(c1) {
            Some(v) => v,
            None => {
                return Err(ParseError::InvalidNumber);
            },
        };
        let v2 = match hex_digit_val(c2) {
            Some(v) => v,
            None => {
                return Err(ParseError::InvalidNumber);
            },
        };
        out.push(v1 * 16 + v2);
        i = i + 1;
    }
    proof {
        assert(uuid_bytes_spec(s@) is Some);
        assert(out@ =~= Seq::new(16, |i: int| hex_byte_at(h@, i)));
    }
    Ok(out)
}

/// The hexadecimal digit character of a value below sixteen, lower case.
pub open spec fn hex_char_of(n: int) -> char {
    if n < 10 {
        ((n + 48) as u8) as char
    } else {
        ((n + 87) as u8) as char
    }
}

/// The two hexadecimal digits of one byte.
pub open spec fn hex_pair(b: u8) -> Seq<char> {
    seq![hex_char_of(b as int / 16), hex_char_of(b as int % 16)]
}

/// The hexadecimal rendering of a byte sequence.
pub open spec fn hex_of(bs: Seq<u8>) -> Seq<char>
    decreases bs.len(),
{
    if bs.len() == 0 {
        Seq::empty()
    } else {
        hex_of(bs.drop_last()) + hex_pair(bs.last())
    }
}

/// The hyphenated rendering of a 16-byte identifier.
pub open spec fn hyphenated_spec(bs: Seq<u8>) -> Seq<char> {
    hex_of(bs.subrange(0, 4)) + seq!['-'] + hex_of(bs.subrange(4, 6)) + seq!['-'] + hex_of(
        bs.subrange(6, 8),
    ) + seq!['-'] + hex_of(bs.subrange(8, 10)) + seq!['-'] + hex_of(bs.subrange(10, 16))
}

/// Appends the hexadecimal rendering of `bytes[from..to]` to `out`.
fn append_hex(out: &mut String, bytes: &Vec<u8>, from: usize, to: usize)
    requires
        from <= to <= bytes@.len(),
    ensures
        final(out)@ == old(out)@ + hex_of(bytes@.subrange(from as int, to as int)),
{
    let mut i = from;
    proof {
        assert(bytes@.subrange(from as int, from as int) =~= Seq::<u8>::empty());
        assert(out@ =~= out@ + hex_of(bytes@.subrange(from as int, from as int)));
    }
    while i < to
        invariant
            from <= i <= to,
            to <= bytes@.len(),
            out@ == old(out)@ + hex_of(bytes@.subrange(from as int, i as int)),
        decreases to - i,
    {
        let b = bytes[i];
        let hi: u8 = b / 16;
        let lo: u8 = b % 16;
        let c1: char = if hi < 10 {
            ((hi + 48) as u8) as char
        } else {
            ((hi + 87) as u8) as char
        };
        let c2: char = if lo < 10 {
            ((lo + 48) as u8) as char
        } else {
            ((lo + 87) as u8) as char
        };
        crate::strutil::push_char(out, c1);
        crate::strutil::push_char(out, c2);
        proof {
            assert(bytes@.subrange(from as int, i + 1).drop_last() =~= bytes@.subrange(
                from as int,
                i as int,
            ));
            assert(out@ =~= old(out)@ + hex_of(bytes@.subrange(from as int, i + 1)));
        }
        i = i + 1;
    }
}

/// Renders a 16-byte identifier in its hyphenated lower-case form.
pub fn format_hyphenated(bytes: &Vec<u8>) -> (r: String)
    requires
        bytes@.len() == 16,
    ensures
        r@ == hyphenated_spec(bytes@),
{
    let mut out = String::new();
    append_hex(&mut out, bytes, 0, 4);
    crate::strutil::push_char(&mut out, '-');
    append_hex(&mut out, bytes, 4, 6);
    crate::strutil::push_char(&mut out, '-');
    append_hex(&mut out, bytes, 6, 8);
    crate::strutil::push_char(&mut out, '-');
    append_hex(&mut out, bytes, 8, 10);
    crate::strutil::push_char(&mut out, '-');
    append_hex(&mut out, bytes, 10, 16);
    proof {
        assert(out@ =~= hyphenated_spec(bytes@));
    }
    out
}

/// The application constant that keys the machine-identifier hash.
pub open spec fn app_key_bytes() -> Seq<u8> {
    seq![
        0x86u8, 0x0eu8, 0xdfu8, 0xa6u8, 0x72u8, 0xeau8, 0x11u8, 0xefu8, 0x99u8, 0xe1u8, 0xdbu8,
        0xa1u8, 0x27u8, 0xe5u8, 0xdeu8, 0x37u8,
    ]
}

/// The application constant as a byte vector.
fn app_key() -> (r: Vec<u8>)
    ensures
        r@ == app_key_bytes(),
{
    let mut v: Vec<u8> = Vec::new();
    v.push(0x86);
    v.push(0x0e);
    v.push(0xdf);
    v.push(0xa6);
    v.push(0x72);
    v.push(0xea);
    v.push(0x11);
    v.push(0xef);
    v.push(0x99);
    v.push(0xe1);
    v.push(0xdb);
    v.push(0xa1);
    v.push(0x27);
    v.push(0xe5);
    v.push(0xde);
    v.push(0x37);
    proof {
        assert(v@ =~= app_key_bytes());
    }
    v
}

/// The published identifier derived from the raw machine identifier text:
/// the first 16 bytes of the keyed hash, hyphenated.
pub open spec fn derived_id_spec(raw: Seq<char>) -> Seq<char> {
    let machine = uuid_bytes_spec(trim_end_spec(raw))->0;
    hyphenated_spec(hmac_sha256_of(app_key_bytes(), machine).subrange(0, 16))
}

/// Derives the published machine identifier from the raw identifier text:
/// the text is parsed, hashed under the application key, and the first
/// half of the digest rendered hyphenated. Fails exactly when the text,
/// its trailing whitespace removed, is not an identifier.
pub fn derive_machine_id(raw: &str) -> (r: Result<String, ParseError>)
    ensures
        match r {
            Ok(id) => uuid_bytes_spec(trim_end_spec(raw@)) is Some && id@ == derived_id_spec(raw@),
            Err(_) => uuid_bytes_spec(trim_end_spec(raw@)) is None,
        },
{
    let trimmed = crate::text::trim_end_str(raw);
    let machine = match parse_uuid(trimmed) {
        Ok(v) => v,
        Err(e) => {
            return Err(e);
        },
    };
    let digest = hmac_mac(&app_key(), &machine);
    let mut half: Vec<u8> = Vec::new();
    let mut i: usize = 0;
    while i < 16
        invariant
            digest@.len() == 32,
            0 <= i <= 16,
            half@ == digest@.subrange(0, i as int),
        decreases 16 - i,
    {
        half.push(digest[i]);
        proof {
            assert(half@ =~= digest@.subrange(0, i + 1));
        }
        i = i + 1;
    }
    Ok(format_hyphenated(&half))
}

} // verus!
