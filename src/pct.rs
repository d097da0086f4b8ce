use vstd::prelude::*;
use vstd::string::*;
use crate::text::push_char;

verus! {

/// An unreserved byte of RFC 3986: ASCII letters, digits, `-`, `.`, `_` and `~`.
pub open spec fn is_unreserved(b: u8) -> bool {
    (0x41 <= b && b <= 0x5a) || (0x61 <= b && b <= 0x7a) || (0x30 <= b && b <= 0x39) || b == 0x2d
        || b == 0x2e || b == 0x5f || b == 0x7e
}

/// A byte that stands for itself in an encoded component. Reserved expansion keeps `/` too.
pub open spec fn is_kept(b: u8, reserved: bool) -> bool {
    is_unreserved(b) || (reserved && b == 0x2f)
}

/// The upper-case hexadecimal digit of a value below 16.
pub open spec fn hex_digit(n: u8) -> char {
    if n < 10 {
        (0x30 + n) as char
    } else {
        (0x41 + n - 10) as char
    }
}

/// The value of a hexadecimal digit, in either case.
pub open spec fn hex_value(c: char) -> Option<u8> {
    let u = c as u32;
    if 0x30 <= u && u <= 0x39 {
        Some((u - 0x30) as u8)
    } else if 0x41 <= u && u <= 0x46 {
        Some((u - 0x41 + 10) as u8)
    } else if 0x61 <= u && u <= 0x66 {
        Some((u - 0x61 + 10) as u8)
    } else {
        None
    }
}

/// The chars that one byte becomes.
pub open spec fn encode_byte(b: u8, reserved: bool) -> Seq<char> {
    if is_kept(b, reserved) {
        seq![b as char]
    } else {
        seq!['%', hex_digit(b / 16), hex_digit(b % 16)]
    }
}

/// Percent-encoding of a byte string.
pub open spec fn pct_encode(bs: Seq<u8>, reserved: bool) -> Seq<char>
    decreases bs.len(),
{
    if bs.len() == 0 {
        Seq::empty()
    } else {
        encode_byte(bs[0], reserved) + pct_encode(bs.drop_first(), reserved)
    }
}

/// Percent-decoding: `%XX` gives the byte XX, any other ASCII char gives itself. Anything else
/// (a stray `%`, a char beyond ASCII) has no decoding.
pub open spec fn pct_decode(s: Seq<char>) -> Option<Seq<u8>>
    decreases s.len(),
{
    if s.len() == 0 {
        Some(Seq::empty())
    } else if s[0] == '%' {
        if s.len() >= 3 && hex_value(s[1]) is Some && hex_value(s[2]) is Some {
            match pct_decode(s.subrange(3, s.len() as int)) {
                Some(rest) => Some(
                    seq![(hex_value(s[1])->0 * 16 + hex_value(s[2])->0) as u8] + rest,
                ),
                None => None,
            }
        } else {
            None
        }
    } else if (s[0] as u32) < 0x80 {
        match pct_decode(s.drop_first()) {
            Some(rest) => Some(seq![s[0] as u32 as u8] + rest),
            None => None,
        }
    } else {
        None
    }
}

pub proof fn lemma_encode_concat(a: Seq<u8>, b: Seq<u8>, reserved: bool)
    ensures
        pct_encode(a + b, reserved) == pct_encode(a, reserved) + pct_encode(b, reserved),
    decreases a.len(),
{
    if a.len() == 0 {
        assert(a + b =~= b);
    } else {
        assert((a + b).drop_first() =~= a.drop_first() + b);
        lemma_encode_concat(a.drop_first(), b, reserved);
    }
}

proof fn lemma_hex_round_trip(n: u8)
    requires
        n < 16,
    ensures
        hex_value(hex_digit(n)) == Some(n),
{
}

/// Decoding an encoded byte string gives the bytes back, with or without reserved expansion.
pub proof fn lemma_decode_encode(bs: Seq<u8>, reserved: bool)
    ensures
        pct_decode(pct_encode(bs, reserved)) == Some(bs),
    decreases bs.len(),
{
    if bs.len() > 0 {
        let b = bs[0];
        let rest = bs.drop_first();
        let e = encode_byte(b, reserved);
        let s = pct_encode(bs, reserved);
        lemma_decode_encode(rest, reserved);
        assert(s == e + pct_encode(rest, reserved));
        if is_kept(b, reserved) {
            assert(s.drop_first() =~= pct_encode(rest, reserved));
            assert(s[0] == b as char);
            assert(s[0] != '%');
        } else {
            lemma_hex_round_trip(b / 16);
            lemma_hex_round_trip(b % 16);
            assert(s.subrange(3, s.len() as int) =~= pct_encode(rest, reserved));
            assert((b / 16 * 16 + b % 16) as u8 == b);
        }
        assert(seq![b] + rest =~= bs);
    }
}

/// The hexadecimal digit of a value below 16.
fn hex_char(n: u8) -> (c: char)
    requires
        n < 16,
    ensures
        c == hex_digit(n),
{
    if n < 10 {
        (0x30 + n) as char
    } else {
        (0x41 + n - 10) as char
    }
}

/// Appends the percent-encoding of `bytes` to `out`.
pub fn push_encoded(out: &mut String, bytes: &[u8], reserved: bool)
    ensures
        final(out)@ == old(out)@ + pct_encode(bytes@, reserved),
{
    let mut i: usize = 0;
    while i < bytes.len()
        invariant
            i <= bytes@.len(),
            out@ == old(out)@ + pct_encode(bytes@.subrange(0, i as int), reserved),
        decreases bytes@.len() - i,
    {
        let b = bytes[i];
        proof {
            let one = seq![b];
            assert(bytes@.subrange(0, i + 1) =~= bytes@.subrange(0, i as int) + one);
            lemma_encode_concat(bytes@.subrange(0, i as int), one, reserved);
            assert(one.drop_first() =~= Seq::<u8>::empty());
            assert(one[0] == b);
            assert(pct_encode(one.drop_first(), reserved) =~= Seq::<char>::empty());
            assert(pct_encode(one, reserved) =~= encode_byte(b, reserved));
        }
        let kept = (0x41 <= b && b <= 0x5a) || (0x61 <= b && b <= 0x7a) || (0x30 <= b && b <= 0x39)
            || b == 0x2d || b == 0x2e || b == 0x5f || b == 0x7e || (reserved && b == 0x2f);
        if kept {
            push_char(out, b as char);
        } else {
            push_char(out, '%');
            push_char(out, hex_char(b / 16));
            push_char(out, hex_char(b % 16));
        }
        i = i + 1;
    }
    assert(bytes@.subrange(0, bytes@.len() as int) =~= bytes@);
}

/// Percent-encodes the UTF-8 bytes of `value`. With `reserved`, `/` stays as it is.
pub fn percent_encode(value: &str, reserved: bool) -> (r: String)
    ensures
        r@ == pct_encode(value.spec_bytes(), reserved),
{
    let mut out = String::new();
    push_encoded(&mut out, value.as_bytes(), reserved);
    out
}

/// `Some(p + r)` where `o` is `Some(r)`.
pub open spec fn prepend_bytes(p: Seq<u8>, o: Option<Seq<u8>>) -> Option<Seq<u8>> {
    match o {
        Some(r) => Some(p + r),
        None => None,
    }
}

/// The value of a hexadecimal digit, in either case.
fn hex_val(c: char) -> (r: Option<u8>)
    ensures
        r == hex_value(c),
{
    let u = c as u32;
    if 0x30 <= u && u <= 0x39 {
        Some((u - 0x30) as u8)
    } else if 0x41 <= u && u <= 0x46 {
        Some((u - 0x41 + 10) as u8)
    } else if 0x61 <= u && u <= 0x66 {
        Some((u - 0x61 + 10) as u8)
    } else {
        None
    }
}

/// Percent-decodes `s` into bytes; `None` where `s` holds a stray `%` or a char beyond ASCII.
pub fn percent_decode(s: &str) -> (r: Option<Vec<u8>>)
    ensures
        match r {
            Some(v) => pct_decode(s@) == Some(v@),
            None => pct_decode(s@) is None,
        },
{
    let n = s.unicode_len();
    let mut out: Vec<u8> = Vec::new();
    let mut i: usize = 0;
    proof {
        assert(s@.subrange(0, n as int) =~= s@);
        match pct_decode(s@) {
            Some(r) => {
                assert(Seq::<u8>::empty() + r =~= r);
            },
            None => {},
        }
    }
    while i < n
        invariant
            n == s@.len(),
            i <= n,
            pct_decode(s@) == prepend_bytes(out@, pct_decode(s@.subrange(i as int, n as int))),
        decreases n - i,
    {
        let ghost t = s@.subrange(i as int, n as int);
        let c = s.get_char(i);
        assert(t[0] == c);
        if c == '%' {
            if n - i <= 2 {
                return None;
            }
            let h = hex_val(s.get_char(i + 1));
            let l = hex_val(s.get_char(i + 2));
            match (h, l) {
                (Some(hv), Some(lv)) => {
                    proof {
                        assert(t.subrange(3, t.len() as int) =~= s@.subrange(i + 3, n as int));
                        let old_out = out@;
                        let b = (hv * 16 + lv) as u8;
                        match pct_decode(s@.subrange(i + 3, n as int)) {
                            Some(rest) => {
                                assert(old_out + (seq![b] + rest) =~= old_out.push(b) + rest);
                            },
                            None => {},
                        }
                    }
                    out.push(hv * 16 + lv);
                    i = i + 3;
                },
                _ => {
                    return None;
                },
            }
        } else if (c as u32) < 0x80 {
            proof {
                assert(t.drop_first() =~= s@.subrange(i + 1, n as int));
                let old_out = out@;
                let b = c as u32 as u8;
                match pct_decode(s@.subrange(i + 1, n as int)) {
                    Some(rest) => {
                        assert(old_out + (seq![b] + rest) =~= old_out.push(b) + rest);
                    },
                    None => {},
                }
            }
            out.push(c as u32 as u8);
            i = i + 1;
        } else {
            return None;
        }
    }
    assert(pct_decode(s@.subrange(n as int, n as int)) == Some(Seq::<u8>::empty()));
    assert(out@ + Seq::<u8>::empty() =~= out@);
    Some(out)
}

} // verus!
