//! Form-url percent-encoding of parameter keys and values.
//!
//! A string is encoded byte by byte over its UTF-8 encoding: ASCII
//! alphanumerics and `-`, `.`, `_`, `~` stand as they are, every other byte
//! becomes `%` followed by two uppercase hex digits. The encoding is given
//! as a spec function; the executable encoder calls an outside crate against
//! that spec, and a verified decoder inverts it.

use vstd::prelude::*;
use vstd::utf8::encode_utf8;

verus! {

/// A byte that form-url-encoding leaves unchanged.
pub open spec fn is_unreserved_byte(b: u8) -> bool {
    ||| (48 <= b && b <= 57)  // '0'..='9'
    ||| (65 <= b && b <= 90)  // 'A'..='Z'
    ||| (97 <= b && b <= 122)  // 'a'..='z'
    ||| b == 45  // '-'
    ||| b == 46  // '.'
    ||| b == 95  // '_'
    ||| b == 126  // '~'
}

/// The uppercase hex digit for a value below 16, as an ASCII byte.
pub open spec fn hex_upper_digit(n: u8) -> u8
    recommends
        n < 16,
{
    if n < 10 {
        (48 + n) as u8
    } else {
        (55 + n) as u8
    }
}

/// The value of an ASCII hex digit byte, uppercase or lowercase.
pub open spec fn hex_value(b: u8) -> Option<u8> {
    if 48 <= b && b <= 57 {
        Some((b - 48) as u8)
    } else if 65 <= b && b <= 70 {
        Some((b - 55) as u8)
    } else if 97 <= b && b <= 102 {
        Some((b - 87) as u8)
    } else {
        None
    }
}

/// The percent-encoding of one byte.
pub open spec fn enc_byte(b: u8) -> Seq<u8> {
    if is_unreserved_byte(b) {
        seq![b]
    } else {
        seq![37u8, hex_upper_digit(b / 16), hex_upper_digit(b % 16)]
    }
}

/// The percent-encoding of a byte string.
pub open spec fn enc_bytes(s: Seq<u8>) -> Seq<u8>
    decreases s.len(),
{
    if s.len() == 0 {
        Seq::empty()
    } else {
        enc_byte(s[0]) + enc_bytes(s.drop_first())
    }
}

/// An ASCII byte string read as characters.
pub open spec fn ascii_chars(s: Seq<u8>) -> Seq<char> {
    s.map(|_i: int, b: u8| b as char)
}

/// The percent-encoding of a string: its UTF-8 bytes encoded, read back as
/// the (all-ASCII) characters of the output.
pub open spec fn enc_str(s: Seq<char>) -> Seq<char> {
    ascii_chars(enc_bytes(encode_utf8(s)))
}

/// Percent-decoding of a byte string: `%` followed by two hex digits becomes
/// one byte, any other byte but `%` stands for itself.
pub open spec fn dec_bytes(s: Seq<u8>) -> Option<Seq<u8>>
    decreases s.len(),
{
    if s.len() == 0 {
        Some(Seq::empty())
    } else if s[0] == 37 {
        if s.len() >= 3 && hex_value(s[1]) is Some && hex_value(s[2]) is Some {
            match dec_bytes(s.skip(3)) {
                Some(rest) => Some(
                    seq![(hex_value(s[1])->0 * 16 + hex_value(s[2])->0) as u8] + rest,
                ),
                None => None,
            }
        } else {
            None
        }
    } else {
        match dec_bytes(s.drop_first()) {
            Some(rest) => Some(seq![s[0]] + rest),
            None => None,
        }
    }
}

/// Relies on urlencoding::encode: percent-encodes every byte of the input's
/// UTF-8 encoding except ASCII alphanumerics and `-`, `.`, `_`, `~`, each
/// escaped byte as `%` plus two uppercase hex digits, in input order.
#[verifier::external_body]
pub(crate) fn encode_component(s: &str) -> (r: String)
    ensures
        r@ == enc_str(s@),
{
    urlencoding::encode(s).into_owned()
}

/// Percent-decodes a byte string; `None` when a `%` is not followed by two
/// hex digits.
pub fn percent_decode(s: &[u8]) -> (r: Option<Vec<u8>>)
    ensures
        match r {
            Some(v) => dec_bytes(s@) == Some(v@),
            None => dec_bytes(s@) is None,
        },
{
    let mut out: Vec<u8> = Vec::new();
    let mut i: usize = 0;
    proof {
        assert(s@.skip(0) =~= s@);
    }
    while i < s.len()
        invariant
            i <= s@.len(),
            dec_bytes(s@) matches Some(w) ==> dec_bytes(s@.skip(i as int)) matches Some(t) && w
                == out@ + t,
            dec_bytes(s@) is None ==> dec_bytes(s@.skip(i as int)) is None,
        decreases s@.len() - i,
    {
        let ghost rem = s@.skip(i as int);
        proof {
            assert(rem[0] == s@[i as int]);
        }
        if s[i] == 37 {
            if s.len() - i > 2 {
                let h = hex_digit_value(s[i + 1]);
                let l = hex_digit_value(s[i + 2]);
                match (h, l) {
                    (Some(hv), Some(lv)) => {
                        proof {
                            assert(rem[1] == s@[i + 1] && rem[2] == s@[i + 2]);
                            assert(rem.skip(3) =~= s@.skip(i + 3));
                            if dec_bytes(s@) is Some {
                                let t = dec_bytes(rem)->0;
                                let t2 = dec_bytes(rem.skip(3))->0;
                                assert(t == seq![(hv * 16 + lv) as u8] + t2);
                                assert(out@ + t =~= (out@ + seq![(hv * 16 + lv) as u8]) + t2);
                            }
                        }
                        out.push(hv * 16 + lv);
                        i = i + 3;
                    },
                    _ => {
                        return None;
                    },
                }
            } else {
                proof {
                    assert(rem.len() < 3);
                }
                return None;
            }
        } else {
            proof {
                assert(rem.drop_first() =~= s@.skip(i + 1));
                if dec_bytes(s@) is Some {
                    let t = dec_bytes(rem)->0;
                    let t2 = dec_bytes(rem.drop_first())->0;
                    assert(t == seq![s@[i as int]] + t2);
                    assert(out@ + t =~= (out@ + seq![s@[i as int]]) + t2);
                }
            }
            out.push(s[i]);
            i = i + 1;
        }
    }
    proof {
        assert(s@.skip(i as int) =~= Seq::<u8>::empty());
        if dec_bytes(s@) is Some {
            assert(dec_bytes(s@)->0 =~= out@);
        }
    }
    Some(out)
}

/// The value of a hex digit byte, uppercase or lowercase.
fn hex_digit_value(b: u8) -> (r: Option<u8>)
    ensures
        r == hex_value(b),
        r matches Some(v) ==> v < 16,
{
    if 48 <= b && b <= 57 {
        Some(b - 48)
    } else if 65 <= b && b <= 70 {
        Some(b - 55)
    } else if 97 <= b && b <= 102 {
        Some(b - 87)
    } else {
        None
    }
}

/// Every byte of an encoded string is unreserved, a `%`, or an uppercase hex
/// digit; in particular it is never `&` or `=`.
pub proof fn lemma_enc_bytes_no_separator(s: Seq<u8>)
    ensures
        forall|j: int|
            0 <= j < enc_bytes(s).len() ==> enc_bytes(s)[j] != 38 && enc_bytes(s)[j] != 61,
    decreases s.len(),
{
    if s.len() == 0 {
    } else {
        lemma_enc_bytes_no_separator(s.drop_first());
        assert forall|j: int| 0 <= j < enc_bytes(s).len() implies enc_bytes(s)[j] != 38
            && enc_bytes(s)[j] != 61 by {
            let head = enc_byte(s[0]);
            if j < head.len() {
                assert(enc_bytes(s)[j] == head[j]);
            } else {
                assert(enc_bytes(s)[j] == enc_bytes(s.drop_first())[j - head.len()]);
            }
        }
    }
}

/// Percent-decoding inverts percent-encoding: decoding the encoding of any
/// byte string gives that byte string back.
pub proof fn lemma_decode_encode(s: Seq<u8>)
    ensures
        dec_bytes(enc_bytes(s)) == Some(s),
    decreases s.len(),
{
    if s.len() == 0 {
        assert(enc_bytes(s).len() == 0);
        assert(dec_bytes(enc_bytes(s)) == Some(Seq::<u8>::empty()));
        assert(s =~= Seq::<u8>::empty());
    } else {
        lemma_decode_encode(s.drop_first());
        let e = enc_bytes(s);
        let head = enc_byte(s[0]);
        let tail = enc_bytes(s.drop_first());
        assert(e == head + tail);
        if is_unreserved_byte(s[0]) {
            assert(e[0] == s[0]);
            assert(s[0] != 37);
            assert(e.drop_first() =~= tail);
            assert(dec_bytes(e) == Some(seq![s[0]] + s.drop_first()));
            assert(seq![s[0]] + s.drop_first() =~= s);
        } else {
            assert(e[0] == 37);
            assert(e[1] == hex_upper_digit(s[0] / 16));
            assert(e[2] == hex_upper_digit(s[0] % 16));
            lemma_hex_value_of_digit(s[0] / 16);
            lemma_hex_value_of_digit(s[0] % 16);
            assert(e.len() >= 3);
            assert(e.skip(3) =~= tail);
            assert((s[0] / 16) * 16 + (s[0] % 16) == s[0]) by {
                assert(s[0] / 16 * 16 + s[0] % 16 == s[0]) by (nonlinear_arith);
            }
            assert(dec_bytes(e) == Some(seq![s[0]] + s.drop_first()));
            assert(seq![s[0]] + s.drop_first() =~= s);
        }
    }
}

/// Every byte of an encoded string is ASCII.
proof fn lemma_enc_bytes_ascii(s: Seq<u8>)
    ensures
        forall|j: int| 0 <= j < enc_bytes(s).len() ==> enc_bytes(s)[j] < 128,
    decreases s.len(),
{
    if s.len() == 0 {
    } else {
        lemma_enc_bytes_ascii(s.drop_first());
        assert forall|j: int| 0 <= j < enc_bytes(s).len() implies enc_bytes(s)[j] < 128 by {
            let head = enc_byte(s[0]);
            if j < head.len() {
                assert(enc_bytes(s)[j] == head[j]);
            } else {
                assert(enc_bytes(s)[j] == enc_bytes(s.drop_first())[j - head.len()]);
            }
        }
    }
}

/// Reading an ASCII byte string as characters and encoding those characters
/// back as UTF-8 gives the same bytes.
proof fn lemma_encode_ascii_chars(b: Seq<u8>)
    requires
        forall|j: int| 0 <= j < b.len() ==> b[j] < 128,
    ensures
        encode_utf8(ascii_chars(b)) == b,
{
    let cs = ascii_chars(b);
    assert(vstd::utf8::is_ascii_chars(cs)) by {
        assert forall|i: int| 0 <= i < cs.len() implies '\0' <= #[trigger] cs[i] <= '\u{7f}' by {
            assert(cs[i] == b[i] as char);
        }
    }
    vstd::utf8::is_ascii_chars_encode_utf8(cs);
    assert forall|i: int| 0 <= i < b.len() implies encode_utf8(cs)[i] == b[i] by {
        assert(cs[i] == b[i] as char);
        assert(cs[i] as u8 == encode_utf8(cs)[i]);
    }
    assert(encode_utf8(cs) =~= b);
}

/// No character of an encoded string is `&` or `=`: splitting a serialized
/// form string on `&` and each pair on `=` is unambiguous.
pub proof fn lemma_enc_str_no_separator(s: Seq<char>)
    ensures
        forall|j: int|
            0 <= j < enc_str(s).len() ==> enc_str(s)[j] != '&' && enc_str(s)[j] != '=',
{
    lemma_enc_bytes_no_separator(encode_utf8(s));
    lemma_enc_bytes_ascii(encode_utf8(s));
    let b = enc_bytes(encode_utf8(s));
    assert forall|j: int| 0 <= j < enc_str(s).len() implies enc_str(s)[j] != '&' && enc_str(s)[j]
        != '=' by {
        assert(enc_str(s)[j] == b[j] as char);
        assert(b[j] as char as u32 == b[j] as u32);
        assert('&' as u32 == 38 && '=' as u32 == 61) by {
            reveal_strlit("&");
            reveal_strlit("=");
        }
    }
}

/// The round trip at the level of strings: percent-decoding the bytes of a
/// string's percent-encoding gives back exactly the UTF-8 bytes of that
/// string — so the original key or value is recovered, also where it holds
/// `&`, `=`, spaces or characters beyond ASCII.
pub proof fn lemma_enc_str_roundtrip(s: Seq<char>)
    ensures
        dec_bytes(encode_utf8(enc_str(s))) == Some(encode_utf8(s)),
{
    lemma_enc_bytes_ascii(encode_utf8(s));
    lemma_encode_ascii_chars(enc_bytes(encode_utf8(s)));
    lemma_decode_encode(encode_utf8(s));
}

/// The hex digit of a value below 16 reads back as that value.
proof fn lemma_hex_value_of_digit(n: u8)
    requires
        n < 16,
    ensures
        hex_value(hex_upper_digit(n)) == Some(n),
{
}

} // verus!
