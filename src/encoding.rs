use vstd::prelude::*;
use vstd::utf8::encode_utf8;

verus! {

/// The bytes that base64's standard engine decodes from `b`, or `None` where it rejects `b`.
pub uninterp spec fn base64_decoded(b: Seq<u8>) -> Option<Seq<u8>>;

/// Relies on `base64::Engine::decode` of the `STANDARD` engine (standard alphabet, padded).
#[verifier::external_body]
pub(crate) fn decode_base64(b: &[u8]) -> (r: Option<Vec<u8>>)
    ensures
        r matches Some(v) ==> base64_decoded(b@) == Some(v@),
        r is None ==> base64_decoded(b@) is None,
{
    base64::Engine::decode(&base64::engine::general_purpose::STANDARD, b).ok()
}

/// An ASCII whitespace byte: space, tab, line feed, carriage return.
pub open spec fn is_whitespace_byte(c: u8) -> bool {
    c == 0x20u8 || c == 0x09u8 || c == 0x0au8 || c == 0x0du8
}

/// The bytes of `b` that are not whitespace, in order.
pub open spec fn without_whitespace(b: Seq<u8>) -> Seq<u8>
    decreases b.len(),
{
    if b.len() == 0 {
        Seq::empty()
    } else if is_whitespace_byte(b.last()) {
        without_whitespace(b.drop_last())
    } else {
        without_whitespace(b.drop_last()).push(b.last())
    }
}

/// Removes the whitespace bytes of `b`.
pub fn strip_whitespace(b: &[u8]) -> (r: Vec<u8>)
    ensures
        r@ == without_whitespace(b@),
{
    let mut r: Vec<u8> = Vec::new();
    let mut i: usize = 0;
    while i < b.len()
        invariant
            i <= b@.len(),
            r@ == without_whitespace(b@.take(i as int)),
        decreases b@.len() - i,
    {
        assert(b@.take(i + 1).drop_last() =~= b@.take(i as int));
        let c = b[i];
        if !(c == 0x20u8 || c == 0x09u8 || c == 0x0au8 || c == 0x0du8) {
            r.push(c);
        }
        i = i + 1;
    }
    assert(b@.take(i as int) =~= b@);
    r
}

/// The base64 text (standard alphabet, padded) that base64's standard engine writes for `b`.
pub uninterp spec fn base64_encoded(b: Seq<u8>) -> Seq<char>;

/// Relies on `base64::Engine::encode` of the `STANDARD` engine, whose text the same
/// engine's `decode` reads back.
#[verifier::external_body]
pub(crate) fn encode_base64(b: &[u8]) -> (r: String)
    ensures
        r@ == base64_encoded(b@),
        base64_decoded(encode_utf8(r@)) == Some(b@),
{
    base64::Engine::encode(&base64::engine::general_purpose::STANDARD, b)
}

/// The raw DEFLATE stream (no zlib header, default level) that flate2 writes for `b`.
pub uninterp spec fn deflated(b: Seq<u8>) -> Seq<u8>;

/// Relies on `flate2::write::DeflateEncoder` with `Compression::default()`, writing into a
/// `Vec`, which does not fail; `DeflateDecoder` reads the stream back.
#[verifier::external_body]
pub(crate) fn deflate(b: &[u8]) -> (r: Vec<u8>)
    ensures
        r@ == deflated(b@),
        inflated(r@) == Some(b@),
{
    let mut e = flate2::write::DeflateEncoder::new(Vec::new(), flate2::Compression::default());
    std::io::Write::write_all(&mut e, b).expect("writing into a Vec does not fail");
    e.finish().expect("writing into a Vec does not fail")
}

/// The bytes that flate2 inflates from a raw DEFLATE stream, or `None` where it reports an
/// error.
pub uninterp spec fn inflated(b: Seq<u8>) -> Option<Seq<u8>>;

/// Relies on `flate2::read::DeflateDecoder`, read to the end.
#[verifier::external_body]
pub(crate) fn inflate(b: &[u8]) -> (r: Option<Vec<u8>>)
    ensures
        match inflated(b@) {
            Some(d) => r matches Some(v) && v@ == d,
            None => r is None,
        },
{
    let mut d = flate2::read::DeflateDecoder::new(b);
    let mut out: Vec<u8> = Vec::new();
    match std::io::Read::read_to_end(&mut d, &mut out) {
        Ok(_) => Some(out),
        Err(_) => None,
    }
}

/// A byte that `application/x-www-form-urlencoded` leaves as it is: `*-._`, digits and
/// ASCII letters.
pub open spec fn form_unchanged(b: u8) -> bool {
    b == 0x2au8 || b == 0x2du8 || b == 0x2eu8 || b == 0x5fu8 || (0x30u8 <= b <= 0x39u8) || (0x41u8
        <= b <= 0x5au8) || (0x61u8 <= b <= 0x7au8)
}

/// The upper-case hexadecimal digit of `n < 16`.
pub open spec fn hex_digit(n: u8) -> char {
    if n < 10 {
        ((n + 48) as u8) as char
    } else {
        ((n + 55) as u8) as char
    }
}

/// The form encoding of one byte: itself, `+` for a space, else `%` and two hex digits.
pub open spec fn form_encoded_byte(b: u8) -> Seq<char> {
    if form_unchanged(b) {
        seq![b as char]
    } else if b == 0x20u8 {
        seq!['+']
    } else {
        seq!['%', hex_digit(b / 16), hex_digit(b % 16)]
    }
}

/// The `application/x-www-form-urlencoded` form of a byte string.
pub open spec fn form_encoded(b: Seq<u8>) -> Seq<char>
    decreases b.len(),
{
    if b.len() == 0 {
        Seq::empty()
    } else {
        form_encoded_byte(b[0]) + form_encoded(b.drop_first())
    }
}

/// Relies on `url::form_urlencoded::byte_serialize` over the UTF-8 bytes of `s`.
#[verifier::external_body]
pub(crate) fn form_encode(s: &str) -> (r: String)
    ensures
        r@ == form_encoded(encode_utf8(s@)),
{
    url::form_urlencoded::byte_serialize(s.as_bytes()).collect::<String>()
}

pub open spec fn is_hex_char(c: char) -> bool {
    ('0' <= c <= '9') || ('A' <= c <= 'F')
}

pub open spec fn hex_value(c: char) -> int {
    if c <= '9' {
        c as int - 48
    } else {
        c as int - 55
    }
}

pub open spec fn is_unchanged_char(c: char) -> bool {
    (c as u32) < 128 && form_unchanged(c as u8)
}

pub open spec fn prepend(b: u8, rest: Option<Seq<u8>>) -> Option<Seq<u8>> {
    match rest {
        Some(t) => Some(seq![b] + t),
        None => None,
    }
}

/// The bytes that a form-encoded text stands for, or `None` where it holds a character
/// that the encoding never writes or a `%` without two upper-case hex digits.
pub open spec fn form_decoded(s: Seq<char>) -> Option<Seq<u8>>
    decreases s.len(),
{
    if s.len() == 0 {
        Some(Seq::empty())
    } else if s[0] == '+' {
        prepend(0x20u8, form_decoded(s.drop_first()))
    } else if s[0] == '%' {
        if s.len() >= 3 && is_hex_char(s[1]) && is_hex_char(s[2]) {
            prepend(
                (hex_value(s[1]) * 16 + hex_value(s[2])) as u8,
                form_decoded(s.subrange(3, s.len() as int)),
            )
        } else {
            None
        }
    } else if is_unchanged_char(s[0]) {
        prepend(s[0] as u8, form_decoded(s.drop_first()))
    } else {
        None
    }
}

proof fn lemma_hex_digit(n: u8)
    requires
        n < 16,
    ensures
        is_hex_char(hex_digit(n)),
        hex_value(hex_digit(n)) == n as int,
{
}

/// Decoding a form encoding gives the bytes back.
pub proof fn lemma_form_round_trip(b: Seq<u8>)
    ensures
        form_decoded(form_encoded(b)) == Some(b),
    decreases b.len(),
{
    if b.len() > 0 {
        let c = b[0];
        let e = form_encoded(b.drop_first());
        let s = form_encoded(b);
        lemma_form_round_trip(b.drop_first());
        assert(s == form_encoded_byte(c) + e);
        if form_unchanged(c) {
            assert(s.drop_first() =~= e);
            assert(s[0] == c as char);
        } else if c == 0x20u8 {
            assert(s.drop_first() =~= e);
        } else {
            lemma_hex_digit(c / 16);
            lemma_hex_digit(c % 16);
            assert(s.subrange(3, s.len() as int) =~= e);
            assert((c / 16) as int * 16 + (c % 16) as int == c as int);
        }
        assert(seq![c] + b.drop_first() =~= b);
    }
}

/// Reads back the bytes of a form-encoded text.
pub fn form_decode(s: &str) -> (r: Option<Vec<u8>>)
    ensures
        match form_decoded(s@) {
            Some(d) => r matches Some(v) && v@ == d,
            None => r is None,
        },
{
    let n = s.unicode_len();
    let ghost full = s@;
    let mut out: Vec<u8> = Vec::new();
    let mut i: usize = 0;
    assert(full.subrange(0, n as int) =~= full);
    proof {
        match form_decoded(full) {
            Some(t) => assert(out@ + t =~= t),
            None => {},
        }
    }
    while i < n
        invariant
            n == full.len(),
            full == s@,
            i <= n,
            form_decoded(full) == match form_decoded(full.subrange(i as int, n as int)) {
                Some(t) => Some(out@ + t),
                None => None::<Seq<u8>>,
            },
        decreases n - i,
    {
        let ghost rest = full.subrange(i as int, n as int);
        let ghost old_out = out@;
        let c = s.get_char(i);
        assert(rest[0] == c);
        if c == '+' {
            assert(rest.drop_first() =~= full.subrange(i + 1, n as int));
            out.push(0x20u8);
            i = i + 1;
            proof {
                match form_decoded(full.subrange(i as int, n as int)) {
                    Some(t) => assert(old_out + (seq![0x20u8] + t) =~= out@ + t),
                    None => {},
                }
            }
        } else if c == '%' {
            if n - i < 3 {
                return None;
            }
            let h = s.get_char(i + 1);
            let l = s.get_char(i + 2);
            assert(rest[1] == h && rest[2] == l);
            let hv: u32 = if '0' <= h && h <= '9' {
                h as u32 - 48
            } else if 'A' <= h && h <= 'F' {
                h as u32 - 55
            } else {
                return None;
            };
            let lv: u32 = if '0' <= l && l <= '9' {
                l as u32 - 48
            } else if 'A' <= l && l <= 'F' {
                l as u32 - 55
            } else {
                return None;
            };
            let byte: u8 = (hv * 16 + lv) as u8;
            assert(byte == (hex_value(h) * 16 + hex_value(l)) as u8);
            assert(rest.subrange(3, rest.len() as int) =~= full.subrange(i + 3, n as int));
            out.push(byte);
            i = i + 3;
            proof {
                match form_decoded(full.subrange(i as int, n as int)) {
                    Some(t) => assert(old_out + (seq![byte] + t) =~= out@ + t),
                    None => {},
                }
            }
        } else {
            let cv: u32 = c as u32;
            if cv >= 128 {
                return None;
            }
            let byte: u8 = cv as u8;
            if !(byte == 0x2au8 || byte == 0x2du8 || byte == 0x2eu8 || byte == 0x5fu8 || (0x30u8 <= byte
                && byte <= 0x39u8) || (0x41u8 <= byte && byte <= 0x5au8) || (0x61u8 <= byte && byte
                <= 0x7au8)) {
                return None;
            }
            assert(byte == c as u8);
            assert(rest.drop_first() =~= full.subrange(i + 1, n as int));
            out.push(byte);
            i = i + 1;
            proof {
                match form_decoded(full.subrange(i as int, n as int)) {
                    Some(t) => assert(old_out + (seq![byte] + t) =~= out@ + t),
                    None => {},
                }
            }
        }
    }
    assert(full.subrange(n as int, n as int) =~= Seq::<char>::empty());
    assert(out@ + Seq::<u8>::empty() =~= out@);
    Some(out)
}

/// Whether the url crate accepts a text as an absolute URL.
pub uninterp spec fn parses_as_url(s: Seq<char>) -> bool;

/// Relies on `url::Url::parse`.
#[verifier::external_body]
pub(crate) fn is_url(s: &str) -> (r: bool)
    ensures
        r == parses_as_url(s@),
{
    url::Url::parse(s).is_ok()
}

} // verus!
