//! Text encodings of bytes: hexadecimal, base64url, percent encoding, JSON strings, UTF-8.
use vstd::prelude::*;
use vstd::utf8::*;

verus! {

/// The lower-case hexadecimal digit of a number below sixteen.
pub open spec fn hex_digit(d: int) -> char {
    seq!['0', '1', '2', '3', '4', '5', '6', '7', '8', '9', 'a', 'b', 'c', 'd', 'e', 'f'][d]
}

/// The bytes in lower-case hexadecimal, two digits for each.
pub open spec fn hex(data: Seq<u8>) -> Seq<char> {
    Seq::new(
        2 * data.len(),
        |i: int|
            if i % 2 == 0 {
                hex_digit(data[i / 2] as int / 16)
            } else {
                hex_digit(data[i / 2] as int % 16)
            },
    )
}

/// `hex::encode`: the bytes in lower-case hexadecimal, two digits for each.
#[verifier::external_body]
pub(crate) fn hex_encode(data: &[u8]) -> (r: String)
    ensures
        r@ == hex(data@),
{
    hex::encode(data)
}

/// The character that stands for six bits in base64 with the URL-safe alphabet.
pub open spec fn base64url_char(v: int) -> char {
    if v < 26 {
        ('A' as u32 + v) as char
    } else if v < 52 {
        ('a' as u32 + (v - 26)) as char
    } else if v < 62 {
        ('0' as u32 + (v - 52)) as char
    } else if v == 62 {
        '-'
    } else {
        '_'
    }
}

/// The `i`-th group of six bits of the data, filled up with zero bits at the end.
pub open spec fn sextet(data: Seq<u8>, i: int) -> int {
    let at = 6 * i / 8;
    let low = if at + 1 < data.len() {
        data[at + 1] as int
    } else {
        0
    };
    let pair = 256 * data[at] as int + low;
    let shift: int = if i % 4 == 0 {
        1024
    } else if i % 4 == 1 {
        16
    } else if i % 4 == 2 {
        64
    } else {
        256
    };
    (pair / shift) % 64
}

/// The data in base64 with the URL-safe alphabet and without padding.
pub open spec fn base64url(data: Seq<u8>) -> Seq<char> {
    Seq::new((data.len() * 8 + 5) / 6, |i: int| base64url_char(sextet(data, i)))
}

/// `base64`'s `URL_SAFE_NO_PAD.encode`: the data in base64 with the URL-safe alphabet and
/// without padding.
#[verifier::external_body]
pub(crate) fn base64url_encode(data: &[u8]) -> (r: String)
    ensures
        r@ == base64url(data@),
{
    base64::Engine::encode(&base64::engine::general_purpose::URL_SAFE_NO_PAD, data)
}

/// `base64::DecodeError`, which says why a text is not base64.
#[verifier::external_type_specification]
#[verifier::external_body]
pub struct ExDecodeError(base64::DecodeError);

/// `base64`'s `URL_SAFE_NO_PAD.decode`: the bytes whose encoding is the text, and an error where
/// no bytes are encoded so. Padding and non-zero spare bits are errors.
#[verifier::external_body]
pub(crate) fn base64url_decode(data: &str) -> (r: Result<Vec<u8>, base64::DecodeError>)
    ensures
        r matches Ok(bytes) ==> base64url(bytes@) == data@,
        r is Err ==> forall|x: Seq<u8>| #[trigger] base64url(x) != data@,
{
    base64::Engine::decode(&base64::engine::general_purpose::URL_SAFE_NO_PAD, data)
}

/// The bytes whose encoding is the text, if there are any.
pub open spec fn base64url_decoded(text: Seq<char>) -> Option<Seq<u8>> {
    if exists|x: Seq<u8>| #[trigger] base64url(x) == text {
        Some(choose|x: Seq<u8>| #[trigger] base64url(x) == text)
    } else {
        None
    }
}

/// The bytes of a text in base64url, if it is in base64url.
pub fn decode_base64url(text: &str) -> (r: Option<Vec<u8>>)
    ensures
        match r {
            Some(bytes) => base64url_decoded(text@) == Some(bytes@),
            None => base64url_decoded(text@) is None,
        },
{
    match base64url_decode(text) {
        Ok(bytes) => {
            proof {
                law_base64url_is_decoded(bytes@);
            }
            Some(bytes)
        },
        Err(_) => None,
    }
}

/// Decoding gives back the bytes that were encoded.
pub proof fn law_base64url_is_decoded(data: Seq<u8>)
    ensures
        base64url_decoded(base64url(data)) == Some(data),
{
    let other = choose|x: Seq<u8>| #[trigger] base64url(x) == base64url(data);
    assert(base64url(data) == base64url(data));
    lemma_base64url_injective(other, data);
}

proof fn lemma_base64url_char_injective(v: int, w: int)
    requires
        0 <= v < 64,
        0 <= w < 64,
        base64url_char(v) == base64url_char(w),
    ensures
        v == w,
{
}

/// What the four shifts make of two bytes.
proof fn lemma_shifts(d: u32, low: u32)
    requires
        d < 256,
        low < 256,
    ensures
        ((256 * d + low) / 1024) % 64 == d / 4,
        ((256 * d + low) / 16) % 64 == 16 * (d % 4) + low / 16,
        ((256 * d + low) / 64) % 64 == 4 * (d % 16) + low / 64,
        ((256 * d + low) / 256) % 64 == d % 64,
{
    assert(((256 * d + low) / 1024) % 64 == d / 4) by (bit_vector)
        requires
            d < 256,
            low < 256,
    ;
    assert(((256 * d + low) / 16) % 64 == 16 * (d % 4) + low / 16) by (bit_vector)
        requires
            d < 256,
            low < 256,
    ;
    assert(((256 * d + low) / 64) % 64 == 4 * (d % 16) + low / 64) by (bit_vector)
        requires
            d < 256,
            low < 256,
    ;
    assert(((256 * d + low) / 256) % 64 == d % 64) by (bit_vector)
        requires
            d < 256,
            low < 256,
    ;
}

/// The byte at a position, and zero behind the end.
spec fn byte_at(data: Seq<u8>, k: int) -> u32 {
    if k < data.len() {
        data[k] as u32
    } else {
        0
    }
}

/// A group of six bits is cut out of two bytes.
proof fn lemma_sextet(data: Seq<u8>, i: int, at: int)
    requires
        at == 6 * i / 8,
        0 <= at < data.len(),
    ensures
        i % 4 == 0 ==> sextet(data, i) == byte_at(data, at) / 4,
        i % 4 == 1 ==> sextet(data, i) == 16 * (byte_at(data, at) % 4) + byte_at(data, at + 1) / 16,
        i % 4 == 2 ==> sextet(data, i) == 4 * (byte_at(data, at) % 16) + byte_at(data, at + 1) / 64,
        i % 4 == 3 ==> sextet(data, i) == byte_at(data, at) % 64,
{
    lemma_shifts(byte_at(data, at), byte_at(data, at + 1));
}

/// A byte is determined by the two groups of six bits in which its bits lie.
proof fn lemma_byte_of_sextets(data: Seq<u8>, q: int, t: int)
    requires
        0 <= q,
        0 <= t < 3,
        3 * q + t < data.len(),
    ensures
        t == 0 ==> data[3 * q] == 4 * sextet(data, 4 * q) + sextet(data, 4 * q + 1) / 16,
        t == 1 ==> data[3 * q + 1] == 16 * (sextet(data, 4 * q + 1) % 16) + sextet(
            data,
            4 * q + 2,
        ) / 4,
        t == 2 ==> data[3 * q + 2] == 64 * (sextet(data, 4 * q + 2) % 4) + sextet(
            data,
            4 * q + 3,
        ),
{
    if t == 0 {
        lemma_sextet(data, 4 * q, 3 * q);
        lemma_sextet(data, 4 * q + 1, 3 * q);
    } else if t == 1 {
        lemma_sextet(data, 4 * q + 1, 3 * q);
        lemma_sextet(data, 4 * q + 2, 3 * q + 1);
    } else {
        lemma_sextet(data, 4 * q + 2, 3 * q + 1);
        lemma_sextet(data, 4 * q + 3, 3 * q + 2);
    }
}

/// Different bytes have different encodings.
pub proof fn lemma_base64url_injective(a: Seq<u8>, b: Seq<u8>)
    requires
        base64url(a) == base64url(b),
    ensures
        a == b,
{
    assert(base64url(a).len() == (a.len() * 8 + 5) / 6);
    assert(base64url(b).len() == (b.len() * 8 + 5) / 6);
    assert(a.len() == b.len());
    assert forall|i: int| 0 <= i < base64url(a).len() implies #[trigger] sextet(a, i) == sextet(
        b,
        i,
    ) by {
        assert(base64url(a)[i] == base64url_char(sextet(a, i)));
        assert(base64url(b)[i] == base64url_char(sextet(b, i)));
        lemma_base64url_char_injective(sextet(a, i), sextet(b, i));
    }
    assert forall|k: int| 0 <= k < a.len() implies a[k] == b[k] by {
        let q = k / 3;
        let t = k % 3;
        assert(k == 3 * q + t);
        lemma_byte_of_sextets(a, q, t);
        lemma_byte_of_sextets(b, q, t);
        assert(4 * q + t + 1 < base64url(a).len());
        assert(sextet(a, 4 * q + t) == sextet(b, 4 * q + t));
        assert(sextet(a, 4 * q + t + 1) == sextet(b, 4 * q + t + 1));
    }
    assert(a =~= b);
}

/// The dot is no character of base64url.
pub proof fn lemma_base64url_without_dot(data: Seq<u8>)
    ensures
        !base64url(data).contains('.'),
{
    assert forall|i: int| 0 <= i < base64url(data).len() implies base64url(data)[i] != '.' by {
        let v = sextet(data, i);
        assert(0 <= v < 64);
    }
}

/// The byte stands for itself in a percent-encoded text.
pub open spec fn unreserved(b: u8) -> bool {
    ||| 48 <= b <= 57
    ||| 65 <= b <= 90
    ||| 97 <= b <= 122
    ||| b == 45
    ||| b == 46
    ||| b == 95
    ||| b == 126
}

/// The upper-case hexadecimal digit of a number below sixteen.
pub open spec fn upper_hex_digit(d: int) -> char {
    seq!['0', '1', '2', '3', '4', '5', '6', '7', '8', '9', 'A', 'B', 'C', 'D', 'E', 'F'][d]
}

/// The bytes percent-encoded: letters, digits, `-`, `.`, `_` and `~` stay, any other byte becomes
/// `%` and two upper-case hexadecimal digits.
pub open spec fn percent_encoded(data: Seq<u8>) -> Seq<char>
    decreases data.len(),
{
    if data.len() == 0 {
        Seq::empty()
    } else if unreserved(data[0]) {
        seq![data[0] as char] + percent_encoded(data.skip(1))
    } else {
        seq![
            '%',
            upper_hex_digit(data[0] as int / 16),
            upper_hex_digit(data[0] as int % 16),
        ] + percent_encoded(data.skip(1))
    }
}

/// `urlencoding::encode`: the UTF-8 bytes of the text percent-encoded.
#[verifier::external_body]
pub(crate) fn url_encode(data: &str) -> (r: String)
    ensures
        r@ == percent_encoded(encode_utf8(data@)),
{
    urlencoding::encode(data).into_owned()
}

/// The value of a hexadecimal digit of either case.
pub open spec fn hex_value(b: u8) -> Option<int> {
    if 48 <= b <= 57 {
        Some(b - 48)
    } else if 65 <= b <= 70 {
        Some(b - 55)
    } else if 97 <= b <= 102 {
        Some(b - 87)
    } else {
        None
    }
}

/// The bytes with each `%` that two hexadecimal digits follow replaced, with them, by the byte
/// that they denote.
pub open spec fn percent_decoded(data: Seq<u8>) -> Seq<u8>
    decreases data.len(),
{
    if data.len() == 0 {
        Seq::empty()
    } else if data[0] == 37 && data.len() >= 3 && hex_value(data[1]) is Some && hex_value(
        data[2],
    ) is Some {
        seq![(16 * hex_value(data[1])->0 + hex_value(data[2])->0) as u8] + percent_decoded(
            data.skip(3),
        )
    } else {
        seq![data[0]] + percent_decoded(data.skip(1))
    }
}

/// `std::string::FromUtf8Error`, which says where bytes are not UTF-8.
#[verifier::external_type_specification]
#[verifier::external_body]
pub struct ExFromUtf8Error(std::string::FromUtf8Error);

/// `urlencoding::decode`: the text whose UTF-8 bytes are the percent-decoded bytes of `data`, and
/// an error where these are not UTF-8.
#[verifier::external_body]
pub(crate) fn url_decode(data: &str) -> (r: Result<String, std::string::FromUtf8Error>)
    ensures
        r is Ok <==> valid_utf8(percent_decoded(encode_utf8(data@))),
        r matches Ok(text) ==> encode_utf8(text@) == percent_decoded(encode_utf8(data@)),
{
    urlencoding::decode(data).map(|text| text.into_owned())
}

/// A character as it stands within a JSON string.
pub open spec fn json_char(c: char) -> Seq<char> {
    if c == '"' {
        seq!['\\', '"']
    } else if c == '\\' {
        seq!['\\', '\\']
    } else if c == '\u{8}' {
        seq!['\\', 'b']
    } else if c == '\t' {
        seq!['\\', 't']
    } else if c == '\n' {
        seq!['\\', 'n']
    } else if c == '\u{c}' {
        seq!['\\', 'f']
    } else if c == '\r' {
        seq!['\\', 'r']
    } else if c as int <= 0x1f {
        seq!['\\', 'u', '0', '0', hex_digit(c as int / 16), hex_digit(c as int % 16)]
    } else {
        seq![c]
    }
}

/// The characters of a text as they stand within a JSON string.
pub open spec fn json_chars(s: Seq<char>) -> Seq<char>
    decreases s.len(),
{
    if s.len() == 0 {
        Seq::empty()
    } else {
        json_char(s[0]) + json_chars(s.skip(1))
    }
}

/// A text as a JSON string.
pub open spec fn json_string(s: Seq<char>) -> Seq<char> {
    seq!['"'] + json_chars(s) + seq!['"']
}

/// `serde_json::Error`, which says why a value has no JSON form.
#[verifier::external_type_specification]
#[verifier::external_body]
pub struct ExJsonError(serde_json::Error);

/// `serde_json::to_string` of a text: the text as a JSON string, in which quotation mark,
/// backslash and control characters are escaped. A text always has one.
#[verifier::external_body]
pub(crate) fn json_quote(s: &str) -> (r: Result<String, serde_json::Error>)
    ensures
        r is Ok,
        r->Ok_0@ == json_string(s@),
{
    serde_json::to_string(s)
}

/// What `String::from_utf8_lossy` makes of bytes.
pub uninterp spec fn lossy_text(data: Seq<u8>) -> Seq<char>;

/// `String::from_utf8_lossy`: the text that the bytes encode in UTF-8, where parts that are not
/// UTF-8 give way to replacement characters. Bytes that are UTF-8 throughout are kept.
#[verifier::external_body]
pub(crate) fn utf8_lossy(data: &[u8]) -> (r: String)
    ensures
        r@ == lossy_text(data@),
        valid_utf8(data@) ==> encode_utf8(r@) == data@,
{
    String::from_utf8_lossy(data).into_owned()
}

/// A text is decoded to the bytes whose base64url it is, and to nothing where it is that of none.
pub proof fn law_only_base64url_is_decoded(text: &str, r: Option<Vec<u8>>)
    requires
        call_ensures(decode_base64url, (text,), r),
    ensures
        match r {
            Some(bytes) => base64url(bytes@) == text@,
            None => forall|data: Seq<u8>| #[trigger] base64url(data) != text@,
        },
{
}

} // verus!
