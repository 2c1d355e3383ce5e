//! Encodings of bytes and text that the sign-in uses.

use base64::Engine;
use rand::RngCore;
use sha2::Digest;
use vstd::prelude::*;
use vstd::utf8::encode_utf8;

verus! {

/// The symbol of the URL-safe base64 alphabet for a number below 64.
pub open spec fn url_safe_symbol(value: int) -> char {
    if value < 26 {
        ('A' as int + value) as char
    } else if value < 52 {
        ('a' as int + value - 26) as char
    } else if value < 62 {
        ('0' as int + value - 52) as char
    } else if value == 62 {
        '-'
    } else {
        '_'
    }
}

/// The byte at a position, or zero behind the end.
pub open spec fn byte_or_zero(bytes: Seq<u8>, at: int) -> int {
    if 0 <= at < bytes.len() {
        bytes[at] as int
    } else {
        0
    }
}

/// The `k`-th group of six bits of the bytes, high bits first, zeros behind the end.
pub open spec fn sextet(bytes: Seq<u8>, k: int) -> int {
    let word = byte_or_zero(bytes, 3 * (k / 4)) * 65536 + byte_or_zero(bytes, 3 * (k / 4) + 1) * 256
        + byte_or_zero(bytes, 3 * (k / 4) + 2);
    if k % 4 == 0 {
        word / 262144
    } else if k % 4 == 1 {
        (word / 4096) % 64
    } else if k % 4 == 2 {
        (word / 64) % 64
    } else {
        word % 64
    }
}

/// The URL-safe base64 text of the bytes, without padding.
pub open spec fn url_safe_base64(bytes: Seq<u8>) -> Seq<char> {
    Seq::new(((8 * bytes.len() + 5) / 6) as nat, |k: int| url_safe_symbol(sextet(bytes, k)))
}

/// The bytes of which the text is the URL-safe base64 form, where there are any.
pub open spec fn url_safe_decoded(text: Seq<char>) -> Option<Seq<u8>> {
    if exists|bytes: Seq<u8>| url_safe_base64(bytes) == text {
        Some(choose|bytes: Seq<u8>| url_safe_base64(bytes) == text)
    } else {
        None
    }
}

/// The symbol of the alphabet is a letter, a digit, `-` or `_`.
pub open spec fn is_url_safe(c: char) -> bool {
    ||| 'A' <= c <= 'Z'
    ||| 'a' <= c <= 'z'
    ||| '0' <= c <= '9'
    ||| c == '-'
    ||| c == '_'
}

/// The hexadecimal digit, in capitals, for a number below 16.
pub open spec fn hex_digit(value: int) -> char {
    if value < 10 {
        ('0' as int + value) as char
    } else {
        ('A' as int + value - 10) as char
    }
}

/// A percent sign and the byte in two hexadecimal digits.
pub open spec fn percent_byte(byte: u8) -> Seq<char> {
    seq!['%', hex_digit(byte as int / 16), hex_digit(byte as int % 16)]
}

/// The byte is an ASCII letter or digit.
pub open spec fn is_alphanumeric(byte: u8) -> bool {
    ||| 0x30 <= byte <= 0x39
    ||| 0x41 <= byte <= 0x5a
    ||| 0x61 <= byte <= 0x7a
}

/// The bytes with every one but letters, digits, `-`, `_`, `.` and `~` percent-encoded.
pub open spec fn percent_encoded(bytes: Seq<u8>) -> Seq<char>
    decreases bytes.len(),
{
    if bytes.len() == 0 {
        Seq::empty()
    } else {
        let byte = bytes.first();
        let head = if is_alphanumeric(byte) || byte == 0x2d || byte == 0x5f || byte == 0x2e || byte
            == 0x7e {
            seq![byte as char]
        } else {
            percent_byte(byte)
        };
        head + percent_encoded(bytes.drop_first())
    }
}

/// A name or a value of a form: letters, digits, `*`, `-`, `.` and `_` as they are, a space as
/// `+`, every other byte percent-encoded.
pub open spec fn form_component(bytes: Seq<u8>) -> Seq<char>
    decreases bytes.len(),
{
    if bytes.len() == 0 {
        Seq::empty()
    } else {
        let byte = bytes.first();
        let head = if is_alphanumeric(byte) || byte == 0x2a || byte == 0x2d || byte == 0x2e || byte
            == 0x5f {
            seq![byte as char]
        } else if byte == 0x20 {
            seq!['+']
        } else {
            percent_byte(byte)
        };
        head + form_component(bytes.drop_first())
    }
}

/// One pair of a form: the name, `=` and the value.
pub open spec fn form_pair(pair: (Seq<char>, Seq<char>)) -> Seq<char> {
    form_component(encode_utf8(pair.0)) + seq!['='] + form_component(encode_utf8(pair.1))
}

/// The pairs in the syntax `application/x-www-form-urlencoded`.
pub open spec fn form_encoded(pairs: Seq<(Seq<char>, Seq<char>)>) -> Seq<char>
    decreases pairs.len(),
{
    if pairs.len() == 0 {
        Seq::empty()
    } else if pairs.len() == 1 {
        form_pair(pairs[0])
    } else {
        form_encoded(pairs.drop_last()) + seq!['&'] + form_pair(pairs.last())
    }
}

/// The pairs that a query in the syntax `application/x-www-form-urlencoded` holds, in its order.
pub uninterp spec fn form_pairs(query: Seq<char>) -> Seq<(Seq<char>, Seq<char>)>;

/// The SHA-256 digest of the bytes.
pub uninterp spec fn sha256(bytes: Seq<u8>) -> Seq<u8>;

/// The characters of borrowed pairs.
pub open spec fn str_pairs(pairs: Seq<(&str, &str)>) -> Seq<(Seq<char>, Seq<char>)> {
    pairs.map_values(|pair: (&str, &str)| (pair.0@, pair.1@))
}

/// The characters of owned pairs.
pub open spec fn string_pairs(pairs: Seq<(String, String)>) -> Seq<(Seq<char>, Seq<char>)> {
    pairs.map_values(|pair: (String, String)| (pair.0@, pair.1@))
}

/// Three bytes as one number, zeros behind the end: what four symbols stand for.
spec fn triple(bytes: Seq<u8>, group: int) -> int {
    byte_or_zero(bytes, 3 * group) * 65536 + byte_or_zero(bytes, 3 * group + 1) * 256
        + byte_or_zero(bytes, 3 * group + 2)
}

proof fn lemma_symbols_differ(x: int, y: int)
    requires
        0 <= x < 64,
        0 <= y < 64,
        url_safe_symbol(x) == url_safe_symbol(y),
    ensures
        x == y,
{
}

proof fn lemma_sextet_range(bytes: Seq<u8>, k: int)
    requires
        0 <= k,
    ensures
        0 <= sextet(bytes, k) < 64,
{
}

proof fn lemma_sextets_of_triple(bytes: Seq<u8>, group: int)
    requires
        0 <= group,
    ensures
        sextet(bytes, 4 * group) == triple(bytes, group) / 262144,
        sextet(bytes, 4 * group + 1) == (triple(bytes, group) / 4096) % 64,
        sextet(bytes, 4 * group + 2) == (triple(bytes, group) / 64) % 64,
        sextet(bytes, 4 * group + 3) == triple(bytes, group) % 64,
{
    assert((4 * group) / 4 == group && (4 * group) % 4 == 0);
    assert((4 * group + 1) / 4 == group && (4 * group + 1) % 4 == 1);
    assert((4 * group + 2) / 4 == group && (4 * group + 2) % 4 == 2);
    assert((4 * group + 3) / 4 == group && (4 * group + 3) % 4 == 3);
}

/// The symbols at one position of equal texts stand for equal numbers.
proof fn lemma_same_sextet(a: Seq<u8>, b: Seq<u8>, k: int)
    requires
        a.len() == b.len(),
        0 <= k < (8 * a.len() + 5) / 6,
        url_safe_base64(a) == url_safe_base64(b),
    ensures
        sextet(a, k) == sextet(b, k),
{
    assert(url_safe_base64(a)[k] == url_safe_symbol(sextet(a, k)));
    assert(url_safe_base64(b)[k] == url_safe_symbol(sextet(b, k)));
    lemma_sextet_range(a, k);
    lemma_sextet_range(b, k);
    lemma_symbols_differ(sextet(a, k), sextet(b, k));
}

/// A number of three bytes is made of its four groups of six bits.
proof fn lemma_triple_from_sextets(word: int)
    requires
        0 <= word < 16777216,
    ensures
        word == word / 262144 * 262144 + word / 4096 % 64 * 4096 + word / 64 % 64 * 64 + word % 64,
{
}

/// The third group of a single byte is empty.
proof fn lemma_whole_byte(first: int)
    requires
        0 <= first < 256,
    ensures
        (first * 65536) / 64 % 64 == 0,
{
    let word = first * 65536;
    assert(word == 64 * (first * 1024));
    assert(word / 64 == first * 1024);
    assert((first * 1024) % 64 == 0);
}

/// The fourth group of two bytes is empty.
proof fn lemma_whole_bytes(first: int, second: int)
    ensures
        (first * 65536 + second * 256) % 64 == 0,
{
}

/// A group of symbols determines the bytes of the group.
proof fn lemma_same_group(a: Seq<u8>, b: Seq<u8>, group: int)
    requires
        a.len() == b.len(),
        0 <= 3 * group < a.len(),
        url_safe_base64(a) == url_safe_base64(b),
    ensures
        triple(a, group) == triple(b, group),
{
    let n = a.len() as int;
    lemma_sextets_of_triple(a, group);
    lemma_sextets_of_triple(b, group);
    lemma_triple_from_sextets(triple(a, group));
    lemma_triple_from_sextets(triple(b, group));
    lemma_same_sextet(a, b, 4 * group);
    lemma_same_sextet(a, b, 4 * group + 1);
    if n >= 3 * group + 2 {
        lemma_same_sextet(a, b, 4 * group + 2);
    } else {
        lemma_whole_byte(byte_or_zero(a, 3 * group));
        lemma_whole_byte(byte_or_zero(b, 3 * group));
    }
    if n >= 3 * group + 3 {
        lemma_same_sextet(a, b, 4 * group + 3);
    } else {
        lemma_whole_bytes(byte_or_zero(a, 3 * group), byte_or_zero(a, 3 * group + 1));
        lemma_whole_bytes(byte_or_zero(b, 3 * group), byte_or_zero(b, 3 * group + 1));
    }
}

/// Different bytes have different base64 texts.
pub proof fn url_safe_base64_is_injective(a: Seq<u8>, b: Seq<u8>)
    requires
        url_safe_base64(a) == url_safe_base64(b),
    ensures
        a == b,
{
    let n = a.len() as int;
    let m = b.len() as int;
    assert(url_safe_base64(a).len() == (8 * n + 5) / 6);
    assert(url_safe_base64(b).len() == (8 * m + 5) / 6);
    assert(n == m);
    assert forall|j: int| 0 <= j < a.len() implies a[j] == b[j] by {
        let group = j / 3;
        lemma_same_group(a, b, group);
        assert(byte_or_zero(a, 3 * group) == byte_or_zero(b, 3 * group));
        assert(byte_or_zero(a, 3 * group + 1) == byte_or_zero(b, 3 * group + 1));
        assert(byte_or_zero(a, 3 * group + 2) == byte_or_zero(b, 3 * group + 2));
        assert(byte_or_zero(a, j) == byte_or_zero(b, j));
    }
    assert(a == b);
}

/// Decoding gives back the bytes that were encoded.
pub proof fn base64_decodes_what_it_encodes(bytes: Seq<u8>)
    ensures
        url_safe_decoded(url_safe_base64(bytes)) == Some(bytes),
{
    let text = url_safe_base64(bytes);
    let found = choose|other: Seq<u8>| url_safe_base64(other) == text;
    url_safe_base64_is_injective(found, bytes);
}

/// The text holds URL-safe symbols alone, so it stands in a query as it is.
pub proof fn base64_text_is_url_safe(bytes: Seq<u8>)
    ensures
        forall|k: int|
            0 <= k < url_safe_base64(bytes).len() ==> is_url_safe(#[trigger] url_safe_base64(bytes)[k]),
{
    assert forall|k: int| 0 <= k < url_safe_base64(bytes).len() implies is_url_safe(
        #[trigger] url_safe_base64(bytes)[k],
    ) by {
        lemma_sextet_range(bytes, k);
    }
}

/// Encodes bytes by `base64::Engine::encode` of the engine `URL_SAFE_NO_PAD`: the contract says
/// that the text holds one symbol of the URL-safe alphabet for each six bits, and no padding.
///
/// The call panics where the length of the text cannot be allocated.
#[verifier::external_body]
pub(crate) fn base64_encode(bytes: &[u8]) -> (r: String)
    requires
        4 * bytes@.len() / 3 < isize::MAX,
    ensures
        r@ == url_safe_base64(bytes@),
{
    base64::engine::general_purpose::URL_SAFE_NO_PAD.encode(bytes)
}

/// Decodes text by `base64::Engine::decode` of the engine `URL_SAFE_NO_PAD`: the contract says
/// that it gives the bytes of which the text is the encoding, and fails only where there are none.
/// Padding, other symbols and set bits behind the last byte are all refused.
#[verifier::external_body]
pub(crate) fn base64_decode(text: &str) -> (r: Option<Vec<u8>>)
    ensures
        match r {
            Some(bytes) => url_safe_base64(bytes@) == text@,
            None => forall|bytes: Seq<u8>| url_safe_base64(bytes) != text@,
        },
{
    base64::engine::general_purpose::URL_SAFE_NO_PAD.decode(text).ok()
}

/// Digests bytes by `sha2::Sha256::digest`: the contract names the digest and says that it is 32
/// bytes long.
#[verifier::external_body]
pub(crate) fn sha256_digest(bytes: &[u8]) -> (r: Vec<u8>)
    ensures
        r@ == sha256(bytes@),
        r@.len() == 32,
{
    sha2::Sha256::digest(bytes).to_vec()
}

/// Overwrites the buffer by `rand::RngCore::fill_bytes` of the generator `rand::rng()`: the
/// contract says that the buffer keeps its length. Which bytes come is left to chance. The generator
/// panics where the system gives it no seed.
#[verifier::external_body]
pub(crate) fn fill_random(buffer: &mut Vec<u8>)
    ensures
        final(buffer)@.len() == old(buffer)@.len(),
{
    rand::rng().fill_bytes(buffer)
}

/// Encodes text by `urlencoding::encode`: the contract says that every byte of its UTF-8 form but
/// letters, digits, `-`, `_`, `.` and `~` is percent-encoded.
#[verifier::external_body]
pub(crate) fn percent_encode(text: &str) -> (r: String)
    ensures
        r@ == percent_encoded(encode_utf8(text@)),
{
    urlencoding::encode(text).into_owned()
}

/// Encodes pairs by `serde_urlencoded::to_string`: the contract says that pairs of text are always
/// encoded, and how.
#[verifier::external_body]
pub(crate) fn form_encode(pairs: &Vec<(&str, &str)>) -> (r: Result<String, String>)
    ensures
        r is Ok,
        r->Ok_0@ == form_encoded(str_pairs(pairs@)),
{
    serde_urlencoded::to_string(pairs).map_err(|error| error.to_string())
}

/// Decodes a query by `serde_urlencoded::from_str` into pairs of text: the contract names the
/// pairs, says that every query holds some, and that what `form_encoded` gives of some pairs is
/// decoded to these pairs.
#[verifier::external_body]
pub(crate) fn form_decode(query: &str) -> (r: Result<Vec<(String, String)>, String>)
    ensures
        r is Ok,
        string_pairs(r->Ok_0@) == form_pairs(query@),
        forall|pairs: Seq<(Seq<char>, Seq<char>)>|
            query@ == #[trigger] form_encoded(pairs) ==> string_pairs(r->Ok_0@) == pairs,
{
    serde_urlencoded::from_str::<Vec<(String, String)>>(query).map_err(|error| error.to_string())
}

} // verus!
