//! The calls into other crates, and into the parts of std that Verus knows
//! nothing of. What each contract here claims is believed, not proved.

use crate::backup;
use crate::text;
use vstd::arithmetic::power2::pow2;
use vstd::prelude::*;
use vstd::utf8::*;

verus! {

/// What SHA-256 makes of some bytes.
pub uninterp spec fn sha256(data: Seq<u8>) -> Seq<u8>;

/// `sha2::Sha256::digest`: the SHA-256 of the bytes, which has 32 bytes and
/// depends on nothing else.
#[verifier::external_body]
pub(crate) fn sha256_digest(data: &[u8]) -> (r: Vec<u8>)
    ensures
        r@ == sha256(data@),
        r@.len() == 32,
{
    <sha2::Sha256 as sha2::Digest>::digest(data).to_vec()
}

/// The text that a JSON document holds under a key of its top level: `None`
/// where the bytes are no JSON document, `Some(None)` where it has no such key
/// or something that is no text under it.
pub uninterp spec fn json_text(body: Seq<u8>, key: Seq<char>) -> Option<Option<Seq<char>>>;

/// `serde_json::from_slice` into a `serde_json::Value`, then `Value::get` with
/// the key and `Value::as_str`: a function of the bytes and the key.
#[verifier::external_body]
pub(crate) fn json_text_under(body: &[u8], key: &str) -> (r: Option<Option<String>>)
    ensures
        match r {
            Some(Some(found)) => json_text(body@, key@) == Some(Some(found@)),
            Some(None) => json_text(body@, key@) == Some(None::<Seq<char>>),
            None => json_text(body@, key@) is None,
        },
{
    match serde_json::from_slice::<serde_json::Value>(body) {
        Ok(value) => Some(value.get(key).and_then(|v| v.as_str()).map(|s| s.to_string())),
        Err(_) => None,
    }
}

/// A point in time as RFC 3339 writes it, in UTC.
pub uninterp spec fn rfc3339(unix_seconds: i64) -> Option<Seq<char>>;

/// The characters that an RFC 3339 time is made of.
pub open spec fn time_char(c: char) -> bool {
    '0' <= c <= '9' || c == '-' || c == ':' || c == '.' || c == '+' || c == 'T' || c == 'Z'
}

/// `time::OffsetDateTime::from_unix_timestamp` and `OffsetDateTime::format`
/// with `Rfc3339`: a function of the seconds, `None` where the year has no four
/// digits, and otherwise digits and the separators of RFC 3339.
#[verifier::external_body]
pub(crate) fn format_rfc3339(unix_seconds: i64) -> (r: Option<String>)
    ensures
        match r {
            Some(text) => rfc3339(unix_seconds) == Some(text@) && forall|i: int|
                0 <= i < text@.len() ==> time_char(#[trigger] text@[i]),
            None => rfc3339(unix_seconds) is None,
        },
{
    let moment = time::OffsetDateTime::from_unix_timestamp(unix_seconds).ok()?;
    moment.format(&time::format_description::well_known::Rfc3339).ok()
}

/// A point in time, in UTC, as a format description of the `time` crate writes
/// it.
pub uninterp spec fn formatted_time(unix_seconds: i64, description: Seq<char>) -> Option<Seq<char>>;

/// `time::format_description::parse_borrowed` and `OffsetDateTime::format`: a
/// function of the seconds and the description. There are descriptions on which
/// the parser panics or does not return, so only the one that is needed may be
/// given.
#[verifier::external_body]
pub(crate) fn format_time(unix_seconds: i64, description: &str) -> (r: Option<String>)
    requires
        description@ == backup::STAMP_FORMAT@,
    ensures
        match r {
            Some(text) => formatted_time(unix_seconds, description@) == Some(text@),
            None => formatted_time(unix_seconds, description@) is None,
        },
{
    let items = time::format_description::parse_borrowed::<1>(description).ok()?;
    let moment = time::OffsetDateTime::from_unix_timestamp(unix_seconds).ok()?;
    moment.format(&items).ok()
}

/// A text in lower case, by Unicode's rules.
pub uninterp spec fn unicode_lowercase(s: Seq<char>) -> Seq<char>;

/// `str::to_lowercase`: a function of the text; of ASCII characters it changes
/// the capitals alone.
#[verifier::external_body]
pub(crate) fn to_lowercase(s: &str) -> (r: String)
    ensures
        r@ == unicode_lowercase(s@),
        text::ascii(s@) ==> r@ == text::lowered(s@),
{
    s.to_lowercase()
}

/// A text in quotes, with escapes, as `Debug` writes it.
pub uninterp spec fn quoted(s: Seq<char>) -> Seq<char>;

/// `format!` with `{:?}` of a text: a function of the text.
#[verifier::external_body]
pub(crate) fn quote(s: &str) -> (r: String)
    ensures
        r@ == quoted(s@),
{
    format!("{:?}", s)
}

/// Bytes as text, with U+FFFD for what is no UTF-8.
pub uninterp spec fn utf8_lossy(bytes: Seq<u8>) -> Seq<char>;

/// `String::from_utf8_lossy`: a function of the bytes; valid UTF-8 is decoded.
#[verifier::external_body]
pub(crate) fn decode_lossy(bytes: &[u8]) -> (r: String)
    ensures
        r@ == utf8_lossy(bytes@),
        valid_utf8(bytes@) ==> r@ == decode_utf8(bytes@),
{
    String::from_utf8_lossy(bytes).into_owned()
}

/// The text of some bytes: that of valid UTF-8, and one with replacements
/// otherwise.
pub open spec fn text_of(bytes: Seq<u8>) -> Seq<char> {
    if valid_utf8(bytes) {
        decode_utf8(bytes)
    } else {
        utf8_lossy(bytes)
    }
}

/// `str::from_utf8`: the text of the bytes, exactly where they are valid UTF-8.
#[verifier::external_body]
pub(crate) fn decode(bytes: &[u8]) -> (r: Option<String>)
    ensures
        match r {
            Some(text) => valid_utf8(bytes@) && text@ == decode_utf8(bytes@),
            None => !valid_utf8(bytes@),
        },
{
    std::str::from_utf8(bytes).ok().map(|s| s.to_string())
}

/// The word with this place in BIP39's English list of 2048.
pub uninterp spec fn english_word(index: int) -> Seq<char>;

/// How many words a mnemonic can have.
pub open spec fn word_count_ok(count: int) -> bool {
    12 <= count <= 24 && count % 3 == 0
}

/// The number that a mnemonic's indices write, eleven bits each.
pub open spec fn index_bits(indices: Seq<int>) -> int
    decreases indices.len(),
{
    if indices.len() == 0 {
        0
    } else {
        2048 * index_bits(indices.drop_last()) + indices.last()
    }
}

/// The last `count` bytes of a number, the most significant first.
pub open spec fn big_endian(n: int, count: nat) -> Seq<u8>
    decreases count,
{
    if count == 0 {
        Seq::empty()
    } else {
        big_endian(n / 256, (count - 1) as nat).push((n % 256) as u8)
    }
}

/// BIP39's checksum: behind the entropy, which has four bytes for every three
/// words, stand the first bits of its SHA-256, one bit for every three words.
pub open spec fn checksum_holds(indices: Seq<int>) -> bool {
    let thirds = (indices.len() / 3) as nat;
    let bits = index_bits(indices);
    let entropy = big_endian(bits / pow2(thirds) as int, 4 * thirds);
    sha256(entropy)[0] as int / pow2((8 - thirds) as nat) as int == bits % pow2(thirds) as int
}

/// The words with these indices, with single spaces between them.
pub open spec fn phrase(indices: Seq<int>) -> Seq<char> {
    text::joined(indices.map_values(|index: int| english_word(index)), seq![' '])
}

/// That a mnemonic is made of the words with these indices, and that its
/// checksum holds.
pub open spec fn spells(indices: Seq<int>, mnemonic: Seq<char>) -> bool {
    &&& forall|i: int| 0 <= i < indices.len() ==> 0 <= #[trigger] indices[i] < 2048
    &&& checksum_holds(indices)
    &&& mnemonic == phrase(indices)
}

/// A word of lower-case letters.
pub open spec fn lower_word(word: Seq<char>) -> bool {
    word.len() > 0 && forall|i: int| 0 <= i < word.len() ==> 'a' <= #[trigger] word[i] <= 'z'
}

/// `bip39::Mnemonic::generate` and `Mnemonic`'s `Display`: English words with
/// single spaces between them, whose checksum holds; `None` exactly where no
/// mnemonic has that many words. `english_word` names the entries of
/// `bip39::Language::word_list`, and `sha256` the same SHA-256 as elsewhere.
/// Which words come is drawn at random and left open.
#[verifier::external_body]
pub(crate) fn draw_mnemonic(word_count: usize) -> (r: Option<String>)
    ensures
        match r {
            Some(mnemonic) => word_count_ok(word_count as int) && exists|indices: Seq<int>|
                indices.len() == word_count && #[trigger] spells(indices, mnemonic@) && (forall|
                    i: int,
                |
                    0 <= i < word_count ==> lower_word(english_word(#[trigger] indices[i]))),
            None => !word_count_ok(word_count as int),
        },
{
    bip39::Mnemonic::generate(word_count).ok().map(|mnemonic| mnemonic.to_string())
}

} // verus!
