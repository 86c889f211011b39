//! Canonical message preparation and the historical SHA-256 message hash:
//! text is put in Unicode NFC, line endings become `\n`, a byte-order mark is
//! refused, and a message is framed by its eight-byte little-endian length.

use crate::digest_v1::{sha256_bytes, sha256_spec};
use crate::encoding_v1::{append_bytes, u64_le, u64_to_le_bytes};
use unicode_normalization::UnicodeNormalization;
use vstd::prelude::*;
use vstd::utf8::{decode_utf8, encode_utf8, valid_utf8};

verus! {

/// `"AURA_HASH_V1"`.
pub const AURA_HASH_V1_DOMAIN_SEPARATOR: [u8; 12] = [0x41, 0x55, 0x52, 0x41, 0x5f, 0x48, 0x41, 0x53, 0x48, 0x5f, 0x56, 0x31];

pub const AURA_HASH_V1_LENGTH_PREFIX_BYTES: usize = 8;

pub const AURA_HASH_V1_BOM_CODEPOINT: char = '\u{feff}';

/// Why a message is refused.
#[derive(Clone, Copy, Debug, PartialEq, Eq, Structural)]
pub enum AuraHashV1Error {
    InvalidUtf8 { valid_up_to: usize },
    MessageContainsBom { index: usize },
    MessageLengthExceedsU64 { actual: usize },
}

impl AuraHashV1Error {
    /// The stable reason code of the error.
    pub fn reject_reason(self) -> (reason: &'static str)
        ensures
            self is InvalidUtf8 ==> reason@ == "message_must_be_valid_utf8"@,
            self is MessageContainsBom ==> reason@ == "message_contains_bom"@,
            self is MessageLengthExceedsU64 ==> reason@ == "message_length_exceeds_u64"@,
    {
        match self {
            AuraHashV1Error::InvalidUtf8 { .. } => "message_must_be_valid_utf8",
            AuraHashV1Error::MessageContainsBom { .. } => "message_contains_bom",
            AuraHashV1Error::MessageLengthExceedsU64 { .. } => "message_length_exceeds_u64",
        }
    }
}

/// The NFC normal form of a character sequence, as `unicode-normalization`
/// computes it.
pub uninterp spec fn nfc_spec(text: Seq<char>) -> Seq<char>;

/// Calls `UnicodeNormalization::nfc` of `unicode-normalization` and collects
/// the characters. Trusted: the result is `nfc_spec` of the message.
#[verifier::external_body]
fn nfc_chars(message: &str) -> (chars: Vec<char>)
    ensures
        chars@ == nfc_spec(message@),
{
    message.nfc().collect::<Vec<char>>()
}

/// Calls `core::str::from_utf8`. Trusted, as its documentation states: it
/// succeeds exactly on valid UTF-8 and then holds the decoded characters;
/// otherwise it reports the length of the longest valid prefix.
#[verifier::external_body]
fn str_from_utf8(bytes: &[u8]) -> (result: Result<&str, usize>)
    ensures
        result matches Ok(text) ==> valid_utf8(bytes@) && text@ == decode_utf8(bytes@),
        result matches Err(valid_up_to) ==> !valid_utf8(bytes@) && valid_up_to <= bytes@.len()
            && valid_utf8(bytes@.take(valid_up_to as int)),
{
    match core::str::from_utf8(bytes) {
        Ok(text) => Ok(text),
        Err(error) => Err(error.valid_up_to()),
    }
}

/// Calls `String::from_iter` over characters. Trusted: the string holds
/// exactly those characters.
#[verifier::external_body]
fn string_from_chars(chars: &[char]) -> (text: String)
    ensures
        text@ == chars@,
{
    String::from_iter(chars.iter())
}

/// Line endings made `\n`: `\r\n` and a lone `\r` each become `\n`.
pub open spec fn normalize_line_endings(text: Seq<char>) -> Seq<char>
    decreases text.len(),
{
    if text.len() == 0 {
        Seq::empty()
    } else if text[0] == '\r' && text.len() > 1 && text[1] == '\n' {
        seq!['\n'] + normalize_line_endings(text.skip(2))
    } else if text[0] == '\r' {
        seq!['\n'] + normalize_line_endings(text.skip(1))
    } else {
        seq![text[0]] + normalize_line_endings(text.skip(1))
    }
}

/// The number of bytes in the UTF-8 encoding of a character.
pub open spec fn utf8_width(c: char) -> nat {
    if (c as u32) <= 0x7f {
        1
    } else if (c as u32) <= 0x7ff {
        2
    } else if (c as u32) <= 0xffff {
        3
    } else {
        4
    }
}

/// The number of bytes in the UTF-8 encoding of a character sequence.
pub open spec fn utf8_len(text: Seq<char>) -> nat
    decreases text.len(),
{
    if text.len() == 0 {
        0
    } else {
        utf8_len(text.drop_last()) + utf8_width(text.last())
    }
}

/// The first position of a byte-order mark, if any.
pub open spec fn first_bom(text: Seq<char>) -> Option<int> {
    if exists|k: int| 0 <= k < text.len() && text[k] == AURA_HASH_V1_BOM_CODEPOINT {
        Some(
            choose|k: int|
                0 <= k < text.len() && text[k] == AURA_HASH_V1_BOM_CODEPOINT && forall|j: int|
                    0 <= j < k ==> text[j] != AURA_HASH_V1_BOM_CODEPOINT,
        )
    } else {
        None
    }
}

/// What normalization gives for a text: its NFC form with normalized line
/// endings, or the byte offset of the first byte-order mark in it.
pub open spec fn normalize_text_spec(text: Seq<char>) -> Result<Seq<char>, AuraHashV1Error> {
    let normalized = normalize_line_endings(nfc_spec(text));
    match first_bom(normalized) {
        Some(k) => Err(
            AuraHashV1Error::MessageContainsBom { index: utf8_len(normalized.take(k)) as usize },
        ),
        None => Ok(normalized),
    }
}

/// Line endings made `\n`.
fn normalize_line_endings_chars(text: &Vec<char>) -> (out: Vec<char>)
    ensures
        out@ == normalize_line_endings(text@),
{
    let mut out: Vec<char> = Vec::new();
    let mut index: usize = 0;
    proof {
        assert(text@.skip(0) =~= text@);
        assert(out@ + normalize_line_endings(text@) =~= normalize_line_endings(text@));
    }
    while index < text.len()
        invariant
            0 <= index <= text@.len(),
            out@ + normalize_line_endings(text@.skip(index as int)) == normalize_line_endings(text@),
        decreases text@.len() - index,
    {
        let ghost rest = text@.skip(index as int);
        let c = text[index];
        if c == '\r' {
            out.push('\n');
            if index + 1 < text.len() && text[index + 1] == '\n' {
                proof {
                    assert(rest.skip(2) =~= text@.skip(index + 2));
                    assert(out@ + normalize_line_endings(text@.skip(index + 2)) =~= normalize_line_endings(text@));
                }
                index += 2;
            } else {
                proof {
                    assert(rest.skip(1) =~= text@.skip(index + 1));
                    assert(out@ + normalize_line_endings(text@.skip(index + 1)) =~= normalize_line_endings(text@));
                }
                index += 1;
            }
        } else {
            out.push(c);
            proof {
                assert(rest.skip(1) =~= text@.skip(index + 1));
                assert(out@ + normalize_line_endings(text@.skip(index + 1)) =~= normalize_line_endings(text@));
            }
            index += 1;
        }
    }
    proof {
        assert(text@.skip(index as int).len() == 0);
        assert(out@ + Seq::<char>::empty() =~= out@);
    }
    out
}

/// The UTF-8 width of a character.
fn char_utf8_width(c: char) -> (width: usize)
    ensures
        width == utf8_width(c),
{
    let code = c as u32;
    if code <= 0x7f {
        1
    } else if code <= 0x7ff {
        2
    } else if code <= 0xffff {
        3
    } else {
        4
    }
}

/// The byte offset of the first byte-order mark, if any.
fn find_bom_offset(text: &Vec<char>) -> (found: Option<usize>)
    requires
        utf8_len(text@) <= usize::MAX,
    ensures
        first_bom(text@) is None <==> found is None,
        found matches Some(offset) ==> offset == utf8_len(text@.take(first_bom(text@)->0)),
{
    let mut index: usize = 0;
    let mut offset: usize = 0;
    proof {
        assert(text@.take(0).len() == 0);
    }
    while index < text.len()
        invariant
            0 <= index <= text@.len(),
            utf8_len(text@) <= usize::MAX,
            offset == utf8_len(text@.take(index as int)),
            forall|j: int| 0 <= j < index ==> text@[j] != AURA_HASH_V1_BOM_CODEPOINT,
        decreases text@.len() - index,
    {
        if text[index] == AURA_HASH_V1_BOM_CODEPOINT {
            proof {
                let k = index as int;
                assert(0 <= k < text@.len() && text@[k] == AURA_HASH_V1_BOM_CODEPOINT);
                let chosen = first_bom(text@)->0;
                assert(chosen == k) by {
                    if chosen < k {
                        assert(text@[chosen] != AURA_HASH_V1_BOM_CODEPOINT);
                    }
                    if chosen > k {
                        assert(text@[k] != AURA_HASH_V1_BOM_CODEPOINT);
                    }
                }
            }
            return Some(offset);
        }
        proof {
            assert(text@.take(index + 1).drop_last() =~= text@.take(index as int));
            lemma_utf8_len_prefix(text@, index + 1);
        }
        offset = offset + char_utf8_width(text[index]);
        index += 1;
    }
    proof {
        assert(!(exists|k: int| 0 <= k < text@.len() && text@[k] == AURA_HASH_V1_BOM_CODEPOINT));
    }
    None
}

/// Prepending a character adds its width.
proof fn lemma_utf8_len_cons(c: char, rest: Seq<char>)
    ensures
        utf8_len(seq![c] + rest) == utf8_width(c) + utf8_len(rest),
    decreases rest.len(),
{
    let whole = seq![c] + rest;
    if rest.len() == 0 {
        assert(whole.drop_last() =~= Seq::<char>::empty());
        assert(whole.last() == c);
        assert(utf8_len(whole.drop_last()) == 0);
        assert(utf8_len(rest) == 0);
    } else {
        assert(whole.drop_last() =~= seq![c] + rest.drop_last());
        assert(whole.last() == rest.last());
        lemma_utf8_len_cons(c, rest.drop_last());
    }
}

/// `utf8_len` is the length of the UTF-8 encoding.
pub proof fn lemma_utf8_len_encode(text: Seq<char>)
    ensures
        utf8_len(text) == encode_utf8(text).len(),
    decreases text.len(),
{
    if text.len() > 0 {
        let c = text[0];
        let rest = text.drop_first();
        assert(text =~= seq![c] + rest);
        lemma_utf8_len_cons(c, rest);
        lemma_utf8_len_encode(rest);
        vstd::utf8::char_is_scalar(c);
    }
}

/// A prefix encodes to no more bytes than the whole.
proof fn lemma_utf8_len_prefix(text: Seq<char>, n: int)
    requires
        0 <= n <= text.len(),
    ensures
        utf8_len(text.take(n)) <= utf8_len(text),
    decreases text.len() - n,
{
    if n < text.len() {
        lemma_utf8_len_prefix(text, n + 1);
        assert(text.take(n + 1).drop_last() =~= text.take(n));
    } else {
        assert(text.take(n) =~= text);
    }
}

/// Normalizes a text message: NFC, then `\n` line endings; a byte-order mark
/// is refused with its byte offset.
pub fn normalize_text_message_v1(message: &str) -> (result: Result<String, AuraHashV1Error>)
    ensures
        result matches Ok(text) ==> normalize_text_spec(message@) == Ok::<
            Seq<char>,
            AuraHashV1Error,
        >(text@),
        result matches Err(error) ==> normalize_text_spec(message@) == Err::<
            Seq<char>,
            AuraHashV1Error,
        >(error),
{
    let normalized_nfc = nfc_chars(message);
    let normalized = normalize_line_endings_chars(&normalized_nfc);
    let text = string_from_chars(normalized.as_slice());
    let encoded_len = text.as_str().as_bytes().len();
    proof {
        lemma_utf8_len_encode(normalized@);
        assert(encoded_len == utf8_len(normalized@));
    }
    match find_bom_offset(&normalized) {
        Some(index) => Err(AuraHashV1Error::MessageContainsBom { index }),
        None => Ok(text),
    }
}

/// What decoding and normalizing gives for bytes.
pub open spec fn decode_and_normalize_spec(bytes: Seq<u8>, valid_up_to: usize) -> bool {
    !valid_utf8(bytes) && valid_up_to <= bytes.len() && valid_utf8(bytes.take(valid_up_to as int))
}

/// Decodes UTF-8, then normalizes the text.
pub fn decode_and_normalize_message_utf8_v1(message_utf8: &[u8]) -> (result: Result<String, AuraHashV1Error>)
    ensures
        !valid_utf8(message_utf8@) ==> (result matches Err(AuraHashV1Error::InvalidUtf8 { valid_up_to })
            && decode_and_normalize_spec(message_utf8@, valid_up_to)),
        valid_utf8(message_utf8@) ==> (result matches Ok(text) ==> normalize_text_spec(
            decode_utf8(message_utf8@),
        ) == Ok::<Seq<char>, AuraHashV1Error>(text@)),
        valid_utf8(message_utf8@) ==> (result matches Err(error) ==> normalize_text_spec(
            decode_utf8(message_utf8@),
        ) == Err::<Seq<char>, AuraHashV1Error>(error)),
{
    match str_from_utf8(message_utf8) {
        Ok(text) => normalize_text_message_v1(text),
        Err(valid_up_to) => Err(AuraHashV1Error::InvalidUtf8 { valid_up_to }),
    }
}

/// The UTF-8 bytes of a string.
fn string_utf8_bytes(text: &String) -> (bytes: Vec<u8>)
    ensures
        bytes@ == encode_utf8(text@),
{
    let slice = text.as_str().as_bytes();
    let mut bytes: Vec<u8> = Vec::new();
    append_bytes(&mut bytes, slice);
    bytes
}

/// The canonical payload of a text: the UTF-8 bytes of its normalized form.
pub fn canonical_text_payload_bytes_from_text_v1(message: &str) -> (result: Result<Vec<u8>, AuraHashV1Error>)
    ensures
        result matches Ok(bytes) ==> (normalize_text_spec(message@) matches Ok(text) && bytes@
            == encode_utf8(text)),
        result matches Err(error) ==> normalize_text_spec(message@) == Err::<
            Seq<char>,
            AuraHashV1Error,
        >(error),
{
    match normalize_text_message_v1(message) {
        Ok(normalized) => Ok(string_utf8_bytes(&normalized)),
        Err(error) => Err(error),
    }
}

/// The canonical payload of UTF-8 bytes: decode, normalize, encode.
pub fn canonical_text_payload_bytes_v1(message_utf8: &[u8]) -> (result: Result<Vec<u8>, AuraHashV1Error>)
    ensures
        !valid_utf8(message_utf8@) ==> (result matches Err(AuraHashV1Error::InvalidUtf8 { valid_up_to })
            && decode_and_normalize_spec(message_utf8@, valid_up_to)),
        valid_utf8(message_utf8@) ==> (result matches Ok(bytes) ==> (normalize_text_spec(
            decode_utf8(message_utf8@),
        ) matches Ok(text) && bytes@ == encode_utf8(text))),
        valid_utf8(message_utf8@) ==> (result matches Err(error) ==> normalize_text_spec(
            decode_utf8(message_utf8@),
        ) == Err::<Seq<char>, AuraHashV1Error>(error)),
{
    match decode_and_normalize_message_utf8_v1(message_utf8) {
        Ok(normalized) => Ok(string_utf8_bytes(&normalized)),
        Err(error) => Err(error),
    }
}

/// The framed message: its length as eight little-endian bytes, then the
/// message.
pub open spec fn canonical_message_spec(message: Seq<u8>) -> Seq<u8> {
    u64_le(message.len() as u64) + message
}

/// The hash preimage: the domain separator, then the framed message.
pub open spec fn hash_preimage_spec(message: Seq<u8>) -> Seq<u8> {
    AURA_HASH_V1_DOMAIN_SEPARATOR@ + canonical_message_spec(message)
}

/// Frames a message by its length.
pub fn canonical_message_bytes_v1(message_bytes: &[u8]) -> (result: Result<Vec<u8>, AuraHashV1Error>)
    ensures
        message_bytes@.len() <= u64::MAX ==> (result matches Ok(bytes) && bytes@
            == canonical_message_spec(message_bytes@)),
        message_bytes@.len() > u64::MAX ==> result == Err::<Vec<u8>, AuraHashV1Error>(
            AuraHashV1Error::MessageLengthExceedsU64 { actual: message_bytes@.len() as usize },
        ),
{
    if message_bytes.len() as u128 > u64::MAX as u128 {
        return Err(AuraHashV1Error::MessageLengthExceedsU64 { actual: message_bytes.len() });
    }
    let length = message_bytes.len() as u64;
    let prefix = u64_to_le_bytes(length);
    let mut bytes: Vec<u8> = Vec::new();
    append_bytes(&mut bytes, &prefix);
    append_bytes(&mut bytes, message_bytes);
    Ok(bytes)
}

/// The domain separator followed by framed bytes.
fn hash_preimage_from_canonical_message_bytes_v1(canonical_bytes: &[u8]) -> (preimage: Vec<u8>)
    ensures
        preimage@ == AURA_HASH_V1_DOMAIN_SEPARATOR@ + canonical_bytes@,
{
    let domain = AURA_HASH_V1_DOMAIN_SEPARATOR;
    let mut preimage: Vec<u8> = Vec::new();
    append_bytes(&mut preimage, &domain);
    append_bytes(&mut preimage, canonical_bytes);
    preimage
}

/// The hash preimage of a message.
pub fn canonical_message_hash_preimage_v1(message_bytes: &[u8]) -> (result: Result<Vec<u8>, AuraHashV1Error>)
    ensures
        message_bytes@.len() <= u64::MAX ==> (result matches Ok(bytes) && bytes@
            == hash_preimage_spec(message_bytes@)),
        message_bytes@.len() > u64::MAX ==> result == Err::<Vec<u8>, AuraHashV1Error>(
            AuraHashV1Error::MessageLengthExceedsU64 { actual: message_bytes@.len() as usize },
        ),
{
    let canonical = match canonical_message_bytes_v1(message_bytes) {
        Ok(bytes) => bytes,
        Err(error) => {
            return Err(error);
        },
    };
    Ok(hash_preimage_from_canonical_message_bytes_v1(canonical.as_slice()))
}

/// The historical message hash: SHA-256 of the preimage.
pub fn aura_hash_v1(message_bytes: &[u8]) -> (result: Result<[u8; 32], AuraHashV1Error>)
    ensures
        message_bytes@.len() <= u64::MAX ==> (result matches Ok(hash) && hash@ == sha256_spec(
            hash_preimage_spec(message_bytes@),
        )),
        message_bytes@.len() > u64::MAX ==> result == Err::<[u8; 32], AuraHashV1Error>(
            AuraHashV1Error::MessageLengthExceedsU64 { actual: message_bytes@.len() as usize },
        ),
{
    let preimage = match canonical_message_hash_preimage_v1(message_bytes) {
        Ok(bytes) => bytes,
        Err(error) => {
            return Err(error);
        },
    };
    Ok(sha256_bytes(preimage.as_slice()))
}


/// The identity-hash preimage is `"AURA_HASH_V1"`, then the message's length as
/// eight little-endian bytes, then the message.
pub proof fn lemma_hash_preimage_layout(message: Seq<u8>)
    ensures
        hash_preimage_spec(message) == seq![0x41u8, 0x55, 0x52, 0x41, 0x5f, 0x48, 0x41, 0x53, 0x48, 0x5f, 0x56, 0x31] + u64_le(message.len() as u64) + message,
{
    assert(AURA_HASH_V1_DOMAIN_SEPARATOR@ =~= seq![0x41u8, 0x55, 0x52, 0x41, 0x5f, 0x48, 0x41, 0x53, 0x48, 0x5f, 0x56, 0x31]);
    assert(hash_preimage_spec(message) =~= seq![0x41u8, 0x55, 0x52, 0x41, 0x5f, 0x48, 0x41, 0x53, 0x48, 0x5f, 0x56, 0x31] + u64_le(message.len() as u64) + message);
}

} // verus!
