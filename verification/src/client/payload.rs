//! Binary payloads on the wire.
//!
//! Memory contents, hashes and access data travel as standard base64 text. The
//! server's parser expects one quirk on top of that: text that ends in the
//! padding character `=` is followed by a single line break. Encoding adds the
//! line break, decoding removes it again.

use base64::engine::general_purpose::STANDARD;
use base64::Engine;
use vstd::prelude::*;
use vstd::string::*;

verus! {

/// The standard base64 text of `data`: RFC 4648 alphabet, padded with `=`.
pub uninterp spec fn standard_encoding(data: Seq<u8>) -> Seq<char>;

/// The bytes that `text` stands for in standard base64 with canonical padding,
/// or `None` where `text` is no such encoding.
pub uninterp spec fn standard_decoding(text: Seq<char>) -> Option<Seq<u8>>;

/// The characters that standard base64 text is made of.
pub open spec fn is_standard_symbol(c: char) -> bool {
    ||| 'A' <= c <= 'Z'
    ||| 'a' <= c <= 'z'
    ||| '0' <= c <= '9'
    ||| c == '+'
    ||| c == '/'
    ||| c == '='
}

/// `base64::DecodeError`: why the decoder refused a text. The value is carried
/// from the decoder to the place where it becomes [`Malformed`]; nothing is
/// read from it.
#[verifier::external_type_specification]
#[verifier::external_body]
pub struct ExDecodeError(base64::DecodeError);

/// `base64::engine::general_purpose::STANDARD.encode`.
///
/// Trusted: the result is the standard encoding of `data`; it consists of
/// alphabet characters and `=` only; and the same engine decodes it back to
/// `data`. The call cannot fail: its only panic is an overflow of the encoded
/// length, which no slice is long enough to cause.
#[verifier::external_body]
fn encode_standard(data: &[u8]) -> (text: String)
    ensures
        text@ == standard_encoding(data@),
        standard_decoding(text@) == Some(data@),
        forall|i: int| 0 <= i < text@.len() ==> is_standard_symbol(#[trigger] text@[i]),
{
    STANDARD.encode(data)
}

/// `base64::engine::general_purpose::STANDARD.decode`.
///
/// Trusted: the call succeeds exactly on the texts that are a standard
/// encoding, and then returns the bytes they stand for.
#[verifier::external_body]
fn decode_standard(text: &str) -> (decoded: Result<Vec<u8>, base64::DecodeError>)
    ensures
        match decoded {
            Ok(data) => standard_decoding(text@) == Some(data@),
            Err(_) => standard_decoding(text@) is None,
        },
{
    STANDARD.decode(text)
}

/// The line-break rule on the way out: text that ends in `=` gets one `\n`.
pub open spec fn with_line_break(encoded: Seq<char>) -> Seq<char> {
    if encoded.len() > 0 && encoded.last() == '=' {
        encoded.push('\n')
    } else {
        encoded
    }
}

/// The line-break rule on the way in: one trailing `\n` is dropped.
pub open spec fn without_line_break(text: Seq<char>) -> Seq<char> {
    if text.len() > 0 && text.last() == '\n' {
        text.drop_last()
    } else {
        text
    }
}

/// What `data` looks like on the wire.
pub open spec fn payload_encoding(data: Seq<u8>) -> Seq<char> {
    with_line_break(standard_encoding(data))
}

/// The bytes that wire text stands for, or `None` where it is malformed.
pub open spec fn payload_decoding(text: Seq<char>) -> Option<Seq<u8>> {
    standard_decoding(without_line_break(text))
}

/// Removing the line break undoes adding it, for every text that does not
/// itself end in a line break.
pub proof fn lemma_line_break_round_trip(encoded: Seq<char>)
    requires
        encoded.len() > 0 ==> encoded.last() != '\n',
    ensures
        without_line_break(with_line_break(encoded)) == encoded,
{
    if encoded.len() > 0 && encoded.last() == '=' {
        assert(encoded.push('\n').drop_last() =~= encoded);
    }
}

/// The payload could not be decoded: it is not standard base64.
#[derive(Debug, Clone, Copy, PartialEq, Eq)]
pub struct Malformed;

/// Encodes `data` for the wire.
///
/// The result always decodes back to `data`.
pub fn encode_payload(data: &[u8]) -> (text: String)
    ensures
        text@ == payload_encoding(data@),
        payload_decoding(text@) == Some(data@),
{
    let mut text = encode_standard(data);
    let ghost encoded = text@;
    let length = text.as_str().unicode_len();
    if length > 0 && text.as_str().get_char(length - 1) == '=' {
        proof {
            reveal_strlit("\n");
        }
        text.append("\n");
        assert(text@ =~= encoded.push('\n'));
    }
    proof {
        if encoded.len() > 0 {
            assert(is_standard_symbol(encoded[encoded.len() - 1]));
        }
        lemma_line_break_round_trip(encoded);
    }
    text
}

/// Decodes wire text into the bytes it stands for.
///
/// Fails exactly on text that, once a trailing line break is removed, is not
/// standard base64.
pub fn decode_payload(text: &str) -> (decoded: Result<Vec<u8>, Malformed>)
    ensures
        match decoded {
            Ok(data) => payload_decoding(text@) == Some(data@),
            Err(_) => payload_decoding(text@) is None,
        },
{
    let length = text.unicode_len();
    let stripped = if length > 0 && text.get_char(length - 1) == '\n' {
        text.substring_char(0, length - 1)
    } else {
        text
    };
    assert(stripped@ =~= without_line_break(text@));
    match decode_standard(stripped) {
        Ok(data) => Ok(data),
        Err(_) => Err(Malformed),
    }
}

/// Why a root hash could not be read.
#[derive(Debug, Clone, Copy, PartialEq, Eq)]
pub enum RootHashError {
    /// The text is not standard base64.
    Malformed,
    /// The text stands for more than 32 bytes.
    TooLong,
}

/// The 32 bytes of a hash whose encoding stands for `data`: `data`, followed
/// by zeros where it is shorter.
pub open spec fn spec_root_hash(data: Seq<u8>) -> Seq<u8> {
    Seq::new(32, |i: int| if i < data.len() { data[i] } else { 0u8 })
}

/// Decodes the wire text of a root hash into its 32 bytes.
///
/// Text that stands for fewer than 32 bytes is filled up with zeros. Text
/// that stands for more is refused: nothing is cut off.
pub fn decode_root_hash(text: &str) -> (decoded: Result<[u8; 32], RootHashError>)
    ensures
        match decoded {
            Ok(hash) => payload_decoding(text@) matches Some(data) && data.len() <= 32 && hash@
                == spec_root_hash(data),
            Err(RootHashError::Malformed) => payload_decoding(text@) is None,
            Err(RootHashError::TooLong) => payload_decoding(text@) matches Some(data)
                && data.len() > 32,
        },
{
    let data = match decode_payload(text) {
        Ok(data) => data,
        Err(_) => {
            return Err(RootHashError::Malformed);
        },
    };
    if data.len() > 32 {
        return Err(RootHashError::TooLong);
    }
    let mut hash: [u8; 32] = [0; 32];
    let mut index: usize = 0;
    while index < data.len()
        invariant
            index <= data.len() <= 32,
            forall|i: int| 0 <= i < index ==> hash@[i] == data@[i],
            forall|i: int| index <= i < 32 ==> hash@[i] == 0u8,
        decreases data.len() - index,
    {
        hash[index] = data[index];
        index += 1;
    }
    assert(hash@ =~= spec_root_hash(data@));
    Ok(hash)
}

} // verus!
