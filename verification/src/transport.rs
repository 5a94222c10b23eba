//! The transport codec: how one JSON text travels as two datagrams.
//!
//! A message is a length prefix, the byte length of the body as an unsigned
//! 64-bit integer in little-endian order, followed by the body, the JSON text
//! in UTF-8.  Each of the two is one datagram.  The codec neither numbers nor
//! checks the datagrams: it relies on one request being in flight at a time.

use vstd::bytes::{
    lemma_auto_spec_u64_to_from_le_bytes, spec_u64_from_le_bytes, spec_u64_to_le_bytes,
    spec_u64_to_le_bytes_to_open, u64_from_le_bytes, u64_to_le_bytes,
};
use crate::error::ProtocolError;
use crate::json::{record_text, write_record, Record};
use vstd::prelude::*;
use vstd::string::*;
use vstd::utf8::{
    decode_utf8, encode_utf8, encode_utf8_decode_utf8, encode_utf8_valid_utf8, valid_utf8,
};

verus! {

/// The number of bytes in a length prefix.
pub const PREFIX_LEN: usize = 8;

/// The two datagrams of one message, in the order in which they are sent.
#[derive(Debug)]
pub struct Frame {
    pub prefix: Vec<u8>,
    pub body: Vec<u8>,
}

/// The text that lossy decoding makes of bytes that are not valid UTF-8:
/// every malformed sequence is replaced by U+FFFD.
pub uninterp spec fn lossy_text(bytes: Seq<u8>) -> Seq<char>;

/// The text that a received body stands for.
pub open spec fn body_text(bytes: Seq<u8>) -> Seq<char> {
    if valid_utf8(bytes) {
        decode_utf8(bytes)
    } else {
        lossy_text(bytes)
    }
}

/// The length prefix that announces a body of `len` bytes.
pub open spec fn length_prefix(len: u64) -> Seq<u8> {
    spec_u64_to_le_bytes(len)
}

/// The prefix and the body that carry `text`.
pub open spec fn framed(text: Seq<char>) -> (Seq<u8>, Seq<u8>) {
    (length_prefix(encode_utf8(text).len() as u64), encode_utf8(text))
}

/// What the receiving side makes of two datagrams.
pub open spec fn unframed(prefix: Seq<u8>, body: Seq<u8>) -> Result<Seq<char>, ProtocolError> {
    if prefix.len() != PREFIX_LEN {
        Err(ProtocolError::Prefix)
    } else if body.len() != spec_u64_from_le_bytes(prefix) {
        Err(ProtocolError::Body)
    } else {
        Ok(body_text(body))
    }
}

/// `String::from_utf8_lossy`: bytes that are valid UTF-8 come back as the text
/// they encode; in any other bytes each malformed sequence is replaced, and
/// the outcome goes by the name `lossy_text`.
#[verifier::external_body]
fn text_from_utf8_lossy(bytes: &[u8]) -> (text: String)
    ensures
        valid_utf8(bytes@) ==> text@ == decode_utf8(bytes@),
        !valid_utf8(bytes@) ==> text@ == lossy_text(bytes@),
{
    String::from_utf8_lossy(bytes).into_owned()
}

/// Frames and unframes the JSON texts that are exchanged with the controller.
pub struct JsonSender {}

impl JsonSender {
    /// The two datagrams that carry `text`: its length prefix and its bytes.
    pub fn frame(text: &str) -> (frame: Frame)
        ensures
            (frame.prefix@, frame.body@) == framed(text@),
            frame.prefix@.len() == PREFIX_LEN,
    {
        let body = text.as_bytes_vec();
        let prefix = u64_to_le_bytes(body.len() as u64);
        Frame { prefix, body }
    }

    /// Writes `data` as JSON text and frames that text.
    ///
    /// This fails only where `serde_json` reports an error while writing.
    pub fn send_json_to_server(data: &Record) -> (frame: Result<Frame, ProtocolError>)
        ensures
            match frame {
                Ok(f) => record_text(data.deep_view()) matches Some(text) && (f.prefix@, f.body@)
                    == framed(text),
                Err(e) => e == ProtocolError::Encode && record_text(data.deep_view()) is None,
            },
    {
        match write_record(data) {
            Ok(text) => Ok(Self::frame(text.as_str())),
            Err(_) => Err(ProtocolError::Encode),
        }
    }

    /// The body length that a received prefix announces.
    pub fn announced_length(prefix: &[u8]) -> (len: Result<u64, ProtocolError>)
        ensures
            len == if prefix@.len() == PREFIX_LEN {
                Ok::<u64, ProtocolError>(spec_u64_from_le_bytes(prefix@))
            } else {
                Err::<u64, ProtocolError>(ProtocolError::Prefix)
            },
    {
        if prefix.len() != PREFIX_LEN {
            return Err(ProtocolError::Prefix);
        }
        Ok(u64_from_le_bytes(prefix))
    }

    /// Turns the two datagrams of a received message back into text.
    ///
    /// The prefix must be eight bytes and the body exactly as long as the
    /// prefix says.  Bytes of the body that are not valid UTF-8 are replaced,
    /// not refused.
    pub fn receive_json_from_server(prefix: &[u8], body: &[u8]) -> (text: Result<
        String,
        ProtocolError,
    >)
        ensures
            match text {
                Ok(t) => unframed(prefix@, body@) == Ok::<Seq<char>, ProtocolError>(t@),
                Err(e) => unframed(prefix@, body@) == Err::<Seq<char>, ProtocolError>(e),
            },
    {
        let announced = match Self::announced_length(prefix) {
            Ok(len) => len,
            Err(e) => {
                return Err(e);
            },
        };
        if body.len() as u64 != announced {
            return Err(ProtocolError::Body);
        }
        Ok(text_from_utf8_lossy(body))
    }
}

/// A text that was framed comes back unchanged from the receiving side: the
/// prefix announces the body's length and the body decodes to the text.  This
/// holds of every text, and so of the JSON text of every request.
pub proof fn law_frame_round_trip(text: Seq<char>)
    requires
        encode_utf8(text).len() <= u64::MAX,
    ensures
        unframed(framed(text).0, framed(text).1) == Ok::<Seq<char>, ProtocolError>(text),
        framed(text).1 == encode_utf8(text),
{
    lemma_auto_spec_u64_to_from_le_bytes();
    encode_utf8_valid_utf8(text);
    encode_utf8_decode_utf8(text);
}

/// A length prefix is eight bytes, and byte `i` is digit `i` of the length
/// written to the base 256: the least significant digit comes first.
pub proof fn law_length_prefix_digits(len: u64)
    ensures
        length_prefix(len).len() == PREFIX_LEN,
        length_prefix(len)[0] == len % 0x100,
        length_prefix(len)[1] == (len / 0x100) % 0x100,
        length_prefix(len)[2] == (len / 0x1_0000) % 0x100,
        length_prefix(len)[3] == (len / 0x100_0000) % 0x100,
        length_prefix(len)[4] == (len / 0x1_0000_0000) % 0x100,
        length_prefix(len)[5] == (len / 0x100_0000_0000) % 0x100,
        length_prefix(len)[6] == (len / 0x1_0000_0000_0000) % 0x100,
        length_prefix(len)[7] == (len / 0x100_0000_0000_0000) % 0x100,
{
    spec_u64_to_le_bytes_to_open(len);
    assert(len & 0xff == len % 0x100) by (bit_vector);
    assert((len >> 8) & 0xff == (len / 0x100) % 0x100) by (bit_vector);
    assert((len >> 16) & 0xff == (len / 0x1_0000) % 0x100) by (bit_vector);
    assert((len >> 24) & 0xff == (len / 0x100_0000) % 0x100) by (bit_vector);
    assert((len >> 32) & 0xff == (len / 0x1_0000_0000) % 0x100) by (bit_vector);
    assert((len >> 40) & 0xff == (len / 0x100_0000_0000) % 0x100) by (bit_vector);
    assert((len >> 48) & 0xff == (len / 0x1_0000_0000_0000) % 0x100) by (bit_vector);
    assert((len >> 56) & 0xff == (len / 0x100_0000_0000_0000) % 0x100) by (bit_vector);
}

/// The length that an eight-byte prefix announces is the number whose digits
/// to the base 256 are its bytes, least significant first.
pub proof fn law_announced_length_value(prefix: Seq<u8>)
    requires
        prefix.len() == PREFIX_LEN,
    ensures
        spec_u64_from_le_bytes(prefix) == prefix[0] + 0x100 * prefix[1] + 0x1_0000 * prefix[2]
            + 0x100_0000 * prefix[3] + 0x1_0000_0000 * prefix[4] + 0x100_0000_0000 * prefix[5]
            + 0x1_0000_0000_0000 * prefix[6] + 0x100_0000_0000_0000 * prefix[7],
{
    let len = spec_u64_from_le_bytes(prefix);
    lemma_auto_spec_u64_to_from_le_bytes();
    assert(length_prefix(len) == prefix);
    law_length_prefix_digits(len);
}

} // verus!
