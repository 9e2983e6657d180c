//! The marshaling layer: conversions between in-process text and the
//! null-terminated byte buffers that cross the component boundary.
//!
//! A buffer is the UTF-8 encoding of a text followed by one zero byte.
//! Encoding refuses a text whose encoding holds an embedded zero byte (the
//! terminator would be ambiguous); decoding reads exactly the bytes before
//! the first zero and refuses a buffer without a terminator or whose
//! payload is not valid UTF-8. Buffer ownership across the raw boundary
//! (who allocates and who frees) is the embedding's obligation; here every
//! buffer is an owned vector.

use vstd::prelude::*;
use vstd::string::StringSliceAdditionalSpecFns;
use vstd::utf8::decode_utf8;
use vstd::utf8::encode_utf8;
use vstd::utf8::encode_utf8_decode_utf8;
use vstd::utf8::encode_utf8_valid_utf8;
use vstd::utf8::valid_utf8;

verus! {

/// Why a buffer or a text was refused at the boundary.
#[derive(Clone, Copy, Debug, PartialEq, Eq, Structural)]
pub enum MarshalError {
    /// The text's encoding holds a zero byte, which the terminator would
    /// collide with.
    EmbeddedNul,
    /// The buffer has no terminator, or its payload is not valid UTF-8.
    InvalidEncoding,
}

/// Index of the first zero byte, or the sequence's length if none occurs.
pub open spec fn first_zero(b: Seq<u8>) -> int
    decreases b.len(),
{
    if b.len() == 0 {
        0
    } else if b[0] == 0 {
        0
    } else {
        1 + first_zero(b.drop_first())
    }
}

/// The bytes before the terminator.
pub open spec fn payload(b: Seq<u8>) -> Seq<u8> {
    b.take(first_zero(b))
}

/// A position with only nonzero bytes before it, and a zero byte at it if
/// it is inside the sequence, is exactly `first_zero`.
pub proof fn lemma_first_zero_is(b: Seq<u8>, i: int)
    requires
        0 <= i <= b.len(),
        forall|j: int| 0 <= j < i ==> b[j] != 0,
        i < b.len() ==> b[i] == 0,
    ensures
        first_zero(b) == i,
    decreases b.len(),
{
    if b.len() > 0 && b[0] != 0 {
        assert forall|j: int| 0 <= j < i - 1 implies b.drop_first()[j] != 0 by {
            assert(b[j + 1] != 0);
        }
        lemma_first_zero_is(b.drop_first(), i - 1);
    }
}

/// What a buffer decodes to: the text whose encoding stands before the
/// terminator, if the buffer is terminated and that payload is valid UTF-8.
pub open spec fn decode_spec(b: Seq<u8>) -> Option<Seq<char>> {
    if first_zero(b) < b.len() && valid_utf8(payload(b)) {
        Some(decode_utf8(payload(b)))
    } else {
        None
    }
}

/// What encoding a text produces: its UTF-8 bytes with one terminating
/// zero byte, unless those bytes already hold a zero.
pub open spec fn encode_spec(s: Seq<char>) -> Option<Seq<u8>> {
    if encode_utf8(s).contains(0) {
        None
    } else {
        Some(encode_utf8(s).push(0))
    }
}

/// Whether every buffer of the sequence decodes.
pub open spec fn all_decode(bufs: Seq<Seq<u8>>) -> bool {
    forall|i: int| 0 <= i < bufs.len() ==> decode_spec(bufs[i]) is Some
}

/// The texts a sequence of buffers decodes to.
pub open spec fn decoded_texts(bufs: Seq<Seq<u8>>) -> Seq<Seq<char>> {
    Seq::new(bufs.len(), |i: int| decode_spec(bufs[i])->Some_0)
}

/// Relies on alloc's String::from_utf8: it succeeds exactly on UTF-8-valid
/// bytes and returns the text those bytes encode, which is vstd's
/// `decode_utf8` of them.
#[verifier::external_body]
fn bytes_to_string(bytes: Vec<u8>) -> (r: Option<String>)
    ensures
        r is Some <==> valid_utf8(bytes@),
        r is Some ==> r->Some_0@ == decode_utf8(bytes@),
{
    String::from_utf8(bytes).ok()
}

/// Encodes a text as a null-terminated buffer. The caller owns the buffer.
/// Refused exactly when the text's encoding holds an embedded zero byte.
pub fn encode_string(text: &str) -> (r: Result<Vec<u8>, MarshalError>)
    ensures
        match r {
            Ok(buf) => encode_spec(text@) == Some(buf@),
            Err(e) => e == MarshalError::EmbeddedNul && encode_spec(text@) is None,
        },
{
    let mut buf = text.as_bytes_vec();
    let n = buf.len();
    let mut i: usize = 0;
    while i < n
        invariant
            n == buf@.len(),
            buf@ == encode_utf8(text@),
            0 <= i <= n,
            forall|j: int| 0 <= j < i ==> buf@[j] != 0,
        decreases n - i,
    {
        if buf[i] == 0 {
            return Err(MarshalError::EmbeddedNul);
        }
        i += 1;
    }
    buf.push(0);
    Ok(buf)
}

/// Decodes a null-terminated buffer back to text. Only the bytes before
/// the first zero are read. Refused exactly when no terminator occurs or
/// the payload is not valid UTF-8.
pub fn decode_string(buffer: &Vec<u8>) -> (r: Result<String, MarshalError>)
    ensures
        match r {
            Ok(s) => decode_spec(buffer@) == Some(s@),
            Err(e) => e == MarshalError::InvalidEncoding && decode_spec(buffer@) is None,
        },
{
    let n = buffer.len();
    let mut i: usize = 0;
    let mut body: Vec<u8> = Vec::new();
    while i < n && buffer[i] != 0
        invariant
            n == buffer@.len(),
            0 <= i <= n,
            forall|j: int| 0 <= j < i ==> buffer@[j] != 0,
            body@ == buffer@.take(i as int),
        decreases n - i,
    {
        body.push(buffer[i]);
        i += 1;
        proof {
            assert(body@ =~= buffer@.take(i as int));
        }
    }
    proof {
        lemma_first_zero_is(buffer@, i as int);
    }
    if i == n {
        return Err(MarshalError::InvalidEncoding);
    }
    match bytes_to_string(body) {
        Some(s) => Ok(s),
        None => Err(MarshalError::InvalidEncoding),
    }
}

/// Decodes a sequence of null-terminated buffers, each borrowed from the
/// caller. Refused exactly when some buffer does not decode.
pub fn decode_string_array(buffers: &Vec<Vec<u8>>) -> (r: Result<Vec<String>, MarshalError>)
    ensures
        match r {
            Ok(texts) => texts@.len() == buffers@.len() && forall|i: int|
                0 <= i < buffers@.len() ==> decode_spec(buffers@[i]@) == Some(texts@[i]@),
            Err(e) => e == MarshalError::InvalidEncoding && exists|i: int|
                0 <= i < buffers@.len() && decode_spec(buffers@[i]@) is None,
        },
{
    let n = buffers.len();
    let mut texts: Vec<String> = Vec::new();
    let mut i: usize = 0;
    while i < n
        invariant
            n == buffers@.len(),
            0 <= i <= n,
            texts@.len() == i,
            forall|j: int| 0 <= j < i ==> decode_spec(buffers@[j]@) == Some(texts@[j]@),
        decreases n - i,
    {
        match decode_string(&buffers[i]) {
            Ok(s) => texts.push(s),
            Err(_) => {
                return Err(MarshalError::InvalidEncoding);
            },
        }
        i += 1;
    }
    Ok(texts)
}

/// Law (round trip): a buffer `encode_string` produced decodes back to the
/// text it was made from, for any text it accepts.
pub proof fn lemma_encode_decode_round_trip(s: Seq<char>, buf: Seq<u8>)
    requires
        encode_spec(s) == Some(buf),
    ensures
        decode_spec(buf) == Some(s),
{
    broadcast use encode_utf8_valid_utf8, encode_utf8_decode_utf8;

    let e = encode_utf8(s);
    assert(forall|j: int| 0 <= j < e.len() ==> e[j] != 0);
    lemma_first_zero_is(buf, e.len() as int);
    assert(payload(buf) =~= e);
}

} // verus!
