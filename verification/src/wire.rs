//! The bytes of an envelope on the wire.
//!
//! An envelope travels as three length-prefixed fields, one after the other:
//! the correlation token, the method name and the opaque body. Each prefix is
//! the field's length in bytes as a little-endian `u64`; the two texts are
//! UTF-8. This module states that layout as spec functions, proves that
//! reading undoes writing, and holds the two calls into `bincode` that
//! produce and consume such bytes.

use vstd::bytes::{
    lemma_auto_spec_u64_to_from_le_bytes, spec_u64_from_le_bytes, spec_u64_to_le_bytes,
};
use vstd::prelude::*;
use vstd::utf8::{
    decode_utf8, decode_utf8_encode_utf8, encode_utf8, encode_utf8_decode_utf8,
    encode_utf8_valid_utf8, valid_utf8,
};

verus! {

/// What an envelope says, apart from how it is stored: a request's `id` or a
/// response's `to` as `token`, the method name, and the body as opaque bytes.
pub struct Envelope {
    pub token: Seq<char>,
    pub method: Seq<char>,
    pub body: Seq<u8>,
}

/// The eight bytes that announce a field of `len` bytes.
pub open spec fn length_prefix(len: nat) -> Seq<u8> {
    spec_u64_to_le_bytes(len as u64)
}

/// One field on the wire: its length, then its content.
pub open spec fn field(content: Seq<u8>) -> Seq<u8> {
    length_prefix(content.len()) + content
}

/// The wire bytes of an envelope.
pub open spec fn envelope_bytes(e: Envelope) -> Seq<u8> {
    field(encode_utf8(e.token)) + field(encode_utf8(e.method)) + field(e.body)
}

/// Every field of `e` is short enough for its length to be written in a `u64`.
pub open spec fn representable(e: Envelope) -> bool {
    &&& encode_utf8(e.token).len() <= u64::MAX
    &&& encode_utf8(e.method).len() <= u64::MAX
    &&& e.body.len() <= u64::MAX
}

/// Reads one field from the front of `bytes`: its content and what follows it.
/// Nothing is read where the prefix is cut short or announces more bytes than
/// are left.
pub open spec fn split_field(bytes: Seq<u8>) -> Option<(Seq<u8>, Seq<u8>)> {
    if bytes.len() < 8 {
        None
    } else {
        let announced = spec_u64_from_le_bytes(bytes.subrange(0, 8)) as int;
        if announced > bytes.len() - 8 {
            None
        } else {
            Some((bytes.subrange(8, 8 + announced), bytes.subrange(8 + announced, bytes.len() as int)))
        }
    }
}

/// Reads an envelope from the front of `bytes`. Bytes after the third field
/// are ignored; a token or method that is not UTF-8 makes the whole reading
/// fail.
pub open spec fn parse_envelope(bytes: Seq<u8>) -> Option<Envelope> {
    match split_field(bytes) {
        None => None,
        Some((token, after_token)) => match split_field(after_token) {
            None => None,
            Some((method, after_method)) => match split_field(after_method) {
                None => None,
                Some((body, _)) => if valid_utf8(token) && valid_utf8(method) {
                    Some(Envelope { token: decode_utf8(token), method: decode_utf8(method), body })
                } else {
                    None
                },
            },
        },
    }
}

/// A field written in front of any bytes is read back whole, and the bytes
/// behind it are what is left.
pub proof fn lemma_split_field_inverts_field(content: Seq<u8>, rest: Seq<u8>)
    requires
        content.len() <= u64::MAX,
    ensures
        split_field(field(content) + rest) == Some((content, rest)),
{
    lemma_auto_spec_u64_to_from_le_bytes();
    let written = field(content) + rest;
    let prefix = length_prefix(content.len());
    assert(prefix.len() == 8);
    assert(written.subrange(0, 8) =~= prefix);
    assert(spec_u64_from_le_bytes(prefix) == content.len() as u64);
    let end: int = 8 + content.len() as int;
    assert(written.subrange(8, end) =~= content);
    assert(written.subrange(end, written.len() as int) =~= rest);
}

/// Reading undoes writing: the wire bytes of an envelope, with or without
/// bytes behind them, are read back as that envelope.
pub proof fn lemma_parse_inverts_envelope_bytes(e: Envelope, trailing: Seq<u8>)
    requires
        representable(e),
    ensures
        parse_envelope(envelope_bytes(e) + trailing) == Some(e),
{
    let token = encode_utf8(e.token);
    let method = encode_utf8(e.method);
    let after_token = field(method) + field(e.body) + trailing;
    let after_method = field(e.body) + trailing;
    assert(envelope_bytes(e) + trailing =~= field(token) + after_token);
    assert(after_token =~= field(method) + after_method);
    lemma_split_field_inverts_field(token, after_token);
    lemma_split_field_inverts_field(method, after_method);
    lemma_split_field_inverts_field(e.body, trailing);
    encode_utf8_valid_utf8(e.token);
    encode_utf8_valid_utf8(e.method);
    encode_utf8_decode_utf8(e.token);
    encode_utf8_decode_utf8(e.method);
}

/// Bytes that fit in memory and are the wire bytes of `e` are read back as
/// `e`: no field of `e` can then be too long for its prefix.
pub proof fn lemma_written_is_read_back(e: Envelope, bytes: Seq<u8>)
    requires
        bytes == envelope_bytes(e),
        bytes.len() <= usize::MAX,
    ensures
        representable(e),
        parse_envelope(bytes) == Some(e),
{
    lemma_auto_spec_u64_to_from_le_bytes();
    lemma_parse_inverts_envelope_bytes(e, Seq::empty());
    assert(envelope_bytes(e) + Seq::<u8>::empty() =~= envelope_bytes(e));
}

/// A field that was read stood at the front of the bytes it was read from.
pub proof fn lemma_split_field_gives_front(bytes: Seq<u8>)
    requires
        split_field(bytes) is Some,
    ensures
        ({
            let (content, rest) = split_field(bytes)->0;
            content.len() <= u64::MAX && bytes == field(content) + rest
        }),
{
    lemma_auto_spec_u64_to_from_le_bytes();
    let (content, rest) = split_field(bytes)->0;
    let head = bytes.subrange(0, 8);
    assert(spec_u64_to_le_bytes(spec_u64_from_le_bytes(head)) == head);
    assert(bytes =~= head + content + rest);
}

/// Writing undoes reading: whatever is read as an envelope begins with that
/// envelope's wire bytes, so two byte strings that read differently differ
/// already there.
pub proof fn lemma_parsed_bytes_begin_with_envelope(bytes: Seq<u8>)
    requires
        parse_envelope(bytes) is Some,
    ensures
        ({
            let e = parse_envelope(bytes)->0;
            &&& representable(e)
            &&& envelope_bytes(e).len() <= bytes.len()
            &&& bytes.subrange(0, envelope_bytes(e).len() as int) == envelope_bytes(e)
        }),
{
    let e = parse_envelope(bytes)->0;
    let (token, after_token) = split_field(bytes)->0;
    let (method, after_method) = split_field(after_token)->0;
    let (body, trailing) = split_field(after_method)->0;
    lemma_split_field_gives_front(bytes);
    lemma_split_field_gives_front(after_token);
    lemma_split_field_gives_front(after_method);
    decode_utf8_encode_utf8(token);
    decode_utf8_encode_utf8(method);
    assert(bytes =~= envelope_bytes(e) + trailing);
    assert(bytes.subrange(0, envelope_bytes(e).len() as int) =~= envelope_bytes(e));
}

/// `bincode::ErrorKind`, what every error of `bincode` holds. It is carried
/// from the call to the caller and never looked into.
#[verifier::external_type_specification]
#[verifier::external_body]
pub struct ExBincodeErrorKind(bincode::ErrorKind);

/// `bincode::serialize`, applied to the triple of token, method and body.
///
/// With the settings that function fixes (fixed-width integers, little
/// endian, no size limit) a string and a byte vector are each written as
/// their byte length in a `u64` followed by their bytes, and a tuple as its
/// members in order with nothing between them. Writing into a vector cannot
/// fail, so the result is claimed to be `Ok`.
#[verifier::external_body]
pub(crate) fn serialize_envelope(
    token: &String,
    method: &String,
    body: &Vec<u8>,
) -> (written: Result<Vec<u8>, Box<bincode::ErrorKind>>)
    ensures
        written is Ok,
        written matches Ok(bytes) ==> bytes@ == envelope_bytes(
            (Envelope { token: token@, method: method@, body: body@ }),
        ),
{
    bincode::serialize(&(token, method, body))
}

/// `bincode::deserialize`, asked for a triple of token, method and body.
///
/// It reads the three fields in order, fails where a length prefix is cut
/// short or announces more bytes than remain, fails where the token or the
/// method is not UTF-8, and does not mind bytes left over at the end.
#[verifier::external_body]
pub(crate) fn deserialize_envelope(
    bytes: &[u8],
) -> (read: Result<(String, String, Vec<u8>), Box<bincode::ErrorKind>>)
    ensures
        read is Ok <==> parse_envelope(bytes@) is Some,
        read matches Ok(fields) ==> parse_envelope(bytes@) == Some(
            (Envelope { token: fields.0@, method: fields.1@, body: fields.2@ }),
        ),
{
    bincode::deserialize(bytes)
}

} // verus!
