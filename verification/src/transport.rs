//! Requests, responses and their encoding.
//!
//! A [`Request`] travels from client to server and a [`Response`] back. Both
//! carry a body whose type the sender and the receiver agree on; on the wire
//! the body is opaque bytes, so that an envelope can be read, routed and
//! answered by code that does not know what the body means.

use crate::wire::{
    deserialize_envelope, envelope_bytes, lemma_parse_inverts_envelope_bytes,
    lemma_written_is_read_back, parse_envelope, representable, serialize_envelope, Envelope,
};
use vstd::pervasive::{cloned, unreached};
use vstd::prelude::*;

verus! {

/// What a [`Request`] holds, as contracts speak of it.
pub struct RequestView<Body> {
    pub id: Seq<char>,
    pub method: Seq<char>,
    pub body: Body,
}

/// What a [`Response`] holds, as contracts speak of it.
pub struct ResponseView<Body> {
    pub to: Seq<char>,
    pub method: Seq<char>,
    pub body: Body,
}

impl RequestView<Vec<u8>> {
    /// The envelope that stands for this request on the wire.
    pub open spec fn envelope(self) -> Envelope {
        Envelope { token: self.id, method: self.method, body: self.body@ }
    }
}

impl ResponseView<Vec<u8>> {
    /// The envelope that stands for this response on the wire.
    pub open spec fn envelope(self) -> Envelope {
        Envelope { token: self.to, method: self.method, body: self.body@ }
    }
}

/// `response` answers `request`: it is addressed to the request's id and
/// names the request's method.
pub open spec fn is_reply_to<Asked, Answered>(
    response: ResponseView<Answered>,
    request: RequestView<Asked>,
) -> bool {
    response.to == request.id && response.method == request.method
}

/// `bytes` are the wire bytes of the envelope with this token, method and
/// body, and are read back as that envelope.
pub open spec fn is_written(token: Seq<char>, method: Seq<char>, body: Seq<u8>, bytes: Seq<u8>) -> bool {
    let written = Envelope { token, method, body };
    bytes == envelope_bytes(written) && parse_envelope(bytes) == Some(written)
}

/// `typed` is what becomes of the request `opaque` once `decoded` is what its
/// body was decoded to: nothing where decoding gave nothing, and otherwise
/// the same request with the decoded value for its body.
pub open spec fn is_typed_request<Body>(
    opaque: RequestView<Vec<u8>>,
    decoded: Option<Body>,
    typed: Option<Request<Body>>,
) -> bool {
    match decoded {
        Some(body) => typed matches Some(t) && t@ == (RequestView {
            id: opaque.id,
            method: opaque.method,
            body,
        }),
        None => typed is None,
    }
}

/// `typed` is what becomes of the response `opaque` once `decoded` is what
/// its body was decoded to: nothing where decoding gave nothing, and
/// otherwise the same response with the decoded value for its body.
pub open spec fn is_typed_response<Body>(
    opaque: ResponseView<Vec<u8>>,
    decoded: Option<Body>,
    typed: Option<Response<Body>>,
) -> bool {
    match decoded {
        Some(body) => typed matches Some(t) && t@ == (ResponseView {
            to: opaque.to,
            method: opaque.method,
            body,
        }),
        None => typed is None,
    }
}

/// A lower-case hexadecimal digit.
pub open spec fn is_lower_hex(c: char) -> bool {
    ('0' <= c && c <= '9') || ('a' <= c && c <= 'f')
}

/// The text of a random (version 4) UUID: 36 characters, hyphens after the
/// 8th, 12th, 16th and 20th digit, lower-case hexadecimal digits elsewhere,
/// the version digit `4` and a variant digit of `8`, `9`, `a` or `b`.
pub open spec fn is_v4_text(s: Seq<char>) -> bool {
    &&& s.len() == 36
    &&& forall|i: int|
        0 <= i < 36 ==> if i == 8 || i == 13 || i == 18 || i == 23 {
            s[i] == '-'
        } else {
            is_lower_hex(#[trigger] s[i])
        }
    &&& s[14] == '4'
    &&& (s[19] == '8' || s[19] == '9' || s[19] == 'a' || s[19] == 'b')
}

/// `uuid::Uuid::new_v4` followed by `to_string`: a fresh random token in the
/// hyphenated lower-case form. Which token comes back is left open; only its
/// shape is claimed. The call panics if the operating system cannot supply
/// random bytes.
#[verifier::external_body]
fn fresh_token() -> (token: String)
    ensures
        is_v4_text(token@),
{
    uuid::Uuid::new_v4().to_string()
}

/// Client-to-server message.
#[derive(Debug)]
pub struct Request<Body> {
    /// Token by which the sender can tell the answer to this request.
    id: String,
    /// Name of the method to run.
    method: String,
    /// Payload.
    body: Body,
}

/// Server-to-client message.
#[derive(Debug)]
pub struct Response<Body> {
    /// The `id` of the request that this answers.
    to: String,
    /// Name of the method that ran.
    method: String,
    /// Payload.
    body: Body,
}

impl<Body> View for Request<Body> {
    type V = RequestView<Body>;

    closed spec fn view(&self) -> RequestView<Body> {
        RequestView { id: self.id@, method: self.method@, body: self.body }
    }
}

impl<Body> View for Response<Body> {
    type V = ResponseView<Body>;

    closed spec fn view(&self) -> ResponseView<Body> {
        ResponseView { to: self.to@, method: self.method@, body: self.body }
    }
}

impl<Body: Clone> Clone for Request<Body> {
    fn clone(&self) -> (copy: Self)
        ensures
            copy@.id == self@.id,
            copy@.method == self@.method,
            cloned(self@.body, copy@.body),
    {
        Request { id: self.id.clone(), method: self.method.clone(), body: self.body.clone() }
    }
}

impl<Body> Request<Body> {
    /// A request for the method `label` under a fresh random id. Panics if
    /// the operating system cannot supply random bytes.
    pub fn new(label: &str, body: Body) -> (request: Self)
        ensures
            is_v4_text(request@.id),
            request@.method == label@,
            request@.body == body,
    {
        Self::with_id(fresh_token(), label, body)
    }

    /// A request for the method `label` under the id given.
    pub fn with_id(id: String, label: &str, body: Body) -> (request: Self)
        ensures
            request@ == (RequestView { id: id@, method: label@, body }),
    {
        Request { id, method: label.to_owned(), body }
    }

    /// Make a reply to this request with the given body: it is addressed to
    /// this request's id and names the same method. The request is left as
    /// it was.
    pub fn reply<NewBody>(&self, body: NewBody) -> (response: Response<NewBody>)
        ensures
            response@ == (ResponseView { to: self@.id, method: self@.method, body }),
            is_reply_to(response@, self@),
    {
        Response { to: self.id.clone(), method: self.method.clone(), body }
    }

    /// The token by which the answer to this request can be told.
    pub fn id(&self) -> (id: &str)
        ensures
            id@ == self@.id,
    {
        self.id.as_str()
    }

    /// The payload.
    pub fn body(&self) -> (body: &Body)
        ensures
            *body == self@.body,
    {
        &self.body
    }

    /// The name of the method that this request asks for.
    pub fn method(&self) -> (method: &str)
        ensures
            method@ == self@.method,
    {
        self.method.as_str()
    }

    /// Serialize this request as bytes, in two stages: `encode` writes the
    /// body, and the envelope is written around what it wrote. What is
    /// written can be read back, the body as the bytes that `encode` gave.
    pub fn to_bytes<Encode>(self, encode: &Encode) -> (bytes: Vec<u8>) where
        Encode: Fn(&Body) -> Vec<u8>,

        requires
            call_requires(*encode, (&self@.body,)),
        ensures
            exists|inner: Vec<u8>| #[trigger]
                call_ensures(*encode, (&self@.body,), inner) && is_written(
                    self@.id,
                    self@.method,
                    inner@,
                    bytes@,
                ),
    {
        let inner = encode(&self.body);
        let raw = Request { id: self.id, method: self.method, body: inner };
        raw.to_raw_bytes()
    }

    /// The method name as the owned string that it is stored as.
    pub(crate) fn method_string(&self) -> (method: &String)
        ensures
            method@ == self@.method,
    {
        &self.method
    }
}

impl Request<Vec<u8>> {
    /// Serialize a raw request: the wire bytes of this request, its body
    /// taken as the opaque bytes that they are. What is written can be read
    /// back.
    pub fn to_raw_bytes(self) -> (bytes: Vec<u8>)
        ensures
            bytes@ == envelope_bytes(self@.envelope()),
            parse_envelope(bytes@) == Some(self@.envelope()),
    {
        let bytes = match serialize_envelope(&self.id, &self.method, &self.body) {
            Ok(bytes) => bytes,
            Err(_) => unreached(),
        };
        proof {
            assert(bytes@.len() == bytes.len());
            lemma_written_is_read_back(self@.envelope(), bytes@);
        }
        bytes
    }

    /// Reads a request, with its body still opaque, from the front of
    /// `bytes`: `None` exactly where the bytes do not hold an envelope.
    pub fn from_bytes(bytes: &[u8]) -> (request: Option<Self>)
        ensures
            request is Some <==> parse_envelope(bytes@) is Some,
            request matches Some(r) ==> parse_envelope(bytes@) == Some(r@.envelope()),
    {
        match deserialize_envelope(bytes) {
            Ok(fields) => Some(Request { id: fields.0, method: fields.1, body: fields.2 }),
            Err(_) => None,
        }
    }

    /// Deserialize this request's inner body to the desired type. `decode` is
    /// how a body is read; where it gives nothing there is no typed request,
    /// and where it gives a value the typed request has this request's id
    /// and method and that value for its body.
    pub fn convert_inner<Body, Decode>(self, decode: &Decode) -> (typed: Option<
        Request<Body>,
    >) where Decode: Fn(&Vec<u8>) -> Option<Body>
        requires
            call_requires(*decode, (&self@.body,)),
        ensures
            exists|decoded: Option<Body>| #[trigger]
                call_ensures(*decode, (&self@.body,), decoded) && is_typed_request(
                    self@,
                    decoded,
                    typed,
                ),
    {
        match decode(&self.body) {
            Some(body) => Some(Request { id: self.id, method: self.method, body }),
            None => None,
        }
    }
}

impl<Body> Response<Body> {
    /// The payload.
    pub fn body(&self) -> (body: &Body)
        ensures
            *body == self@.body,
    {
        &self.body
    }

    /// Gives up the response for its payload.
    pub fn consume(self) -> (body: Body)
        ensures
            body == self@.body,
    {
        self.body
    }

    /// The id of the request that this response answers.
    pub fn to(&self) -> (to: &str)
        ensures
            to@ == self@.to,
    {
        self.to.as_str()
    }

    /// The name of the method that ran.
    pub fn method(&self) -> (method: &str)
        ensures
            method@ == self@.method,
    {
        self.method.as_str()
    }

    /// Serialize this response as bytes, in two stages: `encode` writes the
    /// body, and the envelope is written around what it wrote. What is
    /// written can be read back, the body as the bytes that `encode` gave.
    pub fn to_bytes<Encode>(self, encode: &Encode) -> (bytes: Vec<u8>) where
        Encode: Fn(&Body) -> Vec<u8>,

        requires
            call_requires(*encode, (&self@.body,)),
        ensures
            exists|inner: Vec<u8>| #[trigger]
                call_ensures(*encode, (&self@.body,), inner) && is_written(
                    self@.to,
                    self@.method,
                    inner@,
                    bytes@,
                ),
    {
        let inner = encode(&self.body);
        let raw = Response { to: self.to, method: self.method, body: inner };
        raw.to_raw_bytes()
    }
}

impl Response<Vec<u8>> {
    /// Serialize a raw response: the wire bytes of this response, its body
    /// taken as the opaque bytes that they are. What is written can be read
    /// back.
    pub fn to_raw_bytes(self) -> (bytes: Vec<u8>)
        ensures
            bytes@ == envelope_bytes(self@.envelope()),
            parse_envelope(bytes@) == Some(self@.envelope()),
    {
        let bytes = match serialize_envelope(&self.to, &self.method, &self.body) {
            Ok(bytes) => bytes,
            Err(_) => unreached(),
        };
        proof {
            assert(bytes@.len() == bytes.len());
            lemma_written_is_read_back(self@.envelope(), bytes@);
        }
        bytes
    }

    /// Reads a response, with its body still opaque, from the front of
    /// `bytes`: `None` exactly where the bytes do not hold an envelope.
    pub fn from_bytes(bytes: &[u8]) -> (response: Option<Self>)
        ensures
            response is Some <==> parse_envelope(bytes@) is Some,
            response matches Some(r) ==> parse_envelope(bytes@) == Some(r@.envelope()),
    {
        match deserialize_envelope(bytes) {
            Ok(fields) => Some(Response { to: fields.0, method: fields.1, body: fields.2 }),
            Err(_) => None,
        }
    }

    /// Deserialize the inner body to the desired type. `decode` is how a body
    /// is read; where it gives nothing there is no typed response, and where
    /// it gives a value the typed response is addressed as this one is,
    /// names the same method and has that value for its body.
    pub fn convert_inner<Body, Decode>(self, decode: &Decode) -> (typed: Option<
        Response<Body>,
    >) where Decode: Fn(&Vec<u8>) -> Option<Body>
        requires
            call_requires(*decode, (&self@.body,)),
        ensures
            exists|decoded: Option<Body>| #[trigger]
                call_ensures(*decode, (&self@.body,), decoded) && is_typed_response(
                    self@,
                    decoded,
                    typed,
                ),
    {
        match decode(&self.body) {
            Some(body) => Some(Response { to: self.to, method: self.method, body }),
            None => None,
        }
    }
}

/// A value survives both layers of encoding. Let `encode` and `decode` be the
/// scheme by which bodies are written and read, and let it give the body of
/// `request` back when it reads what it wrote for it. Then what `to_bytes`
/// writes for `request`, read from the wire again, has the id and the method
/// that `request` has, and its body decodes to the body of `request`.
pub proof fn lemma_value_survives_both_layers<Body>(
    encode: spec_fn(Body) -> Seq<u8>,
    decode: spec_fn(Seq<u8>) -> Option<Body>,
    request: RequestView<Body>,
    trailing: Seq<u8>,
)
    requires
        decode(encode(request.body)) == Some(request.body),
        representable(
            (Envelope { token: request.id, method: request.method, body: encode(request.body) }),
        ),
    ensures
        ({
            let written = Envelope {
                token: request.id,
                method: request.method,
                body: encode(request.body),
            };
            parse_envelope(envelope_bytes(written) + trailing) matches Some(read) && read.token
                == request.id && read.method == request.method && decode(read.body) == Some(
                request.body,
            )
        }),
{
    let written = Envelope {
        token: request.id,
        method: request.method,
        body: encode(request.body),
    };
    lemma_parse_inverts_envelope_bytes(written, trailing);
}

} // verus!
