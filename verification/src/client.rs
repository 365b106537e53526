//! Utilities for client-side applications.
//!
//! A call is one request out and one response back, strictly in turn: the
//! next inbound frame after a request is taken to be its answer, and the
//! response's `to` is not compared with the request's `id`. The functions
//! here are what a dispatcher decides before it sends and after it has
//! received; sending and waiting are left to whoever owns the connection.

use crate::transport::{Request, Response};
use crate::wire::{envelope_bytes, parse_envelope};
use std::marker::PhantomData;
use vstd::prelude::*;
use vstd::string::StringExecFns;

verus! {

/// Why a reply could not be turned into the value that was asked for.
#[derive(Clone, Copy, Debug, PartialEq, Eq)]
pub enum DispatchError {
    /// The inbound frame holds no response envelope.
    Envelope,
    /// The response's body is not a value of the expected return type.
    Body,
}

impl DispatchError {
    /// The error in words.
    pub fn message(&self) -> (text: String)
        ensures
            text@ == match *self {
                DispatchError::Envelope => "Could not deserialize response from binary!"@,
                DispatchError::Body => "Could not deserialize reponse's body from binary!"@,
            },
    {
        match self {
            DispatchError::Envelope => String::from_str(
                "Could not deserialize response from binary!",
            ),
            DispatchError::Body => String::from_str(
                "Could not deserialize reponse's body from binary!",
            ),
        }
    }
}

/// The frame to send for a call: the wire bytes of its request. The marker
/// of the return type adds nothing to them.
pub fn encode_call<Returns>(call: (Request<Vec<u8>>, PhantomData<Returns>)) -> (frame: Vec<u8>)
    ensures
        frame@ == envelope_bytes(call.0@.envelope()),
        parse_envelope(frame@) == Some(call.0@.envelope()),
{
    call.0.to_raw_bytes()
}

/// Reads the inbound frame as a response whose body is still opaque, and
/// fails with [`DispatchError::Envelope`] exactly where the frame holds none.
pub fn decode_reply(frame: &[u8]) -> (reply: Result<Response<Vec<u8>>, DispatchError>)
    ensures
        reply is Ok <==> parse_envelope(frame@) is Some,
        reply matches Ok(response) ==> parse_envelope(frame@) == Some(response@.envelope()),
        reply matches Err(error) ==> error == DispatchError::Envelope,
{
    match Response::from_bytes(frame) {
        Some(response) => Ok(response),
        None => Err(DispatchError::Envelope),
    }
}

/// What a caller gets for a call once its answer has arrived: the frame is
/// read as a response, the response's body is decoded into the expected
/// return type, and the value is handed out. `decode` is how a body is read;
/// it gives nothing for a body that is no value of that type.
///
/// The call fails with [`DispatchError::Envelope`] exactly where the frame
/// holds no envelope, and with [`DispatchError::Body`] exactly where it does
/// and `decode` gives nothing for its body.
pub fn read_reply<Returns, Decode>(frame: &[u8], decode: &Decode) -> (value: Result<
    Returns,
    DispatchError,
>) where Decode: Fn(&Vec<u8>) -> Option<Returns>
    requires
        parse_envelope(frame@) matches Some(reply) ==> forall|body: Vec<u8>|
            body@ == reply.body ==> #[trigger] call_requires(*decode, (&body,)),
    ensures
        match parse_envelope(frame@) {
            None => value == Err::<Returns, DispatchError>(DispatchError::Envelope),
            Some(reply) => exists|body: Vec<u8>, decoded: Option<Returns>|
                body@ == reply.body && #[trigger] call_ensures(*decode, (&body,), decoded) && value
                    == match decoded {
                    Some(returned) => Ok::<Returns, DispatchError>(returned),
                    None => Err(DispatchError::Body),
                },
        },
{
    match decode_reply(frame) {
        Err(error) => Err(error),
        Ok(reply) => match reply.convert_inner(decode) {
            Some(typed) => Ok(typed.consume()),
            None => Err(DispatchError::Body),
        },
    }
}

} // verus!
