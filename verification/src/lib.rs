//! A typed remote-procedure-call layer over framed byte streams.
//!
//! A protocol is a set of named methods, each with a parameter tuple and a
//! return type. A [`Method`] binds such a name to its two types. Calling it
//! makes a [`transport::Request`]; a [`server::Handler`] looks the request's
//! method up, runs what was registered for it and answers with a
//! [`transport::Response`]; the [`client`] module reads the answer. Bodies
//! cross the wire as opaque bytes inside an envelope, so the types are known
//! at both ends and nowhere in between.

use crate::transport::{is_v4_text, Request};
use std::marker::PhantomData;
use vstd::prelude::*;

pub mod client;
pub mod server;
pub mod transport;
pub mod wire;

verus! {

/// Stores metadata about a method: its
/// * name;
/// * parameter types; and
/// * return type.
#[derive(Debug)]
pub struct Method<P, R>(&'static str, PhantomData<P>, PhantomData<R>);

impl<P, R> View for Method<P, R> {
    type V = Seq<char>;

    /// The method's name.
    closed spec fn view(&self) -> Seq<char> {
        self.0@
    }
}

impl<P, R> Clone for Method<P, R> {
    fn clone(&self) -> (copy: Self)
        ensures
            copy == *self,
    {
        *self
    }
}

impl<P, R> Copy for Method<P, R> {

}

/// Converts a `fn` into a [`Method`]: the function's signature fixes the
/// parameter and return types, `name` is what the method is called on the
/// wire. The function itself is never run.
pub fn methodify<Params, Returns, F>(
    __func: &'static F,
    name: &'static str,
) -> (method: Method<Params, Returns>) where F: Fn(Params) -> Returns
    ensures
        method@ == name@,
{
    Method(name, PhantomData, PhantomData)
}

/// Utility trait that links a [`Method`]'s parameter and return types.
pub trait MethodInfo<P, R> {
    type Params;

    type Result;
}

impl<Params, Returns> MethodInfo<Params, Returns> for Method<Params, Returns> {
    type Params = Params;

    type Result = Returns;
}

impl<Params, Returns> Method<Params, Returns> {
    /// The name under which the method is registered and called.
    pub fn name(&self) -> (name: &'static str)
        ensures
            name@ == self@,
    {
        self.0
    }

    /// Calls the method with `args`: nothing is run, a request is made. Its
    /// body is what `encode` writes for the parameter tuple, its id is fresh.
    /// Beside the request stands a marker of the return type, so that whoever
    /// reads the reply knows what to decode.
    pub fn call_once<Encode>(self, args: Params, encode: &Encode) -> (call: (
        Request<Vec<u8>>,
        PhantomData<Returns>,
    )) where Encode: Fn(&Params) -> Vec<u8>
        requires
            call_requires(*encode, (&args,)),
        ensures
            is_v4_text(call.0@.id),
            call.0@.method == self@,
            call_ensures(*encode, (&args,), call.0@.body),
    {
        (Request::new(self.0, encode(&args)), PhantomData)
    }
}

} // verus!
