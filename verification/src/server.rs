//! Server-side utilities.
//!
//! A [`Handler`] is the table of what a server can do: for each method name
//! the callback that answers a request for it. [`Server::step`] is what one
//! connection does with each thing that happens to it; the caller owns the
//! socket, performs the reads and writes that `step` asks for and reports
//! back how they went.

use crate::transport::{is_reply_to, Request, Response};
use crate::wire::{envelope_bytes, lemma_written_is_read_back, parse_envelope};
use crate::Method;
use vstd::prelude::*;
use vstd::string::StringExecFns;

verus! {

/// One registration: a method name and what answers for it.
struct Entry<F> {
    name: String,
    callback: F,
}

/// The names of `entries`, in their order.
spec fn names_of<F>(entries: Seq<Entry<F>>) -> Seq<Seq<char>> {
    Seq::new(entries.len(), |i: int| entries[i].name@)
}

/// `entries` as a map from name to callback.
spec fn table_of<F>(entries: Seq<Entry<F>>) -> Map<Seq<char>, F> {
    Map::new(
        |name: Seq<char>| names_of(entries).contains(name),
        |name: Seq<char>| entries[names_of(entries).index_of(name)].callback,
    )
}

/// Where no name stands twice, the entry at `i` is what the table maps that
/// entry's name to.
proof fn lemma_entry_is_mapped<F>(entries: Seq<Entry<F>>, i: int)
    requires
        names_of(entries).no_duplicates(),
        0 <= i < entries.len(),
    ensures
        table_of(entries).contains_key(entries[i].name@),
        table_of(entries)[entries[i].name@] == entries[i].callback,
{
    let name = entries[i].name@;
    assert(names_of(entries)[i] == name);
    let j = names_of(entries).index_of(name);
    assert(names_of(entries)[j] == name);
}

/// What a registration does to the table. `after` is `before` with the
/// registration of `callback` under `name` at `slot`: in the place of the
/// entry of that name, or behind the last entry where there was none.
proof fn lemma_registration<F>(
    before: Seq<Entry<F>>,
    after: Seq<Entry<F>>,
    slot: int,
    name: Seq<char>,
    callback: F,
)
    requires
        names_of(before).no_duplicates(),
        0 <= slot <= before.len(),
        after.len() == if slot < before.len() {
            before.len()
        } else {
            before.len() + 1
        },
        slot < before.len() ==> before[slot].name@ == name,
        slot == before.len() ==> !names_of(before).contains(name),
        after[slot].name@ == name,
        after[slot].callback == callback,
        forall|j: int| 0 <= j < before.len() && j != slot ==> after[j] == before[j],
    ensures
        names_of(after).no_duplicates(),
        names_of(after) == if table_of(before).contains_key(name) {
            names_of(before)
        } else {
            names_of(before).push(name)
        },
        table_of(after) == table_of(before).insert(name, callback),
{
    if slot < before.len() {
        assert(names_of(before)[slot] == name);
        assert(names_of(after) =~= names_of(before));
    } else {
        assert(names_of(after) =~= names_of(before).push(name));
    }
    assert(names_of(after)[slot] == name);
    lemma_entry_is_mapped(after, slot);
    assert forall|other: Seq<char>| #[trigger]
        table_of(before).contains_key(other) && other != name implies table_of(
        after,
    ).contains_key(other) && table_of(after)[other] == table_of(before)[other] by {
        let j = names_of(before).index_of(other);
        lemma_entry_is_mapped(before, j);
        assert(names_of(after)[j] == other);
        lemma_entry_is_mapped(after, j);
    }
    assert forall|other: Seq<char>| #[trigger]
        table_of(after).contains_key(other) && other != name implies table_of(
        before,
    ).contains_key(other) by {
        let j = names_of(after).index_of(other);
        assert(names_of(before)[j] == other);
    }
    assert(table_of(after) =~= table_of(before).insert(name, callback));
}

/// The handler table: method names and, for each, a callback from a request
/// with an opaque body to a response with an opaque body.
///
/// All callbacks of one table have the same type `F`; a table of differently
/// built callbacks holds them boxed.
pub struct Handler<F: Fn(Request<Vec<u8>>) -> Response<Vec<u8>>> {
    entries: Vec<Entry<F>>,
}

impl<F: Fn(Request<Vec<u8>>) -> Response<Vec<u8>>> View for Handler<F> {
    type V = Map<Seq<char>, F>;

    /// The table as a map from method name to callback.
    closed spec fn view(&self) -> Map<Seq<char>, F> {
        table_of(self.entries@)
    }
}

impl<F: Fn(Request<Vec<u8>>) -> Response<Vec<u8>>> Default for Handler<F> {
    fn default() -> (handler: Self)
        ensures
            handler@ == Map::<Seq<char>, F>::empty(),
            handler.names() == Seq::<Seq<char>>::empty(),
    {
        Handler::new()
    }
}

impl<F: Fn(Request<Vec<u8>>) -> Response<Vec<u8>>> Handler<F> {
    /// The registered names, in the order in which each was first
    /// registered.
    pub closed spec fn names(&self) -> Seq<Seq<char>> {
        names_of(self.entries@)
    }

    /// No name stands twice in the table, and whatever a callback gives for a
    /// request is a reply to that request.
    #[verifier::type_invariant]
    spec fn well_formed(&self) -> bool {
        &&& names_of(self.entries@).no_duplicates()
        &&& forall|i: int, request: Request<Vec<u8>>, response: Response<Vec<u8>>|
            0 <= i < self.entries@.len() && #[trigger] call_ensures(
                self.entries@[i].callback,
                (request,),
                response,
            ) ==> is_reply_to(response@, request@)
    }

    /// The table can be asked about `input`: where `input` holds a request
    /// for a registered method, the callback of that method accepts it.
    /// A callback that takes every request accepts whatever comes.
    pub open spec fn accepts(&self, input: Seq<u8>) -> bool {
        parse_envelope(input) matches Some(asked) ==> self@.contains_key(asked.method) ==> forall|
            request: Request<Vec<u8>>,
        |
            request@.envelope() == asked ==> #[trigger] call_requires(
                self@[asked.method],
                (request,),
            )
    }

    /// What `handle` may give for `input`: nothing where `input` holds no
    /// envelope or names a method that is not registered; otherwise the wire
    /// bytes of a response that the registered callback can give to the
    /// request read from `input`, which is a reply to that request.
    pub open spec fn answers(&self, input: Seq<u8>, output: Option<Vec<u8>>) -> bool {
        match parse_envelope(input) {
            None => output is None,
            Some(asked) => if self@.contains_key(asked.method) {
                output matches Some(bytes) && exists|
                    request: Request<Vec<u8>>,
                    response: Response<Vec<u8>>,
                |
                    request@.envelope() == asked && call_ensures(
                        self@[asked.method],
                        (request,),
                        response,
                    ) && is_reply_to(response@, request@) && bytes@ == envelope_bytes(
                        response@.envelope(),
                    )
            } else {
                output is None
            },
        }
    }

    /// A table with nothing registered.
    pub fn new() -> (handler: Self)
        ensures
            handler@ == Map::<Seq<char>, F>::empty(),
            handler.names() == Seq::<Seq<char>>::empty(),
    {
        let entries: Vec<Entry<F>> = Vec::new();
        assert(names_of(entries@) =~= Seq::<Seq<char>>::empty());
        assert(table_of(entries@) =~= Map::<Seq<char>, F>::empty());
        Handler { entries }
    }

    /// Where `name` stands in the table, if it does.
    fn position(&self, name: &String) -> (found: Option<usize>)
        ensures
            found matches Some(i) ==> i < self.entries@.len() && self.entries@[i as int].name@
                == name@,
            found is None ==> !names_of(self.entries@).contains(name@),
    {
        let mut i: usize = 0;
        while i < self.entries.len()
            invariant
                i <= self.entries@.len(),
                forall|j: int| 0 <= j < i ==> self.entries@[j].name@ != name@,
            decreases self.entries@.len() - i,
        {
            if self.entries[i].name == *name {
                return Some(i);
            }
            i += 1;
        }
        assert forall|j: int| 0 <= j < names_of(self.entries@).len() implies names_of(
            self.entries@,
        )[j] != name@ by {}
        None
    }

    /// Registers `callback` as what answers requests for `method`. A callback
    /// registered earlier under the same name is replaced, silently; the
    /// other registrations stay as they are. Whatever the callback gives
    /// must be a reply to the request that it was given.
    pub fn add<Params, Returns>(
        &mut self,
        method: Method<Params, Returns>,
        callback: F,
    ) -> (table: &mut Self)
        requires
            forall|request: Request<Vec<u8>>, response: Response<Vec<u8>>|
                call_ensures(callback, (request,), response) ==> is_reply_to(
                    response@,
                    request@,
                ),
        ensures
            table@ == old(self)@.insert(method@, callback),
            table.names() == if old(self)@.contains_key(method@) {
                old(self).names()
            } else {
                old(self).names().push(method@)
            },
            *final(table) == *final(self),
    {
        proof {
            use_type_invariant(&*self);
        }
        let name = method.name().to_owned();
        let found = self.position(&name);
        // The entries leave the table while they change, so that the table
        // is never seen with its invariant broken.
        let mut entries: Vec<Entry<F>> = Vec::new();
        std::mem::swap(&mut self.entries, &mut entries);
        let ghost before = entries@;
        let ghost slot: int;
        match found {
            Some(i) => {
                entries.set(i, Entry { name, callback });
                proof {
                    slot = i as int;
                }
            },
            None => {
                entries.push(Entry { name, callback });
                proof {
                    slot = before.len() as int;
                }
            },
        }
        proof {
            lemma_registration(before, entries@, slot, method@, callback);
        }
        std::mem::swap(&mut self.entries, &mut entries);
        self
    }

    /// Answers one inbound frame: reads the request, looks its method up,
    /// runs the callback and writes the response. A frame that holds no
    /// request, or asks for a method that nobody registered, gets no answer.
    /// A request that its method's callback does not accept must not be
    /// handed in.
    pub fn handle(&self, input: &[u8]) -> (output: Option<Vec<u8>>)
        requires
            self.accepts(input@),
        ensures
            self.answers(input@, output),
    {
        proof {
            use_type_invariant(self);
        }
        let request = match Request::from_bytes(input) {
            Some(request) => request,
            None => {
                return None;
            },
        };
        match self.position(request.method_string()) {
            Some(i) => {
                proof {
                    lemma_entry_is_mapped(self.entries@, i as int);
                }
                let callback = &self.entries[i].callback;
                let ghost asked = request;
                let response = callback(request);
                let ghost answer = response;
                let bytes = response.to_raw_bytes();
                proof {
                    assert(call_ensures(self@[asked@.method], (asked,), answer));
                }
                Some(bytes)
            },
            None => None,
        }
    }

    /// The table in words: `Handler(`, then each registered name on a line of
    /// its own behind a tab, in the order of `names`, then `)`.
    pub fn describe(&self) -> (text: String)
        ensures
            text@ == "Handler(\n"@ + listing(self.names()) + ")"@,
    {
        let mut text = String::from_str("Handler(\n");
        let mut i: usize = 0;
        assert(self.names().take(0) =~= Seq::<Seq<char>>::empty());
        while i < self.entries.len()
            invariant
                i <= self.entries@.len(),
                text@ == "Handler(\n"@ + listing(self.names().take(i as int)),
            decreases self.entries@.len() - i,
        {
            text.append("\t");
            text.append(self.entries[i].name.as_str());
            text.append("\n");
            proof {
                let shown = self.names().take(i + 1);
                assert(shown.drop_last() =~= self.names().take(i as int));
                assert(shown.last() == self.entries@[i as int].name@);
                assert(text@ =~= "Handler(\n"@ + listing(shown));
            }
            i += 1;
        }
        assert(self.names().take(i as int) =~= self.names());
        text.append(")");
        text
    }
}

/// Answers `request` the way a registered implementation does: the body is
/// decoded into the parameters, the implementation is run on them, what it
/// returns is encoded, and the reply to `request` carries that as its body.
///
/// `decode` and `encode` are how bodies are read and written. `decode` must
/// accept the body of `request`; a body that it cannot read must not be
/// handed in.
pub fn respond<Params, Returns, Decode, Run, Encode>(
    request: Request<Vec<u8>>,
    decode: &Decode,
    implementation: &Run,
    encode: &Encode,
) -> (response: Response<Vec<u8>>) where
    Decode: Fn(&Vec<u8>) -> Params,
    Run: Fn(Params) -> Returns,
    Encode: Fn(&Returns) -> Vec<u8>,

    requires
        call_requires(*decode, (&request@.body,)),
        forall|params: Params|
            call_ensures(*decode, (&request@.body,), params) ==> call_requires(
                *implementation,
                (params,),
            ),
        forall|returned: Returns| call_requires(*encode, (&returned,)),
    ensures
        is_reply_to(response@, request@),
        answered(request@.body, *decode, *implementation, *encode, response@.body),
{
    let params = decode(request.body());
    let returned = implementation(params);
    let body = encode(&returned);
    request.reply(body)
}

/// `answer` is a body that `respond` can give for `asked`: the encoding of
/// something that the implementation can return for parameters that `asked`
/// can be decoded to.
pub open spec fn answered<Params, Returns, Decode, Run, Encode>(
    asked: Vec<u8>,
    decode: Decode,
    implementation: Run,
    encode: Encode,
    answer: Vec<u8>,
) -> bool where
    Decode: Fn(&Vec<u8>) -> Params,
    Run: Fn(Params) -> Returns,
    Encode: Fn(&Returns) -> Vec<u8>,
 {
    exists|params: Params, returned: Returns|
        call_ensures(decode, (&asked,), params) && #[trigger] call_ensures(
            implementation,
            (params,),
            returned,
        ) && call_ensures(encode, (&returned,), answer)
}

/// The lines that `Handler::describe` writes for `names`: a tab, the name and
/// a line feed for each.
pub open spec fn listing(names: Seq<Seq<char>>) -> Seq<char>
    decreases names.len(),
{
    if names.len() == 0 {
        Seq::empty()
    } else {
        listing(names.drop_last()) + "\t"@ + names.last() + "\n"@
    }
}

/// The last registration wins: of two callbacks registered under one name,
/// the table holds the second, and it is as if the first had never been
/// registered.
pub proof fn lemma_last_registration_wins<F>(
    table: Map<Seq<char>, F>,
    name: Seq<char>,
    first: F,
    second: F,
)
    ensures
        table.insert(name, first).insert(name, second)[name] == second,
        table.insert(name, first).insert(name, second) == table.insert(name, second),
{
    assert(table.insert(name, first).insert(name, second) =~= table.insert(name, second));
}

/// An answer is addressed to who asked: the bytes that `handle` gives hold a
/// response whose `to` is the id of the request in `input` and whose method
/// is that request's method.
pub proof fn lemma_answer_is_addressed_to_the_request<F: Fn(Request<Vec<u8>>) -> Response<Vec<u8>>>(
    handler: Handler<F>,
    input: Seq<u8>,
    output: Vec<u8>,
)
    requires
        handler.answers(input, Some(output)),
    ensures
        parse_envelope(input) matches Some(asked) && parse_envelope(output@) matches Some(answer)
            && answer.token == asked.token && answer.method == asked.method,
{
    let asked = parse_envelope(input)->0;
    let (request, response) = choose|request: Request<Vec<u8>>, response: Response<Vec<u8>>|
        request@.envelope() == asked && call_ensures(
            handler@[asked.method],
            (request,),
            response,
        ) && is_reply_to(response@, request@) && output@ == envelope_bytes(response@.envelope());
    assert(output@.len() == output.len());
    lemma_written_is_read_back(response@.envelope(), output@);
}

/// A frame that asks for a method that is not in the table gets no answer.
pub proof fn lemma_unregistered_gets_no_answer<F: Fn(Request<Vec<u8>>) -> Response<Vec<u8>>>(
    handler: Handler<F>,
    input: Seq<u8>,
    output: Option<Vec<u8>>,
)
    requires
        handler.answers(input, output),
        parse_envelope(input) matches Some(asked) && !handler@.contains_key(asked.method),
    ensures
        output is None,
{
}

/// Where one connection stands.
#[derive(Clone, Copy, Debug, PartialEq, Eq)]
pub enum Phase {
    /// Not accepted yet.
    Listening,
    /// Waiting for the next inbound frame.
    Reading,
    /// An answer is being written.
    Writing,
    /// Over; nothing more is read or written.
    Closed,
}

/// What can happen to a connection.
#[derive(Debug)]
pub enum Event {
    /// The listener accepted the connection.
    Accepted,
    /// One whole frame arrived.
    Frame(Vec<u8>),
    /// The stream ended, or reading from it failed.
    ReadEnded,
    /// The frame handed out for writing was written.
    Written,
    /// Writing the frame failed.
    WriteFailed,
}

/// What the connection's owner is to do next.
#[derive(Debug)]
pub enum Action {
    /// Wait for the next inbound frame.
    Read,
    /// Write these bytes as one outbound frame.
    Write(Vec<u8>),
    /// Drop the connection.
    Close,
}

/// The server: a handler table served to every connection that is accepted.
pub struct Server;

impl Server {
    /// What a connection in `phase` does on `event`, given that `answer` is
    /// what the handler said to the frame, where the event is a frame that
    /// was waited for.
    ///
    /// An accepted connection starts reading. A frame is answered if the
    /// handler has an answer, and skipped if it has none. After a write the
    /// connection reads again. The end of the stream, a failed read and a
    /// failed write close it, and so does any event that the phase does not
    /// wait for.
    pub open spec fn next(phase: Phase, event: Event, answer: Option<Vec<u8>>) -> (Phase, Action) {
        match (phase, event) {
            (Phase::Listening, Event::Accepted) => (Phase::Reading, Action::Read),
            (Phase::Reading, Event::Frame(_)) => match answer {
                Some(bytes) => (Phase::Writing, Action::Write(bytes)),
                None => (Phase::Reading, Action::Read),
            },
            (Phase::Writing, Event::Written) => (Phase::Reading, Action::Read),
            _ => (Phase::Closed, Action::Close),
        }
    }

    /// What follows the handler's `answer` to a frame: the answer is written,
    /// or, where there is none, the next frame is read.
    pub fn dispatched(answer: Option<Vec<u8>>) -> (then: (Phase, Action))
        ensures
            then == match answer {
                Some(bytes) => (Phase::Writing, Action::Write(bytes)),
                None => (Phase::Reading, Action::Read),
            },
    {
        match answer {
            Some(bytes) => (Phase::Writing, Action::Write(bytes)),
            None => (Phase::Reading, Action::Read),
        }
    }

    /// One step of one connection: from where it stands and what happened to
    /// where it stands next and what to do. A frame that was waited for is
    /// handed to `handler`, which must accept it; its answer, whichever the
    /// callback gives, decides as `next` says.
    pub fn step<F: Fn(Request<Vec<u8>>) -> Response<Vec<u8>>>(
        handler: &Handler<F>,
        phase: Phase,
        event: Event,
    ) -> (then: (Phase, Action))
        requires
            phase == Phase::Reading ==> (event matches Event::Frame(frame) ==> handler.accepts(
                frame@,
            )),
        ensures
            match (phase, event) {
                (Phase::Reading, Event::Frame(frame)) => exists|answer: Option<Vec<u8>>|
                    handler.answers(frame@, answer) && then == Self::next(phase, event, answer),
                _ => then == Self::next(phase, event, None),
            },
    {
        match phase {
            Phase::Listening => match event {
                Event::Accepted => (Phase::Reading, Action::Read),
                _ => (Phase::Closed, Action::Close),
            },
            Phase::Reading => match event {
                Event::Frame(frame) => {
                    let answer = handler.handle(frame.as_slice());
                    let ghost given = answer;
                    let then = Self::dispatched(answer);
                    assert(handler.answers(frame@, given) && then == Self::next(
                        phase,
                        event,
                        given,
                    ));
                    then
                },
                _ => (Phase::Closed, Action::Close),
            },
            Phase::Writing => match event {
                Event::Written => (Phase::Reading, Action::Read),
                _ => (Phase::Closed, Action::Close),
            },
            Phase::Closed => (Phase::Closed, Action::Close),
        }
    }
}

} // verus!
