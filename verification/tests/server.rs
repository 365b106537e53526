use avsocket::server::{respond, Action, Event, Handler, Phase, Server};
use avsocket::transport::{Request, Response};
use avsocket::{methodify, Method};

type Callback = Box<dyn Fn(Request<Vec<u8>>) -> Response<Vec<u8>>>;

fn decode<P: serde::de::DeserializeOwned>(body: &Vec<u8>) -> P {
    bincode::deserialize(body).expect("Valid message sent")
}

fn encode<R: serde::Serialize>(returned: &R) -> Vec<u8> {
    bincode::serialize(returned).expect("Valid serialization")
}

fn erased<P, R>(implementation: fn(P) -> R) -> Callback
where
    P: serde::de::DeserializeOwned + 'static,
    R: serde::Serialize + 'static,
{
    Box::new(move |request: Request<Vec<u8>>| {
        respond(request, &decode::<P>, &implementation, &encode::<R>)
    })
}

fn add(args: (u32, u32)) -> u32 {
    args.0 + args.1
}

fn sub(args: (u32, u32)) -> u32 {
    args.0 - args.1
}

fn mul(args: (u32, u32)) -> u32 {
    args.0 * args.1
}

fn frame_for(method: &str, args: (u32, u32)) -> Vec<u8> {
    Request::with_id("id".to_string(), method, bincode::serialize(&args).unwrap()).to_raw_bytes()
}

fn returned(frame: &[u8]) -> u32 {
    let response = Response::from_bytes(frame).unwrap();
    bincode::deserialize(response.body()).unwrap()
}

#[test]
fn respond_decodes_runs_encodes_and_replies() {
    let request = Request::with_id("id-1".to_string(), "add", encode(&(5u32, 23u32)));
    let response = respond(request, &decode::<(u32, u32)>, &add, &encode::<u32>);
    assert_eq!(response.to(), "id-1");
    assert_eq!(response.method(), "add");
    assert_eq!(response.body(), &vec![28u8, 0, 0, 0]);
}

#[test]
fn handle_runs_the_registered_callback() {
    let method: Method<(u32, u32), u32> = methodify(&add, "add");
    let mut handler: Handler<Callback> = Handler::new();
    handler.add(method, erased(add));
    let answer = handler.handle(&frame_for("add", (5, 23))).unwrap();
    let response = Response::from_bytes(&answer).unwrap();
    assert_eq!(response.to(), "id");
    assert_eq!(response.method(), "add");
    assert_eq!(response.body(), &vec![28u8, 0, 0, 0]);
}

#[test]
fn handle_gives_nothing_for_an_unregistered_method() {
    let method: Method<(u32, u32), u32> = methodify(&add, "add");
    let mut handler: Handler<Callback> = Handler::new();
    handler.add(method, erased(add));
    assert!(handler.handle(&frame_for("mul", (5, 23))).is_none());
    assert!(handler.handle(&frame_for("", (5, 23))).is_none());
    assert!(handler.handle(&frame_for("ad", (5, 23))).is_none());
    assert!(handler.handle(&frame_for("add ", (5, 23))).is_none());
}

#[test]
fn an_empty_table_answers_nothing() {
    let handler: Handler<Callback> = Handler::new();
    assert!(handler.handle(&frame_for("add", (1, 2))).is_none());
    let default: Handler<Callback> = Handler::default();
    assert!(default.handle(&frame_for("add", (1, 2))).is_none());
}

#[test]
fn handle_gives_nothing_for_bytes_that_hold_no_request() {
    let method: Method<(u32, u32), u32> = methodify(&add, "add");
    let mut handler: Handler<Callback> = Handler::new();
    handler.add(method, erased(add));
    assert!(handler.handle(&[]).is_none());
    assert!(handler.handle(&[1, 2, 3]).is_none());
    let frame = frame_for("add", (5, 23));
    assert!(handler.handle(&frame[..frame.len() - 1]).is_none());
}

#[test]
fn the_second_registration_under_a_name_wins() {
    let method: Method<(u32, u32), u32> = methodify(&add, "add");
    let mut handler: Handler<Callback> = Handler::new();
    handler.add(method, erased(add));
    assert_eq!(returned(&handler.handle(&frame_for("add", (5, 23))).unwrap()), 28);
    handler.add(method, erased(mul));
    assert_eq!(returned(&handler.handle(&frame_for("add", (5, 23))).unwrap()), 115);
    assert_eq!(returned(&handler.handle(&frame_for("add", (2, 3))).unwrap()), 6);
}

#[test]
fn registrations_chain_and_do_not_disturb_each_other() {
    let adding: Method<(u32, u32), u32> = methodify(&add, "add");
    let subtracting: Method<(u32, u32), u32> = methodify(&sub, "sub");
    let mut handler: Handler<Callback> = Handler::new();
    handler.add(adding, erased(add)).add(subtracting, erased(sub));
    assert_eq!(returned(&handler.handle(&frame_for("add", (10, 4))).unwrap()), 14);
    assert_eq!(returned(&handler.handle(&frame_for("sub", (10, 4))).unwrap()), 6);
    handler.add(adding, erased(mul));
    assert_eq!(returned(&handler.handle(&frame_for("add", (10, 4))).unwrap()), 40);
    assert_eq!(returned(&handler.handle(&frame_for("sub", (10, 4))).unwrap()), 6);
}

#[test]
fn describe_lists_the_names_in_order_of_first_registration() {
    let adding: Method<(u32, u32), u32> = methodify(&add, "add");
    let subtracting: Method<(u32, u32), u32> = methodify(&sub, "sub");
    let mut handler: Handler<Callback> = Handler::new();
    assert_eq!(handler.describe(), "Handler(\n)");
    handler.add(adding, erased(add));
    assert_eq!(handler.describe(), "Handler(\n\tadd\n)");
    handler.add(subtracting, erased(sub));
    assert_eq!(handler.describe(), "Handler(\n\tadd\n\tsub\n)");
    handler.add(adding, erased(mul));
    assert_eq!(handler.describe(), "Handler(\n\tadd\n\tsub\n)");
}

#[test]
fn an_accepted_connection_starts_reading() {
    let handler: Handler<Callback> = Handler::new();
    let (phase, action) = Server::step(&handler, Phase::Listening, Event::Accepted);
    assert_eq!(phase, Phase::Reading);
    assert!(matches!(action, Action::Read));
}

#[test]
fn a_frame_for_a_registered_method_is_answered() {
    let method: Method<(u32, u32), u32> = methodify(&add, "add");
    let mut handler: Handler<Callback> = Handler::new();
    handler.add(method, erased(add));
    let (phase, action) =
        Server::step(&handler, Phase::Reading, Event::Frame(frame_for("add", (5, 23))));
    assert_eq!(phase, Phase::Writing);
    match action {
        Action::Write(bytes) => assert_eq!(returned(&bytes), 28),
        other => panic!("expected a write, got {:?}", other),
    }
    let (phase, action) = Server::step(&handler, Phase::Writing, Event::Written);
    assert_eq!(phase, Phase::Reading);
    assert!(matches!(action, Action::Read));
}

#[test]
fn a_frame_for_an_unregistered_method_leaves_the_connection_open() {
    let method: Method<(u32, u32), u32> = methodify(&add, "add");
    let mut handler: Handler<Callback> = Handler::new();
    handler.add(method, erased(add));
    let (phase, action) =
        Server::step(&handler, Phase::Reading, Event::Frame(frame_for("mul", (5, 23))));
    assert_eq!(phase, Phase::Reading);
    assert!(matches!(action, Action::Read));
    let (phase, action) =
        Server::step(&handler, phase, Event::Frame(frame_for("add", (5, 23))));
    assert_eq!(phase, Phase::Writing);
    match action {
        Action::Write(bytes) => assert_eq!(returned(&bytes), 28),
        other => panic!("expected a write, got {:?}", other),
    }
}

#[test]
fn a_malformed_frame_is_skipped() {
    let handler: Handler<Callback> = Handler::new();
    let (phase, action) = Server::step(&handler, Phase::Reading, Event::Frame(vec![1, 2, 3]));
    assert_eq!(phase, Phase::Reading);
    assert!(matches!(action, Action::Read));
}

#[test]
fn a_failed_read_closes_the_connection() {
    let handler: Handler<Callback> = Handler::new();
    let (phase, action) = Server::step(&handler, Phase::Reading, Event::ReadEnded);
    assert_eq!(phase, Phase::Closed);
    assert!(matches!(action, Action::Close));
}

#[test]
fn a_failed_write_closes_the_connection() {
    let handler: Handler<Callback> = Handler::new();
    let (phase, action) = Server::step(&handler, Phase::Writing, Event::WriteFailed);
    assert_eq!(phase, Phase::Closed);
    assert!(matches!(action, Action::Close));
}

#[test]
fn an_event_that_was_not_waited_for_closes_the_connection() {
    let handler: Handler<Callback> = Handler::new();
    let unexpected = [
        (Phase::Listening, Event::Frame(vec![])),
        (Phase::Listening, Event::ReadEnded),
        (Phase::Listening, Event::Written),
        (Phase::Listening, Event::WriteFailed),
        (Phase::Reading, Event::Accepted),
        (Phase::Reading, Event::Written),
        (Phase::Reading, Event::WriteFailed),
        (Phase::Writing, Event::Accepted),
        (Phase::Writing, Event::Frame(vec![])),
        (Phase::Writing, Event::ReadEnded),
        (Phase::Closed, Event::Accepted),
        (Phase::Closed, Event::Frame(vec![])),
        (Phase::Closed, Event::ReadEnded),
        (Phase::Closed, Event::Written),
        (Phase::Closed, Event::WriteFailed),
    ];
    for (phase, event) in unexpected {
        let (next, action) = Server::step(&handler, phase, event);
        assert_eq!(next, Phase::Closed);
        assert!(matches!(action, Action::Close));
    }
}

#[test]
fn dispatched_writes_an_answer_and_reads_on_without_one() {
    let (phase, action) = Server::dispatched(Some(vec![1, 2]));
    assert_eq!(phase, Phase::Writing);
    match action {
        Action::Write(bytes) => assert_eq!(bytes, vec![1, 2]),
        other => panic!("expected a write, got {:?}", other),
    }
    let (phase, action) = Server::dispatched(None);
    assert_eq!(phase, Phase::Reading);
    assert!(matches!(action, Action::Read));
}
