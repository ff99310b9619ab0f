use rsc2::error::Error;
use rsc2::protocol::request::Request as rRequest;
use rsc2::protocol::{Request, RequestPing, RequestQuit, Response, Status};
use rsc2::runtime::channel::{id_filter, same_id, validate_status, Channel, IdCounter, Poll};

fn response(id: Option<u32>, status: Status) -> Response {
    Response { id, status: Some(status), response: None, error: vec![] }
}

#[test]
fn id_counter_counts_up_from_one() {
    let mut counter = IdCounter::new();
    assert_eq!(counter.current(), 0);
    assert_eq!(counter.increment(), 1);
    assert_eq!(counter.increment(), 2);
    assert_eq!(counter.current(), 2);
}

#[test]
fn id_counter_wraps_around_without_panic() {
    let mut counter = IdCounter::starting_at(u32::MAX - 1);
    assert_eq!(counter.increment(), u32::MAX);
    assert_eq!(counter.increment(), 0);
    assert_eq!(counter.increment(), 1);
    assert_eq!(counter.current(), 1);
}

#[test]
fn channel_wraps_its_identifiers_too() {
    let mut channel = Channel::starting_at(u32::MAX);
    assert_eq!(channel.send(rRequest::Ping(RequestPing {})), 0);
    assert_eq!(channel.count(), 0);
    assert_eq!(
        channel.take_outbound(),
        vec![Request { id: Some(0), request: Some(rRequest::Ping(RequestPing {})) }]
    );
}

#[test]
fn send_queues_requests_in_order_until_they_are_taken() {
    let mut channel = Channel::new();
    assert_eq!(channel.count(), 0);
    assert_eq!(channel.send(rRequest::Ping(RequestPing {})), 1);
    assert_eq!(channel.send(rRequest::Quit(RequestQuit {})), 2);
    assert_eq!(
        channel.take_outbound(),
        vec![
            Request { id: Some(1), request: Some(rRequest::Ping(RequestPing {})) },
            Request { id: Some(2), request: Some(rRequest::Quit(RequestQuit {})) },
        ]
    );
    assert!(channel.take_outbound().is_empty());
    assert_eq!(channel.count(), 2);
}

#[test]
fn waiter_is_paired_with_its_own_identifier_only() {
    let mut channel = Channel::new();
    channel.deliver(Ok(response(Some(7), Status::InGame)));
    channel.deliver(Ok(response(None, Status::InGame)));
    channel.deliver(Ok(response(Some(9), Status::Ended)));
    channel.deliver(Ok(response(Some(8), Status::InGame)));
    channel.deliver(Ok(response(Some(10), Status::Quit)));
    assert_eq!(
        channel.await_matching(Some(8)),
        Poll::Ready(Ok(response(Some(8), Status::InGame)))
    );
    // What came before the match is lost to later waiters; what came after is not.
    assert_eq!(channel.await_matching(Some(9)), Poll::Pending);
    channel.deliver(Ok(response(Some(10), Status::Quit)));
    assert_eq!(channel.await_matching(Some(9)), Poll::Pending);
    assert!(!channel.is_closed());
    channel.close();
    assert!(channel.is_closed());
    assert_eq!(channel.await_matching(Some(9)), Poll::Ready(Err(Error::Disconnected)));
}

#[test]
fn response_without_identifier_answers_a_request_without_one() {
    let mut channel = Channel::new();
    channel.deliver(Ok(response(Some(0), Status::Launched)));
    channel.deliver(Ok(response(None, Status::Launched)));
    assert_eq!(channel.await_matching(None), Poll::Ready(Ok(response(None, Status::Launched))));
}

#[test]
fn failure_of_the_stream_ends_every_wait() {
    let mut channel = Channel::new();
    channel.deliver(Ok(response(Some(1), Status::InGame)));
    channel.deliver(Err(Error::TransportError("decode".to_string())));
    channel.deliver(Ok(response(Some(2), Status::InGame)));
    assert_eq!(
        channel.await_matching(Some(2)),
        Poll::Ready(Err(Error::TransportError("decode".to_string())))
    );
    assert_eq!(channel.await_matching(Some(2)), Poll::Ready(Ok(response(Some(2), Status::InGame))));
    channel.close();
    // A closed stream still yields what it holds.
    channel.deliver(Ok(response(Some(3), Status::InGame)));
    assert_eq!(channel.await_matching(Some(3)), Poll::Ready(Ok(response(Some(3), Status::InGame))));
    assert_eq!(channel.await_matching(Some(3)), Poll::Ready(Err(Error::Disconnected)));
}

#[test]
fn id_filter_keeps_responses_with_the_identifier() {
    assert!(id_filter(&Ok(response(Some(3), Status::InGame)), Some(3)));
    assert!(!id_filter(&Ok(response(Some(4), Status::InGame)), Some(3)));
    assert!(!id_filter(&Ok(response(None, Status::InGame)), Some(3)));
    assert!(id_filter(&Ok(response(None, Status::InGame)), None));
    assert!(!id_filter(&Ok(response(Some(0), Status::InGame)), None));
    assert!(!id_filter(&Err(Error::Disconnected), Some(3)));
    assert!(!id_filter(&Err(Error::Disconnected), None));
    assert!(same_id(Some(u32::MAX), Some(u32::MAX)));
    assert!(!same_id(Some(0), None));
}

#[test]
fn validate_status_wants_the_expected_status() {
    assert_eq!(validate_status(Some(Status::InGame), Status::InGame), Ok(()));
    assert_eq!(
        validate_status(Some(Status::Launched), Status::InitGame),
        Err(Error::UnexpectedStatus { expected: Status::InitGame, found: Some(Status::Launched) })
    );
    assert_eq!(
        validate_status(None, Status::Quit),
        Err(Error::UnexpectedStatus { expected: Status::Quit, found: None })
    );
}
