use cosmos_paging::pager::{ListUsers, PageError};
use cosmos_paging::request::{ConsistencyLevel, ListUsersBuilder, PageRequest, RequestError};
use cosmos_paging::response::{DecodeError, ListUsersResponse, MetadataFault, MetadataField};
use cosmos_paging::body::{BodyField, User};
use http::{HeaderMap, HeaderValue};

const ACTIVITY: &str = "936da01f-9abd-4d9d-80c7-02af85c822a8";

fn response(continuation: Option<&str>) -> HeaderMap {
    let mut map = HeaderMap::new();
    map.insert("x-ms-request-charge", HeaderValue::from_static("2.5"));
    map.insert("x-ms-activity-id", HeaderValue::from_static(ACTIVITY));
    map.insert("x-ms-session-token", HeaderValue::from_static("0:1"));
    if let Some(token) = continuation {
        map.insert("x-ms-continuation", HeaderValue::from_str(token).unwrap());
    }
    map
}

fn body(ids: &[&str]) -> Vec<u8> {
    let users: Vec<String> = ids.iter().map(|id| format!("{{\"id\":\"{}\"}}", id)).collect();
    format!("{{\"_rid\":\"abc\",\"Users\":[{}],\"_count\":{}}}", users.join(","), ids.len())
        .into_bytes()
}

fn continuation_of(request: &PageRequest) -> Option<Vec<u8>> {
    request
        .headers
        .iter()
        .find(|h| h.name == "x-ms-continuation")
        .map(|h| h.value.as_bytes().to_vec())
}

/// Runs a listing against a server that answers the requests in turn, and
/// gives back the continuation header of each request and the outcome of
/// each step.
fn drain(
    mut listing: ListUsers,
    answers: &[Result<(HeaderMap, Vec<u8>), &'static str>],
) -> (Vec<Option<Vec<u8>>>, Vec<Result<ListUsersResponse, PageError<&'static str>>>) {
    let mut sent = Vec::new();
    let mut steps = Vec::new();
    let mut answers = answers.iter();
    loop {
        match listing.next_request() {
            None => break,
            Some(Err(e)) => {
                steps.push(Err(PageError::Request(e)));
            }
            Some(Ok(request)) => {
                assert_eq!(request.path, "dbs/db/users");
                sent.push(continuation_of(&request));
                let outcome = match answers.next().expect("an answer for each request") {
                    Ok((headers, body)) => Ok((headers, body.as_slice())),
                    Err(cause) => Err(*cause),
                };
                steps.push(listing.receive(outcome));
            }
        }
    }
    assert!(listing.is_done());
    assert!(listing.next_request().is_none());
    (sent, steps)
}

fn pages(steps: Vec<Result<ListUsersResponse, PageError<&'static str>>>) -> Vec<ListUsersResponse> {
    steps.into_iter().map(|step| step.expect("a page")).collect()
}

fn listing() -> ListUsers {
    ListUsersBuilder::new("db".to_string()).into_stream()
}

#[test]
fn two_pages_then_stop() {
    let answers = [Ok((response(Some("tok1")), body(&["u1"]))), Ok((response(None), body(&["u2"])))];
    let (sent, steps) = drain(listing(), &answers);
    assert_eq!(sent, vec![None, Some(b"tok1".to_vec())]);
    let pages = pages(steps);
    assert_eq!(pages.len(), 2);
    assert_eq!(pages[0].users, vec![User { id: "u1".to_string() }]);
    assert_eq!(pages[0].users.len(), 1);
    assert_eq!(pages[0].charge.as_str().parse::<f64>().unwrap(), 2.5);
    assert_eq!(pages[0].continuation_token, Some("tok1".to_string()));
    assert_eq!(pages[1].users, vec![User { id: "u2".to_string() }]);
    assert_eq!(pages[1].continuation_token, None);
}

#[test]
fn single_page_without_continuation() {
    let answers = [Ok((response(None), body(&[]))), Ok((response(None), body(&["never"])))];
    let (sent, steps) = drain(listing(), &answers);
    assert_eq!(sent, vec![None]);
    assert_eq!(pages(steps).len(), 1);
}

#[test]
fn as_many_pages_as_the_server_has() {
    let answers = [
        Ok((response(Some("a")), body(&["1", "2"]))),
        Ok((response(Some("b")), body(&["3", "4"]))),
        Ok((response(Some("c")), body(&[]))),
        Ok((response(Some("d")), body(&["5"]))),
        Ok((response(None), body(&["6"]))),
    ];
    let (sent, steps) = drain(listing(), &answers);
    assert_eq!(
        sent,
        vec![
            None,
            Some(b"a".to_vec()),
            Some(b"b".to_vec()),
            Some(b"c".to_vec()),
            Some(b"d".to_vec())
        ]
    );
    let pages = pages(steps);
    assert_eq!(pages.len(), 5);
    let ids: Vec<String> =
        pages.into_iter().flat_map(|p| p.into_users()).map(|u| u.id).collect();
    assert_eq!(ids, vec!["1", "2", "3", "4", "5", "6"]);
}

#[test]
fn same_token_twice_is_still_followed() {
    let answers = [
        Ok((response(Some("t")), body(&["1"]))),
        Ok((response(Some("t")), body(&["1"]))),
        Ok((response(None), body(&["2"]))),
    ];
    let (sent, steps) = drain(listing(), &answers);
    assert_eq!(sent, vec![None, Some(b"t".to_vec()), Some(b"t".to_vec())]);
    assert_eq!(steps.len(), 3);
}

#[test]
fn continuation_comes_back_as_the_server_wrote_it() {
    let token = "+RID:~abc==#RT:1#TRC:10#ISV:2 \t{\"x\":1}";
    let answers = [Ok((response(Some(token)), body(&["u1"]))), Ok((response(None), body(&[])))];
    let (sent, steps) = drain(listing(), &answers);
    assert_eq!(sent, vec![None, Some(token.as_bytes().to_vec())]);
    let pages = pages(steps);
    let again = ListUsersBuilder::new("db".to_string())
        .request(pages[0].continuation_token.as_deref())
        .unwrap();
    assert_eq!(continuation_of(&again), Some(token.as_bytes().to_vec()));
    assert_eq!(
        continuation_of(&again).unwrap(),
        answers[0].as_ref().unwrap().0.get("x-ms-continuation").unwrap().as_bytes()
    );
}

#[test]
fn listing_is_resumed_at_a_token() {
    let builder = ListUsersBuilder::new("db".to_string()).max_item_count(2);
    let answers = [Ok((response(Some("tok2")), body(&["u3"]))), Ok((response(None), body(&[])))];
    let (sent, steps) = drain(ListUsers::resume(builder, "tok1".to_string()), &answers);
    assert_eq!(sent, vec![Some(b"tok1".to_vec()), Some(b"tok2".to_vec())]);
    assert_eq!(pages(steps).len(), 2);
}

#[test]
fn manual_paging_sends_what_the_driver_sends() {
    let builder = ListUsersBuilder::new("db".to_string())
        .consistency_level(ConsistencyLevel::Session("0:1".to_string()));
    let mut driven = builder.clone().into_stream();
    let first = driven.next_request().unwrap().unwrap();
    assert_eq!(first, builder.request(None).unwrap());
    let headers = response(Some("tok1"));
    let bytes = body(&["u1"]);
    let page = driven.receive::<()>(Ok((&headers, bytes.as_slice()))).unwrap();
    assert_eq!(page, ListUsersResponse::try_from(&headers, &bytes).unwrap());
    let second = driven.next_request().unwrap().unwrap();
    assert_eq!(second, builder.request(page.continuation().as_deref()).unwrap());
    assert_eq!(driven.builder().database_name(), "db");
}

#[test]
fn asking_twice_gives_the_same_request() {
    let mut listing = listing();
    let first = listing.next_request().unwrap().unwrap();
    let second = listing.next_request().unwrap().unwrap();
    assert_eq!(first, second);
    assert!(!listing.is_done());
}

#[test]
fn request_that_cannot_be_built_ends_the_listing() {
    let builder = ListUsersBuilder::new("db".to_string());
    let mut listing = ListUsers::resume(builder, "tok\n1".to_string());
    assert!(!listing.is_done());
    assert_eq!(listing.next_request(), Some(Err(RequestError::InvalidContinuationToken)));
    assert!(listing.is_done());
    assert_eq!(listing.next_request(), None);
}

#[test]
fn request_failure_is_told_apart_from_a_transport_failure() {
    let builder = ListUsersBuilder::new("db".to_string());
    let (sent, steps) = drain(ListUsers::resume(builder, "a\nb".to_string()), &[]);
    assert!(sent.is_empty());
    assert_eq!(steps.len(), 1);
    assert!(matches!(
        steps[0],
        Err(PageError::Request(RequestError::InvalidContinuationToken))
    ));

    let (sent, steps) = drain(listing(), &[Err("connection reset")]);
    assert_eq!(sent, vec![None]);
    assert_eq!(steps.len(), 1);
    assert!(matches!(steps[0], Err(PageError::Transport("connection reset"))));
}

#[test]
fn session_token_that_cannot_be_encoded_ends_the_listing() {
    let mut listing = ListUsersBuilder::new("db".to_string())
        .consistency_level(ConsistencyLevel::Session("\u{7f}".to_string()))
        .into_stream();
    assert_eq!(listing.next_request(), Some(Err(RequestError::InvalidSessionToken)));
    assert_eq!(listing.next_request(), None);
}

#[test]
fn transport_failure_ends_the_listing() {
    let answers = [
        Ok((response(Some("tok1")), body(&["u1"]))),
        Err("timed out"),
        Ok((response(None), body(&["u2"]))),
    ];
    let (sent, steps) = drain(listing(), &answers);
    assert_eq!(sent, vec![None, Some(b"tok1".to_vec())]);
    assert_eq!(steps.len(), 2);
    assert!(steps[0].is_ok());
    assert!(matches!(steps[1], Err(PageError::Transport("timed out"))));
}

#[test]
fn response_that_does_not_decode_ends_the_listing() {
    let mut broken = response(Some("tok2"));
    broken.remove("x-ms-request-charge");
    let answers = [
        Ok((response(Some("tok1")), body(&["u1"]))),
        Ok((broken, body(&["u2"]))),
        Ok((response(None), body(&["u3"]))),
    ];
    let (sent, steps) = drain(listing(), &answers);
    assert_eq!(sent, vec![None, Some(b"tok1".to_vec())]);
    assert_eq!(steps.len(), 2);
    assert!(matches!(
        steps[1],
        Err(PageError::Decode(DecodeError::Metadata(
            MetadataField::RequestCharge,
            MetadataFault::Missing
        )))
    ));
}

#[test]
fn body_that_does_not_decode_ends_the_listing() {
    let answers = [
        Ok((response(Some("tok1")), b"{\"_rid\":\"abc\"}".to_vec())),
        Ok((response(None), body(&["u3"]))),
    ];
    let (sent, steps) = drain(listing(), &answers);
    assert_eq!(sent, vec![None]);
    assert!(matches!(steps[0], Err(PageError::Decode(DecodeError::Body(BodyField::Users)))));

    let answers = [Ok((response(Some("tok1")), b"<html>".to_vec()))];
    let (_, steps) = drain(listing(), &answers);
    assert!(matches!(steps[0], Err(PageError::Decode(DecodeError::Syntax(_)))));
}

#[test]
fn listing_that_is_over_stays_over() {
    let mut listing = listing();
    let headers = response(None);
    let bytes = body(&["u1"]);
    assert!(listing.next_request().is_some());
    assert!(listing.receive::<()>(Ok((&headers, bytes.as_slice()))).is_ok());
    assert!(listing.is_done());
    let more = response(Some("tok9"));
    let page = listing.receive::<()>(Ok((&more, bytes.as_slice()))).unwrap();
    assert_eq!(page.continuation_token, Some("tok9".to_string()));
    assert!(listing.is_done());
    assert_eq!(listing.next_request(), None);
}

#[test]
fn transport_error_is_handed_on_unchanged() {
    let mut listing = listing();
    assert!(listing.next_request().is_some());
    let cause = vec![3u8, 1, 4, 1, 5];
    match listing.receive(Err(cause.clone())) {
        Err(PageError::Transport(e)) => assert_eq!(e, cause),
        other => panic!("{:?}", other),
    }
    assert!(listing.is_done());
}
