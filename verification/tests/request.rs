use cosmos_paging::request::{ConsistencyLevel, ListUsersBuilder, PageRequest, RequestError};

fn lines(request: &PageRequest) -> Vec<(String, Vec<u8>)> {
    request.headers.iter().map(|h| (h.name.to_string(), h.value.as_bytes().to_vec())).collect()
}

fn line(name: &str, value: &str) -> (String, Vec<u8>) {
    (name.to_string(), value.as_bytes().to_vec())
}

#[test]
fn first_request_of_a_plain_listing() {
    let request = ListUsersBuilder::new("mydb".to_string()).request(None).unwrap();
    assert_eq!(request.path, "dbs/mydb/users");
    assert_eq!(lines(&request), vec![line("x-ms-max-item-count", "-1")]);
}

#[test]
fn page_size_hint_goes_on_the_wire() {
    let request = ListUsersBuilder::new("db".to_string()).max_item_count(25).request(None).unwrap();
    assert_eq!(lines(&request), vec![line("x-ms-max-item-count", "25")]);
    let request =
        ListUsersBuilder::new("db".to_string()).max_item_count(i32::MAX).request(None).unwrap();
    assert_eq!(lines(&request), vec![line("x-ms-max-item-count", "2147483647")]);
    let request = ListUsersBuilder::new("db".to_string()).max_item_count(1).request(None).unwrap();
    assert_eq!(lines(&request), vec![line("x-ms-max-item-count", "1")]);
}

#[test]
fn page_size_hint_that_is_not_positive_asks_for_the_server_default() {
    for hint in [0, -1, -7, i32::MIN] {
        let request =
            ListUsersBuilder::new("db".to_string()).max_item_count(hint).request(None).unwrap();
        assert_eq!(lines(&request), vec![line("x-ms-max-item-count", "-1")]);
    }
}

#[test]
fn consistency_level_is_attached_only_when_chosen() {
    let cases = [
        (ConsistencyLevel::Strong, "Strong"),
        (ConsistencyLevel::Bounded, "Bounded"),
        (ConsistencyLevel::ConsistentPrefix, "Prefix"),
        (ConsistencyLevel::Eventual, "Eventual"),
    ];
    for (level, name) in cases {
        assert_eq!(level.name(), name);
        let request =
            ListUsersBuilder::new("db".to_string()).consistency_level(level).request(None).unwrap();
        assert_eq!(
            lines(&request),
            vec![line("x-ms-consistency-level", name), line("x-ms-max-item-count", "-1")]
        );
    }
}

#[test]
fn session_consistency_carries_the_session_token() {
    let request = ListUsersBuilder::new("db".to_string())
        .consistency_level(ConsistencyLevel::Session("0:1".to_string()))
        .max_item_count(10)
        .request(Some("tok1"))
        .unwrap();
    assert_eq!(
        lines(&request),
        vec![
            line("x-ms-consistency-level", "Session"),
            line("x-ms-session-token", "0:1"),
            line("x-ms-max-item-count", "10"),
            line("x-ms-continuation", "tok1"),
        ]
    );
}

#[test]
fn continuation_token_is_carried_byte_for_byte() {
    for token in ["tok1", "", "a b\tc", "+RID:~abc==#RT:1#TRC:10", "t\u{f6}k\u{20ac}", "\u{80}"] {
        let request = ListUsersBuilder::new("db".to_string()).request(Some(token)).unwrap();
        let last = request.headers.last().unwrap();
        assert_eq!(last.name, "x-ms-continuation");
        assert_eq!(last.value.as_bytes(), token.as_bytes());
        assert_eq!(request.headers.len(), 2);
    }
}

#[test]
fn continuation_token_with_a_newline_is_refused() {
    let builder = ListUsersBuilder::new("db".to_string());
    assert_eq!(builder.request(Some("tok\n1")), Err(RequestError::InvalidContinuationToken));
    assert_eq!(builder.request(Some("\n")), Err(RequestError::InvalidContinuationToken));
}

#[test]
fn continuation_token_with_a_control_character_is_refused() {
    let builder = ListUsersBuilder::new("db".to_string());
    for token in ["a\rb", "a\u{0}b", "a\u{7f}", "\u{1f}", "\u{1b}[0m"] {
        assert_eq!(builder.request(Some(token)), Err(RequestError::InvalidContinuationToken));
    }
}

#[test]
fn session_token_that_cannot_be_encoded_is_refused_first() {
    let builder = ListUsersBuilder::new("db".to_string())
        .consistency_level(ConsistencyLevel::Session("0:\n1".to_string()));
    assert_eq!(builder.request(None), Err(RequestError::InvalidSessionToken));
    assert_eq!(builder.request(Some("tok1")), Err(RequestError::InvalidSessionToken));
    assert_eq!(builder.request(Some("tok\n1")), Err(RequestError::InvalidSessionToken));
}

#[test]
fn path_names_the_database() {
    let request = ListUsersBuilder::new("".to_string()).request(None).unwrap();
    assert_eq!(request.path, "dbs//users");
    let request = ListUsersBuilder::new("caf\u{e9}".to_string()).request(None).unwrap();
    assert_eq!(request.path, "dbs/caf\u{e9}/users");
}

#[test]
fn later_setting_replaces_the_earlier_one() {
    let request = ListUsersBuilder::new("db".to_string())
        .max_item_count(5)
        .consistency_level(ConsistencyLevel::Strong)
        .max_item_count(7)
        .consistency_level(ConsistencyLevel::Eventual)
        .request(None)
        .unwrap();
    assert_eq!(
        lines(&request),
        vec![line("x-ms-consistency-level", "Eventual"), line("x-ms-max-item-count", "7")]
    );
}

#[test]
fn building_a_request_leaves_the_configuration_as_it_was() {
    let builder = ListUsersBuilder::new("db".to_string()).max_item_count(3);
    let first = builder.request(Some("a")).unwrap();
    let second = builder.request(Some("a")).unwrap();
    assert_eq!(first, second);
    assert_eq!(builder.database_name(), "db");
}

#[test]
fn clone_of_a_configuration_builds_the_same_requests() {
    let builder = ListUsersBuilder::new("db".to_string())
        .consistency_level(ConsistencyLevel::Session("7:9".to_string()))
        .max_item_count(50);
    let copy = builder.clone();
    assert_eq!(copy.database_name(), "db");
    assert_eq!(copy.request(Some("t")), builder.request(Some("t")));
    let level = ConsistencyLevel::Session("7:9".to_string());
    assert_eq!(level.clone(), level);
}

#[test]
fn fresh_configuration_holds_an_empty_context() {
    let builder = ListUsersBuilder::new("db".to_string());
    assert!(builder.caller_context().is_empty());
    assert_eq!(builder.caller_context().len(), 0);
    let listing = builder.into_stream();
    assert_eq!(listing.builder().caller_context().len(), 0);
}

#[test]
fn context_is_carried_along() {
    let mut context = azure_core::Context::new();
    context.insert(7u8);
    let builder = ListUsersBuilder::new("db".to_string()).context(context);
    assert_eq!(builder.caller_context().len(), 1);
    assert_eq!(builder.caller_context().get::<u8>(), Some(&7));
    assert_eq!(builder.clone().caller_context().get::<u8>(), Some(&7));
    assert!(builder.request(None).is_ok());
}

#[test]
fn headers_are_written_into_a_header_map() {
    let request = ListUsersBuilder::new("db".to_string())
        .consistency_level(ConsistencyLevel::Session("0:1".to_string()))
        .max_item_count(10)
        .request(Some("tok1"))
        .unwrap();
    let mut map = http::HeaderMap::new();
    assert!(request.write_headers(&mut map));
    assert_eq!(map.len(), 4);
    assert_eq!(map.keys_len(), 4);
    assert_eq!(map.get("x-ms-consistency-level").unwrap().as_bytes(), b"Session");
    assert_eq!(map.get("x-ms-session-token").unwrap().as_bytes(), b"0:1");
    assert_eq!(map.get("x-ms-max-item-count").unwrap().as_bytes(), b"10");
    assert_eq!(map.get("x-ms-continuation").unwrap().as_bytes(), b"tok1");
}

#[test]
fn written_headers_stand_behind_what_the_map_holds() {
    let request = ListUsersBuilder::new("db".to_string()).request(Some("tok2")).unwrap();
    let mut map = http::HeaderMap::new();
    map.insert("x-ms-continuation", http::HeaderValue::from_static("tok1"));
    map.insert("x-ms-date", http::HeaderValue::from_static("today"));
    assert!(request.write_headers(&mut map));
    let values: Vec<&[u8]> =
        map.get_all("x-ms-continuation").iter().map(|v| v.as_bytes()).collect();
    assert_eq!(values, vec![&b"tok1"[..], &b"tok2"[..]]);
    assert_eq!(map.get("x-ms-date").unwrap().as_bytes(), b"today");
    assert_eq!(map.get("x-ms-max-item-count").unwrap().as_bytes(), b"-1");
    assert_eq!(map.len(), 4);
    assert!(request.write_headers(&mut map));
    assert_eq!(map.get_all("x-ms-max-item-count").iter().count(), 2);
    assert_eq!(map.len(), 6);
}

#[test]
fn written_continuation_is_read_back_as_it_was() {
    let request = ListUsersBuilder::new("db".to_string()).request(Some("a b\tc~")).unwrap();
    let mut map = http::HeaderMap::new();
    assert!(request.write_headers(&mut map));
    assert_eq!(
        cosmos_paging::response::continuation_token_from_headers(&map),
        Ok(Some("a b\tc~".to_string()))
    );
    assert_eq!(request.clone(), request);
}

#[test]
fn header_with_a_name_that_is_none_is_not_written() {
    let request = PageRequest {
        path: "dbs/db/users".to_string(),
        headers: vec![cosmos_paging::request::RequestHeader {
            name: "not a name",
            value: http::HeaderValue::from_static("v"),
        }],
    };
    let mut map = http::HeaderMap::new();
    assert!(!request.write_headers(&mut map));
    assert!(map.is_empty());
}

/// A map that takes no further name, and the names that it holds.
fn full_map() -> (http::HeaderMap, usize) {
    let mut map = http::HeaderMap::new();
    let mut held = 0;
    loop {
        let name = http::header::HeaderName::from_bytes(format!("h{}", held).as_bytes()).unwrap();
        if map.try_append(name, http::HeaderValue::from_static("v")).is_err() {
            return (map, held);
        }
        held += 1;
    }
}

#[test]
fn request_without_headers_is_always_taken() {
    let request = PageRequest { path: "dbs/db/users".to_string(), headers: Vec::new() };
    let mut map = http::HeaderMap::new();
    assert!(request.write_headers(&mut map));
    assert!(map.is_empty());
    let (mut map, held) = full_map();
    assert!(request.write_headers(&mut map));
    assert_eq!(map.len(), held);
}

#[test]
fn full_map_refuses_the_headers_and_keeps_what_it_held() {
    let (mut map, held) = full_map();
    assert!(held > 0);
    let request = ListUsersBuilder::new("db".to_string()).request(Some("tok1")).unwrap();
    assert!(!request.write_headers(&mut map));
    assert_eq!(map.len(), held);
    assert_eq!(map.keys_len(), held);
    assert!(map.get("x-ms-max-item-count").is_none());
    assert!(map.get("x-ms-continuation").is_none());
    assert_eq!(map.get("h0").unwrap().as_bytes(), b"v");
}

#[test]
fn map_that_fills_up_holds_the_headers_before_the_refused_one() {
    let (mut map, held) = full_map();
    assert!(map.remove("h0").is_some());
    let request = ListUsersBuilder::new("db".to_string())
        .consistency_level(ConsistencyLevel::Strong)
        .request(Some("tok1"))
        .unwrap();
    assert_eq!(request.headers.len(), 3);
    assert!(!request.write_headers(&mut map));
    assert_eq!(map.len(), held);
    assert_eq!(map.get("x-ms-consistency-level").unwrap().as_bytes(), b"Strong");
    assert!(map.get("x-ms-max-item-count").is_none());
    assert!(map.get("x-ms-continuation").is_none());
}

#[test]
fn headers_behind_a_name_that_is_none_are_not_written() {
    let header = |name: &'static str| cosmos_paging::request::RequestHeader {
        name,
        value: http::HeaderValue::from_static("v"),
    };
    let request = PageRequest {
        path: "dbs/db/users".to_string(),
        headers: vec![header("x-first"), header("not a name"), header("x-last")],
    };
    let mut map = http::HeaderMap::new();
    assert!(!request.write_headers(&mut map));
    assert_eq!(map.len(), 1);
    assert_eq!(map.get("x-first").unwrap().as_bytes(), b"v");
    assert!(map.get("x-last").is_none());
}
