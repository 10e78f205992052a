use hello::http::{response, route, same_text};

#[test]
fn home_page_is_served_at_once() {
    let r = route("GET / HTTP/1.1");
    assert_eq!(r.status_line, "HTTP/1.1 200 OK");
    assert_eq!(r.file_name, "hello.html");
    assert_eq!(r.delay_secs, 0);
}

#[test]
fn sleep_page_waits_ten_seconds() {
    let r = route("GET /sleep HTTP/1.1");
    assert_eq!(r.status_line, "HTTP/1.1 200 OK");
    assert_eq!(r.file_name, "hello.html");
    assert_eq!(r.delay_secs, 10);
}

#[test]
fn other_requests_are_not_found() {
    for line in ["GET /other HTTP/1.1", "", "GET / HTTP/1.0", "GET /  HTTP/1.1"] {
        let r = route(line);
        assert_eq!(r.status_line, "HTTP/1.1 404 NOT FOUND");
        assert_eq!(r.file_name, "404.html");
        assert_eq!(r.delay_secs, 0);
    }
}

#[test]
fn response_carries_length_in_bytes() {
    assert_eq!(
        response("HTTP/1.1 200 OK", "<p>hi</p>"),
        "HTTP/1.1 200 OK\r\nContent-Length: 9\r\n\r\n<p>hi</p>"
    );
    assert_eq!(response("HTTP/1.1 404 NOT FOUND", ""), "HTTP/1.1 404 NOT FOUND\r\nContent-Length: 0\r\n\r\n");
    let body = "\u{e9}".repeat(60);
    let expected = format!("S\r\nContent-Length: 120\r\n\r\n{}", body);
    assert_eq!(response("S", &body), expected);
}

#[test]
fn same_text_compares_characters() {
    assert!(same_text("abc", "abc"));
    assert!(!same_text("abc", "abd"));
    assert!(!same_text("abc", "ab"));
    assert!(same_text("", ""));
}
