use rust_book::hello::{
    create_pool, decimal_bytes, is_slow, page_file, page_for_request, page_for_request_line, respond, response, status_line,
    Page, PoolCreationError, WorkerPool, ERROR_POOL_CREATION, HELLO_HTML, NOT_FOUND_404_HTML,
    NUM_CPU, SLEEP_HTML, STATUS_200_OK, STATUS_404_NOT_FOUND,
};

const NUM_CPU_TEST: usize = 4;

#[test]
fn test_create_threads() {
    let pool = WorkerPool::create_threads(NUM_CPU_TEST, (), |id| id);
    assert_eq!(NUM_CPU_TEST, pool.size());
}

#[test]
fn test_new_four_threads() {
    let pool = WorkerPool::new(NUM_CPU_TEST, (), |id| id);
    assert_eq!(NUM_CPU_TEST, pool.size());
}

#[test]
fn test_build_zero_threads() {
    let pool_result = WorkerPool::<usize, ()>::build(0, (), |id| id);
    assert!(pool_result.is_err());
}

#[test]
fn test_build_four_threads() {
    let pool_result = WorkerPool::build(NUM_CPU_TEST, (), |id| id);
    assert!(pool_result.is_ok());
    let pool = pool_result.ok().unwrap();
    assert_eq!(NUM_CPU_TEST, pool.size());
}

#[test]
fn pool_error_has_a_message() {
    assert_eq!(PoolCreationError.message(), ERROR_POOL_CREATION);
}

#[test]
fn workers_are_numbered_in_order_and_shut_down() {
    let mut pool = WorkerPool::new(3, "sender", |id| id * 10);
    assert_eq!(pool.sender(), Some(&"sender"));
    let (sender, handles) = pool.shutdown();
    assert_eq!(sender, Some("sender"));
    assert_eq!(handles, vec![(0, Some(0)), (1, Some(10)), (2, Some(20))]);
    assert!(pool.sender().is_none());
    let (sender, handles) = pool.shutdown();
    assert_eq!(sender, None);
    assert_eq!(handles, vec![(0, None), (1, None), (2, None)]);
}

#[test]
fn create_pool_falls_back_to_default_size() {
    assert_eq!(create_pool(0, (), |id| id).size(), NUM_CPU);
    assert_eq!(create_pool(7, (), |id| id).size(), 7);
}

#[test]
fn root_request_gets_hello_page() {
    let request = b"GET / HTTP/1.1\r\nHost: 127.0.0.1:7878\r\n\r\n";
    let page = page_for_request(request);
    assert_eq!(page, Page::Hello);
    assert_eq!(status_line(page), STATUS_200_OK);
    assert_eq!(page_file(page), HELLO_HTML);
    assert!(!is_slow(page));
    let body = "<!DOCTYPE html>\n<p>Hi from Rust</p>\n";
    let r = respond(request, body);
    let expected = format!("HTTP/1.1 200 OK\r\nContent-Length: {}\r\n\r\n{}", body.len(), body);
    assert_eq!(r, expected.into_bytes());
}

#[test]
fn unknown_request_gets_not_found_page() {
    let request = b"GET /foo HTTP/1.1\r\n\r\n";
    let page = page_for_request(request);
    assert_eq!(page, Page::NotFound);
    assert_eq!(status_line(page), STATUS_404_NOT_FOUND);
    assert_eq!(page_file(page), NOT_FOUND_404_HTML);
    let body = "<p>Oops!</p>";
    let r = respond(request, body);
    assert_eq!(r, b"HTTP/1.1 404 NOT FOUND\r\nContent-Length: 12\r\n\r\n<p>Oops!</p>".to_vec());
}

#[test]
fn sleep_request_gets_slow_ok_page() {
    let request = b"GET /sleep HTTP/1.1\r\n\r\n";
    let page = page_for_request(request);
    assert_eq!(page, Page::Sleep);
    assert!(is_slow(page));
    assert_eq!(status_line(page), STATUS_200_OK);
    assert_eq!(page_file(page), SLEEP_HTML);
    let r = respond(request, "zz");
    assert_eq!(r, b"HTTP/1.1 200 OK\r\nContent-Length: 2\r\n\r\nzz".to_vec());
}

#[test]
fn short_or_empty_request_is_not_found() {
    assert_eq!(page_for_request(b""), Page::NotFound);
    assert_eq!(page_for_request(b"GET / HTTP/1."), Page::NotFound);
    assert_eq!(page_for_request(b"GET /sleepy HTTP/1.1"), Page::NotFound);
}

#[test]
fn content_length_counts_bytes_not_characters() {
    let r = response("S", "é");
    assert_eq!(r, "S\r\nContent-Length: 2\r\n\r\né".as_bytes().to_vec());
    let r = response("S", "");
    assert_eq!(r, b"S\r\nContent-Length: 0\r\n\r\n".to_vec());
}

#[test]
fn decimal_digits() {
    assert_eq!(decimal_bytes(0), b"0".to_vec());
    assert_eq!(decimal_bytes(1024), b"1024".to_vec());
    assert_eq!(decimal_bytes(usize::MAX), usize::MAX.to_string().into_bytes());
}

#[test]
fn request_line_must_match_exactly() {
    assert_eq!(page_for_request_line("GET / HTTP/1.1"), Page::Hello);
    assert_eq!(page_for_request_line("GET /sleep HTTP/1.1"), Page::Sleep);
    assert_eq!(page_for_request_line("GET / HTTP/1.1 "), Page::NotFound);
    assert_eq!(page_for_request_line("GET /foo HTTP/1.1"), Page::NotFound);
    assert_eq!(page_for_request_line(""), Page::NotFound);
}

#[test]
fn create_pool_starts_every_worker() {
    let mut pool = create_pool(0, (), |id| id + 100);
    let (_, handles) = pool.shutdown();
    assert_eq!(handles, vec![(0, Some(100)), (1, Some(101)), (2, Some(102)), (3, Some(103))]);
}
