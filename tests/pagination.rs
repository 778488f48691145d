use sentimentoor::{
    next_page_url, url_has_query, APIResponse, APIResponseMeta, FetchFailure, PageStep, Paginator,
    Tweet,
};

fn tweet(id: &str) -> Tweet {
    Tweet { id: id.to_string(), text: format!("text of {}", id) }
}

fn page(ids: &[&str], next_token: &str) -> APIResponse<Tweet> {
    APIResponse {
        data: ids.iter().map(|id| tweet(id)).collect(),
        meta: APIResponseMeta {
            result_count: ids.len() as u32,
            next_token: next_token.to_string(),
            oldest_id: String::new(),
            newest_id: String::new(),
        },
    }
}

fn expect_next(step: PageStep<Tweet>) -> Paginator<Tweet> {
    match step {
        PageStep::Next(p) => p,
        PageStep::Complete(_) => panic!("fetch completed early"),
        PageStep::Failed(e) => panic!("fetch failed at {}", e.url),
    }
}

#[test]
fn cursor_attached_with_question_mark() {
    assert_eq!(
        next_page_url("https://api.twitter.com/2/lists/42/members", "abc"),
        "https://api.twitter.com/2/lists/42/members?pagination_token=abc"
    );
}

#[test]
fn cursor_attached_with_ampersand() {
    assert_eq!(
        next_page_url("https://api.twitter.com/2/users/7/tweets?start_time=2022-11-29", "xyz"),
        "https://api.twitter.com/2/users/7/tweets?start_time=2022-11-29&pagination_token=xyz"
    );
}

#[test]
fn query_detection() {
    assert!(url_has_query("https://h/p?a=1"));
    assert!(!url_has_query("https://h/p"));
    assert!(!url_has_query(""));
}

#[test]
fn three_pages_in_order() {
    let base = "https://api.twitter.com/2/lists/42/members";
    let mut requests: Vec<String> = Vec::new();
    let p: Paginator<Tweet> = Paginator::new(base.to_string(), 10);
    requests.push(p.request_url().clone());
    let p = expect_next(p.advance(Ok(page(&["a", "b"], "t1"))));
    requests.push(p.request_url().clone());
    let p = expect_next(p.advance(Ok(page(&["c", "d"], "t2"))));
    requests.push(p.request_url().clone());
    assert_eq!(p.pages_received(), 2);
    match p.advance(Ok(page(&["e"], ""))) {
        PageStep::Complete(items) => {
            let ids: Vec<&str> = items.iter().map(|t| t.id.as_str()).collect();
            assert_eq!(ids, vec!["a", "b", "c", "d", "e"]);
            assert_eq!(items.len(), 2 + 2 + 1);
        }
        _ => panic!("fetch should complete on the page without a cursor"),
    }
    assert_eq!(
        requests,
        vec![
            base.to_string(),
            format!("{}?pagination_token=t1", base),
            format!("{}?pagination_token=t2", base),
        ]
    );
}

#[test]
fn single_page_is_one_request() {
    let base = "https://api.twitter.com/2/users/9/following";
    let p: Paginator<Tweet> = Paginator::new(base.to_string(), 10);
    assert_eq!(p.request_url(), base);
    match p.advance(Ok(page(&["x", "y"], ""))) {
        PageStep::Complete(items) => {
            let ids: Vec<&str> = items.iter().map(|t| t.id.as_str()).collect();
            assert_eq!(ids, vec!["x", "y"]);
        }
        _ => panic!("a page without a cursor ends the fetch"),
    }
}

#[test]
fn empty_single_page() {
    let p: Paginator<Tweet> = Paginator::new("https://h/p".to_string(), 1);
    match p.advance(Ok(page(&[], ""))) {
        PageStep::Complete(items) => assert!(items.is_empty()),
        _ => panic!("a page without a cursor ends the fetch"),
    }
}

#[test]
fn server_error_on_second_page_fails_fetch() {
    let base = "https://api.twitter.com/2/users/7/tweets?start_time=2022-11-29T00:00:00.000Z";
    let p: Paginator<Tweet> = Paginator::new(base.to_string(), 10);
    let p = expect_next(p.advance(Ok(page(&["a", "b"], "t1"))));
    match p.advance(Err(FetchFailure::Status(500))) {
        PageStep::Failed(e) => {
            assert_eq!(e.url, format!("{}&pagination_token=t1", base));
            assert!(matches!(e.failure, FetchFailure::Status(500)));
        }
        _ => panic!("a failed page must fail the fetch"),
    }
}

#[test]
fn decode_failure_on_first_page() {
    let p: Paginator<Tweet> = Paginator::new("https://h/p".to_string(), 10);
    match p.advance(Err(FetchFailure::Decode("bad body".to_string()))) {
        PageStep::Failed(e) => {
            assert_eq!(e.url, "https://h/p");
            assert!(matches!(e.failure, FetchFailure::Decode(_)));
        }
        _ => panic!("a failed page must fail the fetch"),
    }
}

#[test]
fn network_failure_keeps_cause() {
    let p: Paginator<Tweet> = Paginator::new("https://h/p".to_string(), 10);
    match p.advance(Err(FetchFailure::Network("refused".to_string()))) {
        PageStep::Failed(e) => match e.failure {
            FetchFailure::Network(cause) => assert_eq!(cause, "refused"),
            _ => panic!("wrong failure"),
        },
        _ => panic!("a failed page must fail the fetch"),
    }
}

#[test]
fn page_limit_stops_endless_cursors() {
    let p: Paginator<Tweet> = Paginator::new("https://h/p".to_string(), 2);
    let p = expect_next(p.advance(Ok(page(&["a"], "t1"))));
    match p.advance(Ok(page(&["b"], "t2"))) {
        PageStep::Failed(e) => {
            assert_eq!(e.url, "https://h/p?pagination_token=t2");
            assert!(matches!(e.failure, FetchFailure::TooManyPages(2)));
        }
        _ => panic!("the page limit must stop the fetch"),
    }
}
