use reqwest::header::{HeaderMap, HeaderName, HeaderValue};
use workshop_rustlab_2022::admission::{AdmissionController, BucketInfo};
use workshop_rustlab_2022::database::{FieldSet, ServerField, ServerQuery};
use workshop_rustlab_2022::fetch_stream::{
    backoff_after, get_wait_time_for_request, get_wait_time_for_request_after, page_outcome,
    rough_wait, Action, FetchStream, JsonShape, PageOutcome, Phase, StreamError,
    TOO_MANY_REQUESTS,
};
use workshop_rustlab_2022::leaky_bucket::LeakyBucket;
use workshop_rustlab_2022::time_span::TimeSpan;

fn three_fields() -> FieldSet {
    FieldSet::from_slice(&[ServerField::Name, ServerField::GeoPoint2d, ServerField::Numeromoderno])
}

fn headers_of(info: BucketInfo) -> HeaderMap {
    let mut headers = HeaderMap::new();
    for (name, value) in info.headers() {
        headers.insert(HeaderName::from_static(name), HeaderValue::from(value));
    }
    headers
}

fn body_of(first: usize, records: usize) -> String {
    let items: Vec<String> =
        (first..first + records).map(|number| format!("{{\"name\":\"n{number}\"}}")).collect();
    format!("[{}]", items.join(","))
}

fn names_in(body: &str) -> Vec<String> {
    let value: serde_json::Value = serde_json::from_str(body).unwrap();
    value
        .as_array()
        .unwrap()
        .iter()
        .map(|item| item.get("name").unwrap().as_str().unwrap().to_string())
        .collect()
}

/// A server that holds `pages`, charges each request to a real controller and turns down the
/// requests whose number (counted from zero) is in `rejected`.
struct MockServer {
    pages: Vec<usize>,
    rejected: Vec<usize>,
    calls: Vec<usize>,
    controller: AdmissionController,
}

impl MockServer {
    fn new(pages: &[usize], rejected: &[usize]) -> Self {
        MockServer {
            pages: pages.to_vec(),
            rejected: rejected.to_vec(),
            calls: Vec::new(),
            controller: AdmissionController::new(),
        }
    }

    fn respond(&mut self, fields: &FieldSet, page: usize) -> (u16, HeaderMap, String) {
        let number = self.calls.len();
        self.calls.push(page);
        let query = ServerQuery { fields: fields.clone(), page: Some(page), page_size: None };
        let records: usize = self.pages.iter().sum();
        if self.rejected.contains(&number) {
            let bucket = self.controller.bucket();
            let info = BucketInfo {
                points: bucket.capacity() - 10,
                capacity: bucket.capacity(),
                leak_per_second: bucket.leak_per_second(),
            };
            return (429, headers_of(info), String::from("Not enough capacity."));
        }
        match self.controller.handle_after(TimeSpan::zero(), None, &query, records) {
            Ok(granted) => {
                let size = granted.range.end - granted.range.start;
                assert_eq!(size, self.pages.get(page).copied().unwrap_or(0));
                (200, headers_of(granted.info), body_of(granted.range.start, size))
            }
            Err(error) => (error.status(), headers_of(error.bucket_info()), error.message()),
        }
    }
}

/// Drives a stream against the server as a client would, sleeping no real time: the time that a
/// sleep asks for is handed to the next step as the time that went by.
fn drive(stream: &mut FetchStream, server: &mut MockServer) -> (Vec<String>, Vec<TimeSpan>) {
    let mut names = Vec::new();
    let mut sleeps = Vec::new();
    let mut elapsed = TimeSpan::zero();
    let mut body = String::new();
    let fields = stream.query().fields.clone();
    let mut action = stream.estimate_after(elapsed);
    for _ in 0..1000 {
        action = match action {
            Action::Fetch { page } => {
                assert_eq!(page, stream.query().effective_page());
                let (status, headers, text) = server.respond(&fields, page);
                body = text;
                stream.on_response(status, &headers)
            }
            Action::ReadBody => stream.on_body(&body),
            Action::Sleep(wait) => {
                sleeps.push(wait);
                elapsed = wait;
                stream.on_timer();
                let next = stream.estimate_after(elapsed);
                elapsed = TimeSpan::zero();
                next
            }
            Action::Yield { last } => {
                names.extend(names_in(&body));
                assert_eq!(last, stream.is_terminated());
                stream.estimate_after(elapsed)
            }
            Action::Finish => {
                assert!(stream.is_terminated());
                return (names, sleeps);
            }
            Action::Fail(error) => panic!("stream failed: {error:?}"),
            Action::Wait => panic!("nothing is under way"),
        };
    }
    panic!("the stream does not end");
}

#[test]
fn rejections_without_a_limit_never_end_the_stream() {
    let mut stream = FetchStream::new(three_fields());
    assert_eq!(stream.retry_limit(), None);
    stream.estimate_after(TimeSpan::zero());
    for turn in 1..=50u32 {
        let reported = LeakyBucket::with_points(490, 500, 4);
        let action = stream.on_response_after(TimeSpan::zero(), TOO_MANY_REQUESTS, Ok(reported));
        assert_eq!(action, Action::Sleep(TimeSpan::from_secs(5)));
        assert_eq!(stream.retries(), turn);
        stream.on_timer();
        assert_eq!(stream.estimate_after(TimeSpan::from_secs(5)), Action::Fetch { page: 0 });
    }
}

#[test]
fn rejections_beyond_the_limit_end_the_stream() {
    let mut stream = FetchStream::with_retry_limit(three_fields(), Some(2));
    assert_eq!(stream.retry_limit(), Some(2));
    stream.estimate_after(TimeSpan::zero());
    for turn in 1..=2u32 {
        let reported = LeakyBucket::with_points(490, 500, 4);
        let action = stream.on_response_after(TimeSpan::zero(), TOO_MANY_REQUESTS, Ok(reported));
        assert_eq!(action, Action::Sleep(TimeSpan::from_secs(5)));
        assert_eq!(stream.retries(), turn);
        stream.on_timer();
        assert_eq!(stream.estimate_after(TimeSpan::from_secs(5)), Action::Fetch { page: 0 });
    }
    let reported = LeakyBucket::with_points(490, 500, 4);
    let action = stream.on_response_after(TimeSpan::zero(), TOO_MANY_REQUESTS, Ok(reported));
    assert_eq!(action, Action::Fail(StreamError::AdmissionRejected));
    assert!(stream.is_terminated());
    assert_eq!(stream.estimate(), Action::Finish);

    let mut strict = FetchStream::with_retry_limit(three_fields(), Some(0));
    strict.estimate();
    let action = strict.on_response(TOO_MANY_REQUESTS, &HeaderMap::new());
    assert_eq!(action, Action::Fail(StreamError::AdmissionRejected));
}

#[test]
fn a_granted_page_starts_the_count_of_rejections_anew() {
    let mut stream = FetchStream::with_retry_limit(three_fields(), Some(1));
    for page in 0..5usize {
        assert_eq!(stream.estimate_after(TimeSpan::from_secs(60)), Action::Fetch { page });
        let reported = LeakyBucket::with_points(490, 500, 4);
        let action = stream.on_response_after(TimeSpan::zero(), TOO_MANY_REQUESTS, Ok(reported));
        assert_eq!(action, Action::Sleep(TimeSpan::from_secs(5)));
        assert_eq!(stream.retries(), 1);
        stream.on_timer();
        assert_eq!(stream.estimate_after(TimeSpan::from_secs(5)), Action::Fetch { page });
        let reported = LeakyBucket::with_points(30, 500, 4);
        assert_eq!(stream.on_response_after(TimeSpan::zero(), 200, Ok(reported)), Action::ReadBody);
        assert_eq!(stream.retries(), 0);
        assert_eq!(stream.on_body(&body_of(page * 10, 10)), Action::Yield { last: false });
    }
}

#[test]
fn new_stream() {
    let stream = FetchStream::new(three_fields());
    assert_eq!(stream.phase(), Phase::Idle);
    assert!(!stream.is_terminated());
    assert_eq!(stream.query_cost(), 30);
    assert!(stream.bucket().is_none());
    assert_eq!(stream.query().page, None);
    assert_eq!(stream.query().page_size, None);
    assert_eq!(stream.query().fields.len(), 3);
    assert_eq!(FetchStream::new(FieldSet::new()).query_cost(), 260);
}

#[test]
fn pages_of_ten_ten_three_are_fetched_in_three_requests() {
    let mut server = MockServer::new(&[10, 10, 3], &[]);
    let mut stream = FetchStream::new(three_fields());
    let (names, sleeps) = drive(&mut stream, &mut server);
    let expected: Vec<String> = (0..23).map(|number| format!("n{number}")).collect();
    assert_eq!(names, expected);
    assert_eq!(server.calls, vec![0, 1, 2]);
    assert!(sleeps.is_empty());
    assert!(stream.is_terminated());
    assert_eq!(stream.estimate_after(TimeSpan::from_secs(60)), Action::Finish);
    assert_eq!(stream.estimate(), Action::Finish);
    assert_eq!(server.calls.len(), 3);
    assert_eq!(stream.bucket().as_ref().unwrap().last_points(), 90);
}

#[test]
fn full_last_page_is_followed_by_an_empty_one() {
    let mut server = MockServer::new(&[10, 10], &[]);
    let mut stream = FetchStream::new(three_fields());
    let (names, _) = drive(&mut stream, &mut server);
    assert_eq!(names.len(), 20);
    assert_eq!(server.calls, vec![0, 1, 2]);
}

#[test]
fn rejected_page_is_asked_for_again() {
    let mut server = MockServer::new(&[10, 10, 3], &[1]);
    let mut stream = FetchStream::new(three_fields());
    let (names, sleeps) = drive(&mut stream, &mut server);
    let expected: Vec<String> = (0..23).map(|number| format!("n{number}")).collect();
    assert_eq!(names, expected);
    assert_eq!(server.calls, vec![0, 1, 1, 2]);
    // 490 of 500 points, leak 4: a cost of 30 misses 20 points, which takes 5 s
    assert_eq!(sleeps.len(), 1);
    assert_eq!(sleeps[0].secs + u64::from(sleeps[0].nanos > 0), 5);
}

#[test]
fn rejection_keeps_the_page_and_sleeps() {
    let mut stream = FetchStream::new(three_fields());
    assert_eq!(stream.estimate_after(TimeSpan::zero()), Action::Fetch { page: 0 });
    assert_eq!(stream.phase(), Phase::AwaitingHeaders);
    let reported = LeakyBucket::with_points(490, 500, 4);
    let action = stream.on_response_after(TimeSpan::zero(), TOO_MANY_REQUESTS, Ok(reported));
    assert_eq!(action, Action::Sleep(TimeSpan::from_secs(5)));
    assert_eq!(stream.phase(), Phase::Sleeping);
    assert_eq!(stream.query().effective_page(), 0);
    assert_eq!(stream.estimate_after(TimeSpan::from_secs(9)), Action::Wait);
    stream.on_timer();
    assert_eq!(stream.phase(), Phase::Estimating);
    // a second too early, the estimate still does not afford the page
    let action = stream.estimate_after(TimeSpan::from_secs(4));
    assert_eq!(action, Action::Sleep(TimeSpan::from_secs(1)));
    stream.on_timer();
    assert_eq!(stream.estimate_after(TimeSpan::from_secs(1)), Action::Fetch { page: 0 });
    assert_eq!(stream.bucket().as_ref().unwrap().last_points(), 500);
}

#[test]
fn self_throttle_before_a_request() {
    let mut stream = FetchStream::new(three_fields());
    assert_eq!(stream.estimate_after(TimeSpan::zero()), Action::Fetch { page: 0 });
    let reported = LeakyBucket::with_points(480, 500, 4);
    assert_eq!(stream.on_response_after(TimeSpan::zero(), 200, Ok(reported)), Action::ReadBody);
    assert_eq!(stream.on_body(&body_of(0, 10)), Action::Yield { last: false });
    assert_eq!(stream.phase(), Phase::Estimating);
    assert_eq!(stream.query().page, Some(1));
    // 480 of 500 points: 10 points are missing, which takes 3 s at a leak of 4
    let action = stream.estimate_after(TimeSpan::from_millis(200));
    assert_eq!(action, Action::Sleep(TimeSpan { secs: 2, nanos: 800_000_000 }));
    assert_eq!(stream.phase(), Phase::Sleeping);
    stream.on_timer();
    let action = stream.estimate_after(TimeSpan { secs: 2, nanos: 800_000_000 });
    assert_eq!(action, Action::Fetch { page: 1 });
    assert_eq!(stream.bucket().as_ref().unwrap().last_points(), 498);
}

#[test]
fn unreadable_headers_fall_back_to_a_local_estimate() {
    let mut stream = FetchStream::new(three_fields());
    stream.estimate();
    assert_eq!(stream.on_response(200, &HeaderMap::new()), Action::ReadBody);
    let estimate = stream.bucket().as_ref().unwrap();
    assert_eq!(
        (estimate.last_points(), estimate.capacity(), estimate.leak_per_second()),
        (30, 500, 4)
    );
    assert_eq!(stream.on_body(&body_of(0, 10)), Action::Yield { last: false });
    // the estimate is charged when the page is asked for, and again when no budget comes back
    assert_eq!(stream.estimate_after(TimeSpan::zero()), Action::Fetch { page: 1 });
    assert_eq!(stream.bucket().as_ref().unwrap().last_points(), 60);
    let mut headers = HeaderMap::new();
    headers.insert(HeaderName::from_static("x-bucket-points"), HeaderValue::from_static("many"));
    assert_eq!(stream.on_response(200, &headers), Action::ReadBody);
    assert_eq!(stream.bucket().as_ref().unwrap().last_points(), 90);
}

#[test]
fn a_budget_that_never_drains_is_not_taken_over() {
    let mut stream = FetchStream::new(three_fields());
    stream.estimate_after(TimeSpan::zero());
    let reported = LeakyBucket::with_points(499, 500, 0);
    let action = stream.on_response_after(TimeSpan::zero(), TOO_MANY_REQUESTS, Ok(reported));
    assert_eq!(action, Action::Sleep(TimeSpan::zero()));
    let estimate = stream.bucket().as_ref().unwrap();
    assert_eq!(
        (estimate.last_points(), estimate.capacity(), estimate.leak_per_second()),
        (30, 500, 4)
    );
}

#[test]
fn other_failures_end_the_stream() {
    for status in [400u16, 404, 428, 430, 500, 503, 599] {
        let mut stream = FetchStream::new(three_fields());
        stream.estimate();
        let action = stream.on_response(status, &HeaderMap::new());
        assert_eq!(action, Action::Fail(StreamError::Transport));
        assert!(stream.is_terminated());
        assert_eq!(stream.estimate(), Action::Finish);
    }
    for status in [100u16, 200, 204, 301, 399, 600] {
        let mut stream = FetchStream::new(three_fields());
        stream.estimate();
        assert_eq!(stream.on_response(status, &HeaderMap::new()), Action::ReadBody);
        assert_eq!(stream.phase(), Phase::AwaitingBody);
    }
}

#[test]
fn transport_failure_ends_the_stream() {
    let mut stream = FetchStream::new(three_fields());
    assert_eq!(stream.on_transport_failure(), Action::Wait);
    assert_eq!(stream.phase(), Phase::Idle);
    stream.estimate();
    assert_eq!(stream.on_transport_failure(), Action::Fail(StreamError::Transport));
    assert!(stream.is_terminated());
    assert_eq!(stream.on_transport_failure(), Action::Finish);

    let mut stream = FetchStream::new(three_fields());
    stream.estimate();
    stream.on_response(200, &HeaderMap::new());
    assert_eq!(stream.on_transport_failure(), Action::Fail(StreamError::Transport));
    assert!(stream.is_terminated());
}

#[test]
fn malformed_body_ends_the_stream() {
    let mut stream = FetchStream::new(three_fields());
    stream.estimate();
    stream.on_response(200, &HeaderMap::new());
    assert_eq!(stream.on_body("[1, 2"), Action::Yield { last: false });
    assert_eq!(stream.on_malformed_body(), Action::Fail(StreamError::MalformedBody));
    assert!(stream.is_terminated());
    assert_eq!(stream.estimate(), Action::Finish);
}

#[test]
fn bodies_by_shape() {
    let cases: [(&str, Action, Phase); 9] = [
        ("[]", Action::Finish, Phase::Done),
        ("{}", Action::Finish, Phase::Done),
        (" [ ] ", Action::Finish, Phase::Done),
        ("[1,2,3]", Action::Yield { last: true }, Phase::Done),
        ("{\"a\":1,\"b\":[1,2,3,4,5,6,7,8,9,10,11]}", Action::Yield { last: true }, Phase::Done),
        ("[0,1,2,3,4,5,6,7,8,9]", Action::Yield { last: false }, Phase::Estimating),
        ("[0,1,2,3,4,5,6,7,8,9,10]", Action::Yield { last: false }, Phase::Estimating),
        ("17", Action::Yield { last: false }, Phase::Estimating),
        ("not json", Action::Yield { last: false }, Phase::Estimating),
    ];
    for (body, action, phase) in cases {
        let mut stream = FetchStream::new(three_fields());
        stream.estimate();
        stream.on_response(200, &HeaderMap::new());
        assert_eq!(stream.on_body(body), action, "{body}");
        assert_eq!(stream.phase(), phase, "{body}");
        let page = if phase == Phase::Estimating { Some(1) } else { None };
        assert_eq!(stream.query().page, page, "{body}");
    }
}

#[test]
fn events_out_of_turn_change_nothing() {
    let mut stream = FetchStream::new(three_fields());
    assert_eq!(stream.on_body("[1]"), Action::Wait);
    assert_eq!(stream.on_response(200, &HeaderMap::new()), Action::Wait);
    stream.on_timer();
    assert_eq!(stream.phase(), Phase::Idle);
    assert!(stream.bucket().is_none());
    stream.estimate();
    assert_eq!(stream.on_body_shape(JsonShape::Array(3)), Action::Wait);
    assert_eq!(stream.estimate(), Action::Wait);
    assert_eq!(stream.phase(), Phase::AwaitingHeaders);
}

#[test]
fn page_outcomes() {
    assert_eq!(page_outcome(JsonShape::Array(0), 10), PageOutcome::Empty);
    assert_eq!(page_outcome(JsonShape::Object(0), 10), PageOutcome::Empty);
    assert_eq!(
        page_outcome(JsonShape::Array(9), 10),
        PageOutcome::Page { has_another_page: false }
    );
    assert_eq!(
        page_outcome(JsonShape::Object(10), 10),
        PageOutcome::Page { has_another_page: true }
    );
    assert_eq!(
        page_outcome(JsonShape::Array(11), 10),
        PageOutcome::Page { has_another_page: true }
    );
    assert_eq!(page_outcome(JsonShape::Other, 10), PageOutcome::Page { has_another_page: true });
    assert_eq!(page_outcome(JsonShape::Invalid, 0), PageOutcome::Page { has_another_page: true });
    assert_eq!(page_outcome(JsonShape::Array(1), 0), PageOutcome::Page { has_another_page: true });
}

#[test]
fn wait_time_for_a_request() {
    let mut none: Option<LeakyBucket> = None;
    assert_eq!(get_wait_time_for_request_after(&mut none, TimeSpan::from_secs(1), 30), None);
    assert_eq!(get_wait_time_for_request(&mut none, 30), None);
    assert!(none.is_none());

    let mut bucket = Some(LeakyBucket::with_points(460, 500, 4));
    assert_eq!(get_wait_time_for_request_after(&mut bucket, TimeSpan::zero(), 30), None);
    assert_eq!(bucket.as_ref().unwrap().last_points(), 490);
    let wait = get_wait_time_for_request_after(&mut bucket, TimeSpan::from_millis(1100), 30);
    // 486 points after a second: 16 are missing, which takes 4 s, of which 0.1 s have gone by
    assert_eq!(wait, Some(TimeSpan { secs: 3, nanos: 900_000_000 }));
    assert_eq!(bucket.as_ref().unwrap().last_points(), 486);
    let wait = get_wait_time_for_request(&mut bucket, 30).unwrap();
    assert_eq!(wait.secs, 3);
    assert_eq!(get_wait_time_for_request(&mut bucket, 14), None);
    assert_eq!(bucket.as_ref().unwrap().last_points(), 500);
}

#[test]
fn backoff_with_and_without_an_estimate() {
    let mut none: Option<LeakyBucket> = None;
    assert_eq!(backoff_after(&mut none, TimeSpan::zero(), 30), TimeSpan::from_secs(8));
    assert!(none.is_none());
    let mut bucket = Some(LeakyBucket::with_points(500, 500, 4));
    assert_eq!(backoff_after(&mut bucket, TimeSpan::zero(), 30), TimeSpan::from_secs(8));
    assert_eq!(
        backoff_after(&mut bucket, TimeSpan::from_millis(1500), 30),
        TimeSpan { secs: 6, nanos: 500_000_000 }
    );
    assert_eq!(bucket.as_ref().unwrap().last_points(), 496);
}

#[test]
fn rough_wait_rounds_up() {
    assert_eq!(rough_wait(0), TimeSpan::zero());
    assert_eq!(rough_wait(1), TimeSpan::from_secs(1));
    assert_eq!(rough_wait(4), TimeSpan::from_secs(1));
    assert_eq!(rough_wait(5), TimeSpan::from_secs(2));
    assert_eq!(rough_wait(260), TimeSpan::from_secs(65));
    assert_eq!(rough_wait(u16::MAX), TimeSpan::from_secs(16384));
}
