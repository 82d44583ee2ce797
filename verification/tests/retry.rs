use reqwest_chain::{ChainMiddleware, Error, Request, Response, RetryOnServerError, Transport};

fn get(url: &str) -> Request {
    Request {
        method: "GET".to_string(),
        url: url.to_string(),
        headers: vec![],
        body: None,
    }
}

fn resp(status: u16) -> Response {
    Response {
        status,
        headers: vec![],
        body: vec![],
    }
}

/// Answers each send attempt with the next scripted outcome, recording
/// every request it was handed.
struct ScriptedTransport {
    script: Vec<Result<Response, Error>>,
    sent: Vec<Request>,
}

impl ScriptedTransport {
    fn new(script: Vec<Result<Response, Error>>) -> Self {
        ScriptedTransport {
            script,
            sent: vec![],
        }
    }
}

impl Transport for ScriptedTransport {
    fn send(&mut self, request: &Request) -> Result<Response, Error> {
        self.sent.push(request.clone());
        self.script[self.sent.len() - 1].clone()
    }
}

#[test]
fn retry_works() {
    let server_base = "http://localhost:8080";
    let url = format!("{}/ping", server_base);

    // The server keeps answering 500; the policy makes five attempts in
    // all and then returns the last received response.
    let mut transport = ScriptedTransport::new(vec![
        Ok(resp(500)),
        Ok(resp(500)),
        Ok(resp(500)),
        Ok(resp(500)),
        Ok(resp(500)),
    ]);
    let middleware = ChainMiddleware::new(RetryOnServerError { retries: 5 });

    let out = middleware.run(&mut transport, get(&url));

    let response = out.result.expect("call failed");
    assert_eq!(response.status, 500);
    assert_eq!(out.attempts, 5);
    assert_eq!(transport.sent.len(), 5);
    assert!(transport.sent.iter().all(|r| r.method == "GET" && r.url == url));
}

#[test]
fn retry_stops_on_success() {
    // The transport recovers on the third attempt: exactly three send
    // attempts occur and the final response has status 200.
    let mut transport =
        ScriptedTransport::new(vec![Ok(resp(500)), Ok(resp(500)), Ok(resp(200))]);
    let middleware = ChainMiddleware::new(RetryOnServerError { retries: 5 });

    let out = middleware.run(&mut transport, get("/ping"));

    assert_eq!(out.result, Ok(resp(200)));
    assert_eq!(out.attempts, 3);
    assert_eq!(transport.sent.len(), 3);
}

#[test]
fn transport_error_returned_unchanged() {
    // A connection error on the first attempt: the policy terminates at
    // once and the engine propagates the error untouched.
    let mut transport =
        ScriptedTransport::new(vec![Err(Error::Transport("connection error".to_string()))]);
    let middleware = ChainMiddleware::new(RetryOnServerError { retries: 5 });

    let out = middleware.run(&mut transport, get("/ping"));

    assert_eq!(
        out.result,
        Err(Error::Transport("connection error".to_string()))
    );
    assert_eq!(out.attempts, 1);
}

#[test]
fn chain_state_is_fresh_per_chain() {
    // Two chains driven by one engine: the attempt count starts over for
    // the second inbound request, so both chains make all five attempts.
    let middleware = ChainMiddleware::new(RetryOnServerError { retries: 5 });

    let all_500 = || {
        ScriptedTransport::new(vec![
            Ok(resp(500)),
            Ok(resp(500)),
            Ok(resp(500)),
            Ok(resp(500)),
            Ok(resp(500)),
        ])
    };
    let mut first = all_500();
    let first_out = middleware.run(&mut first, get("/ping"));
    let mut second = all_500();
    let second_out = middleware.run(&mut second, get("/ping"));

    assert_eq!(first_out.attempts, 5);
    assert_eq!(second_out.attempts, 5);
    assert_eq!(first_out.result, Ok(resp(500)));
    assert_eq!(second_out.result, Ok(resp(500)));
}

#[test]
fn non_server_error_is_returned_at_once() {
    // 404 is not a server error: no retry happens.
    let mut transport = ScriptedTransport::new(vec![Ok(resp(404))]);
    let middleware = ChainMiddleware::new(RetryOnServerError { retries: 5 });

    let out = middleware.run(&mut transport, get("/ping"));

    assert_eq!(out.result, Ok(resp(404)));
    assert_eq!(out.attempts, 1);
}

#[test]
fn server_error_class_bounds() {
    assert!(!resp(499).is_server_error());
    assert!(resp(500).is_server_error());
    assert!(resp(599).is_server_error());
    assert!(!resp(600).is_server_error());
}
