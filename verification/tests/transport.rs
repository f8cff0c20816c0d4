use std::collections::HashMap;
use std::time::Duration;

use backend_commands::method::Method;
use backend_commands::relay::{start, step, Action, Event, Request};
use backend_commands::status::Status;

fn outside_method(method: Method) -> reqwest::Method {
    match method {
        Method::Get => reqwest::Method::GET,
        Method::Post => reqwest::Method::POST,
        Method::Put => reqwest::Method::PUT,
        Method::Delete => reqwest::Method::DELETE,
        Method::Patch => reqwest::Method::PATCH,
        Method::Head => reqwest::Method::HEAD,
        Method::Options => reqwest::Method::OPTIONS,
    }
}

fn send(request: Request) -> Result<reqwest::blocking::Response, String> {
    let client = reqwest::blocking::Client::new();
    let mut builder = client.request(outside_method(request.method), &request.url);
    if let Some(headers) = request.headers {
        for (name, value) in headers {
            builder = builder.header(name, value);
        }
    }
    if let Some(body) = request.body {
        builder = builder.body(body);
    }
    if let Some(ms) = request.timeout_ms {
        builder = builder.timeout(Duration::from_millis(ms));
    }
    builder.send().map_err(|e| e.to_string())
}

/// Runs a relay over the real client.
fn proxy_fetch_audio(
    url: String,
    method: String,
    headers: Option<HashMap<String, String>>,
    body: Option<String>,
    timeout_ms: Option<u64>,
) -> Result<Vec<u8>, String> {
    let (mut phase, mut action) = start(url, method, headers, body, timeout_ms);
    let mut response = None;
    loop {
        let event = match action {
            Action::Finish(result) => return result,
            Action::Send(request) => match send(request) {
                Ok(arrived) => {
                    let status = Status::from_u16(arrived.status().as_u16()).unwrap();
                    response = Some(arrived);
                    Event::Responded(status)
                }
                Err(description) => Event::Failed(description),
            },
            Action::ReadBody => match response.take().unwrap().bytes() {
                Ok(bytes) => Event::Body(bytes.to_vec()),
                Err(e) => Event::Failed(e.to_string()),
            },
        };
        let next = step(phase, event).unwrap();
        phase = next.0;
        action = next.1;
    }
}

#[test]
fn test_proxy_fetch_audio_invalid_url() {
    let result = proxy_fetch_audio(
        "invalid-url".to_string(),
        "GET".to_string(),
        None,
        None,
        None,
    );
    assert!(result.is_err());
}

#[test]
fn proxy_fetch_audio_refuses_a_malformed_url() {
    let result =
        proxy_fetch_audio("not-a-url".to_string(), "GET".to_string(), None, None, Some(2000));
    assert!(result.is_err());
}

#[test]
fn proxy_fetch_audio_refuses_a_method_before_the_client_is_made() {
    let result = proxy_fetch_audio(
        "https://example.test/ok".to_string(),
        "FOO".to_string(),
        None,
        None,
        None,
    );
    assert_eq!(result, Err("Unsupported method: FOO".to_string()));
}

#[test]
fn status_text_agrees_with_the_client() {
    for code in 100u16..=999 {
        let outside = reqwest::StatusCode::from_u16(code).unwrap();
        let own = Status::from_u16(code).unwrap();
        assert_eq!(own.text(), outside.to_string());
        assert_eq!(own.is_success(), outside.is_success());
        assert_eq!(own.as_u16(), outside.as_u16());
    }
}
