use fastcgi_client::Params;
use php_gateway::header::HeaderField;
use php_gateway::request::{Probe, RequestHead, RequestTarget};
use php_gateway::response::{translate, BackendResponse, HttpResponse};
use php_gateway::service::{handle_result, PhpService, ServiceError, Step};
use std::str::FromStr;

fn answer(stdout: &[u8]) -> BackendResponse {
    BackendResponse { stdout: Some(stdout.to_vec()), stderr: None }
}

fn is_failure(response: &HttpResponse) -> bool {
    response.status == 500
        && response.headers.is_empty()
        && response.body == b"internal server error".to_vec()
}

fn get(path: &str, query: Option<&str>) -> RequestHead {
    RequestHead {
        method: "GET".to_string(),
        target: Some(RequestTarget {
            path: path.to_string(),
            query: query.map(|q| q.to_string()),
        }),
        headers: vec![HeaderField { name: "host".to_string(), value: b"example.com".to_vec() }],
    }
}

fn var<'a>(params: &'a Params<'static>, name: &str) -> Option<&'a str> {
    params.get(name).map(|value| value.as_ref())
}

#[test]
fn a_response_passes_through() {
    let made = HttpResponse {
        status: 201,
        headers: vec![HeaderField { name: "x-a".to_string(), value: b"1".to_vec() }],
        body: b"made".to_vec(),
    };
    let response = handle_result(Ok(made));
    assert_eq!(response.status, 201);
    assert_eq!(response.headers.len(), 1);
    assert_eq!(response.headers[0].name, "x-a");
    assert_eq!(response.headers[0].value, b"1".to_vec());
    assert_eq!(response.body, b"made".to_vec());
}

#[test]
fn every_error_gives_the_same_500() {
    assert!(is_failure(&handle_result(Err(ServiceError::Io))));
    assert!(is_failure(&handle_result(Err(ServiceError::Pool))));
    assert!(is_failure(&handle_result(Err(ServiceError::FastCgi))));
    assert!(is_failure(&handle_result(Err(ServiceError::Join))));
    assert!(is_failure(&handle_result(Err(ServiceError::Headers(httparse::Error::Token)))));
    let name = http::header::HeaderName::from_str("bad name").err().unwrap();
    assert!(is_failure(&handle_result(Err(ServiceError::HeaderName(name)))));
    let value = http::header::HeaderValue::from_bytes(b"\n").err().unwrap();
    assert!(is_failure(&handle_result(Err(ServiceError::HeaderValue(value)))));
}

#[test]
fn a_malformed_header_block_gives_the_500() {
    let response = handle_result(translate(answer(b"bad header\r\n\r\nsecret detail")));
    assert!(is_failure(&response));
    let service = PhpService::new("/srv".to_string());
    let response = service.respond(Ok(answer(b"bad header\r\n\r\nsecret detail")));
    assert!(is_failure(&response));
}

#[test]
fn a_failed_exchange_gives_the_500() {
    let service = PhpService::new("/srv".to_string());
    assert!(is_failure(&service.respond(Err(ServiceError::Pool))));
    assert!(is_failure(&service.respond(Err(ServiceError::FastCgi))));
    assert!(is_failure(&service.respond(Err(ServiceError::Join))));
    assert!(is_failure(&service.respond(Err(ServiceError::Io))));
}

#[test]
fn a_good_exchange_is_translated() {
    let service = PhpService::new("/srv".to_string());
    let response = service.respond(Ok(answer(b"Status: 404 Not Found\r\nX-Foo: bar\r\n\r\nbody")));
    assert_eq!(response.status, 404);
    assert_eq!(response.headers.len(), 1);
    assert_eq!(response.headers[0].name, "x-foo");
    assert_eq!(response.body, b"body".to_vec());
}

#[test]
fn a_request_for_a_file_is_served() {
    let service = PhpService::new("/srv".to_string());
    assert_eq!(service.root(), "/srv");
    assert_eq!(service.candidate(&get("/css/site.css", None)), "/srv/css/site.css");
    let probe = Probe { is_file: true, is_dir: false, has_index: false };
    match service.dispatch(&get("/css/site.css", None), probe) {
        Step::Serve(path) => assert_eq!(path, "/srv/css/site.css"),
        Step::Proxy { script, .. } => panic!("proxied to {}", script),
    }
}

#[test]
fn a_request_for_a_directory_with_index_is_proxied() {
    let service = PhpService::new("/srv".to_string());
    let probe = Probe { is_file: false, is_dir: true, has_index: true };
    match service.dispatch(&get("/blog", Some("page=2")), probe) {
        Step::Proxy { script, params } => {
            assert_eq!(script, "/srv/blog/index.php");
            assert_eq!(var(&params, "SCRIPT_FILENAME"), Some("/srv/blog/index.php"));
            assert_eq!(var(&params, "SCRIPT_NAME"), Some("index.php"));
            assert_eq!(var(&params, "DOCUMENT_ROOT"), Some("/srv"));
            assert_eq!(var(&params, "REQUEST_URI"), Some("/blog?page=2"));
            assert_eq!(var(&params, "QUERY_STRING"), Some("page=2"));
            assert_eq!(var(&params, "SERVER_NAME"), Some("example.com"));
        }
        Step::Serve(path) => panic!("served {}", path),
    }
}

#[test]
fn a_request_for_nothing_is_proxied_to_the_root_index() {
    let service = PhpService::new("/srv".to_string());
    let probe = Probe { is_file: false, is_dir: false, has_index: false };
    match service.dispatch(&get("/missing/path", None), probe) {
        Step::Proxy { script, params } => {
            assert_eq!(script, "/srv/index.php");
            assert_eq!(var(&params, "SCRIPT_FILENAME"), Some("/srv/index.php"));
            assert_eq!(var(&params, "REQUEST_URI"), Some("/missing/path"));
        }
        Step::Serve(path) => panic!("served {}", path),
    }
}

#[test]
fn a_request_without_a_path_is_about_the_root() {
    let service = PhpService::new("/srv".to_string());
    let request = RequestHead { method: "OPTIONS".to_string(), target: None, headers: vec![] };
    assert_eq!(request.path(), "");
    assert_eq!(service.candidate(&request), "/srv/");
    let probe = Probe { is_file: false, is_dir: true, has_index: true };
    match service.dispatch(&request, probe) {
        Step::Proxy { script, .. } => assert_eq!(script, "/srv/index.php"),
        Step::Serve(path) => panic!("served {}", path),
    }
}
