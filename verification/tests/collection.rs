use replicate_rust::api_definitions::{GetCollectionModels, ListCollectionModels};
use replicate_rust::collection::Collection;
use replicate_rust::config::Config;
use replicate_rust::errors::{DecodeError, ReplicateError, ShapeError};
use replicate_rust::transport::{Header, Reply, Request, Response};

const BASE_URL: &str = "http://127.0.0.1:5000";

fn client() -> Collection {
    let config = Config {
        auth: String::from("test"),
        base_url: String::from(BASE_URL),
        ..Config::default()
    };
    Collection::new(config)
}

fn answer(status: u16, body: &str) -> Reply {
    Ok(Response { status, body: String::from(body) })
}

#[test]
fn test_get() {
    let body = "{\"name\": \"Super resolution\", \"slug\": \"super-resolution\", \"description\": \"Upscaling models that create high-quality images from low-quality images.\", \"models\": []}";
    let mut calls = 0;
    let result = client().get("super-resolution", |request: Request| {
        calls += 1;
        assert_eq!(request.url, format!("{}/collections/super-resolution", BASE_URL));
        answer(200, body)
    });

    assert_eq!(result.unwrap().name, "Super resolution");
    assert_eq!(calls, 1);
}

#[test]
fn test_list() {
    let body = "{\"results\": [{\"name\": \"Super resolution\", \"slug\": \"super-resolution\", \"description\": \"Upscaling models that create high-quality images from low-quality images.\"}, {\"name\": \"Image classification\", \"slug\": \"image-classification\", \"description\": \"Models that classify images.\"}], \"next\": null, \"previous\": null}";
    let mut calls = 0;
    let result = client()
        .list(|request: Request| {
            calls += 1;
            assert_eq!(request.url, format!("{}/collections", BASE_URL));
            answer(200, body)
        })
        .unwrap();

    assert_eq!(result.results.len(), 2);
    assert_eq!(calls, 1);
}

#[test]
fn get_decodes_every_field_of_the_collection() {
    let body = "{\"name\": \"Super resolution\", \"slug\": \"super-resolution\", \"description\": \"...\", \"models\": []}";
    let result = client().get("super-resolution", |_| answer(200, body)).unwrap();
    assert_eq!(
        result,
        GetCollectionModels {
            name: String::from("Super resolution"),
            slug: String::from("super-resolution"),
            description: String::from("..."),
            models: vec![],
        }
    );
}

#[test]
fn list_decodes_every_field_of_the_page() {
    let body = "{\"results\": [{\"name\": \"A\", \"slug\": \"a\", \"description\": \"first\"}, {\"name\": \"B\", \"slug\": \"b\", \"description\": \"second\"}], \"next\": \"https://example.test/collections?cursor=2\", \"previous\": null}";
    let page = client().list(|_| answer(200, body)).unwrap();
    assert_eq!(page.results[0].name, "A");
    assert_eq!(page.results[0].slug, "a");
    assert_eq!(page.results[0].description, "first");
    assert_eq!(page.results[1].name, "B");
    assert_eq!(page.results[1].slug, "b");
    assert_eq!(page.results[1].description, "second");
    assert_eq!(page.next.as_deref(), Some("https://example.test/collections?cursor=2"));
    assert_eq!(page.previous, None);
}

#[test]
fn list_does_not_follow_the_next_page() {
    let body = "{\"results\": [], \"next\": \"https://example.test/next\", \"previous\": \"https://example.test/previous\"}";
    let mut calls = 0;
    let page = client()
        .list(|_| {
            calls += 1;
            answer(200, body)
        })
        .unwrap();
    assert_eq!(calls, 1);
    assert!(page.results.is_empty());
    assert_eq!(page.previous.as_deref(), Some("https://example.test/previous"));
}

#[test]
fn get_of_an_unknown_collection_is_a_response_error() {
    let result = client().get("unknown", |request: Request| {
        assert_eq!(request.url, format!("{}/collections/unknown", BASE_URL));
        answer(404, "not found")
    });
    match result {
        Err(ReplicateError::ResponseError(body)) => assert_eq!(body, "not found"),
        other => panic!("unexpected result: {:?}", other),
    }
}

#[test]
fn a_failure_status_keeps_the_body_whatever_it_holds() {
    for status in [100u16, 199, 300, 301, 400, 401, 404, 429, 500, 503] {
        for body in ["", "not found", "{\"detail\": \"no\"}", "{\"name\": \"a\", \"slug\": \"b\", \"description\": \"c\", \"models\": []}"] {
            match client().get("x", |_| answer(status, body)) {
                Err(ReplicateError::ResponseError(text)) => assert_eq!(text, body),
                other => panic!("unexpected result: {:?}", other),
            }
            match client().list(|_| answer(status, body)) {
                Err(ReplicateError::ResponseError(text)) => assert_eq!(text, body),
                other => panic!("unexpected result: {:?}", other),
            }
        }
    }
}

#[test]
fn every_status_from_200_to_299_is_a_success() {
    let body = "{\"results\": [], \"next\": null, \"previous\": null}";
    for status in [200u16, 201, 204, 250, 299] {
        assert!(Response { status, body: String::new() }.is_success());
        assert!(client().list(|_| answer(status, body)).is_ok());
    }
    for status in [0u16, 199, 300, 404, 65535] {
        assert!(!Response { status, body: String::new() }.is_success());
    }
}

#[test]
fn a_body_that_is_not_json_is_a_decode_error() {
    for body in ["", "not json", "{\"name\": ", "{\"name\": \"a\"} trailing", "[1, 2"] {
        let result = client().get("x", |_| answer(200, body));
        assert!(matches!(
            result,
            Err(ReplicateError::DecodeError(DecodeError::Syntax(_)))
        ));
        let result = client().list(|_| answer(200, body));
        assert!(matches!(
            result,
            Err(ReplicateError::DecodeError(DecodeError::Syntax(_)))
        ));
    }
}

#[test]
fn a_body_of_another_shape_is_a_decode_error() {
    let result = client().get("x", |_| answer(200, "[]"));
    assert!(matches!(
        result,
        Err(ReplicateError::DecodeError(DecodeError::Shape(ShapeError::NotAnObject)))
    ));
    let result = client().list(|_| answer(200, "{\"results\": [], \"next\": null}"));
    assert!(result.is_ok());
    let result = client().list(|_| answer(200, "{\"next\": null, \"previous\": null}"));
    match result {
        Err(ReplicateError::DecodeError(DecodeError::Shape(ShapeError::MissingField(key)))) => {
            assert_eq!(key, "results")
        }
        other => panic!("unexpected result: {:?}", other),
    }
}

#[test]
fn a_failed_transport_is_a_transport_error() {
    let result = client().get("x", |_| Err(String::from("connection refused")));
    match result {
        Err(ReplicateError::TransportError(message)) => assert_eq!(message, "connection refused"),
        other => panic!("unexpected result: {:?}", other),
    }
    let result = client().list(|_| Err(String::from("timed out")));
    match result {
        Err(ReplicateError::TransportError(message)) => assert_eq!(message, "timed out"),
        other => panic!("unexpected result: {:?}", other),
    }
}

#[test]
fn every_request_carries_the_token_and_the_user_agent() {
    let config = Config {
        auth: String::from("r8_secret"),
        user_agent: String::from("my-agent/1.0"),
        base_url: String::from(BASE_URL),
    };
    let client = Collection::new(config);
    let expected = vec![
        Header { name: String::from("Authorization"), value: String::from("Token r8_secret") },
        Header { name: String::from("User-Agent"), value: String::from("my-agent/1.0") },
    ];
    assert_eq!(client.get_request("abc").headers, expected);
    assert_eq!(client.list_request().headers, expected);

    let seen = std::cell::RefCell::new(Vec::new());
    let _ = client.get("abc", |request: Request| {
        seen.borrow_mut().push(request.headers.clone());
        Err(String::from("stop"))
    });
    let _ = client.list(|request: Request| {
        seen.borrow_mut().push(request.headers.clone());
        Err(String::from("stop"))
    });
    assert_eq!(seen.into_inner(), vec![expected.clone(), expected]);
}

#[test]
fn the_url_is_the_base_the_resource_and_the_slug() {
    let client = client();
    assert_eq!(client.get_request("audio-generation").url, "http://127.0.0.1:5000/collections/audio-generation");
    assert_eq!(client.get_request("").url, "http://127.0.0.1:5000/collections/");
    assert_eq!(client.get_request("a b/c").url, "http://127.0.0.1:5000/collections/a b/c");
    assert_eq!(client.list_request().url, "http://127.0.0.1:5000/collections");
}

#[test]
fn the_default_settings_point_at_the_public_api() {
    let config = Config::default();
    assert_eq!(config.base_url, "https://api.replicate.com/v1");
    assert_eq!(config.user_agent, "replicate-rust/0.1.0");
    assert_eq!(config.auth, "");
    let request = Collection::new(config).list_request();
    assert_eq!(request.url, "https://api.replicate.com/v1/collections");
    assert_eq!(request.headers[0].value, "Token ");
    assert_eq!(request.headers[1].value, "replicate-rust/0.1.0");
}

#[test]
fn new_keeps_the_settings() {
    let config = Config {
        auth: String::from("test"),
        user_agent: String::from("agent"),
        base_url: String::from("http://localhost:1"),
    };
    let client = Collection::new(config);
    assert_eq!(client.parent.auth, "test");
    assert_eq!(client.parent.user_agent, "agent");
    assert_eq!(client.parent.base_url, "http://localhost:1");
}

#[test]
fn the_result_functions_agree_with_the_calls() {
    let body = "{\"results\": [{\"name\": \"A\", \"slug\": \"a\", \"description\": \"first\"}], \"next\": null, \"previous\": null}";
    let direct: ListCollectionModels = Collection::list_result(answer(200, body)).unwrap();
    let called = client().list(|_| answer(200, body)).unwrap();
    assert_eq!(direct, called);

    let body = "{\"name\": \"n\", \"slug\": \"s\", \"description\": \"d\", \"models\": []}";
    let direct = Collection::get_result(answer(200, body)).unwrap();
    let called = client().get("s", |_| answer(200, body)).unwrap();
    assert_eq!(direct, called);
}
