use discovery::common::{ApiError, ApiErrorDetail, Credentials, ServiceError};
use discovery::environment;
use discovery::request::{prepare, Payload};
use discovery::response::{classify_response, normalize_service_error, service_error_from_members};

fn service(r: Result<serde_json::Value, ApiError>) -> ApiErrorDetail {
    match r {
        Err(ApiError::Service(d)) => d,
        other => panic!("expected a service error, got {:?}", other),
    }
}

#[test]
fn failure_body_with_code_and_error() {
    let d = service(classify_response(400, "{\"code\":5,\"error\":\"bad\"}", None));
    assert_eq!(d.status_code, 400);
    assert_eq!(d.service_error.code, 5);
    assert_eq!(d.service_error.error, "bad");
    assert_eq!(d.service_error.message, "");
    assert_eq!(d.service_error.description, "");
    let d = service(classify_response(503, "{\"code\":5,\"error\":\"bad\"}", None));
    assert_eq!(d.status_code, 503);
    assert_eq!(d.service_error.error, "bad");
}

#[test]
fn garbled_failure_body_falls_back() {
    let d = service(classify_response(500, "server exploded", None));
    assert_eq!(d.status_code, 500);
    assert_eq!(d.service_error.code, 0);
    assert_eq!(d.service_error.error, "");
    assert_eq!(d.service_error.message, "Unknown service error format");
    assert_eq!(d.service_error.description, "server exploded");
}

#[test]
fn failure_body_with_empty_messages_falls_back() {
    let body = "{\"code\":3,\"error\":\"\",\"message\":\"\",\"description\":\"x\"}";
    let d = service(classify_response(404, body, None));
    assert_eq!(d.service_error.code, 0);
    assert_eq!(d.service_error.message, "Unknown service error format");
    assert_eq!(d.service_error.description, body);
}

#[test]
fn failure_body_with_message_and_description() {
    let body = "{\"code\":409,\"message\":\"exists\",\"description\":\"name taken\"}";
    let e = normalize_service_error(body);
    assert_eq!(
        e,
        ServiceError {
            code: 409,
            error: String::new(),
            message: "exists".to_string(),
            description: "name taken".to_string(),
        }
    );
}

#[test]
fn members_decide_the_error() {
    let e = service_error_from_members("raw", Some(7), Some("oops".to_string()), None, Some("d".to_string()));
    assert_eq!((e.code, e.error.as_str(), e.message.as_str(), e.description.as_str()), (7, "oops", "", "d"));
    let e = service_error_from_members("raw", None, None, Some("m".to_string()), None);
    assert_eq!((e.code, e.error.as_str(), e.message.as_str(), e.description.as_str()), (0, "", "m", ""));
    let e = service_error_from_members("raw", Some(7), Some(String::new()), None, Some("d".to_string()));
    assert_eq!(
        (e.code, e.error.as_str(), e.message.as_str(), e.description.as_str()),
        (0, "", "Unknown service error format", "raw")
    );
}

#[test]
fn json_array_failure_body_falls_back() {
    let d = service(classify_response(400, "[1,2]", None));
    assert_eq!(d.service_error.message, "Unknown service error format");
    assert_eq!(d.service_error.description, "[1,2]");
}

#[test]
fn abrupt_close_after_failure_body_is_a_service_error() {
    let d = service(classify_response(500, "{\"code\":1,\"error\":\"down\"}", Some("connection reset".to_string())));
    assert_eq!(d.status_code, 500);
    assert_eq!(d.service_error.error, "down");
}

#[test]
fn read_failure_with_nothing_read_is_io() {
    let r = classify_response(500, "", Some("connection reset".to_string()));
    assert!(matches!(r, Err(ApiError::Io(ref m)) if m == "connection reset"));
    let r = classify_response(200, "", Some("timeout".to_string()));
    assert!(matches!(r, Err(ApiError::Io(_))));
}

#[test]
fn success_body_is_parsed() {
    let v = classify_response(200, "{\"a\":[1,2]}", None).unwrap();
    assert_eq!(v["a"][1], 2);
    let v = classify_response(299, "true", Some("late reset".to_string())).unwrap();
    assert_eq!(v, serde_json::Value::Bool(true));
}

#[test]
fn unparseable_success_body_is_a_parse_error() {
    assert!(matches!(classify_response(200, "not json", None), Err(ApiError::SerdeJson(_))));
    assert!(matches!(classify_response(204, "", None), Err(ApiError::SerdeJson(_))));
}

#[test]
fn status_bounds_of_success() {
    assert!(matches!(classify_response(199, "{}", None), Err(ApiError::Service(_))));
    assert!(matches!(classify_response(300, "{}", None), Err(ApiError::Service(_))));
    assert!(classify_response(200, "{}", None).is_ok());
}

#[test]
fn error_text_has_status_and_messages() {
    let d = ApiErrorDetail {
        status_code: 404,
        service_error: ServiceError {
            code: 1,
            error: "not found".to_string(),
            message: "m".to_string(),
            description: "no such thing".to_string(),
        },
    };
    assert_eq!(d.to_string(), "404: not found (no such thing)");
    let e = ApiError::Service(ApiErrorDetail {
        status_code: 500,
        service_error: normalize_service_error("server exploded"),
    });
    assert_eq!(e.to_string(), "500: Unknown service error format (server exploded)");
    let d = ApiErrorDetail {
        status_code: 400,
        service_error: ServiceError {
            code: 0,
            error: String::new(),
            message: "only message".to_string(),
            description: String::new(),
        },
    };
    assert_eq!(d.to_string(), "400: only message");
    assert_eq!(ApiError::Io("disk".to_string()).to_string(), "disk");
    assert_eq!(ApiError::Hyper("refused".to_string()).to_string(), "refused");
    let parse = classify_response(200, "{", None);
    assert!(!parse.unwrap_err().to_string().is_empty());
}

#[test]
fn create_environment_end_to_end() {
    let creds = Credentials {
        url: "https://x.test".to_string(),
        username: "u".to_string(),
        password: "p".to_string(),
    };
    let opts = environment::NewEnvironment { name: "env1".to_string(), description: None, size: 1 };
    let out = prepare(&creds, &environment::create(&opts), "2017-09-01", None).unwrap();
    assert_eq!(out.method, discovery::common::Method::Post);
    assert_eq!(out.url, "https://x.test/v1/environments?version=2017-09-01");
    assert!(matches!(out.payload, Payload::Json(ref t) if t == "{\"name\":\"env1\",\"size\":1}"));
    assert_eq!((out.username.as_str(), out.password.as_str()), ("u", "p"));
    let body = "{\"environment_id\":\"e1\",\"name\":\"env1\",\"size\":1,\"status\":\"pending\",\"read_only\":false}";
    let v = classify_response(201, body, None).unwrap();
    assert_eq!(v["environment_id"], "e1");
    assert_eq!(v["size"], 1);
}

#[test]
fn serialized_options_parse_back_to_the_same_values() {
    let opts = environment::NewEnvironment {
        name: "tab\there \"quoted\" \u{e9}".to_string(),
        description: Some("line\nbreak".to_string()),
        size: u64::MAX,
    };
    let v = classify_response(200, &opts.to_json(), None).unwrap();
    assert_eq!(v["name"], opts.name.as_str());
    assert_eq!(v["description"], "line\nbreak");
    assert_eq!(v["size"].as_u64(), Some(u64::MAX));
    assert_eq!(v.as_object().unwrap().len(), 3);

    let opts = discovery::collection::NewCollection {
        name: "c".to_string(),
        description: Some("\\".to_string()),
        configuration_id: None,
    };
    let v = classify_response(200, &opts.to_json(), None).unwrap();
    assert_eq!(v["name"], "c");
    assert_eq!(v["description"], "\\");
    assert!(v.get("configuration_id").is_none());
}
