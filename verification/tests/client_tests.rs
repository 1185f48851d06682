use bmctl::client::{
    describe, describe_parsed, failure_message, is_success, not_json, parse_json, read_json,
    request_failed, unexpected_shape, HttpSettings, Json, RedfishClient, ResponseError,
};
use bmctl::config::Config;

fn obj(fields: Vec<(&str, Json)>) -> Json {
    Json::Object(fields.into_iter().map(|(k, v)| (k.to_string(), v)).collect())
}

fn s(v: &str) -> Json {
    Json::Str(v.to_string())
}

#[test]
fn json_accessors() {
    let v = obj(vec![("Vendor", s("AMI")), ("Count", Json::Number("3".into()))]);
    assert!(matches!(v.get("Vendor"), Some(Json::Str(x)) if x == "AMI"));
    assert!(v.get("Missing").is_none());
    assert_eq!(v.get("Vendor").and_then(|x| x.as_str()), Some("AMI"));
    assert!(v.get("Count").and_then(|x| x.as_str()).is_none());
    assert!(s("x").get("Vendor").is_none());
    assert_eq!(Json::Array(vec![Json::Null]).as_array().map(|a| a.len()), Some(1));
}

#[test]
fn describe_collects_extended_messages() {
    let body = obj(vec![(
        "error",
        obj(vec![
            ("message", s("generic")),
            (
                "@Message.ExtendedInfo",
                Json::Array(vec![
                    obj(vec![("Message", s("The value ForceOn is not supported."))]),
                    obj(vec![("MessageId", s("x"))]),
                    obj(vec![("Message", s("Try again later."))]),
                ]),
            ),
        ]),
    )]);
    assert_eq!(
        describe_parsed("{...}", Some(&body)),
        "The value ForceOn is not supported.\nTry again later."
    );
}

#[test]
fn describe_falls_back_to_message_then_body() {
    let with_message = obj(vec![(
        "error",
        obj(vec![("message", s("bad request")), ("@Message.ExtendedInfo", Json::Array(vec![]))]),
    )]);
    assert_eq!(describe_parsed("raw", Some(&with_message)), "bad request");
    let bare = obj(vec![("other", Json::Null)]);
    assert_eq!(describe_parsed("the body", Some(&bare)), "the body");
}

#[test]
fn describe_cuts_non_json_bodies_at_400_characters() {
    let long = "x".repeat(1000);
    assert_eq!(describe_parsed(&long, None).chars().count(), 400);
    assert_eq!(describe_parsed("<html>oops</html>", None), "<html>oops</html>");
}

#[test]
fn failure_message_has_status_path_and_description() {
    assert_eq!(
        failure_message(404, "/redfish/v1/Chassis/Self", r#"{"error": {"message": "nope"}}"#),
        "404 /redfish/v1/Chassis/Self\nnope"
    );
    assert_eq!(failure_message(500, "/p", "boom"), "500 /p\nboom");
}

#[test]
fn success_is_2xx() {
    assert!(is_success(200));
    assert!(is_success(204));
    assert!(!is_success(199));
    assert!(!is_success(300));
    assert!(!is_success(401));
}

#[test]
fn request_contexts() {
    assert_eq!(request_failed("GET", "https://h/x"), "GET https://h/x failed");
    assert_eq!(not_json("/x"), "/x did not return JSON");
    assert_eq!(unexpected_shape("/x"), "/x did not have the expected shape");
}

#[test]
fn client_base_url_drops_trailing_slashes() {
    let cfg = Config {
        host: "192.168.1.135//".into(),
        user: "admin".into(),
        password: "pw".into(),
        verify_tls: false,
        timeout_secs: 15,
    };
    let c = RedfishClient::new(&cfg).unwrap();
    assert_eq!(c.base, "https://192.168.1.135");
    assert_eq!(c.user, "admin");
    assert_eq!(c.password, "pw");
    assert_eq!(c.url("/redfish/v1"), "https://192.168.1.135/redfish/v1");
    assert_eq!(c.settings, HttpSettings { accept_invalid_certs: true, timeout_secs: 15 });
    let checked = Config { verify_tls: true, timeout_secs: 3, ..cfg };
    let c = RedfishClient::new(&checked).unwrap();
    assert_eq!(c.settings, HttpSettings { accept_invalid_certs: false, timeout_secs: 3 });
}

#[test]
fn parsing_keeps_the_document() {
    let j = parse_json(r#"{"b": [1, 2.5, "x", null, true], "a": {}}"#).unwrap();
    match &j {
        Json::Object(fields) => {
            assert_eq!(fields.len(), 2);
            assert!(fields.iter().any(|(k, _)| k == "a"));
        }
        other => panic!("unexpected {other:?}"),
    }
    match j.get("b") {
        Some(Json::Array(items)) => {
            assert!(matches!(&items[0], Json::Number(n) if n == "1"));
            assert!(matches!(&items[1], Json::Number(n) if n == "2.5"));
            assert!(matches!(&items[2], Json::Str(x) if x == "x"));
            assert!(matches!(items[3], Json::Null));
            assert!(matches!(items[4], Json::Bool(true)));
        }
        other => panic!("unexpected {other:?}"),
    }
    assert!(parse_json("<html>").is_err());
}

#[test]
fn describe_reads_the_raw_body() {
    let body = r#"{"error": {"@Message.ExtendedInfo": [{"Message": "A"}, {"Message": "B"}]}}"#;
    assert_eq!(describe(body), "A\nB");
    assert_eq!(describe("<html>oops</html>"), "<html>oops</html>");
}

#[test]
fn responses_give_json_or_say_why_not() {
    assert!(matches!(read_json("/p", 200, r#"{"x": 1}"#), Ok(Json::Object(_))));
    match read_json("/p", 401, r#"{"error": {"message": "denied"}}"#) {
        Err(ResponseError::Failed(m)) => assert_eq!(m, "401 /p\ndenied"),
        other => panic!("unexpected {other:?}"),
    }
    match read_json("/p", 200, "not json") {
        Err(ResponseError::NotJson { context, cause }) => {
            assert_eq!(context, "/p did not return JSON");
            assert!(!cause.to_string().is_empty());
        }
        other => panic!("unexpected {other:?}"),
    }
}
