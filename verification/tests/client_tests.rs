use dkdc_md_cli::client::{
    create_token_request, create_user_request, delete_token_request, delete_user_request,
    full_url, get_duckling_config_request, list_active_accounts_request, list_tokens_request,
    parse_response, set_duckling_config_request, Method,
};
use dkdc_md_cli::encode::encode_path;
use dkdc_md_cli::errors::CliError;
use dkdc_md_cli::jsonv::Jv;

fn s(x: &str) -> String {
    x.to_string()
}

#[test]
fn encode_path_preserves_safe_chars() {
    assert_eq!(encode_path("svc_test-user.1"), "svc_test-user.1");
}

#[test]
fn encode_path_encodes_unsafe_chars() {
    assert_eq!(encode_path("a/b?c#d e"), "a%2Fb%3Fc%23d%20e");
}

#[test]
fn encode_path_encodes_percent_and_controls() {
    assert_eq!(encode_path("a%b"), "a%25b");
    assert_eq!(encode_path("a\nb"), "a%0Ab");
    assert_eq!(encode_path("caf\u{e9}"), "caf%C3%A9");
}

#[test]
fn parse_response_success_json() {
    let result = parse_response(200, r#"{"username": "svc_test"}"#.into()).unwrap();
    assert_eq!(result.str_field("username"), Some("svc_test"));
}

#[test]
fn parse_response_success_non_json() {
    let result = parse_response(200, "plain text response".into()).unwrap();
    assert_eq!(result.as_str().unwrap(), "plain text response");
}

#[test]
fn parse_response_error_with_message() {
    let err = parse_response(404, r#"{"message": "user not found"}"#.into()).unwrap_err();
    assert!(err.message().contains("404"));
    assert!(err.message().contains("user not found"));
}

#[test]
fn parse_response_error_non_json() {
    let err = parse_response(500, "Internal Server Error".into()).unwrap_err();
    assert!(err.message().contains("500"));
    assert!(err.message().contains("Internal Server Error"));
}

#[test]
fn parse_response_error_json_without_message() {
    let err = parse_response(400, r#"{"error": "something broke"}"#.into()).unwrap_err();
    assert!(err.message().contains("400"));
}

#[test]
fn parse_response_error_carries_status_and_text() {
    match parse_response(503, "unavailable".into()).unwrap_err() {
        CliError::Api(e) => {
            assert_eq!(e.status, 503);
            assert_eq!(e.message, "unavailable");
            assert_eq!(e.text(), "API error (503): unavailable");
        }
        other => panic!("expected an API error, got {:?}", other),
    }
}

#[test]
fn parse_response_boundary_statuses() {
    assert!(parse_response(299, "{}".into()).is_ok());
    assert!(parse_response(300, "{}".into()).is_err());
    assert!(parse_response(199, "{}".into()).is_err());
}

#[test]
fn parse_response_numbers_keep_unsigned_values() {
    let result = parse_response(200, r#"{"flock_size": 4, "ratio": 3.5, "delta": -1}"#.into())
        .unwrap();
    assert_eq!(result.get_field("flock_size"), Some(&Jv::UInt(4)));
    assert_eq!(result.get_field("ratio"), Some(&Jv::NumOther));
    assert_eq!(result.get_field("delta"), Some(&Jv::NumOther));
}

#[test]
fn create_token_request_omits_none_fields() {
    let req = create_token_request("u", "tok", None, None);
    let body = req.body.unwrap();
    assert_eq!(body, Jv::Obj(vec![(s("name"), Jv::Str(s("tok")))]));
}

#[test]
fn create_token_request_includes_all_fields() {
    let req = create_token_request("u", "tok", Some(3600), Some("read_write"));
    let body = req.body.unwrap();
    assert_eq!(
        body,
        Jv::Obj(vec![
            (s("name"), Jv::Str(s("tok"))),
            (s("ttl"), Jv::UInt(3600)),
            (s("token_type"), Jv::Str(s("read_write"))),
        ])
    );
    assert_eq!(req.method, Method::Post);
    assert_eq!(req.path, "/v1/users/u/tokens");
}

#[test]
fn request_paths_encode_identifiers() {
    assert_eq!(create_user_request("a b").path, "/v1/users");
    assert_eq!(delete_user_request("a b").path, "/v1/users/a%20b");
    assert_eq!(list_tokens_request("a/b").path, "/v1/users/a%2Fb/tokens");
    assert_eq!(
        delete_token_request("u", "t?1").path,
        "/v1/users/u/tokens/t%3F1"
    );
    assert_eq!(get_duckling_config_request("u").path, "/v1/users/u/instances");
    assert_eq!(list_active_accounts_request().path, "/v1/active_accounts");
}

#[test]
fn request_methods_and_bodies() {
    let r = create_user_request("svc_test");
    assert_eq!(r.method, Method::Post);
    assert_eq!(
        r.body.unwrap(),
        Jv::Obj(vec![(s("username"), Jv::Str(s("svc_test")))])
    );

    assert_eq!(delete_user_request("u").method, Method::Delete);
    assert!(delete_user_request("u").body.is_none());
    assert_eq!(list_tokens_request("u").method, Method::Get);
    assert!(list_tokens_request("u").body.is_none());
    assert_eq!(delete_token_request("u", "t").method, Method::Delete);
    assert_eq!(get_duckling_config_request("u").method, Method::Get);
    assert_eq!(list_active_accounts_request().method, Method::Get);
}

#[test]
fn set_duckling_config_request_builds_full_body() {
    let req = set_duckling_config_request("u", "jumbo", "standard", 4);
    assert_eq!(req.method, Method::Put);
    assert_eq!(req.path, "/v1/users/u/instances");
    let expected = Jv::Obj(vec![(
        s("config"),
        Jv::Obj(vec![
            (
                s("read_write"),
                Jv::Obj(vec![(s("instance_size"), Jv::Str(s("jumbo")))]),
            ),
            (
                s("read_scaling"),
                Jv::Obj(vec![
                    (s("instance_size"), Jv::Str(s("standard"))),
                    (s("flock_size"), Jv::UInt(4)),
                ]),
            ),
        ]),
    )]);
    assert_eq!(req.body.unwrap(), expected);
}

#[test]
fn full_url_appends_path() {
    assert_eq!(full_url("/v1/users"), "https://api.motherduck.com/v1/users");
}

#[test]
fn bearer_value_formats_header() {
    assert_eq!(
        dkdc_md_cli::client::bearer_value("tok").as_deref(),
        Some("Bearer tok")
    );
    assert_eq!(dkdc_md_cli::client::bearer_value(""), None);
}
