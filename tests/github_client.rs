use github_client::{create_repo_response, GithubClient, GithubError};

fn created(body: &str) -> Result<String, GithubError> {
    create_repo_response(201, body.as_bytes())
}

#[test]
fn create_repo_success_test() {
    let github_client = GithubClient::new("TOKEN", "http://127.0.0.1:5000");

    let request = github_client.create_repo_request("myRepo");
    assert_eq!(request.url, "http://127.0.0.1:5000/user/repos");
    assert_eq!(request.authorization, "token TOKEN");
    assert_eq!(request.content_type, "application/json");

    let result = create_repo_response(201, br#"{"html_url":"http://example.com"}"#);
    assert_eq!(result.is_ok(), true);
    assert_eq!(result.unwrap(), "http://example.com");
}

#[test]
fn success_with_other_members_and_spacing() {
    let result = created("{ \"id\": 7, \"html_url\" : \"https://host/u/r\", \"private\": true }\n");
    assert_eq!(result.unwrap(), "https://host/u/r");
}

#[test]
fn status_200_is_unexpected() {
    let result = create_repo_response(200, br#"{"html_url":"http://example.com"}"#);
    assert!(matches!(result, Err(GithubError::UnexpectedResponseCodeError { code: 200 })));
}

#[test]
fn other_statuses_carry_their_code() {
    for code in [0u16, 200, 202, 204, 400, 401, 404, 422, 500, 65535] {
        match create_repo_response(code, b"not json") {
            Err(GithubError::UnexpectedResponseCodeError { code: got }) => assert_eq!(got, code),
            other => panic!("status {} gave {:?}", code, other),
        }
    }
}

#[test]
fn empty_object_misses_html_url() {
    let result = created("{}");
    assert!(matches!(result, Err(GithubError::MissingValueError { field: "html_url" })));
}

#[test]
fn non_string_html_url_is_missing() {
    for body in [r#"{"html_url": 5}"#, r#"{"html_url": null}"#, r#"{"html_url": ["x"]}"#, r#"["html_url"]"#, r#""html_url""#] {
        assert!(matches!(created(body), Err(GithubError::MissingValueError { field: "html_url" })), "{}", body);
    }
}

#[test]
fn nested_html_url_is_not_read() {
    let result = created(r#"{"repo": {"html_url": "http://example.com"}}"#);
    assert!(matches!(result, Err(GithubError::MissingValueError { field: "html_url" })));
}

#[test]
fn non_json_body_is_malformed() {
    assert!(matches!(created("not json"), Err(GithubError::ParserError { .. })));
    assert!(matches!(created(""), Err(GithubError::ParserError { .. })));
    assert!(matches!(created(r#"{"html_url": "http://example.com""#), Err(GithubError::ParserError { .. })));
    assert!(matches!(create_repo_response(201, &[0xff, 0xfe]), Err(GithubError::ParserError { .. })));
}

#[test]
fn body_is_not_read_unless_created() {
    assert!(matches!(create_repo_response(500, b"not json"), Err(GithubError::UnexpectedResponseCodeError { code: 500 })));
}

#[test]
fn request_body_for_plain_name() {
    let client = GithubClient::new("TOKEN", "https://api.example.com");
    let request = client.create_repo_request("myRepo");
    assert_eq!(request.body, r#"{"name":"myRepo","private":true}"#);
}

#[test]
fn request_body_escapes_name() {
    let client = GithubClient::new("TOKEN", "https://api.example.com");
    let name = "a \"quoted\" \\ name\n\u{1}é";
    let request = client.create_repo_request(name);
    assert_ne!(request.body, format!("{{\"name\":\"{}\",\"private\":true}}", name));
    let parsed: serde_json::Value = serde_json::from_str(&request.body).unwrap();
    let object = parsed.as_object().unwrap();
    assert_eq!(object.len(), 2);
    assert_eq!(object.get("name").and_then(serde_json::Value::as_str), Some(name));
    assert_eq!(object.get("private").and_then(serde_json::Value::as_bool), Some(true));
}

#[test]
fn request_body_for_empty_name() {
    let client = GithubClient::new("", "");
    let request = client.create_repo_request("");
    assert_eq!(request.body, r#"{"name":"","private":true}"#);
    assert_eq!(request.url, "/user/repos");
    assert_eq!(request.authorization, "token ");
}

#[test]
fn construction_stores_strings_verbatim() {
    let client = GithubClient::new("abc def", "https://api.example.com/");
    let request = client.create_repo_request("r");
    assert_eq!(request.url, "https://api.example.com//user/repos");
    assert_eq!(request.authorization, "token abc def");
}

#[test]
fn identical_clients_make_identical_calls() {
    let first = GithubClient::new("TOKEN", "http://localhost:1234");
    let second = GithubClient::new("TOKEN", "http://localhost:1234");
    let a = first.create_repo_request("myRepo");
    let b = second.create_repo_request("myRepo");
    assert_eq!((a.url, a.authorization, a.content_type, a.body), (b.url, b.authorization, b.content_type, b.body));
    let body = br#"{"html_url":"http://example.com"}"#;
    assert_eq!(create_repo_response(201, body).unwrap(), create_repo_response(201, body).unwrap());
    assert!(matches!(create_repo_response(201, b"{}"), Err(GithubError::MissingValueError { field: "html_url" })));
    assert!(matches!(create_repo_response(201, b"{}"), Err(GithubError::MissingValueError { field: "html_url" })));
}
