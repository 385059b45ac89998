use iris::http::{build_url, HttpRequestBuilder};
use reqwest::Method;
use iris::API_URL;

#[test]
fn url_of_a_path_with_a_slash() {
    assert_eq!(build_url("/gateway/bot"), "https://discord.com/api/v10/gateway/bot");
}

#[test]
fn url_of_a_path_without_a_slash() {
    assert_eq!(build_url("users/@me"), "https://discord.com/api/v10/users/@me");
    assert_eq!(build_url("gateway/bot"), build_url("/gateway/bot"));
    assert_eq!(build_url(""), API_URL);
    assert_eq!(build_url("/"), API_URL);
}

#[test]
fn builder_requires_token_by_default() {
    let client = reqwest::Client::new();
    let builder = HttpRequestBuilder::new(client.get("https://discord.com/api/v10/gateway"));
    assert_eq!(builder.authorization("abc"), Some("Bot abc".to_string()));
    let builder = builder.require_token(false);
    assert_eq!(builder.authorization("abc"), None);
    let builder = builder.require_token(true);
    assert_eq!(builder.authorization("abc"), Some("Bot abc".to_string()));
}

#[test]
fn built_request_carries_the_token() {
    let client = reqwest::Client::new();
    let builder = HttpRequestBuilder::new(client.get("https://discord.com/api/v10/gateway"));
    let request = builder.build("my-token").unwrap();
    assert_eq!(request.headers().get("authorization").unwrap(), "Bot my-token");
    assert_eq!(request.url().as_str(), "https://discord.com/api/v10/gateway");
}

#[test]
fn request_without_token_has_no_authorization() {
    let client = reqwest::Client::new();
    let builder =
        HttpRequestBuilder::new(client.get("https://discord.com/api/v10/gateway")).require_token(false);
    let request = builder.build("my-token").unwrap();
    assert!(request.headers().get("authorization").is_none());
}

#[test]
fn invalid_token_fails_to_build() {
    let client = reqwest::Client::new();
    let builder = HttpRequestBuilder::new(client.get("https://discord.com/api/v10/gateway"));
    assert!(builder.build("bad\ntoken").is_err());
}

#[test]
fn request_keeps_its_method_and_other_headers() {
    let client = reqwest::Client::new();
    let rb = client.post("https://discord.com/api/v10/channels").header("x-audit-log-reason", "why");
    let request = HttpRequestBuilder::new(rb).build("t").unwrap();
    assert_eq!(request.method(), reqwest::Method::POST);
    assert_eq!(request.headers().get("x-audit-log-reason").unwrap(), "why");
    assert_eq!(request.headers().get("authorization").unwrap(), "Bot t");
}

#[test]
fn api_request_targets_the_route_with_the_token() {
    let client = reqwest::Client::new();
    let builder = HttpRequestBuilder::api_request(&client, Method::GET, "/gateway/bot");
    let request = builder.build("t0k").unwrap();
    assert_eq!(request.method(), Method::GET);
    assert_eq!(request.url().as_str(), "https://discord.com/api/v10/gateway/bot");
    assert_eq!(request.headers().get("authorization").unwrap(), "Bot t0k");
    assert_eq!(request.headers().len(), 1);
}
