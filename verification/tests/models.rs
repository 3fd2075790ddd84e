use skb_cli::models::EmptyBody;
use skb_cli::models::InfoServer;
use skb_cli::models::PostFileBody;
use skb_cli::models::ServerTrust;
use skb_cli::models::percent_of;

fn server_with_flags(is_verified: bool, is_confirmed: bool) -> InfoServer {
    InfoServer {
        hostname: "host".to_string(),
        old_hostnames: vec![],
        owner: "owner".to_string(),
        block_size: 512,
        free_blocks: 10,
        used_blocks: 2,
        healthcheck_percent: 10,
        healthcheck_interval: 60,
        is_verified,
        is_confirmed,
        healthy: true,
    }
}

#[test]
fn test_empty_body_json() {
    let data = EmptyBody {
        nonce: "this-is-a-nonce".to_string(),
    };

    let info = data.to_json();
    assert_eq!(r#"{"nonce":"this-is-a-nonce"}"#, info);
}

#[test]
fn test_file_post_response_json() {
    let data = PostFileBody {
        path: "/path".to_string(),
        nonce: "this-is-a-nonce".to_string(),
    };

    let info = data.to_json();
    assert_eq!(r#"{"path":"/path","nonce":"this-is-a-nonce"}"#, info);
}

#[test]
fn body_json_escapes_like_a_json_parser_expects() {
    let data = PostFileBody {
        path: "a\"b\\c\nd\te\u{1}".to_string(),
        nonce: "n".to_string(),
    };
    let text = data.to_json();
    assert_eq!(text, "{\"path\":\"a\\\"b\\\\c\\nd\\te\\u0001\",\"nonce\":\"n\"}");
    // a real JSON parser recovers the original path from the escapes
    let value: serde_json::Value = serde_json::from_str(&text).unwrap();
    assert_eq!(value["path"].as_str().unwrap(), "a\"b\\c\nd\te\u{1}");
    assert_eq!(value["nonce"].as_str().unwrap(), "n");
}

#[test]
fn body_json_keeps_non_ascii_unescaped() {
    let data = PostFileBody {
        path: "/tmp/ünïcødé".to_string(),
        nonce: "n".to_string(),
    };
    let text = data.to_json();
    assert_eq!(text, "{\"path\":\"/tmp/ünïcødé\",\"nonce\":\"n\"}");
    let value: serde_json::Value = serde_json::from_str(&text).unwrap();
    assert_eq!(value["path"].as_str().unwrap(), "/tmp/ünïcødé");
}

#[test]
fn body_json_of_empty_values() {
    let empty_nonce = EmptyBody { nonce: String::new() };
    assert_eq!(empty_nonce.to_json(), r#"{"nonce":""}"#);
    let empty_both = PostFileBody { path: String::new(), nonce: String::new() };
    assert_eq!(empty_both.to_json(), r#"{"path":"","nonce":""}"#);
}

#[test]
fn server_trust_classification() {
    assert_eq!(server_with_flags(true, true).trust(), ServerTrust::Confirmed);
    assert_eq!(server_with_flags(true, false).trust(), ServerTrust::WaitingForRemote);
    assert_eq!(server_with_flags(false, true).trust(), ServerTrust::WaitingForConfirmation);
    assert_eq!(server_with_flags(false, false).trust(), ServerTrust::Illegal);
}

#[test]
fn percent_of_exact_values() {
    assert_eq!(percent_of(50, 200), 25);
    assert_eq!(percent_of(1, 3), 33);
    assert_eq!(percent_of(200, 200), 100);
    assert_eq!(percent_of(0, 7), 0);
    assert_eq!(percent_of(u64::MAX, u64::MAX), 100);
}
