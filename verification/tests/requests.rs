use consul_kv::reply::key_value;
use consul_kv::text::trim_trailing_slashes;
use consul_kv::{Keystore, Request};

fn store() -> Keystore {
    Keystore::new("http://localhost:8500")
}

fn get(url: &str) -> Request {
    Request::Get { url: url.to_string() }
}

fn put(url: &str, body: &str) -> Request {
    Request::Put {
        url: url.to_string(),
        body: body.to_string(),
        content_type: "application/json".to_string(),
    }
}

#[test]
fn new_appends_the_kv_interface() {
    let request = Keystore::new("http://10.0.0.1:8500").get_key("k".to_string());
    assert_eq!(request, get("http://10.0.0.1:8500/v1/kv/k"));
}

#[test]
fn new_takes_the_address_as_it_is() {
    let request = Keystore::new("").get_key("k".to_string());
    assert_eq!(request, get("/v1/kv/k"));
    let request = Keystore::new("http://h/").get_key("k".to_string());
    assert_eq!(request, get("http://h//v1/kv/k"));
}

#[test]
fn set_key_puts_the_value() {
    let request = store().set_key("service/web".to_string(), "10.1.2.3".to_string());
    assert_eq!(request, put("http://localhost:8500/v1/kv/service/web", "10.1.2.3"));
}

#[test]
fn set_key_keeps_an_empty_value() {
    let request = store().set_key("k".to_string(), String::new());
    assert_eq!(request, put("http://localhost:8500/v1/kv/k", ""));
}

#[test]
fn acquire_lock_names_the_session() {
    let session = "adf4238a-882b-9ddc-4a9d-5b6758e4159e".to_string();
    let request = store().acquire_lock("leader".to_string(), "node-1".to_string(), &session);
    assert_eq!(
        request,
        put(
            "http://localhost:8500/v1/kv/leader?acquire=adf4238a-882b-9ddc-4a9d-5b6758e4159e",
            "node-1",
        )
    );
}

#[test]
fn release_lock_names_the_session() {
    let session = "adf4238a".to_string();
    let request = store().release_lock("leader".to_string(), "node-1", &session);
    assert_eq!(request, put("http://localhost:8500/v1/kv/leader?release=adf4238a", "node-1"));
}

#[test]
fn acquire_and_release_differ_in_the_query_only() {
    let session = "s".to_string();
    let acquire = store().acquire_lock("k".to_string(), "v".to_string(), &session);
    let release = store().release_lock("k".to_string(), "v", &session);
    assert_eq!(acquire.url(), "http://localhost:8500/v1/kv/k?acquire=s");
    assert_eq!(release.url(), "http://localhost:8500/v1/kv/k?release=s");
}

#[test]
fn get_key_reads_the_key() {
    assert_eq!(store().get_key("a/b".to_string()), get("http://localhost:8500/v1/kv/a/b"));
}

#[test]
fn get_kvpair_reads_the_key() {
    assert_eq!(store().get_kvpair("a/b".to_string()), get("http://localhost:8500/v1/kv/a/b"));
}

#[test]
fn list_strips_a_trailing_slash() {
    assert_eq!(store().list("web/".to_string()), get("http://localhost:8500/v1/kv/web?recurse"));
}

#[test]
fn list_strips_every_trailing_slash() {
    assert_eq!(store().list("web///".to_string()), get("http://localhost:8500/v1/kv/web?recurse"));
}

#[test]
fn list_keeps_inner_and_leading_slashes() {
    assert_eq!(
        store().list("/a//b/".to_string()),
        get("http://localhost:8500/v1/kv//a//b?recurse")
    );
}

#[test]
fn list_without_a_trailing_slash() {
    assert_eq!(store().list("web".to_string()), get("http://localhost:8500/v1/kv/web?recurse"));
}

#[test]
fn list_of_the_empty_prefix() {
    assert_eq!(store().list(String::new()), get("http://localhost:8500/v1/kv/?recurse"));
    assert_eq!(store().list("/".to_string()), get("http://localhost:8500/v1/kv/?recurse"));
    assert_eq!(store().list("//".to_string()), get("http://localhost:8500/v1/kv/?recurse"));
}

#[test]
fn list_of_a_key_beyond_ascii() {
    assert_eq!(
        store().list("ключ/é/".to_string()),
        get("http://localhost:8500/v1/kv/ключ/é?recurse")
    );
}

#[test]
fn delete_key_removes_the_key() {
    assert_eq!(
        store().delete_key("a/b".to_string()),
        Request::Delete { url: "http://localhost:8500/v1/kv/a/b".to_string() }
    );
}

#[test]
fn url_of_each_kind_of_request() {
    assert_eq!(get("g").url(), "g");
    assert_eq!(put("p", "body").url(), "p");
    assert_eq!(Request::Delete { url: "d".to_string() }.url(), "d");
}

#[test]
fn trim_trailing_slashes_on_plain_keys() {
    assert_eq!(trim_trailing_slashes("a/b/"), "a/b");
    assert_eq!(trim_trailing_slashes("a/b"), "a/b");
    assert_eq!(trim_trailing_slashes("a/b//"), "a/b");
    assert_eq!(trim_trailing_slashes("/"), "");
    assert_eq!(trim_trailing_slashes(""), "");
    assert_eq!(trim_trailing_slashes("/a"), "/a");
    assert_eq!(trim_trailing_slashes("a\\"), "a\\");
}

#[test]
fn trim_trailing_slashes_counts_characters() {
    assert_eq!(trim_trailing_slashes("日本語/"), "日本語");
    assert_eq!(trim_trailing_slashes("日本語"), "日本語");
    assert_eq!(trim_trailing_slashes("/日/"), "/日");
}

#[test]
fn a_stored_value_is_read_back_under_the_same_address() {
    let written = store().set_key("color".to_string(), "blue".to_string());
    let read = store().get_key("color".to_string());
    assert_eq!(written.url(), read.url());
    let body = match written {
        Request::Put { body, .. } => body,
        _ => panic!("set_key must put"),
    };
    let answer = format!("[{{\"Key\":\"color\",\"CreateIndex\":1,\"Value\":\"{}\"}}]", body);
    assert_eq!(key_value(Ok(answer)), Some(Ok(Some("blue".to_string()))));
}
