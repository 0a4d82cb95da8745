use kui::prefs::{height_of, prefs_to_json, title_of, width_of, SubwindowPrefs};
use kui::prefs::{DEFAULT_HEIGHT, DEFAULT_WIDTH};
use kui::url::{assemble_url, launch_url, query_parameter, serialized_or_empty};

fn no_prefs() -> SubwindowPrefs {
    SubwindowPrefs {
        title: None,
        width: None,
        height: None,
        fullscreen: None,
        initial_tab_title: None,
        quiet_exec_command: None,
    }
}

#[test]
fn url_without_inputs_has_no_query() {
    let url = launch_url(&None, &None);
    assert_eq!(url, "index.html");
    assert!(!url.contains('?'));
}

#[test]
fn url_with_shell_argv() {
    let url = launch_url(&Some(vec!["shell".to_string()]), &None);
    assert_eq!(url, "index.html?executeThisArgvPlease=%5B%22shell%22%5D");
    let value = url.strip_prefix("index.html?executeThisArgvPlease=").unwrap();
    assert_eq!(urlencoding::decode(value).unwrap(), "[\"shell\"]");
}

#[test]
fn url_with_empty_argv() {
    let url = launch_url(&Some(Vec::new()), &None);
    assert_eq!(url, "index.html?executeThisArgvPlease=%5B%5D");
}

#[test]
fn url_with_empty_prefs_still_marks_a_subwindow() {
    let url = launch_url(&None, &Some(no_prefs()));
    assert_eq!(url, "index.html?subwindow=%7B%7D");
}

#[test]
fn url_with_both_inputs() {
    let prefs = SubwindowPrefs { title: Some("Logs".to_string()), width: Some(800), ..no_prefs() };
    let argv = vec!["kubectl".to_string(), "get pods".to_string()];
    let url = launch_url(&Some(argv), &Some(prefs));
    assert_eq!(
        url,
        "index.html?executeThisArgvPlease=%5B%22kubectl%22%2C%22get%20pods%22%5D\
&subwindow=%7B%22title%22%3A%22Logs%22%2C%22width%22%3A800%7D"
    );
    let query = url.strip_prefix("index.html?").unwrap();
    let parts: Vec<&str> = query.split('&').collect();
    assert_eq!(parts.len(), 2);
    let argv_json = urlencoding::decode(parts[0].strip_prefix("executeThisArgvPlease=").unwrap())
        .unwrap()
        .into_owned();
    let parsed: Vec<String> = serde_json::from_str(&argv_json).unwrap();
    assert_eq!(parsed, vec!["kubectl".to_string(), "get pods".to_string()]);
    let prefs_json =
        urlencoding::decode(parts[1].strip_prefix("subwindow=").unwrap()).unwrap().into_owned();
    let object: serde_json::Value = serde_json::from_str(&prefs_json).unwrap();
    assert_eq!(object.get("title").and_then(|v| v.as_str()), Some("Logs"));
    assert_eq!(object.get("width").and_then(|v| v.as_u64()), Some(800));
    assert!(object.get("height").is_none());
}

#[test]
fn query_parameter_encodes_all_but_unreserved_bytes() {
    assert_eq!(query_parameter("k", "AZaz09-._~"), "k=AZaz09-._~");
    assert_eq!(query_parameter("k", " &=?/%+"), "k=%20%26%3D%3F%2F%25%2B");
    assert_eq!(query_parameter("k", "\u{e9}"), "k=%C3%A9");
    assert_eq!(query_parameter("k", "\u{1F600}"), "k=%F0%9F%98%80");
    assert_eq!(query_parameter("k", "\n\u{7f}"), "k=%0A%7F");
    assert_eq!(query_parameter("subwindow", ""), "subwindow=");
}

#[test]
fn assemble_url_joins_parameters() {
    assert_eq!(assemble_url(&Vec::new()), "index.html");
    assert_eq!(assemble_url(&vec!["a=1".to_string()]), "index.html?a=1");
    assert_eq!(assemble_url(&vec!["a=1".to_string(), "b=2".to_string()]), "index.html?a=1&b=2");
}

#[test]
fn failed_serialization_gives_the_empty_text() {
    let failure = serde_json::from_str::<serde_json::Value>("{").unwrap_err();
    assert_eq!(serialized_or_empty(Err(failure)), "");
    assert_eq!(serialized_or_empty(Ok("[]".to_string())), "[]");
}

#[test]
fn prefs_with_only_a_title_keep_default_size() {
    let prefs = Some(SubwindowPrefs { title: Some("My Window".to_string()), ..no_prefs() });
    assert_eq!(title_of(&prefs), "My Window");
    assert_eq!(width_of(&prefs), 1280);
    assert_eq!(height_of(&prefs), 960);
}

#[test]
fn absent_prefs_resolve_to_defaults() {
    assert_eq!(title_of(&None), "Kui");
    assert_eq!(width_of(&None), DEFAULT_WIDTH);
    assert_eq!(height_of(&None), DEFAULT_HEIGHT);
    assert_eq!(DEFAULT_WIDTH, 1280);
    assert_eq!(DEFAULT_HEIGHT, 960);
    let empty = Some(no_prefs());
    assert_eq!(title_of(&empty), "Kui");
    assert_eq!(width_of(&empty), 1280);
    assert_eq!(height_of(&empty), 960);
}

#[test]
fn prefs_size_overrides_defaults() {
    let prefs = Some(SubwindowPrefs { width: Some(640), height: Some(0), ..no_prefs() });
    assert_eq!(width_of(&prefs), 640);
    assert_eq!(height_of(&prefs), 0);
    assert_eq!(title_of(&prefs), "Kui");
}

#[test]
fn prefs_json_holds_the_fields_that_are_set() {
    assert_eq!(prefs_to_json(&no_prefs()), "{}");
    let all = SubwindowPrefs {
        title: Some("T".to_string()),
        width: Some(800),
        height: Some(600),
        fullscreen: Some(true),
        initial_tab_title: Some("Tab".to_string()),
        quiet_exec_command: Some(false),
    };
    assert_eq!(
        prefs_to_json(&all),
        "{\"title\":\"T\",\"width\":800,\"height\":600,\"fullscreen\":true,\
\"initial_tab_title\":\"Tab\",\"quiet_exec_command\":false}"
    );
    let some = SubwindowPrefs { height: Some(4294967295), quiet_exec_command: Some(true), ..no_prefs() };
    assert_eq!(prefs_to_json(&some), "{\"height\":4294967295,\"quiet_exec_command\":true}");
}

#[test]
fn prefs_json_escapes_texts() {
    let prefs = SubwindowPrefs {
        title: Some("a\"b\\c\nd\u{e9}".to_string()),
        initial_tab_title: Some("".to_string()),
        ..no_prefs()
    };
    let json = prefs_to_json(&prefs);
    assert_eq!(json, "{\"title\":\"a\\\"b\\\\c\\nd\u{e9}\",\"initial_tab_title\":\"\"}");
    let object: serde_json::Value = serde_json::from_str(&json).unwrap();
    assert_eq!(object.get("title").and_then(|v| v.as_str()), Some("a\"b\\c\nd\u{e9}"));
    assert_eq!(object.get("initial_tab_title").and_then(|v| v.as_str()), Some(""));
}
