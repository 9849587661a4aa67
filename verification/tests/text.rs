use horizon_core::codec::{encode_request, escape_json, shutdown_request_line};
use horizon_core::ollama::http_status_ok;
use horizon_core::text::{
    i64_to_string, remove_char, split_lines, str_contains, str_eq, str_starts_with,
    u64_to_string,
};
use horizon_core::windows::{chat_window_id, chat_window_title, is_chat_window_label};

#[test]
fn decimal_rendering_is_exact() {
    assert_eq!(u64_to_string(0), "0");
    assert_eq!(u64_to_string(7), "7");
    assert_eq!(u64_to_string(12345), "12345");
    assert_eq!(u64_to_string(u64::MAX), "18446744073709551615");
    assert_eq!(i64_to_string(0), "0");
    assert_eq!(i64_to_string(-1), "-1");
    assert_eq!(i64_to_string(-987), "-987");
    assert_eq!(i64_to_string(i64::MIN), "-9223372036854775808");
}

#[test]
fn substring_search_agrees_with_std() {
    assert!(str_contains("HORIZON-LIFE-KEY", "LIFE"));
    assert!(!str_contains("HORIZON-KEY", "LIFE"));
    assert!(str_contains("anything", ""));
    assert!(!str_contains("", "x"));
    assert!(str_contains("aab", "ab"));
}

#[test]
fn string_helpers() {
    assert!(str_eq("abc", "abc"));
    assert!(!str_eq("abc", "abd"));
    assert!(!str_eq("abc", "abcd"));
    assert!(str_starts_with("chat_42", "chat_"));
    assert!(!str_starts_with("chit_42", "chat_"));
    assert_eq!(remove_char("ab-cd-ef", '-'), "abcdef");
    assert_eq!(remove_char("---", '-'), "");
}

#[test]
fn line_splitting_matches_the_reader() {
    let lines = split_lines("a\r\nb\nc");
    assert_eq!(lines, vec!["a", "b", "c"]);
    assert_eq!(split_lines("a\n"), vec!["a"]);
    assert_eq!(split_lines("\n"), vec![""]);
    assert!(split_lines("").is_empty());
    // a bare carriage return without a newline stays in its line
    assert_eq!(split_lines("a\rb"), vec!["a\rb"]);
    assert_eq!(split_lines("tail\r"), vec!["tail\r"]);
}

#[test]
fn escaping_agrees_with_a_real_parser() {
    let escaped = escape_json("say \"hi\"\\\n\tdone");
    let mut quoted = String::from('"');
    quoted.push_str(&escaped);
    quoted.push('"');
    let parsed: serde_json::Value = serde_json::from_str(&quoted).unwrap();
    assert_eq!(parsed, serde_json::Value::String("say \"hi\"\\\n\tdone".to_string()));
}

#[test]
fn framed_request_has_the_wire_shape() {
    let line = encode_request("id-9", "ping", "{\"n\":1}");
    assert_eq!(line, "{\"id\":\"id-9\",\"cmd\":\"ping\",\"payload\":{\"n\":1}}");
    assert_eq!(
        shutdown_request_line(),
        "{\"id\":\"shutdown\",\"cmd\":\"shutdown\",\"payload\":{}}"
    );
}

#[test]
fn chat_window_helpers() {
    assert_eq!(chat_window_id("ab-cd-ef"), "chat_abcdef");
    assert!(is_chat_window_label("chat_abcdef"));
    assert!(!is_chat_window_label("main"));
    let model = "llama3".to_string();
    assert_eq!(chat_window_title(Some(&model)), "Chat - llama3");
    assert_eq!(chat_window_title(None), "Nouveau Chat");
}

#[test]
fn status_probe_reading() {
    assert!(http_status_ok("200"));
    assert!(http_status_ok(" 200\n"));
    assert!(!http_status_ok("404"));
    assert!(!http_status_ok(""));
}
