use almarjaa::modules::builtins::{regex_find, regex_match, regex_replace};

fn texts(list: &[&str]) -> Vec<String> {
    list.iter().map(|s| s.to_string()).collect()
}

#[test]
fn regex_match_finds_pattern() {
    assert_eq!(regex_match(&texts(&["caaat", "a+"])), Ok(true));
    assert_eq!(regex_match(&texts(&["ct", "a+"])), Ok(false));
    assert_eq!(regex_match(&texts(&["ct"])), Err("طابق يتطلب نصين: النص والنمط".to_string()));
}

#[test]
fn regex_invalid_pattern_is_refused() {
    let r = regex_match(&texts(&["x", "("]));
    assert!(matches!(r, Err(m) if m.starts_with("نمط غير صالح: ")));
}

#[test]
fn regex_find_and_replace() {
    assert_eq!(regex_find(&texts(&["caaat", "a+"])), Ok(Some("aaa".to_string())));
    assert_eq!(regex_find(&texts(&["ct", "a+"])), Ok(None));
    assert_eq!(regex_replace(&texts(&["caaat baa", "a+", "o"])), Ok("cot bo".to_string()));
    assert_eq!(
        regex_replace(&texts(&["a", "b"])),
        Err("استبدل يتطلب ثلاثة معاملات: النص والنمط والبديل".to_string())
    );
}

#[test]
fn json_validity() {
    assert!(almarjaa::modules::builtins::json_is_valid("{\"name\":\"test\"}"));
    assert!(almarjaa::modules::builtins::json_is_valid("[1, 2]"));
    assert!(!almarjaa::modules::builtins::json_is_valid("{name}"));
    assert!(!almarjaa::modules::builtins::json_is_valid(""));
}
