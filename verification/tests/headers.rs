use async_fetch::Headers;

fn listing(headers: &Headers) -> Vec<(String, String)> {
    let mut out = Vec::new();
    for i in 0..headers.len() {
        let (name, value) = headers.entry(i);
        out.push((name.clone(), value.clone()));
    }
    out
}

fn pair(name: &str, value: &str) -> (String, String) {
    (name.to_string(), value.to_string())
}

#[test]
fn new_header_map_is_empty() {
    let headers = Headers::new();
    assert!(headers.is_empty());
    assert_eq!(headers.len(), 0);
    assert_eq!(headers.get("Host"), None);
    assert!(!headers.contains_key("Host"));
}

#[test]
fn headers_keep_insertion_order() {
    let mut headers = Headers::new();
    headers.insert("B".to_string(), "2".to_string());
    headers.insert("A".to_string(), "1".to_string());
    headers.insert("C".to_string(), "3".to_string());
    assert_eq!(listing(&headers), vec![pair("B", "2"), pair("A", "1"), pair("C", "3")]);
}

#[test]
fn last_write_of_a_header_wins_in_place() {
    let mut headers = Headers::new();
    headers.insert("A".to_string(), "1".to_string());
    headers.insert("B".to_string(), "2".to_string());
    headers.insert("A".to_string(), "3".to_string());
    assert_eq!(headers.len(), 2);
    assert_eq!(headers.get("A"), Some(&"3".to_string()));
    assert_eq!(headers.get("B"), Some(&"2".to_string()));
    assert_eq!(listing(&headers), vec![pair("A", "3"), pair("B", "2")]);
}

#[test]
fn header_names_are_matched_as_given() {
    let mut headers = Headers::new();
    headers.insert("Host".to_string(), "a".to_string());
    assert!(headers.contains_key("Host"));
    assert!(!headers.contains_key("host"));
    assert!(!headers.contains_key("HOST"));
    headers.insert("host".to_string(), "b".to_string());
    assert_eq!(headers.len(), 2);
    assert_eq!(headers.get("Host"), Some(&"a".to_string()));
    assert_eq!(headers.get("host"), Some(&"b".to_string()));
}

#[test]
fn removing_a_header_keeps_the_others_in_order() {
    let mut headers = Headers::new();
    headers.insert("A".to_string(), "1".to_string());
    headers.insert("B".to_string(), "2".to_string());
    headers.insert("C".to_string(), "3".to_string());
    headers.remove("B");
    assert_eq!(listing(&headers), vec![pair("A", "1"), pair("C", "3")]);
    headers.remove("B");
    assert_eq!(headers.len(), 2);
    headers.remove("A");
    headers.remove("C");
    assert!(headers.is_empty());
}

#[test]
fn clearing_removes_every_header() {
    let mut headers = Headers::new();
    headers.insert("A".to_string(), "1".to_string());
    headers.insert("B".to_string(), "2".to_string());
    headers.clear();
    assert!(headers.is_empty());
    assert_eq!(headers.get("A"), None);
    headers.insert("B".to_string(), "4".to_string());
    assert_eq!(listing(&headers), vec![pair("B", "4")]);
}
