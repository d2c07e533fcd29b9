use http_reactor::headers::Headers;

#[test]
fn new_mapping_is_empty() {
    let headers = Headers::new();
    assert_eq!(0, headers.len());
    assert!(headers.get("HOST").is_none());
}

#[test]
fn values_of_one_name_stay_in_the_order_of_arrival() {
    let mut headers = Headers::new();
    headers.append(String::from("ACCEPT"), String::from("text/html"));
    headers.append(String::from("HOST"), String::from("example.org"));
    headers.append(String::from("ACCEPT"), String::from("text/plain"));
    headers.append(String::from("ACCEPT"), String::from("text/html"));
    assert_eq!(2, headers.len());
    assert_eq!(*headers.get("ACCEPT").unwrap(), vec!["text/html", "text/plain", "text/html"]);
    assert_eq!(*headers.get("HOST").unwrap(), vec!["example.org"]);
    assert!(headers.get("Accept").is_none());
    assert!(headers.get("").is_none());
}

#[test]
fn empty_name_is_a_name() {
    let mut headers = Headers::new();
    headers.append(String::new(), String::from("v"));
    assert_eq!(1, headers.len());
    assert_eq!(*headers.get("").unwrap(), vec!["v"]);
}
