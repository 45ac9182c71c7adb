use gotenberg::build_url;

#[test]
fn url_gets_one_slash_when_base_has_none() {
    assert_eq!(build_url("http://localhost:3000".to_string(), "convert/html"), "http://localhost:3000/convert/html");
}

#[test]
fn url_keeps_the_slash_the_base_ends_in() {
    assert_eq!(build_url("http://localhost:3000/".to_string(), "convert/html"), "http://localhost:3000/convert/html");
}

#[test]
fn url_base_with_path_gets_a_slash() {
    assert_eq!(build_url("http://host/api".to_string(), "convert/html"), "http://host/api/convert/html");
}

#[test]
fn url_double_slash_is_not_collapsed() {
    assert_eq!(build_url("http://host//".to_string(), "x"), "http://host//x");
}

#[test]
fn url_of_empty_base() {
    assert_eq!(build_url(String::new(), "convert/html"), "/convert/html");
}

#[test]
fn url_non_ascii_base() {
    assert_eq!(build_url("http://hôst/é".to_string(), "p"), "http://hôst/é/p");
}
